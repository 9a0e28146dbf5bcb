use ucam_enroll::api::CourseSection;
use ucam_enroll::api::CourseSections;
use ucam_enroll::task::action_for;
use ucam_enroll::task::task_step;
use ucam_enroll::task::TaskAction;
use ucam_enroll::task::TaskEvent;
use ucam_enroll::task::TaskResult;
use ucam_enroll::task::TaskState;

fn section(id: u64, name: &str, taken: usize, total: usize, enrolled: bool) -> CourseSection {
    CourseSection {
        section_id: id,
        section_name: name.to_string(),
        total_seats: total,
        seats_taken: taken,
        is_enrolled: enrolled,
        faculty_name: String::new(),
        faculty_email: String::new(),
    }
}

fn snapshot_of(sections: Vec<CourseSection>) -> CourseSections {
    CourseSections {
        course_code: "1372-1-1".to_string(),
        course_name: "Course".to_string(),
        sections,
        selection_open: true,
        running_session: "Session".to_string(),
        credits: 3,
        section_selection_start_time: 0,
        section_selection_end_time: 0,
    }
}

#[test]
fn empty_snapshot_waits_briefly() {
    let prefs = vec!["B".to_string()];
    let event = TaskEvent::SnapshotReceived {
        snapshot: snapshot_of(Vec::new()),
    };
    let next = task_step(TaskState::Polling, event, &prefs);
    assert!(matches!(next, TaskState::Waiting { seconds: 1 }));
}

#[test]
fn chosen_section_moves_to_submitting() {
    let prefs = vec!["B".to_string()];
    let event = TaskEvent::SnapshotReceived {
        snapshot: snapshot_of(vec![section(2, "Sec-B", 10, 30, false)]),
    };
    let next = task_step(TaskState::Polling, event, &prefs);
    assert!(matches!(next, TaskState::Submitting { section_id: 2 }));
}

#[test]
fn enrolled_course_is_done_without_submitting() {
    let prefs = vec!["B".to_string()];
    let event = TaskEvent::SnapshotReceived {
        snapshot: snapshot_of(vec![section(2, "Sec-B", 30, 30, true)]),
    };
    let next = task_step(TaskState::Polling, event, &prefs);
    assert!(matches!(
        next,
        TaskState::Done {
            result: TaskResult::Success
        }
    ));
}

#[test]
fn no_acceptable_section_waits_long() {
    let prefs = vec!["B".to_string()];
    let event = TaskEvent::SnapshotReceived {
        snapshot: snapshot_of(vec![section(1, "Sec-B", 30, 30, false)]),
    };
    let next = task_step(TaskState::Polling, event, &prefs);
    assert!(matches!(next, TaskState::Waiting { seconds: 10 }));
}

#[test]
fn fetch_failure_ends_the_task() {
    let prefs = vec!["B".to_string()];
    let event = TaskEvent::FetchFailed {
        error: "invalid token".to_string(),
    };
    let next = task_step(TaskState::Polling, event, &prefs);
    match next {
        TaskState::Done {
            result: TaskResult::Failure { error },
        } => assert_eq!(error, "invalid token"),
        other => panic!("expected Done(Failure), got {:?}", other),
    }
}

#[test]
fn wait_finishes_into_polling() {
    let prefs = vec!["B".to_string()];
    let next = task_step(
        TaskState::Waiting { seconds: 10 },
        TaskEvent::WaitFinished,
        &prefs,
    );
    assert!(matches!(next, TaskState::Polling));
}

#[test]
fn accepted_submission_succeeds_and_terminates() {
    let prefs = vec!["B".to_string()];
    let next = task_step(
        TaskState::Submitting { section_id: 2 },
        TaskEvent::SubmitAccepted,
        &prefs,
    );
    assert!(matches!(
        next,
        TaskState::Done {
            result: TaskResult::Success
        }
    ));
}

#[test]
fn rejected_submission_fails_and_terminates() {
    let prefs = vec!["B".to_string()];
    let next = task_step(
        TaskState::Submitting { section_id: 2 },
        TaskEvent::SubmitRejected {
            error: "seat taken".to_string(),
        },
        &prefs,
    );
    match next {
        TaskState::Done {
            result: TaskResult::Failure { error },
        } => assert_eq!(error, "seat taken"),
        other => panic!("expected Done(Failure), got {:?}", other),
    }
}

#[test]
fn done_is_terminal_whatever_arrives() {
    let prefs = vec!["B".to_string()];
    let done = TaskState::Done {
        result: TaskResult::Success,
    };
    let next = task_step(done, TaskEvent::WaitFinished, &prefs);
    assert!(matches!(
        next,
        TaskState::Done {
            result: TaskResult::Success
        }
    ));
    assert!(matches!(action_for(&next), TaskAction::Stop));
}

#[test]
fn each_state_asks_for_its_action() {
    assert!(matches!(action_for(&TaskState::Polling), TaskAction::Fetch));
    assert!(matches!(
        action_for(&TaskState::Waiting { seconds: 10 }),
        TaskAction::Wait { seconds: 10 }
    ));
    assert!(matches!(
        action_for(&TaskState::Submitting { section_id: 5 }),
        TaskAction::Submit { section_id: 5 }
    ));
}
