use ucam_enroll::api::PreadviceCourse;
use ucam_enroll::orchestrator::cycle_step;
use ucam_enroll::orchestrator::plan_cycle;
use ucam_enroll::orchestrator::preferences_for;
use ucam_enroll::orchestrator::restart_needed;
use ucam_enroll::orchestrator::CycleEvent;
use ucam_enroll::orchestrator::CycleOutcome;
use ucam_enroll::orchestrator::CycleState;
use ucam_enroll::orchestrator::PreferenceEntry;
use ucam_enroll::orchestrator::PreferenceList;
use ucam_enroll::task::TaskResult;

fn course(code: &str) -> PreadviceCourse {
    PreadviceCourse {
        running_session: "Session".to_string(),
        course_code: code.to_string(),
        course_name: format!("Course {code}"),
        formal_code: code.to_string(),
        ucam_ref: 1,
        credits: 3,
        last_synced_at: 0,
        created_at: 0,
        updated_at: 0,
    }
}

fn prefs(pairs: &[(&str, &[&str])]) -> PreferenceList {
    PreferenceList {
        entries: pairs
            .iter()
            .map(|(code, sections)| PreferenceEntry {
                course_code: code.to_string(),
                sections: sections.iter().map(|s| s.to_string()).collect(),
            })
            .collect(),
    }
}

#[test]
fn absent_course_spawns_no_task() {
    let list = prefs(&[("CSE101", &["B"])]);
    let courses = vec![course("CSE202")];
    let plan = plan_cycle(&courses, &list);
    assert!(plan.is_empty());
}

#[test]
fn empty_entry_spawns_no_task() {
    let list = prefs(&[("CSE101", &[])]);
    let courses = vec![course("CSE101")];
    let plan = plan_cycle(&courses, &list);
    assert!(plan.is_empty());
}

#[test]
fn plan_keeps_course_order_and_skips_unlisted() {
    let list = prefs(&[("CSE101", &["B"]), ("CSE303", &["K", "B"])]);
    let courses = vec![course("CSE303"), course("CSE202"), course("CSE101")];
    let plan = plan_cycle(&courses, &list);
    assert_eq!(plan.len(), 2);
    assert_eq!(plan[0].course_code, "CSE303");
    assert_eq!(plan[0].preferences, vec!["K".to_string(), "B".to_string()]);
    assert_eq!(plan[1].course_code, "CSE101");
    assert_eq!(plan[1].preferences, vec!["B".to_string()]);
}

#[test]
fn preferences_for_finds_only_nonempty_entries() {
    let list = prefs(&[("CSE101", &["B"]), ("CSE202", &[])]);
    let found = preferences_for(&list, &"CSE101".to_string());
    assert_eq!(found, Some(&vec!["B".to_string()]));
    assert_eq!(preferences_for(&list, &"CSE202".to_string()), None);
    assert_eq!(preferences_for(&list, &"CSE999".to_string()), None);
}

#[test]
fn restart_only_on_invalid_token() {
    let quiet = vec![
        TaskResult::Success,
        TaskResult::Failure {
            error: "seat taken".to_string(),
        },
    ];
    assert!(!restart_needed(&quiet));
    let expired = vec![
        TaskResult::Success,
        TaskResult::Failure {
            error: "request failed: Invalid Token supplied".to_string(),
        },
    ];
    assert!(restart_needed(&expired));
}

#[test]
fn restart_check_ignores_ascii_case() {
    let results = vec![TaskResult::Failure {
        error: "INVALID TOKEN".to_string(),
    }];
    assert!(restart_needed(&results));
}

#[test]
fn login_success_fetches_courses() {
    let list = prefs(&[]);
    let next = cycle_step(CycleState::LoggingIn, CycleEvent::LoginSucceeded, &list);
    assert!(matches!(next, CycleState::FetchingCourses));
}

#[test]
fn login_rejection_is_fatal() {
    let list = prefs(&[]);
    let next = cycle_step(
        CycleState::LoggingIn,
        CycleEvent::LoginRejected {
            error: "bad credentials".to_string(),
        },
        &list,
    );
    match next {
        CycleState::Finished {
            outcome: CycleOutcome::LoginFailed { error },
        } => assert_eq!(error, "bad credentials"),
        other => panic!("expected Finished(LoginFailed), got {:?}", other),
    }
}

#[test]
fn fetched_courses_become_running_tasks() {
    let list = prefs(&[("CSE101", &["B"])]);
    let next = cycle_step(
        CycleState::FetchingCourses,
        CycleEvent::CoursesFetched {
            courses: vec![course("CSE101"), course("CSE202")],
        },
        &list,
    );
    match next {
        CycleState::RunningTasks { tasks } => {
            assert_eq!(tasks.len(), 1);
            assert_eq!(tasks[0].course_code, "CSE101");
        }
        other => panic!("expected RunningTasks, got {:?}", other),
    }
}

#[test]
fn invalid_token_failure_restarts_the_cycle() {
    let list = prefs(&[("CSE101", &["B"])]);
    let running = CycleState::RunningTasks { tasks: Vec::new() };
    let next = cycle_step(
        running,
        CycleEvent::TasksJoined {
            results: vec![
                TaskResult::Success,
                TaskResult::Failure {
                    error: "fetch failed: invalid token".to_string(),
                },
            ],
        },
        &list,
    );
    assert!(matches!(next, CycleState::LoggingIn));
}

#[test]
fn quiet_results_finish_the_cycle() {
    let list = prefs(&[("CSE101", &["B"])]);
    let running = CycleState::RunningTasks { tasks: Vec::new() };
    let next = cycle_step(
        running,
        CycleEvent::TasksJoined {
            results: vec![
                TaskResult::Success,
                TaskResult::Failure {
                    error: "seat taken".to_string(),
                },
            ],
        },
        &list,
    );
    assert!(matches!(
        next,
        CycleState::Finished {
            outcome: CycleOutcome::Completed
        }
    ));
}
