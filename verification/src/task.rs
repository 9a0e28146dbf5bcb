//! The per-course enrollment task, as a state machine.
//!
//! One task runs per course. It polls the course's snapshot, decides with
//! the selector, and either submits once and terminates, or waits and polls
//! again. The unverified runner performs the action each state asks for
//! (fetch, wait, submit) and hands the outcome back as an event; `task_step`
//! is the whole decision.

use crate::api::CourseSections;
use crate::selector::select;
use crate::selector::selection_of;
use crate::selector::SelectionOutcome;
use vstd::prelude::*;

verus! {

/// How long a task waits when a fetch came back empty: the registration
/// window may not have opened yet.
pub const SHORT_WAIT_SECONDS: u64 = 1;

/// How long a task waits when no acceptable section is open.
pub const LONG_WAIT_SECONDS: u64 = 10;

/// The terminal outcome of one task.
#[derive(Debug, Clone)]
pub enum TaskResult {
    /// A selection was submitted and accepted, or the course was already
    /// enrolled.
    Success,
    /// The task failed; carries the service's error text.
    Failure { error: String },
}

/// Where a task stands.
#[derive(Debug, Clone)]
pub enum TaskState {
    /// A snapshot of the course is being fetched.
    Polling,
    /// The task sleeps this long, then polls again.
    Waiting { seconds: u64 },
    /// This section is being submitted.
    Submitting { section_id: u64 },
    /// The task is finished.
    Done { result: TaskResult },
}

/// What the outside world reports back to a task.
#[derive(Debug, Clone)]
pub enum TaskEvent {
    /// A fetch finished with this snapshot.
    SnapshotReceived { snapshot: CourseSections },
    /// A fetch failed outright; carries the error text.
    FetchFailed { error: String },
    /// The wait interval elapsed.
    WaitFinished,
    /// The service accepted the submitted selection.
    SubmitAccepted,
    /// The service rejected the submitted selection.
    SubmitRejected { error: String },
}

/// What a task in a given state asks the outside world to do.
#[derive(Debug, Clone)]
pub enum TaskAction {
    /// Fetch a fresh snapshot of the course.
    Fetch,
    /// Sleep this long.
    Wait { seconds: u64 },
    /// Submit this section.
    Submit { section_id: u64 },
    /// Nothing: the task is finished.
    Stop,
}

/// Where a polling task goes once a snapshot is in hand: an empty snapshot
/// means the window is not open yet (short wait); otherwise the selector
/// decides among done, submit and long wait.
pub open spec fn decision_state(snapshot: CourseSections, prefs: Seq<String>) -> TaskState {
    if snapshot.sections@.len() == 0 {
        TaskState::Waiting { seconds: SHORT_WAIT_SECONDS }
    } else {
        match selection_of(snapshot.sections@, prefs) {
            SelectionOutcome::AlreadyEnrolled => TaskState::Done { result: TaskResult::Success },
            SelectionOutcome::SectionChosen { section_id } => TaskState::Submitting { section_id },
            SelectionOutcome::NoAcceptableSection => TaskState::Waiting {
                seconds: LONG_WAIT_SECONDS,
            },
        }
    }
}

/// The whole transition relation of a task. An event that does not belong
/// to the current state leaves the task where it stands.
pub open spec fn next_state(s: TaskState, e: TaskEvent, prefs: Seq<String>) -> TaskState {
    match s {
        TaskState::Polling => match e {
            TaskEvent::SnapshotReceived { snapshot } => decision_state(snapshot, prefs),
            TaskEvent::FetchFailed { error } => TaskState::Done {
                result: TaskResult::Failure { error },
            },
            _ => s,
        },
        TaskState::Waiting { .. } => match e {
            TaskEvent::WaitFinished => TaskState::Polling,
            _ => s,
        },
        TaskState::Submitting { .. } => match e {
            TaskEvent::SubmitAccepted => TaskState::Done { result: TaskResult::Success },
            TaskEvent::SubmitRejected { error } => TaskState::Done {
                result: TaskResult::Failure { error },
            },
            _ => s,
        },
        TaskState::Done { .. } => s,
    }
}

/// The action each state asks for.
pub open spec fn action_of(s: TaskState) -> TaskAction {
    match s {
        TaskState::Polling => TaskAction::Fetch,
        TaskState::Waiting { seconds } => TaskAction::Wait { seconds },
        TaskState::Submitting { section_id } => TaskAction::Submit { section_id },
        TaskState::Done { .. } => TaskAction::Stop,
    }
}

/// Advances one task by one event.
pub fn task_step(state: TaskState, event: TaskEvent, preferences: &Vec<String>) -> (r: TaskState)
    ensures
        r == next_state(state, event, preferences@),
{
    match state {
        TaskState::Polling => match event {
            TaskEvent::SnapshotReceived { snapshot } => {
                if snapshot.sections.len() == 0 {
                    TaskState::Waiting { seconds: SHORT_WAIT_SECONDS }
                } else {
                    match select(&snapshot.sections, preferences) {
                        SelectionOutcome::AlreadyEnrolled => TaskState::Done {
                            result: TaskResult::Success,
                        },
                        SelectionOutcome::SectionChosen { section_id } => TaskState::Submitting {
                            section_id,
                        },
                        SelectionOutcome::NoAcceptableSection => TaskState::Waiting {
                            seconds: LONG_WAIT_SECONDS,
                        },
                    }
                }
            },
            TaskEvent::FetchFailed { error } => TaskState::Done {
                result: TaskResult::Failure { error },
            },
            _ => TaskState::Polling,
        },
        TaskState::Waiting { seconds } => match event {
            TaskEvent::WaitFinished => TaskState::Polling,
            _ => TaskState::Waiting { seconds },
        },
        TaskState::Submitting { section_id } => match event {
            TaskEvent::SubmitAccepted => TaskState::Done { result: TaskResult::Success },
            TaskEvent::SubmitRejected { error } => TaskState::Done {
                result: TaskResult::Failure { error },
            },
            _ => TaskState::Submitting { section_id },
        },
        TaskState::Done { result } => TaskState::Done { result },
    }
}

/// The action the runner must perform for a state.
pub fn action_for(state: &TaskState) -> (r: TaskAction)
    ensures
        r == action_of(*state),
{
    match state {
        TaskState::Polling => TaskAction::Fetch,
        TaskState::Waiting { seconds } => TaskAction::Wait { seconds: *seconds },
        TaskState::Submitting { section_id } => TaskAction::Submit { section_id: *section_id },
        TaskState::Done { .. } => TaskAction::Stop,
    }
}

/// A task submits at most once per cycle: a submit outcome moves a
/// Submitting task to Done, any other event leaves it Submitting, Done never
/// changes again, and a Done task asks for nothing further — in particular
/// it never fetches, decides or submits again.
pub proof fn lemma_submit_at_most_once(s: TaskState, e: TaskEvent, prefs: Seq<String>)
    ensures
        s is Submitting && (e is SubmitAccepted || e is SubmitRejected) ==> next_state(
            s,
            e,
            prefs,
        ) is Done,
        s is Submitting && !(e is SubmitAccepted || e is SubmitRejected) ==> next_state(
            s,
            e,
            prefs,
        ) == s,
        s is Done ==> next_state(s, e, prefs) == s,
        s is Submitting || s is Done ==> action_of(next_state(s, e, prefs))
            != TaskAction::Fetch,
        s is Done ==> action_of(s) == TaskAction::Stop,
{
}

/// When nothing in the snapshot is an enrolled match and no preference
/// matches any open section, a polling task moves to Waiting — never to
/// Submitting.
pub proof fn lemma_no_match_waits(snapshot: CourseSections, prefs: Seq<String>)
    requires
        !crate::selector::some_enrolled_match(snapshot.sections@, prefs),
        crate::selector::chosen_section(snapshot.sections@, prefs) is None,
    ensures
        next_state(TaskState::Polling, TaskEvent::SnapshotReceived { snapshot }, prefs)
            is Waiting,
{
}

} // verus!
