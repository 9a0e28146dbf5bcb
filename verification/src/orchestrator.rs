//! The session orchestrator: one enrollment cycle, and when to restart it.
//!
//! A cycle logs in, fetches the preadvised course list, spawns one task per
//! course with non-empty preferences, waits for every task's result, and
//! restarts the whole cycle when some failure's error text names an invalid
//! token. The unverified runner performs the network work; `cycle_step` is
//! every decision of the cycle.

use crate::api::PreadviceCourse;
use crate::task::TaskResult;
use crate::text::byte_view;
use crate::text::contains_ci;
use crate::text::str_contains_ci;
use vstd::prelude::*;

verus! {

/// The ranked section preferences for one course.
#[derive(Debug, Clone)]
pub struct PreferenceEntry {
    pub course_code: String,
    pub sections: Vec<String>,
}

/// The whole preference configuration: per course code, the acceptable
/// section names, most preferred first. Supplied once at startup.
#[derive(Debug, Clone)]
pub struct PreferenceList {
    pub entries: Vec<PreferenceEntry>,
}

/// One planned task: a course and the preferences its task runs with.
#[derive(Debug, Clone)]
pub struct CourseTask {
    pub course_code: String,
    pub preferences: Vec<String>,
}

/// The views of a list of preference strings.
pub open spec fn pref_views(ps: Seq<String>) -> Seq<Seq<char>> {
    ps.map_values(|p: String| p@)
}

/// The preferences the list holds for `code` from entry `k` on: those of
/// the first entry whose course code equals `code`, else nothing.
pub open spec fn prefs_for_from(entries: Seq<PreferenceEntry>, code: Seq<char>, k: int) -> Seq<
    Seq<char>,
>
    decreases entries.len() - k,
    when 0 <= k <= entries.len()
{
    if k >= entries.len() {
        Seq::empty()
    } else if entries[k].course_code@ == code {
        pref_views(entries[k].sections@)
    } else {
        prefs_for_from(entries, code, k + 1)
    }
}

/// The preferences the list holds for `code`: empty when the course is
/// absent.
pub open spec fn prefs_for(entries: Seq<PreferenceEntry>, code: Seq<char>) -> Seq<Seq<char>> {
    prefs_for_from(entries, code, 0)
}

/// The view of one planned task: its course code and its preferences.
pub open spec fn task_views(plan: Seq<CourseTask>) -> Seq<(Seq<char>, Seq<Seq<char>>)> {
    plan.map_values(|t: CourseTask| (t.course_code@, pref_views(t.preferences@)))
}

/// The plan for the courses from index `k` on: one task per course whose
/// preferences are non-empty, in course-list order; the others are skipped.
pub open spec fn planned_from(
    courses: Seq<PreadviceCourse>,
    entries: Seq<PreferenceEntry>,
    k: int,
) -> Seq<(Seq<char>, Seq<Seq<char>>)>
    decreases courses.len() - k,
    when 0 <= k <= courses.len()
{
    if k >= courses.len() {
        Seq::empty()
    } else {
        let prefs = prefs_for(entries, courses[k].course_code@);
        let rest = planned_from(courses, entries, k + 1);
        if prefs.len() > 0 {
            seq![(courses[k].course_code@, prefs)] + rest
        } else {
            rest
        }
    }
}

/// The plan for a whole course list.
pub open spec fn planned(courses: Seq<PreadviceCourse>, entries: Seq<PreferenceEntry>) -> Seq<
    (Seq<char>, Seq<Seq<char>>),
> {
    planned_from(courses, entries, 0)
}

/// Looks up the preferences for a course. `Some` exactly when the list
/// holds a non-empty preference sequence for it — the course's task is
/// worth spawning; `None` when the course is absent or its entry is empty —
/// the course is skipped.
pub fn preferences_for<'a>(list: &'a PreferenceList, code: &String) -> (r: Option<
    &'a Vec<String>,
>)
    ensures
        (match r {
            Some(v) => pref_views(v@) == prefs_for(list.entries@, code@) && v@.len() > 0,
            None => prefs_for(list.entries@, code@).len() == 0,
        }),
{
    let n = list.entries.len();
    let mut k: usize = 0;
    while k < n
        invariant
            n == list.entries@.len(),
            k <= n,
            prefs_for(list.entries@, code@) == prefs_for_from(list.entries@, code@, k as int),
        decreases n - k,
    {
        let entry = &list.entries[k];
        if entry.course_code == *code {
            if entry.sections.len() > 0 {
                return Some(&entry.sections);
            } else {
                return None;
            }
        }
        k += 1;
    }
    None
}

/// Clones a list of preference strings, keeping its views.
fn clone_strings(v: &Vec<String>) -> (r: Vec<String>)
    ensures
        pref_views(r@) == pref_views(v@),
{
    let n = v.len();
    let mut r: Vec<String> = Vec::new();
    let mut k: usize = 0;
    while k < n
        invariant
            n == v@.len(),
            k <= n,
            r@.len() == k,
            forall|t: int| 0 <= t < k ==> r@[t]@ == v@[t]@,
        decreases n - k,
    {
        let s = &v[k];
        r.push(s.clone());
        k += 1;
    }
    proof {
        assert(pref_views(r@) =~= pref_views(v@));
    }
    r
}

/// Plans one cycle: for each preadvised course, in order, a task with its
/// preferences — unless the course has none, in which case it is skipped
/// and no task exists for it.
pub fn plan_cycle(courses: &Vec<PreadviceCourse>, prefs: &PreferenceList) -> (r: Vec<CourseTask>)
    ensures
        task_views(r@) == planned(courses@, prefs.entries@),
{
    let n = courses.len();
    let mut r: Vec<CourseTask> = Vec::new();
    let mut k: usize = 0;
    while k < n
        invariant
            n == courses@.len(),
            k <= n,
            task_views(r@) + planned_from(courses@, prefs.entries@, k as int) == planned(
                courses@,
                prefs.entries@,
            ),
        decreases n - k,
    {
        let course = &courses[k];
        match preferences_for(prefs, &course.course_code) {
            Some(sections) => {
                let task = CourseTask {
                    course_code: course.course_code.clone(),
                    preferences: clone_strings(sections),
                };
                proof {
                    let ghost old_tasks = task_views(r@);
                    let ghost item = (courses@[k as int].course_code@, prefs_for(
                        prefs.entries@,
                        courses@[k as int].course_code@,
                    ));
                    assert(task_views(r@.push(task)) =~= old_tasks + seq![item]);
                    assert((old_tasks + seq![item]) + planned_from(
                        courses@,
                        prefs.entries@,
                        k + 1,
                    ) =~= old_tasks + (seq![item] + planned_from(
                        courses@,
                        prefs.entries@,
                        k + 1,
                    )));
                }
                r.push(task);
            },
            None => {},
        }
        k += 1;
    }
    proof {
        assert(task_views(r@) + planned_from(courses@, prefs.entries@, n as int) =~= task_views(
            r@,
        ));
    }
    r
}

/// The result is a failure whose error text contains "invalid token",
/// ignoring ASCII case.
pub open spec fn names_invalid_token(result: TaskResult) -> bool {
    result matches TaskResult::Failure { error } && contains_ci(
        byte_view(error@),
        byte_view("invalid token"@),
    )
}

/// Some task result names an invalid token.
pub open spec fn invalid_token_in(results: Seq<TaskResult>) -> bool {
    exists|i: int| 0 <= i < results.len() && names_invalid_token(results[i])
}

/// Whether the cycle must be restarted: true exactly when some failure's
/// error text names an invalid token.
pub fn restart_needed(results: &Vec<TaskResult>) -> (r: bool)
    ensures
        r == invalid_token_in(results@),
{
    let n = results.len();
    let mut k: usize = 0;
    while k < n
        invariant
            n == results@.len(),
            k <= n,
            forall|i: int| 0 <= i < k ==> !names_invalid_token(results@[i]),
        decreases n - k,
    {
        match &results[k] {
            TaskResult::Failure { error } => {
                if str_contains_ci(error.as_str(), "invalid token") {
                    return true;
                }
            },
            TaskResult::Success => {},
        }
        k += 1;
    }
    false
}

/// How a finished cycle ended.
#[derive(Debug, Clone)]
pub enum CycleOutcome {
    /// Every task finished and none demanded a restart.
    Completed,
    /// The very first step of the cycle failed: the login was rejected.
    /// Fatal — no restart.
    LoginFailed { error: String },
}

/// Where the orchestrator stands in a cycle.
#[derive(Debug, Clone)]
pub enum CycleState {
    /// A session is being acquired with the static credentials.
    LoggingIn,
    /// The preadvised course list is being fetched.
    FetchingCourses,
    /// The planned tasks run; the cycle waits for all of them.
    RunningTasks { tasks: Vec<CourseTask> },
    /// The orchestration ended.
    Finished { outcome: CycleOutcome },
}

/// What the outside world reports back to the orchestrator.
#[derive(Debug, Clone)]
pub enum CycleEvent {
    /// The login yielded an authenticated session.
    LoginSucceeded,
    /// The login was rejected; carries the error text.
    LoginRejected { error: String },
    /// The preadvised course list arrived.
    CoursesFetched { courses: Vec<PreadviceCourse> },
    /// Every spawned task finished, with these results.
    TasksJoined { results: Vec<TaskResult> },
}

/// The event a state can answer to.
pub open spec fn cycle_event_fits(s: CycleState, e: CycleEvent) -> bool {
    match s {
        CycleState::LoggingIn => e is LoginSucceeded || e is LoginRejected,
        CycleState::FetchingCourses => e is CoursesFetched,
        CycleState::RunningTasks { .. } => e is TasksJoined,
        CycleState::Finished { .. } => false,
    }
}

/// Advances the orchestrator by one event. A restart is the move from
/// RunningTasks back to LoggingIn: it happens exactly when some task's
/// failure names an invalid token; the fresh cycle then re-plans from a
/// fresh course list, so already-enrolled courses short-circuit. An event
/// that does not belong to the state changes nothing.
pub fn cycle_step(state: CycleState, event: CycleEvent, prefs: &PreferenceList) -> (r: CycleState)
    ensures
        state is LoggingIn && event is LoginSucceeded ==> r is FetchingCourses,
        state is LoggingIn ==> (event matches CycleEvent::LoginRejected { error } ==> r == (
        CycleState::Finished { outcome: CycleOutcome::LoginFailed { error } })),
        state is FetchingCourses ==> (event matches CycleEvent::CoursesFetched { courses } ==> (
        r matches CycleState::RunningTasks { tasks } && task_views(tasks@) == planned(
            courses@,
            prefs.entries@,
        ))),
        state is RunningTasks ==> (event matches CycleEvent::TasksJoined { results } ==> r == (
        if invalid_token_in(results@) {
            CycleState::LoggingIn
        } else {
            CycleState::Finished { outcome: CycleOutcome::Completed }
        })),
        !cycle_event_fits(state, event) ==> r == state,
{
    match state {
        CycleState::LoggingIn => match event {
            CycleEvent::LoginSucceeded => CycleState::FetchingCourses,
            CycleEvent::LoginRejected { error } => CycleState::Finished {
                outcome: CycleOutcome::LoginFailed { error },
            },
            _ => CycleState::LoggingIn,
        },
        CycleState::FetchingCourses => match event {
            CycleEvent::CoursesFetched { courses } => CycleState::RunningTasks {
                tasks: plan_cycle(&courses, prefs),
            },
            _ => CycleState::FetchingCourses,
        },
        CycleState::RunningTasks { tasks } => match event {
            CycleEvent::TasksJoined { results } => {
                if restart_needed(&results) {
                    CycleState::LoggingIn
                } else {
                    CycleState::Finished { outcome: CycleOutcome::Completed }
                }
            },
            _ => CycleState::RunningTasks { tasks },
        },
        CycleState::Finished { outcome } => CycleState::Finished { outcome },
    }
}

} // verus!
