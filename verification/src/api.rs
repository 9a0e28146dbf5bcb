//! Data model of the enrollment service and interpretation of its replies.
//!
//! Every reply of the service arrives as an envelope: a status string, an
//! optional payload and an optional message. `extract_data` turns such an
//! envelope into the payload or into an error, and its contract says exactly
//! which of the two comes out of which envelope. Timestamps of the service
//! are carried as plain Unix seconds.

use std::collections::HashMap;
use vstd::prelude::*;

verus! {

/// One course of the public catalog.
#[derive(Debug, Clone)]
pub struct CourseGeneralInfo {
    pub id: String,
    pub name: String,
    pub code: String,
    pub credits: i32,
    pub description: String,
    pub department: String,
    pub preadvised: bool,
}

/// One course of the student's own enrollment record.
#[derive(Debug, Clone)]
pub struct MyCourseInfo {
    pub id: String,
    pub course_id: String,
    pub course_code: String,
    pub course_name: String,
    pub credits: i32,
    pub department: String,
    pub trimester_id: String,
    pub trimester_name: String,
    pub status: String,
}

/// Descriptive data of one course.
#[derive(Debug, Clone)]
pub struct CourseInfo {
    pub id: String,
    pub name: String,
    pub code: String,
    pub credits: i32,
    pub description: String,
    pub department: String,
    pub preadvised: bool,
}

/// One section of a course in the staff-side catalog view.
#[derive(Debug, Clone)]
pub struct Section {
    pub id: String,
    pub section_name: String,
    pub total_seats: i32,
    pub available_seats: i32,
    pub waitlist_count: i32,
    pub faculty_name: String,
    pub faculty_email: String,
    pub faculty_code: String,
    pub room_details: String,
    pub schedule: HashMap<String, String>,
    pub is_active: bool,
    pub can_enroll: bool,
    pub enrollment_status: String,
    pub quotas: Vec<Quota>,
    pub is_mapped: bool,
    pub original_course: Option<CourseInfo>,
    pub can_not_remove: bool,
    pub already_taken: bool,
}

/// A per-department seat quota of a section.
#[derive(Debug, Clone)]
pub struct Quota {
    pub id: String,
    pub department_id: String,
    pub department_name: String,
    pub quota: i32,
    pub taken: i32,
    pub available: i32,
}

/// Cache metadata the service attaches to a catalog reply.
#[derive(Debug, Clone)]
pub struct CacheInfo {
    pub is_cached: bool,
    pub cached_at: String,
    pub expires_at: String,
}

/// The credentials a cycle logs in with.
#[derive(Debug, Clone)]
pub struct LoginRequest {
    pub user_id: String,
    pub password: String,
    pub logout_other_sessions: bool,
}

/// A request to act on one section of a course.
#[derive(Debug, Clone)]
pub struct SectionActionRequest {
    pub section_id: u64,
    pub action: String,
    pub parent_course_code: String,
}

/// One section of a course as the student-side snapshot shows it.
#[derive(Debug, Clone)]
pub struct CourseSection {
    pub section_id: u64,
    pub section_name: String,
    pub total_seats: usize,
    pub seats_taken: usize,
    pub is_enrolled: bool,
    pub faculty_name: String,
    pub faculty_email: String,
}

/// The snapshot of one course: its sections at one point in time.
/// The selection window bounds are Unix seconds.
#[derive(Debug, Clone)]
pub struct CourseSections {
    pub course_code: String,
    pub course_name: String,
    pub sections: Vec<CourseSection>,
    pub selection_open: bool,
    pub running_session: String,
    pub credits: usize,
    pub section_selection_start_time: i64,
    pub section_selection_end_time: i64,
}

/// One preadvised course of the student. Timestamps are Unix seconds.
#[derive(Debug, Clone)]
pub struct PreadviceCourse {
    pub running_session: String,
    pub course_code: String,
    pub course_name: String,
    pub formal_code: String,
    pub ucam_ref: u64,
    pub credits: usize,
    pub last_synced_at: i64,
    pub created_at: i64,
    pub updated_at: i64,
}

/// The student's preadvised course list.
#[derive(Debug, Clone)]
pub struct PreadviceCourses {
    pub user_id: String,
    pub running_session: String,
    pub courses: Vec<PreadviceCourse>,
    pub total_courses: usize,
    pub total_credits: usize,
}

/// The envelope every service reply arrives in.
#[derive(Debug, Clone)]
pub struct ApiResponse<T> {
    pub status: String,
    pub data: Option<T>,
    pub message: Option<String>,
}

/// Why a reply yielded no payload.
#[derive(Debug, Clone)]
pub enum ApiError {
    /// The status was not "success"; carries the service's explanation.
    RequestFailed { message: String },
    /// The status was "success" but the payload was absent.
    MissingData,
}

/// The explanation a failed reply carries: its message if there is one,
/// else its status string.
pub open spec fn failure_message(status: Seq<char>, message: Option<String>) -> Seq<char> {
    match message {
        Some(m) => m@,
        None => status,
    }
}

/// Turns a service reply into its payload, or into the error the reply
/// stands for: a non-"success" status fails with the reply's explanation,
/// a "success" status without payload fails as missing data.
pub fn extract_data<T>(resp: ApiResponse<T>) -> (r: Result<T, ApiError>)
    ensures
        resp.status@ == "success"@ && resp.data is Some ==> (r matches Ok(d) && d
            == resp.data->0),
        resp.status@ == "success"@ && resp.data is None ==> r == Err::<T, ApiError>(
            ApiError::MissingData,
        ),
        resp.status@ != "success"@ ==> (r matches Err(ApiError::RequestFailed { message })
            && message@ == failure_message(resp.status@, resp.message)),
{
    let ApiResponse { status, data, message } = resp;
    let success: String = "success".to_owned();
    if status != success {
        let explanation: String = match message {
            Some(m) => m,
            None => status,
        };
        return Err(ApiError::RequestFailed { message: explanation });
    }
    match data {
        Some(d) => Ok(d),
        None => Err(ApiError::MissingData),
    }
}

} // verus!
