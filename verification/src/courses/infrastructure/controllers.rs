//! What the transport layer does with courses apart from moving bytes: the
//! shapes of requests and responses, and the status and the message under
//! which an outcome is reported.

use crate::courses::application::{AddPillToCourseCommand, CreateCourseCommand};
use crate::courses::domain::{CourseId, CourseRepositoryError, Difficulty, Price};
use crate::pills::domain::PillId;
use vstd::prelude::*;
use vstd::string::StringExecFns;

verus! {

/// The status code of a request that was served.
pub const OK: u16 = 200;

/// The status code of a request that created something.
pub const CREATED: u16 = 201;

/// The body of a request to let a course refer to a pill. The course is
/// named by the path of the request.
#[derive(Debug)]
pub struct AddPillToCourseRequest {
    pub pill_id: PillId,
}

impl AddPillToCourseRequest {
    /// The command that the request asks for, on the course of its path.
    pub fn into_command(self, course_id: CourseId) -> (command: AddPillToCourseCommand)
        ensures
            command.course_id == course_id,
            command.pill_id == self.pill_id,
    {
        AddPillToCourseCommand::new(course_id, self.pill_id)
    }
}

/// The body of a request to create a course. The pills may be left out.
#[derive(Debug)]
pub struct CreateCourseRequest {
    pub title: String,
    pub description: String,
    pub instructor: String,
    pub pill_ids: Option<Vec<PillId>>,
    pub difficulty: Difficulty,
    pub hours: i8,
    pub tags: Vec<String>,
    pub price: Price,
}

impl CreateCourseRequest {
    /// The pills that the request names: none where it leaves them out.
    pub open spec fn named_pills(self) -> Seq<PillId> {
        match self.pill_ids {
            Some(pill_ids) => pill_ids@,
            None => Seq::empty(),
        }
    }

    /// The command that the request asks for.
    pub fn into_command(self) -> (command: CreateCourseCommand)
        ensures
            command.title == self.title,
            command.description == self.description,
            command.instructor == self.instructor,
            command.pill_ids@ == self.named_pills(),
            command.difficulty == self.difficulty,
            command.hours == self.hours,
            command.tags == self.tags,
            command.price == self.price,
    {
        let pill_ids = match self.pill_ids {
            Some(pill_ids) => pill_ids,
            None => Vec::new(),
        };
        CreateCourseCommand::with_pills(
            self.title,
            self.description,
            self.instructor,
            pill_ids,
            self.difficulty,
            self.hours,
            self.tags,
            self.price,
        )
    }
}

/// The body of the response to the creation of a course.
#[derive(Debug)]
pub struct CreateCourseResponse {
    pub id: CourseId,
    pub message: String,
}

impl CreateCourseResponse {
    /// The response that reports a course created under an identifier.
    pub fn created(id: CourseId) -> (response: CreateCourseResponse)
        ensures
            response.id == id,
            response.message@ == "Course created successfully"@,
    {
        CreateCourseResponse { id, message: "Course created successfully".to_owned() }
    }
}

/// The message that reports a pill added to a course.
pub fn pill_added_message() -> (message: String)
    ensures
        message@ == "Pill added to course successfully"@,
{
    "Pill added to course successfully".to_owned()
}

/// The response to a request that failed.
#[derive(Debug)]
pub struct ErrorResponse {
    pub status: u16,
    pub error: String,
}

/// The text that reports a failure, where `not_found` says what was not
/// found.
pub open spec fn failure_text(error: CourseRepositoryError, not_found: Seq<char>) -> Seq<char> {
    match error {
        CourseRepositoryError::NotFound => not_found,
        CourseRepositoryError::DuplicateTitle => error.message(),
        CourseRepositoryError::Unexpected => "Internal server error: "@ + error.message(),
    }
}

/// The response to a failed request: the status that belongs to the error,
/// and a text that names what was not found, tells of a duplicate title, or
/// reports a failure of the service.
pub fn failure(error: CourseRepositoryError, not_found: &str) -> (response: ErrorResponse)
    ensures
        response.status == error.status(),
        response.error@ == failure_text(error, not_found@),
{
    let text = match error {
        CourseRepositoryError::NotFound => not_found.to_owned(),
        CourseRepositoryError::DuplicateTitle => error.to_string(),
        CourseRepositoryError::Unexpected => {
            let message = error.to_string();
            "Internal server error: ".to_owned().concat(message.as_str())
        },
    };
    ErrorResponse { status: error.status_code(), error: text }
}

/// The response to a failed association of a pill with a course.
pub fn add_pill_failure(error: CourseRepositoryError) -> (response: ErrorResponse)
    ensures
        response.status == error.status(),
        response.error@ == failure_text(error, "Course or pill not found"@),
{
    failure(error, "Course or pill not found")
}

/// The response to a failed creation, lookup or listing of courses.
pub fn course_failure(error: CourseRepositoryError) -> (response: ErrorResponse)
    ensures
        response.status == error.status(),
        response.error@ == failure_text(error, "Course not found"@),
{
    failure(error, "Course not found")
}

} // verus!
