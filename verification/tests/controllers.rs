use course_catalog::courses::domain::{CourseId, CourseRepositoryError, Difficulty, Price};
use course_catalog::courses::infrastructure::controllers::{
    add_pill_failure, course_failure, failure, pill_added_message, AddPillToCourseRequest,
    CreateCourseRequest, CreateCourseResponse,
};
use course_catalog::pills::domain::{Pill, PillId, RepositoryError};
use course_catalog::pills::infrastructure::controllers::{
    create_pill_status, find_all_pills_status, find_pill_status, CreatePillRequest,
};

fn request(pill_ids: Option<Vec<PillId>>) -> CreateCourseRequest {
    CreateCourseRequest {
        title: "Rust".to_string(),
        description: "About ownership".to_string(),
        instructor: "Ferris".to_string(),
        pill_ids,
        difficulty: Difficulty::Intermediate,
        hours: 20,
        tags: vec!["rust".to_string()],
        price: Price(12.5f32.to_bits()),
    }
}

#[test]
fn create_pill_request_becomes_a_command() {
    let command =
        CreatePillRequest { title: "Ownership".to_string(), content: "Moves".to_string() }
            .into_command();
    assert_eq!(command.title, "Ownership");
    assert_eq!(command.content, "Moves");
}

#[test]
fn pill_outcomes_have_their_status() {
    assert_eq!(create_pill_status(&Ok(PillId(1))), 201);
    assert_eq!(create_pill_status(&Err(RepositoryError::Unexpected)), 500);
    let pill = Pill::create(PillId(1), "Ownership".to_string(), "Moves".to_string());
    assert_eq!(find_pill_status(&Ok(pill)), 200);
    assert_eq!(find_pill_status(&Err(RepositoryError::NotFound)), 404);
    assert_eq!(find_pill_status(&Err(RepositoryError::Unexpected)), 500);
    assert_eq!(find_all_pills_status(&Ok(vec![])), 200);
    assert_eq!(find_all_pills_status(&Err(RepositoryError::Unexpected)), 500);
}

#[test]
fn create_course_request_without_pills_names_none() {
    let command = request(None).into_command();
    assert_eq!(command.title, "Rust");
    assert_eq!(command.description, "About ownership");
    assert_eq!(command.instructor, "Ferris");
    assert_eq!(command.pill_ids, vec![]);
    assert_eq!(command.difficulty, Difficulty::Intermediate);
    assert_eq!(command.hours, 20);
    assert_eq!(command.tags, vec!["rust".to_string()]);
    assert_eq!(f32::from_bits(command.price.0), 12.5f32);
}

#[test]
fn create_course_request_with_pills_names_them_in_order() {
    let command = request(Some(vec![PillId(3), PillId(1), PillId(3)])).into_command();
    assert_eq!(command.pill_ids, vec![PillId(3), PillId(1), PillId(3)]);
}

#[test]
fn add_pill_request_takes_the_course_from_the_path() {
    let command = AddPillToCourseRequest { pill_id: PillId(7) }.into_command(CourseId(9));
    assert_eq!(command.course_id, CourseId(9));
    assert_eq!(command.pill_id, PillId(7));
}

#[test]
fn success_messages() {
    let response = CreateCourseResponse::created(CourseId(5));
    assert_eq!(response.id, CourseId(5));
    assert_eq!(response.message, "Course created successfully");
    assert_eq!(pill_added_message(), "Pill added to course successfully");
}

#[test]
fn course_failures_have_their_status_and_text() {
    let missing = course_failure(CourseRepositoryError::NotFound);
    assert_eq!(missing.status, 404);
    assert_eq!(missing.error, "Course not found");
    let duplicate = course_failure(CourseRepositoryError::DuplicateTitle);
    assert_eq!(duplicate.status, 409);
    assert_eq!(duplicate.error, "Course with this title already exists");
    let broken = course_failure(CourseRepositoryError::Unexpected);
    assert_eq!(broken.status, 500);
    assert_eq!(broken.error, "Internal server error: An unexpected error occurred");
}

#[test]
fn add_pill_failures_name_both_aggregates() {
    let missing = add_pill_failure(CourseRepositoryError::NotFound);
    assert_eq!(missing.status, 404);
    assert_eq!(missing.error, "Course or pill not found");
    let broken = add_pill_failure(CourseRepositoryError::Unexpected);
    assert_eq!(broken.status, 500);
    assert_eq!(broken.error, "Internal server error: An unexpected error occurred");
    let other = failure(CourseRepositoryError::NotFound, "Nothing here");
    assert_eq!(other.status, 404);
    assert_eq!(other.error, "Nothing here");
}
