use course_catalog::courses::application::{
    AddPillToCourseCommand, AddPillToCourseCommandHandler, CreateCourseCommand,
    CreateCourseCommandHandler, FindCourseQuery, FindCourseQueryHandler, FindCourseWithPillsQuery,
    FindCourseWithPillsQueryHandler,
};
use course_catalog::courses::domain::{
    Course, CourseId, CourseRepository, CourseRepositoryError, Difficulty, Price,
};
use course_catalog::courses::infrastructure::persistence::InMemoryCourseRepository;
use course_catalog::pills::application::{
    CreatePillCommand, CreatePillCommandHandler, FindAllPillsQuery, FindAllPillsQueryHandler,
    FindPillQuery, FindPillQueryHandler,
};
use course_catalog::pills::domain::{Pill, PillId, PillRepository, RepositoryError};
use course_catalog::pills::infrastructure::in_memory_repository::InMemoryPillRepository;

/// A pill store that is down.
struct BrokenPills;

impl PillRepository for BrokenPills {
    fn save(&mut self, _pill: &Pill) -> Result<(), RepositoryError> {
        Err(RepositoryError::Unexpected)
    }

    fn find_by_id(&self, _id: PillId) -> Result<Option<Pill>, RepositoryError> {
        Err(RepositoryError::Unexpected)
    }

    fn find_all(&self) -> Result<Vec<Pill>, RepositoryError> {
        Err(RepositoryError::Unexpected)
    }
}

/// A course store that is down.
struct BrokenCourses;

impl CourseRepository for BrokenCourses {
    fn save(&mut self, _course: &Course) -> Result<(), CourseRepositoryError> {
        Err(CourseRepositoryError::Unexpected)
    }

    fn find_by_id(&self, _id: CourseId) -> Result<Option<Course>, CourseRepositoryError> {
        Err(CourseRepositoryError::Unexpected)
    }

    fn find_all(&self) -> Result<Vec<Course>, CourseRepositoryError> {
        Err(CourseRepositoryError::Unexpected)
    }

    fn find_by_title(&self, _title: &str) -> Result<Option<Course>, CourseRepositoryError> {
        Err(CourseRepositoryError::Unexpected)
    }
}

fn course(id: CourseId, title: &str, pill_ids: Vec<PillId>) -> Course {
    Course::create(
        id,
        title.to_string(),
        "About ownership".to_string(),
        "Ferris".to_string(),
        Difficulty::Beginner,
        12,
        vec!["rust".to_string()],
        Price(19.99f32.to_bits()),
        pill_ids,
    )
}

#[test]
fn create_pill_on_a_broken_store_is_unexpected() {
    let mut handler = CreatePillCommandHandler::new(BrokenPills);
    let created = handler
        .handle(CreatePillCommand { title: "Ownership".to_string(), content: "Moves".to_string() });
    assert_eq!(created, Err(RepositoryError::Unexpected));
}

#[test]
fn find_pill_on_a_broken_store_is_unexpected() {
    let handler = FindPillQueryHandler::new(BrokenPills);
    let found = handler.handle(FindPillQuery { id: PillId(7) });
    assert!(matches!(found, Err(RepositoryError::Unexpected)));
}

#[test]
fn find_all_pills_on_a_broken_store_is_unexpected() {
    let handler = FindAllPillsQueryHandler::new(BrokenPills);
    assert!(matches!(handler.handle(FindAllPillsQuery), Err(RepositoryError::Unexpected)));
}

#[test]
fn add_pill_with_a_broken_pill_store_is_unexpected_and_changes_nothing() {
    let mut courses = InMemoryCourseRepository::new();
    courses.save(&course(CourseId(1), "Rust", vec![])).unwrap();
    let mut handler = AddPillToCourseCommandHandler::new(courses, BrokenPills);
    let added = handler.handle(AddPillToCourseCommand::new(CourseId(1), PillId(2)));
    assert_eq!(added, Err(CourseRepositoryError::Unexpected));
    let stored = handler.course_repository().find_by_id(CourseId(1)).unwrap().unwrap();
    assert_eq!(stored.pill_ids(), &[] as &[PillId]);
}

#[test]
fn add_pill_with_a_broken_course_store_is_unexpected() {
    let mut pills = InMemoryPillRepository::new();
    pills.save(&Pill::create(PillId(2), "Ownership".to_string(), "Moves".to_string())).unwrap();
    let mut handler = AddPillToCourseCommandHandler::new(BrokenCourses, pills);
    let added = handler.handle(AddPillToCourseCommand::new(CourseId(1), PillId(2)));
    assert_eq!(added, Err(CourseRepositoryError::Unexpected));
}

#[test]
fn create_course_on_a_broken_store_is_unexpected_not_duplicate() {
    let mut handler = CreateCourseCommandHandler::new(BrokenCourses);
    let created = handler.handle(CreateCourseCommand::with_pills(
        "Rust".to_string(),
        "About ownership".to_string(),
        "Ferris".to_string(),
        vec![],
        Difficulty::Expert,
        40,
        vec![],
        Price(0f32.to_bits()),
    ));
    assert_eq!(created, Err(CourseRepositoryError::Unexpected));
}

#[test]
fn find_course_on_a_broken_store_is_unexpected() {
    let handler = FindCourseQueryHandler::new(BrokenCourses);
    let found = handler.handle(FindCourseQuery { id: CourseId(1) });
    assert!(matches!(found, Err(CourseRepositoryError::Unexpected)));
}

#[test]
fn join_aborts_when_a_pill_lookup_fails() {
    let mut courses = InMemoryCourseRepository::new();
    courses.save(&course(CourseId(1), "Rust", vec![PillId(2)])).unwrap();
    let handler = FindCourseWithPillsQueryHandler::new(courses, BrokenPills);
    let found = handler.handle(FindCourseWithPillsQuery { id: CourseId(1) });
    assert!(matches!(found, Err(CourseRepositoryError::Unexpected)));
}

#[test]
fn join_on_a_missing_course_is_not_found_before_any_pill_is_looked_up() {
    let handler = FindCourseWithPillsQueryHandler::new(InMemoryCourseRepository::new(), BrokenPills);
    let found = handler.handle(FindCourseWithPillsQuery { id: CourseId(1) });
    assert!(matches!(found, Err(CourseRepositoryError::NotFound)));
}
