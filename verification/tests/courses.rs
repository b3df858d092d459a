use std::str::FromStr;

use course_catalog::courses::domain::{
    Course, CourseId, CourseRepository, CourseRepositoryError, Difficulty, Price,
};
use course_catalog::courses::infrastructure::persistence::InMemoryCourseRepository;
use course_catalog::pills::domain::PillId;

fn strings(items: &[&str]) -> Vec<String> {
    items.iter().map(|item| item.to_string()).collect()
}

fn rust_course(id: u128, title: &str, tags: &[&str], pill_ids: &[u128]) -> Course {
    Course::create(
        CourseId(id),
        title.to_string(),
        "About ownership".to_string(),
        "Ferris".to_string(),
        Difficulty::Intermediate,
        12,
        strings(tags),
        Price(19.99f32.to_bits()),
        pill_ids.iter().map(|id| PillId(*id)).collect(),
    )
}

#[test]
fn create_keeps_every_attribute() {
    let course = rust_course(1, "Rust", &["rust", "systems"], &[10, 20]);
    assert_eq!(course.id(), CourseId(1));
    assert_eq!(course.title(), "Rust");
    assert_eq!(course.description(), "About ownership");
    assert_eq!(course.instructor(), "Ferris");
    assert_eq!(course.difficulty(), Difficulty::Intermediate);
    assert_eq!(course.hours(), 12);
    assert_eq!(course.tags(), strings(&["rust", "systems"]).as_slice());
    assert_eq!(f32::from_bits(course.price().0), 19.99f32);
    assert_eq!(course.pill_ids(), &[PillId(10), PillId(20)]);
    assert_eq!(course.pill_count(), 2);
}

#[test]
fn create_keeps_the_first_occurrence_of_each_pill_and_tag() {
    let course = rust_course(1, "Rust", &["b", "a", "b", "c", "a"], &[3, 1, 3, 2, 1, 3]);
    assert_eq!(course.pill_ids(), &[PillId(3), PillId(1), PillId(2)]);
    assert_eq!(course.tags(), strings(&["b", "a", "c"]).as_slice());
    assert_eq!(course.pill_count(), 3);
}

#[test]
fn new_course_refers_to_no_pill() {
    let course = Course::new(
        CourseId(1),
        "Rust".to_string(),
        "About ownership".to_string(),
        "Ferris".to_string(),
        Difficulty::Expert,
        -1,
        strings(&["rust", "rust"]),
        Price(0f32.to_bits()),
    );
    assert_eq!(course.pill_count(), 0);
    assert_eq!(course.pill_ids(), &[] as &[PillId]);
    assert_eq!(course.tags(), strings(&["rust"]).as_slice());
    assert_eq!(course.hours(), -1);
    assert_eq!(course.difficulty(), Difficulty::Expert);
}

#[test]
fn add_pill_appends_only_what_is_absent() {
    let mut course = rust_course(1, "Rust", &[], &[]);
    course.add_pill(PillId(2));
    course.add_pill(PillId(1));
    course.add_pill(PillId(2));
    course.add_pill(PillId(3));
    course.add_pill(PillId(1));
    assert_eq!(course.pill_ids(), &[PillId(2), PillId(1), PillId(3)]);
    assert_eq!(course.pill_count(), 3);
}

#[test]
fn add_tag_appends_only_what_is_absent() {
    let mut course = rust_course(1, "Rust", &["rust"], &[]);
    course.add_tag("systems".to_string());
    course.add_tag("rust".to_string());
    course.add_tag("Rust".to_string());
    assert_eq!(course.tags(), strings(&["rust", "systems", "Rust"]).as_slice());
}

#[test]
fn remove_tag_drops_the_tag_and_keeps_the_order() {
    let mut course = rust_course(1, "Rust", &["a", "b", "c"], &[]);
    course.remove_tag("b");
    assert_eq!(course.tags(), strings(&["a", "c"]).as_slice());
    course.remove_tag("missing");
    assert_eq!(course.tags(), strings(&["a", "c"]).as_slice());
    course.remove_tag("a");
    course.remove_tag("c");
    assert!(course.tags().is_empty());
}

#[test]
fn has_tag_matches_exactly() {
    let course = rust_course(1, "Rust", &["rust", "systems"], &[]);
    assert!(course.has_tag("rust"));
    assert!(course.has_tag("systems"));
    assert!(!course.has_tag("Rust"));
    assert!(!course.has_tag("rus"));
    assert!(!course.has_tag(""));
}

#[test]
fn updates_change_one_attribute_each() {
    let mut course = rust_course(1, "Rust", &["rust"], &[7]);
    course.update_difficulty(Difficulty::Advanced);
    course.update_hours(99);
    course.update_price(Price(5.5f32.to_bits()));
    assert_eq!(course.difficulty(), Difficulty::Advanced);
    assert_eq!(course.hours(), 99);
    assert_eq!(f32::from_bits(course.price().0), 5.5f32);
    assert_eq!(course.title(), "Rust");
    assert_eq!(course.pill_ids(), &[PillId(7)]);
    assert_eq!(course.tags(), strings(&["rust"]).as_slice());
}

#[test]
fn course_clone_keeps_every_field() {
    let copy = rust_course(1, "Rust", &["rust", "systems"], &[10, 20]).clone();
    assert_eq!(copy.id(), CourseId(1));
    assert_eq!(copy.title(), "Rust");
    assert_eq!(copy.description(), "About ownership");
    assert_eq!(copy.instructor(), "Ferris");
    assert_eq!(copy.tags(), strings(&["rust", "systems"]).as_slice());
    assert_eq!(copy.pill_ids(), &[PillId(10), PillId(20)]);
    assert_eq!(copy.price(), Price(19.99f32.to_bits()));
}

#[test]
fn difficulty_labels() {
    assert_eq!(Difficulty::Beginner.to_string(), "Beginner");
    assert_eq!(Difficulty::Intermediate.to_string(), "Intermediate");
    assert_eq!(Difficulty::Advanced.to_string(), "Advanced");
    assert_eq!(Difficulty::Expert.to_string(), "Expert");
}

#[test]
fn course_id_text_round_trip() {
    let id = CourseId::from_str("550e8400-e29b-41d4-a716-446655440000").unwrap();
    assert_eq!(id, CourseId(0x550e8400_e29b_41d4_a716_446655440000));
    assert_eq!(id.to_string(), "550e8400-e29b-41d4-a716-446655440000");
    assert!(CourseId::from_str("550e8400-e29b-41d4-a716").is_err());
    let parsed: CourseId = "550e8400-e29b-41d4-a716-446655440000".parse().unwrap();
    assert_eq!(parsed, id);
    assert!(<CourseId as FromStr>::from_str("").is_err());
}

#[test]
fn fresh_course_ids_differ() {
    assert_ne!(CourseId::new(), CourseId::default());
}

#[test]
fn course_repository_error_messages_and_status_codes() {
    assert_eq!(CourseRepositoryError::Unexpected.to_string(), "An unexpected error occurred");
    assert_eq!(CourseRepositoryError::NotFound.to_string(), "Course not found");
    assert_eq!(
        CourseRepositoryError::DuplicateTitle.to_string(),
        "Course with this title already exists"
    );
    assert_eq!(CourseRepositoryError::Unexpected.status_code(), 500);
    assert_eq!(CourseRepositoryError::NotFound.status_code(), 404);
    assert_eq!(CourseRepositoryError::DuplicateTitle.status_code(), 409);
}

#[test]
fn saving_a_course_twice_under_one_id_keeps_one_record_with_the_latest_values() {
    let mut repository = InMemoryCourseRepository::new();
    repository.save(&rust_course(1, "Rust", &["rust"], &[10])).unwrap();
    repository.save(&rust_course(1, "Rust, second edition", &["rust", "2024"], &[10, 20])).unwrap();
    let all = repository.find_all().unwrap();
    assert_eq!(all.len(), 1);
    assert_eq!(all[0].id(), CourseId(1));
    assert_eq!(all[0].title(), "Rust, second edition");
    assert_eq!(all[0].pill_ids(), &[PillId(10), PillId(20)]);
    assert!(matches!(repository.find_by_title("Rust"), Ok(None)));
}

#[test]
fn find_by_title_matches_exactly() {
    let mut repository = InMemoryCourseRepository::new();
    repository.save(&rust_course(1, "Rust", &[], &[])).unwrap();
    repository.save(&rust_course(2, "Go", &[], &[])).unwrap();
    assert_eq!(repository.find_by_title("Rust").unwrap().unwrap().id(), CourseId(1));
    assert_eq!(repository.find_by_title("Go").unwrap().unwrap().id(), CourseId(2));
    assert!(repository.find_by_title("rust").unwrap().is_none());
    assert!(repository.find_by_title("Rus").unwrap().is_none());
    assert!(repository.find_by_title("Rust ").unwrap().is_none());
    assert!(repository.find_by_title("").unwrap().is_none());
}

#[test]
fn find_by_id_of_a_missing_course_is_absence_not_an_error() {
    let mut repository = InMemoryCourseRepository::new();
    repository.save(&rust_course(1, "Rust", &[], &[])).unwrap();
    assert!(matches!(repository.find_by_id(CourseId(2)), Ok(None)));
    assert_eq!(repository.find_by_id(CourseId(1)).unwrap().unwrap().title(), "Rust");
}

#[test]
fn find_all_courses_lists_every_course_once() {
    let mut repository = InMemoryCourseRepository::new();
    assert!(repository.find_all().unwrap().is_empty());
    for id in [5u128, 3, 4] {
        repository.save(&rust_course(id, &format!("Course {}", id), &[], &[])).unwrap();
    }
    let mut ids: Vec<u128> =
        repository.find_all().unwrap().iter().map(|course| course.id().0).collect();
    ids.sort();
    assert_eq!(ids, vec![3, 4, 5]);
}

#[test]
fn fresh_course_ids_are_of_version_4() {
    let mask: u128 = 0x0000_0000_0000_f000_c000_0000_0000_0000;
    let fixed: u128 = 0x0000_0000_0000_4000_8000_0000_0000_0000;
    for round in 0..64 {
        let id = if round % 2 == 0 { CourseId::new() } else { CourseId::default() };
        assert_eq!(id.0 & mask, fixed);
        let text = id.to_string();
        assert_eq!(text.as_bytes()[14], b'4');
        assert!(matches!(text.as_bytes()[19], b'8' | b'9' | b'a' | b'b'));
    }
}
