use std::str::FromStr;

use course_catalog::pills::application::command::create::create_pill_command_handler::pill_created;
use course_catalog::pills::application::query::find_pill_query_handler::pill_or_not_found;
use course_catalog::pills::application::{
    CreatePillCommand, CreatePillCommandHandler, FindAllPillsQuery, FindAllPillsQueryHandler,
    FindPillQuery, FindPillQueryHandler,
};
use course_catalog::pills::domain::{Pill, PillId, PillRepository, RepositoryError};
use course_catalog::pills::infrastructure::in_memory_repository::InMemoryPillRepository;

fn pill(id: u128, title: &str, content: &str) -> Pill {
    Pill::create(PillId(id), title.to_string(), content.to_string())
}

#[test]
fn find_pill_that_was_never_created_is_not_found() {
    let repository = InMemoryPillRepository::new();
    let handler = FindPillQueryHandler::new(repository);
    let found = handler.handle(FindPillQuery { id: PillId::new() });
    assert!(matches!(found, Err(RepositoryError::NotFound)));
}

#[test]
fn find_pill_that_is_stored_returns_it() {
    let mut repository = InMemoryPillRepository::new();
    repository.save(&pill(1, "Ownership", "Moves")).unwrap();
    repository.save(&pill(2, "Borrowing", "References")).unwrap();
    let handler = FindPillQueryHandler::new(repository);
    let found = handler.handle(FindPillQuery { id: PillId(2) }).unwrap();
    assert_eq!(found.id(), PillId(2));
    assert_eq!(found.title(), "Borrowing");
    assert_eq!(found.content(), "References");
}

#[test]
fn created_pill_is_found_under_the_returned_id() {
    let mut handler = CreatePillCommandHandler::new(InMemoryPillRepository::new());
    let id = handler
        .handle(CreatePillCommand { title: "Ownership".to_string(), content: "Moves".to_string() })
        .unwrap();
    let pill: Pill = handler.pills_repository().find_by_id(id).unwrap().unwrap();
    assert_eq!(pill.id(), id);
    assert_eq!(pill.title(), "Ownership");
    assert_eq!(pill.content(), "Moves");
}

#[test]
fn create_pill_under_a_given_id_returns_that_id() {
    let mut handler = CreatePillCommandHandler::new(InMemoryPillRepository::new());
    let created = handler.handle_with_id(
        PillId(42),
        CreatePillCommand { title: "Ownership".to_string(), content: "Moves".to_string() },
    );
    assert_eq!(created, Ok(PillId(42)));
    let stored = handler.pills_repository().find_by_id(PillId(42)).unwrap().unwrap();
    assert_eq!(stored.title(), "Ownership");
}

#[test]
fn two_pills_may_share_a_title() {
    let mut handler = CreatePillCommandHandler::new(InMemoryPillRepository::new());
    let first = handler
        .handle(CreatePillCommand { title: "Ownership".to_string(), content: "One".to_string() })
        .unwrap();
    let second = handler
        .handle(CreatePillCommand { title: "Ownership".to_string(), content: "Two".to_string() })
        .unwrap();
    assert_ne!(first, second);
    assert_eq!(handler.pills_repository().find_all().unwrap().len(), 2);
}

#[test]
fn saving_a_pill_twice_under_one_id_keeps_one_record_with_the_latest_values() {
    let mut repository = InMemoryPillRepository::new();
    repository.save(&pill(1, "Ownership", "Moves")).unwrap();
    repository.save(&pill(1, "Ownership, revised", "Moves and copies")).unwrap();
    let all = repository.find_all().unwrap();
    assert_eq!(all.len(), 1);
    assert_eq!(all[0].id(), PillId(1));
    assert_eq!(all[0].title(), "Ownership, revised");
    assert_eq!(all[0].content(), "Moves and copies");
    let found = repository.find_by_id(PillId(1)).unwrap().unwrap();
    assert_eq!(found.title(), "Ownership, revised");
}

#[test]
fn find_by_id_of_a_missing_pill_is_absence_not_an_error() {
    let mut repository = InMemoryPillRepository::new();
    repository.save(&pill(1, "Ownership", "Moves")).unwrap();
    assert!(matches!(repository.find_by_id(PillId(2)), Ok(None)));
}

#[test]
fn find_all_pills_lists_every_pill_once() {
    let mut repository = InMemoryPillRepository::new();
    assert!(repository.find_all().unwrap().is_empty());
    repository.save(&pill(3, "Lifetimes", "Regions")).unwrap();
    repository.save(&pill(1, "Ownership", "Moves")).unwrap();
    repository.save(&pill(2, "Borrowing", "References")).unwrap();
    let handler = FindAllPillsQueryHandler::new(repository);
    let mut ids: Vec<u128> =
        handler.handle(FindAllPillsQuery).unwrap().iter().map(|pill| pill.id().0).collect();
    ids.sort();
    assert_eq!(ids, vec![1, 2, 3]);
}

#[test]
fn pill_clone_keeps_every_field() {
    let first = pill(9, "Traits", "Shared behaviour");
    let copy = first.clone();
    assert_eq!(copy.id(), PillId(9));
    assert_eq!(copy.title(), "Traits");
    assert_eq!(copy.content(), "Shared behaviour");
}

#[test]
fn pill_id_text_round_trip() {
    let id = PillId::from_str("550e8400-e29b-41d4-a716-446655440000").unwrap();
    assert_eq!(id, PillId(0x550e8400_e29b_41d4_a716_446655440000));
    assert_eq!(id.to_string(), "550e8400-e29b-41d4-a716-446655440000");
    assert!(PillId::from_str("not-a-uuid").is_err());
}

#[test]
fn pill_id_text_is_lower_case_and_hyphenated() {
    assert_eq!(PillId(0).to_string(), "00000000-0000-0000-0000-000000000000");
    assert_eq!(
        PillId(0xA1A2A3A4_B1B2_C1C2_D1D2_D3D4D5D6D7D8).to_string(),
        "a1a2a3a4-b1b2-c1c2-d1d2-d3d4d5d6d7d8"
    );
    assert_eq!(PillId(u128::MAX).to_string(), "ffffffff-ffff-ffff-ffff-ffffffffffff");
}

#[test]
fn pill_id_reads_the_forms_that_the_parser_accepts() {
    let expected = PillId(0xa1a2a3a4_b1b2_c1c2_d1d2_d3d4d5d6d7d8);
    assert_eq!(PillId::from_str("a1a2a3a4b1b2c1c2d1d2d3d4d5d6d7d8").unwrap(), expected);
    assert_eq!(PillId::from_str("A1A2A3A4-B1B2-C1C2-D1D2-D3D4D5D6D7D8").unwrap(), expected);
    assert_eq!(
        PillId::from_str("urn:uuid:a1a2a3a4-b1b2-c1c2-d1d2-d3d4d5d6d7d8").unwrap(),
        expected
    );
    assert!(PillId::from_str("").is_err());
    assert!(PillId::from_str("a1a2a3a4-b1b2-c1c2-d1d2-d3d4d5d6d7").is_err());
    assert!(PillId::from_str("g1a2a3a4-b1b2-c1c2-d1d2-d3d4d5d6d7d8").is_err());
}

#[test]
fn pill_id_parses_through_the_std_trait() {
    let id: PillId = "550e8400-e29b-41d4-a716-446655440000".parse().unwrap();
    assert_eq!(id, PillId(0x550e8400_e29b_41d4_a716_446655440000));
    assert!(<PillId as FromStr>::from_str("zz").is_err());
}

#[test]
fn fresh_pill_ids_differ_and_survive_their_text() {
    let first = PillId::new();
    let second = PillId::default();
    assert_ne!(first, second);
    assert_eq!(PillId::from_str(&first.to_string()).unwrap(), first);
}

#[test]
fn repository_error_messages_and_status_codes() {
    assert_eq!(RepositoryError::Unexpected.to_string(), "An unexpected error occurred");
    assert_eq!(RepositoryError::NotFound.to_string(), "Pill not found");
    assert_eq!(RepositoryError::Unexpected.status_code(), 500);
    assert_eq!(RepositoryError::NotFound.status_code(), 404);
}

#[test]
fn pill_or_not_found_maps_every_lookup() {
    let found = pill_or_not_found(Ok(Some(pill(1, "Ownership", "Moves")))).unwrap();
    assert_eq!(found.id(), PillId(1));
    assert!(matches!(pill_or_not_found(Ok(None)), Err(RepositoryError::NotFound)));
    assert!(matches!(
        pill_or_not_found(Err(RepositoryError::Unexpected)),
        Err(RepositoryError::Unexpected)
    ));
    assert!(matches!(
        pill_or_not_found(Err(RepositoryError::NotFound)),
        Err(RepositoryError::NotFound)
    ));
}

#[test]
fn pill_created_maps_every_save() {
    assert_eq!(pill_created(PillId(5), Ok(())), Ok(PillId(5)));
    assert_eq!(
        pill_created(PillId(5), Err(RepositoryError::Unexpected)),
        Err(RepositoryError::Unexpected)
    );
}

#[test]
fn fresh_pill_ids_are_of_version_4() {
    let mask: u128 = 0x0000_0000_0000_f000_c000_0000_0000_0000;
    let fixed: u128 = 0x0000_0000_0000_4000_8000_0000_0000_0000;
    for round in 0..64 {
        let id = if round % 2 == 0 { PillId::new() } else { PillId::default() };
        assert_eq!(id.0 & mask, fixed);
        let text = id.to_string();
        assert_eq!(text.as_bytes()[14], b'4');
        assert!(matches!(text.as_bytes()[19], b'8' | b'9' | b'a' | b'b'));
    }
}
