use todo_core::errors::{DomainError, RepositoryError};
use todo_core::handlers::{create_to_do, get_todos, list_todos, update_todo};
use todo_core::memory::InMemoryRepository;

const CLOCK: &str = "2024-01-01T00:00:00Z";

fn new_repo() -> InMemoryRepository {
    InMemoryRepository::new(CLOCK.to_string())
}

#[test]
fn create_and_retrieve_todo() {
    let mut repo = new_repo();

    let created = create_to_do("alice".to_string(), "My todo".to_string(), false, &mut repo)
        .unwrap();
    assert!(!created.id.get_value().is_empty());
    assert_eq!(created.title.get_value(), "My todo");

    let fetched = get_todos(
        &"alice".to_string(),
        &created.id.get_value(),
        &repo,
    )
    .unwrap();
    assert_eq!(fetched.title.get_value(), "My todo");
    assert_eq!(fetched.owner_id.get_value(), "alice");
    assert_eq!(fetched.is_complete.to_text(), "INCOMPLETE");
    assert_eq!(fetched.completed_on, "");
}

#[test]
fn create_with_empty_title_is_rejected() {
    let mut repo = new_repo();

    let res = create_to_do("alice".to_string(), "".to_string(), false, &mut repo);
    match res {
        Err(DomainError::Validation(e)) => {
            assert!(e.message().contains("Must be between 0 and 50 chars"));
        }
        _ => panic!("expected a validation error"),
    }

    // The repository was never touched.
    assert!(list_todos(&"alice".to_string(), &repo).unwrap().is_empty());
}

#[test]
fn update_a_completed_todo_title_should_not_change() {
    let mut repo = new_repo();

    let created = create_to_do("alice".to_string(), "My todo".to_string(), true, &mut repo)
        .unwrap();
    let id = created.id.get_value();

    update_todo(
        "alice".to_string(),
        id.clone(),
        "Updated todo".to_string(),
        true,
        &mut repo,
    )
    .unwrap();

    let fetched = get_todos(&"alice".to_string(), &id, &repo).unwrap();
    assert_eq!(fetched.title.get_value(), "My todo");
    assert_eq!(fetched.is_complete.to_text(), "COMPLETE");
    assert_eq!(fetched.completed_on, CLOCK);
}

#[test]
fn update_a_incomplete_todo_title_should_change() {
    let mut repo = new_repo();

    let created = create_to_do("alice".to_string(), "My todo".to_string(), false, &mut repo)
        .unwrap();
    let id = created.id.get_value();

    let updated = update_todo(
        "alice".to_string(),
        id.clone(),
        "Updated todo".to_string(),
        false,
        &mut repo,
    )
    .unwrap();
    assert_eq!(updated.title.get_value(), "Updated todo");

    let fetched = get_todos(&"alice".to_string(), &id, &repo).unwrap();
    assert_eq!(fetched.title.get_value(), "Updated todo");
    assert_eq!(fetched.is_complete.to_text(), "INCOMPLETE");
    assert_eq!(fetched.completed_on, "");
}

#[test]
fn reopening_a_completed_todo_applies_the_new_title() {
    let mut repo = new_repo();

    let created = create_to_do("alice".to_string(), "T".to_string(), true, &mut repo).unwrap();
    let id = created.id.get_value();

    // Explicitly reverting to incomplete lifts the title gate.
    update_todo(
        "alice".to_string(),
        id.clone(),
        "Changed".to_string(),
        false,
        &mut repo,
    )
    .unwrap();

    let fetched = get_todos(&"alice".to_string(), &id, &repo).unwrap();
    assert_eq!(fetched.title.get_value(), "Changed");
    assert_eq!(fetched.is_complete.to_text(), "INCOMPLETE");
}

#[test]
fn repeated_updates_of_a_completed_todo_are_idempotent() {
    let mut repo = new_repo();

    let created = create_to_do("alice".to_string(), "T".to_string(), true, &mut repo).unwrap();
    let id = created.id.get_value();

    let first = update_todo(
        "alice".to_string(),
        id.clone(),
        "Changed".to_string(),
        true,
        &mut repo,
    )
    .unwrap();
    let second = update_todo(
        "alice".to_string(),
        id.clone(),
        "Changed".to_string(),
        true,
        &mut repo,
    )
    .unwrap();

    assert_eq!(first.title.get_value(), "T");
    assert_eq!(second.title.get_value(), "T");
    assert_eq!(first.completed_on, second.completed_on);
}

#[test]
fn store_then_fetch_round_trip_preserves_all_fields() {
    let mut repo = new_repo();

    let created = create_to_do("bob".to_string(), "Round trip".to_string(), true, &mut repo)
        .unwrap();

    let fetched = get_todos(&"bob".to_string(), &created.id.get_value(), &repo).unwrap();
    assert_eq!(fetched.title.get_value(), created.title.get_value());
    assert_eq!(fetched.owner_id.get_value(), created.owner_id.get_value());
    assert_eq!(fetched.is_complete.to_text(), created.is_complete.to_text());
    assert_eq!(fetched.completed_on, CLOCK);
}

#[test]
fn list_todo() {
    let mut repo = new_repo();

    // An owner with nothing stored gets an empty sequence, not an error.
    let empty = list_todos(&"alice".to_string(), &repo).unwrap();
    assert!(empty.is_empty());

    create_to_do("alice".to_string(), "First".to_string(), false, &mut repo).unwrap();
    create_to_do("alice".to_string(), "Second".to_string(), true, &mut repo).unwrap();
    create_to_do("carol".to_string(), "Other owner".to_string(), false, &mut repo).unwrap();

    let listed = list_todos(&"alice".to_string(), &repo).unwrap();
    assert_eq!(listed.len(), 2);
    let titles: Vec<String> = listed.iter().map(|i| i.title.get_value()).collect();
    assert!(titles.contains(&"First".to_string()));
    assert!(titles.contains(&"Second".to_string()));

    // Listing never touches another owner's partition.
    let other = list_todos(&"carol".to_string(), &repo).unwrap();
    assert_eq!(other.len(), 1);
    assert_eq!(other[0].title.get_value(), "Other owner");
}

#[test]
fn not_found() {
    let mut repo = new_repo();
    create_to_do("alice".to_string(), "My todo".to_string(), false, &mut repo).unwrap();

    let missing = get_todos(&"alice".to_string(), &"does-not-exist".to_string(), &repo);
    assert!(matches!(
        missing,
        Err(DomainError::Repository(RepositoryError::NotFound))
    ));

    // Another owner cannot see the item either.
    let wrong_owner = get_todos(&"mallory".to_string(), &"1".to_string(), &repo);
    assert!(matches!(
        wrong_owner,
        Err(DomainError::Repository(RepositoryError::NotFound))
    ));
}

#[test]
fn update_of_a_missing_item_returns_not_found() {
    let mut repo = new_repo();

    let res = update_todo(
        "alice".to_string(),
        "1".to_string(),
        "Changed".to_string(),
        false,
        &mut repo,
    );
    assert!(matches!(
        res,
        Err(DomainError::Repository(RepositoryError::NotFound))
    ));
}

#[test]
fn update_with_invalid_fields_is_rejected_before_storage() {
    let mut repo = new_repo();
    let created = create_to_do("alice".to_string(), "My todo".to_string(), false, &mut repo)
        .unwrap();
    let id = created.id.get_value();

    let res = update_todo("alice".to_string(), id.clone(), "".to_string(), true, &mut repo);
    assert!(matches!(res, Err(DomainError::Validation(_))));

    // The stored record is untouched.
    let fetched = get_todos(&"alice".to_string(), &id, &repo).unwrap();
    assert_eq!(fetched.title.get_value(), "My todo");
    assert_eq!(fetched.is_complete.to_text(), "INCOMPLETE");
}

#[test]
fn direct_lookup_on_the_adapter_is_some_exactly_when_stored() {
    let mut repo = new_repo();
    let created = create_to_do("alice".to_string(), "My todo".to_string(), false, &mut repo)
        .unwrap();
    let id = created.id.get_value();

    let found = repo.fetch_stored(&"alice".to_string(), &id);
    assert_eq!(found.unwrap().title.get_value(), "My todo");

    let missing = repo.fetch_stored(&"alice".to_string(), &"does-not-exist".to_string());
    assert!(missing.is_none());
}

#[test]
fn assigned_identifiers_are_distinct() {
    let mut repo = new_repo();
    let a = create_to_do("alice".to_string(), "One".to_string(), false, &mut repo).unwrap();
    let b = create_to_do("alice".to_string(), "Two".to_string(), false, &mut repo).unwrap();
    assert_ne!(a.id.get_value(), b.id.get_value());
}
