use todo_core::entities::{OwnerId, Title, ToDoId};
use todo_core::validation::{UnvalidatedToDo, ValidateToDo};

#[test]
fn valid_data_should_return_validated_to_do() {
    let validator = ValidateToDo::new(UnvalidatedToDo {
        is_complete: false,
        owner_id: "jameseastham".to_string(),
        title: "my title".to_string(),
    });

    let to_do = validator.validate();

    let res = to_do.as_ref().unwrap();

    assert_eq!(to_do.is_err(), false);
    assert_eq!(res.title.get_value(), "my title");
    assert_eq!(res.owner_id.get_value(), "jameseastham");
    assert_eq!(res.is_complete.to_text(), "INCOMPLETE");
}

#[test]
fn empty_title_should_return_validate_error() {
    let validator = ValidateToDo::new(UnvalidatedToDo {
        is_complete: false,
        owner_id: "jameseastham".to_string(),
        title: "".to_string(),
    });

    let res = validator.validate();

    assert_eq!(res.is_err(), true);
    assert_eq!(
        res.err().unwrap().message(),
        "Must be between 0 and 50 chars"
    );
}

#[test]
fn empty_owner_should_return_validate_error() {
    let validator = ValidateToDo::new(UnvalidatedToDo {
        is_complete: false,
        owner_id: "".to_string(),
        title: "my title".to_string(),
    });

    let res = validator.validate();

    assert_eq!(res.is_err(), true);
    assert_eq!(res.err().unwrap().message(), "Must be greater than 0");
}

#[test]
fn both_fields_invalid_reports_title_then_owner() {
    let validator = ValidateToDo::new(UnvalidatedToDo {
        is_complete: false,
        owner_id: "".to_string(),
        title: "".to_string(),
    });

    let res = validator.validate();

    assert_eq!(res.is_err(), true);
    assert_eq!(
        res.err().unwrap().message(),
        "Must be between 0 and 50 chars - Must be greater than 0"
    );
}

#[test]
fn title_boundaries_one_and_fifty_are_valid() {
    let one = ValidateToDo::new(UnvalidatedToDo {
        is_complete: false,
        owner_id: "alice".to_string(),
        title: "T".to_string(),
    })
    .validate();
    assert!(one.is_ok());
    assert_eq!(one.unwrap().title.get_value(), "T");

    let fifty = "a".repeat(50);
    let at_cap = ValidateToDo::new(UnvalidatedToDo {
        is_complete: false,
        owner_id: "alice".to_string(),
        title: fifty.clone(),
    })
    .validate();
    assert!(at_cap.is_ok());
    assert_eq!(at_cap.unwrap().title.get_value(), fifty);
}

#[test]
fn title_of_fifty_one_chars_is_rejected() {
    let over_cap = ValidateToDo::new(UnvalidatedToDo {
        is_complete: false,
        owner_id: "alice".to_string(),
        title: "a".repeat(51),
    })
    .validate();
    assert!(over_cap.is_err());
    assert_eq!(
        over_cap.err().unwrap().message(),
        "Must be between 0 and 50 chars"
    );
}

#[test]
fn completion_flag_is_taken_from_the_payload() {
    let res = ValidateToDo::new(UnvalidatedToDo {
        is_complete: true,
        owner_id: "alice".to_string(),
        title: "T".to_string(),
    })
    .validate()
    .unwrap();
    assert_eq!(res.is_complete.to_text(), "COMPLETE");
}

#[test]
fn to_do_id_must_not_be_empty() {
    let bad = ToDoId::new("".to_string());
    assert!(bad.is_err());
    assert_eq!(bad.err().unwrap().message(), "To Id must be greater than 0");

    let good = ToDoId::new("42".to_string());
    assert_eq!(good.unwrap().get_value(), "42");
}

#[test]
fn title_and_owner_constructors_enforce_their_invariants() {
    assert!(Title::new("".to_string()).is_err());
    assert_eq!(Title::new("ok".to_string()).unwrap().get_value(), "ok");
    assert!(OwnerId::new("".to_string()).is_err());
    assert_eq!(
        OwnerId::new("alice".to_string()).unwrap().get_value(),
        "alice"
    );
}
