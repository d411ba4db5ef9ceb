use contacts::backend::{duplicate_error, missing_error};
use contacts::contact_error::{ContactsError, NotFoundError};
use contacts::service::update_outcome;
use contacts::sql::{first_contact, first_rows, insert_outcome, page_offset};
use contacts::domain::Contact;

#[test]
fn input_error_message_has_its_prefix() {
    let e = ContactsError::from(String::from("bad field"));
    assert!(matches!(e, ContactsError::InputError(_)));
    assert_eq!(e.message(), "Failed to parse input: bad field");
}

#[test]
fn not_found_message_has_its_prefix() {
    let inner = NotFoundError::from(String::from("Lee"));
    assert_eq!(inner.message(), "No entries found: Lee");
    let e = ContactsError::from(inner);
    assert!(matches!(e, ContactsError::NotFoundError(_)));
    assert_eq!(e.message(), "No entries: Lee");
}

#[test]
fn duplicate_message_names_the_contact() {
    let e = duplicate_error("Lee");
    assert!(matches!(e, ContactsError::DuplicateError(_)));
    assert_eq!(e.message(), "Already stored: Contact already exists with name Lee");
}

#[test]
fn missing_error_is_a_not_found() {
    match missing_error() {
        ContactsError::NotFoundError(m) => assert_eq!(m, "No entries for this name"),
        other => panic!("expected not found, got {:?}", other),
    }
}

#[test]
fn sqlite_error_is_wrapped_with_its_cause() {
    let e = ContactsError::from(rusqlite::Error::QueryReturnedNoRows);
    assert!(matches!(e, ContactsError::SqliteError(_)));
    let text = e.message();
    assert!(text.starts_with("SQLite error: "));
    assert_eq!(text, format!("SQLite error: {}", rusqlite::Error::QueryReturnedNoRows));
}

#[test]
fn serde_error_is_wrapped_with_its_cause() {
    let cause = serde_json::from_str::<i64>("not a number").unwrap_err();
    let expected = format!("Failed to serialize/deserialize contact: {}", cause);
    let e = ContactsError::from(cause);
    assert!(matches!(e, ContactsError::SerdeError(_)));
    assert_eq!(e.message(), expected);
}

#[test]
fn update_of_no_rows_is_not_found() {
    match update_outcome("missing", 0) {
        Err(ContactsError::NotFoundError(m)) => assert_eq!(m, "no contact named missing"),
        other => panic!("expected not found, got {:?}", other),
    }
    assert!(update_outcome("Lee", 1).is_ok());
    assert!(update_outcome("Lee", 3).is_ok());
}

#[test]
fn insert_of_no_rows_is_a_duplicate() {
    match insert_outcome("Lee", 0) {
        Err(ContactsError::DuplicateError(m)) => {
            assert_eq!(m, "Contact already exists with name Lee")
        }
        other => panic!("expected a duplicate, got {:?}", other),
    }
    assert!(insert_outcome("Lee", 1).is_ok());
}

#[test]
fn first_contact_takes_the_first_row() {
    let rows = vec![Contact::new("a", "a@x.com", 1), Contact::new("b", "b@x.com", 2)];
    assert_eq!(first_contact(rows).unwrap(), Contact::new("a", "a@x.com", 1));
    assert!(matches!(first_contact(Vec::new()), Err(ContactsError::NotFoundError(_))));
}

#[test]
fn page_offset_is_the_product() {
    assert_eq!(page_offset(0, 10), Some(0));
    assert_eq!(page_offset(3, 7), Some(21));
    assert_eq!(page_offset(5, 0), Some(0));
    assert_eq!(page_offset(usize::MAX, 2), None);
    assert_eq!(page_offset(usize::MAX, 1), None);
}

#[test]
fn first_rows_keeps_the_front() {
    let rows = vec![
        Contact::new("a", "a@x.com", 1),
        Contact::new("b", "b@x.com", 2),
        Contact::new("c", "c@x.com", 3),
    ];
    let page = first_rows(rows, 2);
    assert_eq!(page, vec![Contact::new("a", "a@x.com", 1), Contact::new("b", "b@x.com", 2)]);
    let rows = vec![Contact::new("a", "a@x.com", 1)];
    assert_eq!(first_rows(rows, 5), vec![Contact::new("a", "a@x.com", 1)]);
    assert_eq!(first_rows(vec![Contact::new("a", "a@x.com", 1)], 0), Vec::new());
}
