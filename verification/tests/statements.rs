use contacts::backend::StorageBackend;
use contacts::contact_error::ContactsError;
use contacts::domain::Contact;
use contacts::sql::{
    create_table_statement, delete_statement, get_by_name_statement, insert_statement,
    page_statement, rows_changed, rows_read, update_email_statement, update_phone_statement,
    SqlBackend, CREATE_TABLE_QUERY, DELETE_CONTACT_QUERY, GET_ALL_QUERY, GET_BY_NAME_QUERY,
    INSERT_CONTACT_QUERY, UPDATE_EMAIL_QUERY, UPDATE_PHONE_QUERY,
};

#[test]
fn create_table_binds_nothing() {
    let s = create_table_statement();
    assert_eq!(s.sql, CREATE_TABLE_QUERY);
    assert!(s.texts.is_empty());
    assert!(s.numbers.is_empty());
}

#[test]
fn insert_binds_name_email_and_number() {
    let s = insert_statement(&Contact::new("Lee", "lee@x.com", 31612345678));
    assert_eq!(s.sql, INSERT_CONTACT_QUERY);
    assert_eq!(s.texts, vec![String::from("Lee"), String::from("lee@x.com")]);
    assert_eq!(s.numbers, vec![31612345678]);
}

#[test]
fn updates_bind_the_name_first() {
    let s = update_email_statement("Lee", "lee@y.com");
    assert_eq!(s.sql, UPDATE_EMAIL_QUERY);
    assert_eq!(s.texts, vec![String::from("Lee"), String::from("lee@y.com")]);
    assert!(s.numbers.is_empty());
    let s = update_phone_statement("Lee", 31699999999);
    assert_eq!(s.sql, UPDATE_PHONE_QUERY);
    assert_eq!(s.texts, vec![String::from("Lee")]);
    assert_eq!(s.numbers, vec![31699999999]);
}

#[test]
fn delete_and_lookup_bind_the_name() {
    let s = delete_statement("Lee");
    assert_eq!(s.sql, DELETE_CONTACT_QUERY);
    assert_eq!(s.texts, vec![String::from("Lee")]);
    assert!(s.numbers.is_empty());
    let s = get_by_name_statement("Lee");
    assert_eq!(s.sql, GET_BY_NAME_QUERY);
    assert_eq!(s.texts, vec![String::from("Lee")]);
    assert!(s.numbers.is_empty());
}

#[test]
fn a_page_binds_limit_then_offset() {
    let s = page_statement(3, 7).unwrap();
    assert_eq!(s.sql, GET_ALL_QUERY);
    assert!(s.texts.is_empty());
    assert_eq!(s.numbers, vec![7, 21]);
    let s = page_statement(0, 0).unwrap();
    assert_eq!(s.numbers, vec![0, 0]);
    let s = page_statement(0, usize::MAX).unwrap();
    assert_eq!(s.numbers, vec![i64::MAX, 0]);
}

#[test]
fn a_page_out_of_reach_has_no_statement() {
    assert!(page_statement(usize::MAX, 2).is_none());
    assert!(page_statement(usize::MAX, usize::MAX).is_none());
    assert!(page_statement(1, usize::MAX).is_none());
}

#[test]
fn rows_changed_wraps_the_cause() {
    assert!(matches!(rows_changed(Ok(0)), Ok(0)));
    assert!(matches!(rows_changed(Ok(3)), Ok(3)));
    match rows_changed(Err(rusqlite::Error::QueryReturnedNoRows)) {
        Err(ContactsError::SqliteError(rusqlite::Error::QueryReturnedNoRows)) => {}
        other => panic!("expected the cause wrapped, got {:?}", other),
    }
}

#[test]
fn rows_read_wraps_the_cause() {
    let rows = vec![Contact::new("a", "a@x.com", 1)];
    assert_eq!(rows_read(Ok(rows)).unwrap(), vec![Contact::new("a", "a@x.com", 1)]);
    match rows_read(Err(rusqlite::Error::InvalidQuery)) {
        Err(ContactsError::SqliteError(rusqlite::Error::InvalidQuery)) => {}
        other => panic!("expected the cause wrapped, got {:?}", other),
    }
}

#[test]
fn a_backend_remembers_its_database() {
    let mut backend = SqlBackend::open(":memory:").unwrap();
    assert_eq!(backend.path(), ":memory:");
    backend.insert(Contact::new("Lee", "lee@x.com", 31612345678)).unwrap();
    backend.delete("Lee").unwrap();
    assert_eq!(backend.path(), ":memory:");
}

#[test]
fn a_backend_reports_only_its_own_failures() {
    let mut backend = SqlBackend::open(":memory:").unwrap();
    backend.insert(Contact::new("Lee", "lee@x.com", 31612345678)).unwrap();
    match backend.insert(Contact::new("Lee", "other@x.com", 31699999999)) {
        Err(ContactsError::DuplicateError(m)) => {
            assert_eq!(m, "Contact already exists with name Lee")
        }
        other => panic!("expected a duplicate, got {:?}", other),
    }
    assert_eq!(backend.update_email("Lee", "lee@y.com").unwrap(), 1);
    assert_eq!(backend.update_email("Bob", "bob@y.com").unwrap(), 0);
    assert_eq!(backend.update_phone("Lee", 31699999999).unwrap(), 1);
    assert_eq!(backend.update_phone("Bob", 31699999999).unwrap(), 0);
    assert_eq!(
        backend.get_by_name("Lee").unwrap(),
        Contact::new("Lee", "lee@y.com", 31699999999)
    );
    match backend.get_by_name("Bob") {
        Err(ContactsError::NotFoundError(m)) => assert_eq!(m, "No entries for this name"),
        other => panic!("expected not found, got {:?}", other),
    }
    assert_eq!(backend.get_page(usize::MAX, 2).unwrap(), Vec::new());
    assert_eq!(backend.get_page(0, 1).unwrap().len(), 1);
    backend.delete("Bob").unwrap();
    backend.delete("Lee").unwrap();
    assert_eq!(backend.get_page(0, 5).unwrap(), Vec::new());
}
