use contacts::contact_error::ContactsError;
use contacts::domain::Contact;
use contacts::service::{ContactsService, SqlContactsService};

fn s(text: &str) -> String {
    String::from(text)
}

fn names(page: &Vec<Contact>) -> Vec<String> {
    page.iter().map(|c| c.name.clone()).collect()
}

fn filled(order: &[&str]) -> SqlContactsService {
    let mut service = SqlContactsService::open(":memory:").unwrap();
    for name in order {
        let email = format!("{}@x.com", name.to_lowercase());
        service.add(s(name), email, s("31612345678")).unwrap();
    }
    service
}

#[test]
fn sql_empty_name_is_an_input_error() {
    let mut service = SqlContactsService::open(":memory:").unwrap();
    assert!(matches!(
        service.add(s(""), s("a@b.com"), s("31612345678")),
        Err(ContactsError::InputError(_))
    ));
    assert!(matches!(
        service.update_email(s(""), s("a@b.com")),
        Err(ContactsError::InputError(_))
    ));
    assert!(matches!(
        service.update_phone(s(""), s("31612345678")),
        Err(ContactsError::InputError(_))
    ));
    assert_eq!(service.get_all(0, 10).unwrap(), Vec::new());
}

#[test]
fn sql_invalid_fields_are_input_errors_and_store_nothing() {
    let mut service = SqlContactsService::open(":memory:").unwrap();
    assert!(matches!(
        service.add(s("Lee"), s("not-an-email"), s("31612345678")),
        Err(ContactsError::InputError(_))
    ));
    assert!(matches!(
        service.add(s("Lee"), s("lee@x.com"), s("12")),
        Err(ContactsError::InputError(_))
    ));
    assert!(matches!(service.get_by_name(s("Lee")), Err(ContactsError::NotFoundError(_))));
}

#[test]
fn sql_add_then_get_round_trips() {
    let mut service = SqlContactsService::open(":memory:").unwrap();
    let added = service.add(s("Lee"), s("lee@x.com"), s("31612345678")).unwrap();
    assert_eq!(added, Contact::new("Lee", "lee@x.com", 31612345678));
    assert_eq!(service.get_by_name(s("Lee")).unwrap(), Contact::new("Lee", "lee@x.com", 31612345678));
}

#[test]
fn sql_second_add_of_a_name_is_refused() {
    let mut service = SqlContactsService::open(":memory:").unwrap();
    service.add(s("Lee"), s("lee@x.com"), s("31612345678")).unwrap();
    match service.add(s("Lee"), s("other@x.com"), s("31699999999")) {
        Err(ContactsError::DuplicateError(m)) => {
            assert_eq!(m, "Contact already exists with name Lee")
        }
        other => panic!("expected a duplicate, got {:?}", other),
    }
    assert_eq!(service.get_by_name(s("Lee")).unwrap(), Contact::new("Lee", "lee@x.com", 31612345678));
    assert_eq!(service.get_all(0, 10).unwrap().len(), 1);
}

#[test]
fn sql_delete_twice_succeeds_both_times() {
    let mut service = filled(&["Lee"]);
    assert_eq!(service.delete(s("Lee")).unwrap(), "contact deleted");
    assert_eq!(service.delete(s("Lee")).unwrap(), "contact deleted");
    assert!(matches!(service.get_by_name(s("Lee")), Err(ContactsError::NotFoundError(_))));
}

#[test]
fn sql_delete_leaves_the_others() {
    let mut service = filled(&["b", "a", "c"]);
    service.delete(s("b")).unwrap();
    assert_eq!(names(&service.get_all(0, 10).unwrap()), vec!["a", "c"]);
    service.delete(s("zzz")).unwrap();
    assert_eq!(names(&service.get_all(0, 10).unwrap()), vec!["a", "c"]);
}

#[test]
fn sql_second_page_of_two() {
    let mut service = filled(&["a", "b", "c", "d"]);
    assert_eq!(names(&service.get_all(1, 2).unwrap()), vec!["c", "d"]);
    assert_eq!(names(&service.get_all(0, 2).unwrap()), vec!["a", "b"]);
}

#[test]
fn sql_pages_are_in_name_order_whatever_the_order_of_insertion() {
    let mut service = filled(&["d", "b", "a", "c"]);
    assert_eq!(names(&service.get_all(1, 2).unwrap()), vec!["c", "d"]);
    assert_eq!(names(&service.get_all(0, 3).unwrap()), vec!["a", "b", "c"]);
    assert_eq!(names(&service.get_all(1, 3).unwrap()), vec!["d"]);
}

#[test]
fn sql_page_past_the_end_is_empty() {
    let mut service = filled(&["a", "b", "c", "d"]);
    assert_eq!(service.get_all(5, 2).unwrap(), Vec::new());
    assert_eq!(service.get_all(2, 2).unwrap(), Vec::new());
    assert_eq!(service.get_all(usize::MAX, usize::MAX).unwrap(), Vec::new());
    assert_eq!(service.get_all(usize::MAX, 2).unwrap(), Vec::new());
}

#[test]
fn sql_page_of_size_zero_is_empty() {
    let mut service = filled(&["a", "b"]);
    assert_eq!(service.get_all(0, 0).unwrap(), Vec::new());
    assert_eq!(service.get_all(3, 0).unwrap(), Vec::new());
}

#[test]
fn sql_missing_name_is_not_found() {
    let mut service = filled(&["a"]);
    match service.get_by_name(s("missing")) {
        Err(ContactsError::NotFoundError(m)) => assert_eq!(m, "No entries for this name"),
        other => panic!("expected not found, got {:?}", other),
    }
}

#[test]
fn sql_update_of_a_missing_name_is_not_found() {
    let mut service = filled(&["a"]);
    match service.update_email(s("missing"), s("x@y.com")) {
        Err(ContactsError::NotFoundError(m)) => assert_eq!(m, "no contact named missing"),
        other => panic!("expected not found, got {:?}", other),
    }
    match service.update_phone(s("missing"), s("31612345678")) {
        Err(ContactsError::NotFoundError(m)) => assert_eq!(m, "no contact named missing"),
        other => panic!("expected not found, got {:?}", other),
    }
    assert_eq!(names(&service.get_all(0, 10).unwrap()), vec!["a"]);
}

#[test]
fn sql_update_email_keeps_the_phone() {
    let mut service = filled(&["a", "Lee", "z"]);
    let updated = service.update_email(s("Lee"), s("new@y.org")).unwrap();
    assert_eq!(updated, Contact::new("Lee", "new@y.org", 31612345678));
    assert_eq!(service.get_by_name(s("Lee")).unwrap(), updated);
    assert_eq!(service.get_by_name(s("a")).unwrap(), Contact::new("a", "a@x.com", 31612345678));
}

#[test]
fn sql_life_of_a_contact() {
    let mut service = SqlContactsService::open(":memory:").unwrap();
    assert!(service.add(s("Lee"), s("lee@x.com"), s("31612345678")).is_ok());
    let updated = service.update_phone(s("Lee"), s("31699999999")).unwrap();
    assert_eq!(updated.phone_number, 31699999999);
    assert_eq!(service.get_by_name(s("Lee")).unwrap(), Contact::new("Lee", "lee@x.com", 31699999999));
    assert!(service.delete(s("Lee")).is_ok());
    assert!(matches!(service.get_by_name(s("Lee")), Err(ContactsError::NotFoundError(_))));
}

#[test]
fn sql_database_file_keeps_the_contacts() {
    let path = "/tmp/contacts_kept_between_connections.db";
    {
        let mut service = SqlContactsService::open(path).unwrap();
        service.delete(s("Lee")).unwrap();
        service.add(s("Lee"), s("lee@x.com"), s("31612345678")).unwrap();
    }
    {
        let mut service = SqlContactsService::open(path).unwrap();
        assert_eq!(
            service.get_by_name(s("Lee")).unwrap(),
            Contact::new("Lee", "lee@x.com", 31612345678)
        );
        service.delete(s("Lee")).unwrap();
        assert!(matches!(service.get_by_name(s("Lee")), Err(ContactsError::NotFoundError(_))));
    }
}

#[test]
fn sql_open_fails_where_no_file_can_be() {
    assert!(SqlContactsService::open("/nonexistent-directory/sub/contacts.db").is_err());
}

#[test]
fn sql_phone_numbers_above_32_bits_survive() {
    let mut service = SqlContactsService::open(":memory:").unwrap();
    service.add(s("Lee"), s("lee@x.com"), s("319999999999")).unwrap();
    assert_eq!(service.get_by_name(s("Lee")).unwrap().phone_number, 319999999999);
}

#[test]
fn sql_many_names_come_out_in_order() {
    let mut service = SqlContactsService::open(":memory:").unwrap();
    let mut expected: Vec<String> = Vec::new();
    let mut k: usize = 0;
    while k < 30 {
        let name = format!("n{}", (k * 17) % 30);
        service.add(name.clone(), s("a@b.com"), s("31612345678")).unwrap();
        expected.push(name);
        k += 1;
    }
    expected.sort();
    let mut seen: Vec<String> = Vec::new();
    let mut page_num: usize = 0;
    loop {
        let page = service.get_all(page_num, 7).unwrap();
        if page.is_empty() {
            break;
        }
        seen.extend(names(&page));
        page_num += 1;
    }
    assert_eq!(seen, expected);
}
