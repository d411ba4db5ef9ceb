use contacts::domain::{Contact, GetAllQueryParams, UpdateEmailBody, UpdatePhoneNumberBody};
use contacts::text::{text_eq, text_less};

#[test]
fn text_eq_compares_whole_texts() {
    assert!(text_eq("", ""));
    assert!(text_eq("abc", "abc"));
    assert!(!text_eq("abc", "abd"));
    assert!(!text_eq("abc", "ab"));
    assert!(!text_eq("ab", "abc"));
}

#[test]
fn text_less_is_the_order_of_strings() {
    let samples = ["", "a", "A", "ab", "abc", "b", "ba", "é", "z", "zz", "日本", "a b", "a-b"];
    for a in samples {
        for b in samples {
            assert_eq!(text_less(a, b), a < b, "{:?} < {:?}", a, b);
        }
    }
}

#[test]
fn a_contact_copies_its_fields() {
    let c = Contact::new("Lee", "lee@x.com", 31612345678);
    assert_eq!(c.name, "Lee");
    assert_eq!(c.email, "lee@x.com");
    assert_eq!(c.phone_number, 31612345678);
    assert_eq!(c.duplicate(), c);
}

#[test]
fn request_payloads_hold_their_fields() {
    let e = UpdateEmailBody { name: String::from("Lee"), email: String::from("lee@y.com") };
    assert_eq!(e.name, "Lee");
    assert_eq!(e.email, "lee@y.com");
    let p = UpdatePhoneNumberBody { name: String::from("Lee"), phone_number: 31699999999 };
    assert_eq!(p.phone_number, 31699999999);
    let q = GetAllQueryParams { page_num: 1, page_size: 2 };
    assert_eq!(q.page_num * q.page_size, 2);
}
