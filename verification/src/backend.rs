//! The storage contract: what a backend is asked to do, and what a backend
//! that keeps its own directory promises in return.

use vstd::prelude::*;
use vstd::string::StringExecFns;
use crate::contact_error::{reports, ContactsError, Failure, NotFoundError};
use crate::domain::{contact_views, Contact, ContactModel};
use crate::model::{
    contains, lookup, page_window, rows_named, sorted_by_name, with_contact, with_email,
    with_phone, without_name,
};

verus! {

/// The message of the failure that refuses a second contact under one name.
pub open spec fn duplicate_message(name: Seq<char>) -> Seq<char> {
    "Contact already exists with name "@ + name
}

/// The message of the failure that reports an unknown name on lookup.
pub open spec fn missing_message() -> Seq<char> {
    "No entries for this name"@
}

/// The listing after an insertion: a contact under a new name takes its place
/// in the order; one under a stored name changes nothing.
pub open spec fn after_insert(l: Seq<ContactModel>, c: ContactModel) -> Seq<ContactModel> {
    if contains(l, c.name) {
        l
    } else {
        with_contact(l, c)
    }
}

/// The failure of an insertion, if it fails: the name is already stored.
pub open spec fn insert_failure(l: Seq<ContactModel>, name: Seq<char>) -> Option<Failure> {
    if contains(l, name) {
        Some(Failure::Duplicate(duplicate_message(name)))
    } else {
        None
    }
}

/// What a lookup by name returns.
pub open spec fn lookup_outcome(l: Seq<ContactModel>, name: Seq<char>) -> Result<
    ContactModel,
    Failure,
> {
    match lookup(l, name) {
        Some(c) => Ok(c),
        None => Err(Failure::NotFound(missing_message())),
    }
}

/// A result carries exactly the expected contact or the expected failure.
pub open spec fn yields(r: Result<Contact, ContactsError>, expected: Result<ContactModel, Failure>)
    -> bool {
    match r {
        Ok(c) => expected == Ok::<ContactModel, Failure>(c@),
        Err(e) => expected == Err::<ContactModel, Failure>(e@),
    }
}

/// The failure that refuses a second contact called `name`.
pub fn duplicate_error(name: &str) -> (error: ContactsError)
    ensures
        error@ == Failure::Duplicate(duplicate_message(name@)),
{
    ContactsError::DuplicateError(String::from_str("Contact already exists with name ").concat(name))
}

/// The failure that reports an unknown name on lookup.
pub fn missing_error() -> (error: ContactsError)
    ensures
        error@ == Failure::NotFound(missing_message()),
{
    ContactsError::from(NotFoundError::from(String::from_str("No entries for this name")))
}

/// A store of contacts keyed by name.
///
/// A backend that is `reliable` keeps a directory of its own that nothing
/// else changes, never fails, and answers exactly as its `listing` says. Of
/// any other backend a caller learns only what each call returns.
pub trait StorageBackend {
    /// Whether `listing` describes every answer of this backend.
    spec fn reliable(&self) -> bool;

    /// The stored contacts in name order.
    spec fn listing(&self) -> Seq<ContactModel>;

    /// A reliable backend's listing is in order, so no name occurs twice.
    proof fn listing_in_order(&self)
        ensures
            self.reliable() ==> sorted_by_name(self.listing()),
    ;

    /// Stores a new contact; a contact whose name is already stored is
    /// refused and changes nothing.
    fn insert(&mut self, contact: Contact) -> (r: Result<(), ContactsError>)
        ensures
            old(self).reliable() ==> final(self).reliable(),
            old(self).reliable() ==> final(self).listing() == after_insert(
                old(self).listing(),
                contact@,
            ),
            old(self).reliable() ==> reports(r, insert_failure(old(self).listing(), contact@.name)),
    ;

    /// Replaces the email of the contact called `name` and returns how many
    /// contacts that touched.
    fn update_email(&mut self, name: &str, email: &str) -> (r: Result<usize, ContactsError>)
        ensures
            old(self).reliable() ==> final(self).reliable(),
            old(self).reliable() ==> final(self).listing() == with_email(
                old(self).listing(),
                name@,
                email@,
            ),
            old(self).reliable() ==> r is Ok && r->Ok_0 == rows_named(old(self).listing(), name@),
    ;

    /// Replaces the phone number of the contact called `name` and returns how
    /// many contacts that touched.
    fn update_phone(&mut self, name: &str, phone_number: i64) -> (r: Result<usize, ContactsError>)
        ensures
            old(self).reliable() ==> final(self).reliable(),
            old(self).reliable() ==> final(self).listing() == with_phone(
                old(self).listing(),
                name@,
                phone_number,
            ),
            old(self).reliable() ==> r is Ok && r->Ok_0 == rows_named(old(self).listing(), name@),
    ;

    /// Removes the contact called `name`; an unknown name is no failure.
    fn delete(&mut self, name: &str) -> (r: Result<(), ContactsError>)
        ensures
            old(self).reliable() ==> final(self).reliable(),
            old(self).reliable() ==> final(self).listing() == without_name(
                old(self).listing(),
                name@,
            ),
            old(self).reliable() ==> r is Ok,
    ;

    /// The contact called `name`, or the failure that says there is none.
    fn get_by_name(&self, name: &str) -> (r: Result<Contact, ContactsError>)
        ensures
            self.reliable() ==> yields(r, lookup_outcome(self.listing(), name@)),
    ;

    /// One page of the directory in name order; a page past the end is empty.
    fn get_page(&self, page_num: usize, page_size: usize) -> (r: Result<
        Vec<Contact>,
        ContactsError,
    >)
        ensures
            r matches Ok(page) ==> page.len() <= page_size,
            self.reliable() ==> r is Ok && contact_views(r->Ok_0@) == page_window(
                self.listing(),
                page_num as int,
                page_size as int,
            ),
    ;
}

} // verus!
