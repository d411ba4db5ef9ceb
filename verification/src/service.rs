//! The contacts service: validation first, then one call into the storage
//! backend, then the stored contact read back.

use vstd::prelude::*;
use vstd::string::StringExecFns;
use crate::backend::{
    after_insert, duplicate_message, lookup_outcome, yields, StorageBackend,
};
use crate::contact_error::{reports, ContactsError, Failure, NotFoundError};
use crate::domain::{contact_views, Contact, ContactModel};
use crate::memory::MemoryBackend;
use crate::model::{
    contains, lemma_with_contact, lemma_with_email, lemma_with_phone, lookup, page_window,
    sorted_by_name, with_email, with_phone, without_name,
};
use crate::sql::{SqlBackend, DEFAULT_DATABASE};
use crate::validator::{input_failure, parse_phone, parsed_phone, validate_input};

verus! {

/// The message of the failure that reports an update of an unknown name.
pub open spec fn unknown_message(name: Seq<char>) -> Seq<char> {
    "no contact named "@ + name
}

/// The contact that valid input describes.
pub open spec fn described(name: Seq<char>, email: Seq<char>, phone: Seq<char>) -> ContactModel {
    ContactModel { name, email, phone_number: parsed_phone(phone)->0 }
}

/// What `add` returns on a directory with listing `l`.
pub open spec fn add_outcome(
    l: Seq<ContactModel>,
    name: Seq<char>,
    email: Seq<char>,
    phone: Seq<char>,
) -> Result<ContactModel, Failure> {
    match input_failure(name, Some(email), Some(phone)) {
        Some(f) => Err(f),
        None => if contains(l, name) {
            Err(Failure::Duplicate(duplicate_message(name)))
        } else {
            Ok(described(name, email, phone))
        },
    }
}

/// The listing that `add` leaves.
pub open spec fn after_add(
    l: Seq<ContactModel>,
    name: Seq<char>,
    email: Seq<char>,
    phone: Seq<char>,
) -> Seq<ContactModel> {
    if input_failure(name, Some(email), Some(phone)) is Some {
        l
    } else {
        after_insert(l, described(name, email, phone))
    }
}

/// What `update_email` returns on a directory with listing `l`.
pub open spec fn update_email_outcome(l: Seq<ContactModel>, name: Seq<char>, email: Seq<char>)
    -> Result<ContactModel, Failure> {
    match input_failure(name, Some(email), None) {
        Some(f) => Err(f),
        None => match lookup(l, name) {
            Some(c) => Ok(ContactModel { name, email, phone_number: c.phone_number }),
            None => Err(Failure::NotFound(unknown_message(name))),
        },
    }
}

/// The listing that `update_email` leaves.
pub open spec fn after_update_email(l: Seq<ContactModel>, name: Seq<char>, email: Seq<char>)
    -> Seq<ContactModel> {
    if input_failure(name, Some(email), None) is Some {
        l
    } else {
        with_email(l, name, email)
    }
}

/// What `update_phone` returns on a directory with listing `l`.
pub open spec fn update_phone_outcome(l: Seq<ContactModel>, name: Seq<char>, phone: Seq<char>)
    -> Result<ContactModel, Failure> {
    match input_failure(name, None, Some(phone)) {
        Some(f) => Err(f),
        None => match lookup(l, name) {
            Some(c) => Ok(ContactModel { name, email: c.email, phone_number: parsed_phone(phone)->0 }),
            None => Err(Failure::NotFound(unknown_message(name))),
        },
    }
}

/// The listing that `update_phone` leaves.
pub open spec fn after_update_phone(l: Seq<ContactModel>, name: Seq<char>, phone: Seq<char>)
    -> Seq<ContactModel> {
    if input_failure(name, None, Some(phone)) is Some {
        l
    } else {
        with_phone(l, name, parsed_phone(phone)->0)
    }
}

/// What `delete` returns on a directory with listing `l`: success, whether
/// or not the name is stored.
pub open spec fn delete_outcome(l: Seq<ContactModel>, name: Seq<char>) -> Result<
    Seq<char>,
    Failure,
> {
    Ok("contact deleted"@)
}

/// What an update comes to when the backend reports `rows` contacts touched:
/// none means that the name is unknown.
pub fn update_outcome(name: &str, rows: usize) -> (r: Result<(), ContactsError>)
    ensures
        reports(
            r,
            if rows == 0 {
                Some(Failure::NotFound(unknown_message(name@)))
            } else {
                None
            },
        ),
{
    if rows == 0 {
        let missing = NotFoundError::from(String::from_str("no contact named ").concat(name));
        Err(ContactsError::from(missing))
    } else {
        Ok(())
    }
}

/// The operations of a contacts directory.
///
/// Malformed input is always refused before anything is stored. On a
/// `reliable` directory every result and the directory afterwards are fixed
/// by the listing before the call.
pub trait ContactsService {
    /// Whether `listing` describes every answer of this service.
    spec fn reliable(&self) -> bool;

    /// The stored contacts in name order.
    spec fn listing(&self) -> Seq<ContactModel>;

    /// A reliable service's listing is in order, so no name occurs twice.
    proof fn listing_in_order(&self)
        ensures
            self.reliable() ==> sorted_by_name(self.listing()),
    ;

    /// Validates all three fields, stores the contact under a new name and
    /// returns it as stored.
    fn add(&mut self, name: String, email: String, phone_number: String) -> (r: Result<
        Contact,
        ContactsError,
    >)
        ensures
            input_failure(name@, Some(email@), Some(phone_number@)) matches Some(f) ==> r is Err
                && r->Err_0@ == f && final(self).reliable() == old(self).reliable()
                && final(self).listing() == old(self).listing(),
            old(self).reliable() ==> final(self).reliable(),
            old(self).reliable() ==> final(self).listing() == after_add(
                old(self).listing(),
                name@,
                email@,
                phone_number@,
            ),
            old(self).reliable() ==> yields(
                r,
                add_outcome(old(self).listing(), name@, email@, phone_number@),
            ),
    ;

    /// Validates the name and the email, replaces the email of the contact
    /// called `name` and returns the contact as stored.
    fn update_email(&mut self, name: String, email: String) -> (r: Result<Contact, ContactsError>)
        ensures
            input_failure(name@, Some(email@), None) matches Some(f) ==> r is Err && r->Err_0@ == f
                && final(self).reliable() == old(self).reliable()
                && final(self).listing() == old(self).listing(),
            old(self).reliable() ==> final(self).reliable(),
            old(self).reliable() ==> final(self).listing() == after_update_email(
                old(self).listing(),
                name@,
                email@,
            ),
            old(self).reliable() ==> yields(
                r,
                update_email_outcome(old(self).listing(), name@, email@),
            ),
    ;

    /// Validates the name and the phone number, replaces the phone number of
    /// the contact called `name` and returns the contact as stored.
    fn update_phone(&mut self, name: String, phone_number: String) -> (r: Result<
        Contact,
        ContactsError,
    >)
        ensures
            input_failure(name@, None, Some(phone_number@)) matches Some(f) ==> r is Err
                && r->Err_0@ == f && final(self).reliable() == old(self).reliable()
                && final(self).listing() == old(self).listing(),
            old(self).reliable() ==> final(self).reliable(),
            old(self).reliable() ==> final(self).listing() == after_update_phone(
                old(self).listing(),
                name@,
                phone_number@,
            ),
            old(self).reliable() ==> yields(
                r,
                update_phone_outcome(old(self).listing(), name@, phone_number@),
            ),
    ;

    /// Removes the contact called `name`. An unknown name is no failure.
    fn delete(&mut self, name: String) -> (r: Result<String, ContactsError>)
        ensures
            r matches Ok(text) ==> text@ == "contact deleted"@,
            old(self).reliable() ==> final(self).reliable(),
            old(self).reliable() ==> final(self).listing() == without_name(
                old(self).listing(),
                name@,
            ),
            old(self).reliable() ==> r is Ok && delete_outcome(old(self).listing(), name@) == Ok::<
                Seq<char>,
                Failure,
            >(r->Ok_0@),
    ;

    /// The contact called `name`, or the failure that says there is none.
    fn get_by_name(&mut self, name: String) -> (r: Result<Contact, ContactsError>)
        ensures
            final(self).reliable() == old(self).reliable(),
            final(self).listing() == old(self).listing(),
            old(self).reliable() ==> yields(r, lookup_outcome(old(self).listing(), name@)),
    ;

    /// One page of the directory in name order. A page past the end is
    /// empty, and no failure.
    fn get_all(&mut self, page_num: usize, page_size: usize) -> (r: Result<
        Vec<Contact>,
        ContactsError,
    >)
        ensures
            final(self).reliable() == old(self).reliable(),
            final(self).listing() == old(self).listing(),
            r matches Ok(page) ==> page.len() <= page_size,
            old(self).reliable() ==> r is Ok && contact_views(r->Ok_0@) == page_window(
                old(self).listing(),
                page_num as int,
                page_size as int,
            ),
    ;
}

/// A contacts service over the storage backend `B`.
pub struct Contacts<B: StorageBackend> {
    backend: B,
}

/// The service over an SQLite database.
pub type SqlContactsService = Contacts<SqlBackend>;

/// The service over a directory held in memory.
pub type MemoryContactsService = Contacts<MemoryBackend>;

impl<B: StorageBackend> Contacts<B> {
    /// The service that stores its contacts in `backend`.
    pub fn with_backend(backend: B) -> (service: Contacts<B>)
        ensures
            service.backend() == backend,
    {
        Contacts { backend }
    }

    /// The backend that this service stores its contacts in.
    pub closed spec fn backend(&self) -> B {
        self.backend
    }
}

impl<B: StorageBackend> ContactsService for Contacts<B> {
    open spec fn reliable(&self) -> bool {
        self.backend().reliable()
    }

    open spec fn listing(&self) -> Seq<ContactModel> {
        self.backend().listing()
    }

    proof fn listing_in_order(&self) {
        self.backend.listing_in_order();
    }

    fn add(&mut self, name: String, email: String, phone_number: String) -> (r: Result<
        Contact,
        ContactsError,
    >)
        ensures
            input_failure(name@, Some(email@), Some(phone_number@)) is Some ==> final(self).backend()
                == old(self).backend(),
    {
        match validate_input(&name, Some(&email), Some(&phone_number)) {
            Ok(_) => {},
            Err(e) => {
                return Err(e);
            },
        }
        let number = match parse_phone(phone_number.as_str()) {
            Some(number) => number,
            None => {
                return Err(
                    ContactsError::InputError(
                        String::from_str("Invalid phone number entered: ").concat(
                            phone_number.as_str(),
                        ),
                    ),
                );
            },
        };
        let contact = Contact { name: name.clone(), email, phone_number: number };
        proof {
            if self.backend.reliable() {
                self.backend.listing_in_order();
                if !contains(self.backend.listing(), name@) {
                    lemma_with_contact(self.backend.listing(), contact@);
                }
            }
        }
        match self.backend.insert(contact) {
            Ok(_) => {},
            Err(e) => {
                return Err(e);
            },
        }
        self.backend.get_by_name(name.as_str())
    }

    fn update_email(&mut self, name: String, email: String) -> (r: Result<Contact, ContactsError>)
        ensures
            input_failure(name@, Some(email@), None) is Some ==> final(self).backend() == old(self).backend(),
    {
        match validate_input(&name, Some(&email), None) {
            Ok(_) => {},
            Err(e) => {
                return Err(e);
            },
        }
        proof {
            if self.backend.reliable() {
                self.backend.listing_in_order();
                lemma_with_email(self.backend.listing(), name@, email@);
            }
        }
        let rows = match self.backend.update_email(name.as_str(), email.as_str()) {
            Ok(rows) => rows,
            Err(e) => {
                return Err(e);
            },
        };
        match update_outcome(name.as_str(), rows) {
            Ok(_) => {},
            Err(e) => {
                return Err(e);
            },
        }
        self.backend.get_by_name(name.as_str())
    }

    fn update_phone(&mut self, name: String, phone_number: String) -> (r: Result<
        Contact,
        ContactsError,
    >)
        ensures
            input_failure(name@, None, Some(phone_number@)) is Some ==> final(self).backend()
                == old(self).backend(),
    {
        match validate_input(&name, None, Some(&phone_number)) {
            Ok(_) => {},
            Err(e) => {
                return Err(e);
            },
        }
        let number = match parse_phone(phone_number.as_str()) {
            Some(number) => number,
            None => {
                return Err(
                    ContactsError::InputError(
                        String::from_str("Invalid phone number entered: ").concat(
                            phone_number.as_str(),
                        ),
                    ),
                );
            },
        };
        proof {
            if self.backend.reliable() {
                self.backend.listing_in_order();
                lemma_with_phone(self.backend.listing(), name@, number);
            }
        }
        let rows = match self.backend.update_phone(name.as_str(), number) {
            Ok(rows) => rows,
            Err(e) => {
                return Err(e);
            },
        };
        match update_outcome(name.as_str(), rows) {
            Ok(_) => {},
            Err(e) => {
                return Err(e);
            },
        }
        self.backend.get_by_name(name.as_str())
    }

    fn delete(&mut self, name: String) -> (r: Result<String, ContactsError>) {
        match self.backend.delete(name.as_str()) {
            Ok(_) => Ok(String::from_str("contact deleted")),
            Err(e) => Err(e),
        }
    }

    fn get_by_name(&mut self, name: String) -> (r: Result<Contact, ContactsError>)
        ensures
            final(self).backend() == old(self).backend(),
    {
        self.backend.get_by_name(name.as_str())
    }

    fn get_all(&mut self, page_num: usize, page_size: usize) -> (r: Result<
        Vec<Contact>,
        ContactsError,
    >)
        ensures
            final(self).backend() == old(self).backend(),
    {
        self.backend.get_page(page_num, page_size)
    }
}

impl SqlContactsService {
    /// The service over the default database file, whose table is created if
    /// it is absent.
    pub fn new() -> (r: Result<SqlContactsService, rusqlite::Error>)
        ensures
            r matches Ok(service) ==> service.backend().database() == DEFAULT_DATABASE@,
            r matches Ok(service) ==> !service.reliable(),
    {
        match SqlBackend::new() {
            Ok(backend) => Ok(Contacts::with_backend(backend)),
            Err(e) => Err(e),
        }
    }

    /// The service over the database at `path`, whose table is created if it
    /// is absent.
    pub fn open(path: &str) -> (r: Result<SqlContactsService, rusqlite::Error>)
        ensures
            r matches Ok(service) ==> service.backend().database() == path@,
            r matches Ok(service) ==> !service.reliable(),
    {
        match SqlBackend::open(path) {
            Ok(backend) => Ok(Contacts::with_backend(backend)),
            Err(e) => Err(e),
        }
    }
}

impl MemoryContactsService {
    /// The service over an empty directory in memory.
    pub fn in_memory() -> (service: MemoryContactsService)
        ensures
            service.reliable(),
            service.listing() == Seq::<ContactModel>::empty(),
    {
        Contacts::with_backend(MemoryBackend::new())
    }
}

} // verus!
