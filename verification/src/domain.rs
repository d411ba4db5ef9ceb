//! The records that the directory stores and the payloads of its requests.

use vstd::prelude::*;
use vstd::string::StringExecFns;

verus! {

/// What a stored contact is, as plain mathematical values.
pub struct ContactModel {
    pub name: Seq<char>,
    pub email: Seq<char>,
    pub phone_number: i64,
}

/// One record of the directory. The name is the key: no two stored contacts
/// share it, and no operation renames a contact.
#[derive(Debug, Clone, PartialEq, Eq)]
pub struct Contact {
    pub name: String,
    pub email: String,
    pub phone_number: i64,
}

impl View for Contact {
    type V = ContactModel;

    open spec fn view(&self) -> ContactModel {
        ContactModel {
            name: self.name@,
            email: self.email@,
            phone_number: self.phone_number,
        }
    }
}

impl Contact {
    /// Builds a contact from borrowed text.
    pub fn new(name: &str, email: &str, phone_number: i64) -> (contact: Contact)
        ensures
            contact@ == (ContactModel { name: name@, email: email@, phone_number }),
    {
        Contact { name: String::from_str(name), email: String::from_str(email), phone_number }
    }

    /// A copy with the same name, email and phone number.
    pub fn duplicate(&self) -> (copy: Contact)
        ensures
            copy@ == self@,
    {
        Contact {
            name: self.name.clone(),
            email: self.email.clone(),
            phone_number: self.phone_number,
        }
    }
}

/// Request to replace the email of the contact called `name`.
#[derive(Debug, Clone, PartialEq, Eq)]
pub struct UpdateEmailBody {
    pub name: String,
    pub email: String,
}

/// Request to replace the phone number of the contact called `name`.
#[derive(Debug, Clone, PartialEq, Eq)]
pub struct UpdatePhoneNumberBody {
    pub name: String,
    pub phone_number: i64,
}

/// A window over the directory in name order: pages are numbered from zero and
/// hold at most `page_size` contacts each.
#[derive(Debug, Clone, Copy, PartialEq, Eq)]
pub struct GetAllQueryParams {
    pub page_num: usize,
    pub page_size: usize,
}

/// The views of a run of contacts, in the same order.
pub open spec fn contact_views(contacts: Seq<Contact>) -> Seq<ContactModel> {
    contacts.map_values(|c: Contact| c@)
}

} // verus!
