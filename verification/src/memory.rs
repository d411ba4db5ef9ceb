//! The in-process backend: the directory as a vector kept in name order.

use vstd::prelude::*;
use crate::backend::{duplicate_error, missing_error, StorageBackend};
use crate::contact_error::ContactsError;
use crate::domain::{contact_views, Contact, ContactModel};
use crate::model::{
    contains, lemma_lex_transitive, lemma_rank_is, lemma_same_names, lemma_with_contact,
    lemma_without_name, lex_less, page_window, rank, sorted_by_name,
};
use crate::text::{text_eq, text_less};

verus! {

/// A directory held in memory. Its contacts stand in name order, so a name
/// occurs at most once and pages are cut without sorting.
pub struct MemoryBackend {
    contacts: Vec<Contact>,
}

impl MemoryBackend {
    /// The stored contacts, as plain values.
    pub closed spec fn entries(&self) -> Seq<ContactModel> {
        contact_views(self.contacts@)
    }

    /// An empty directory.
    pub fn new() -> (backend: MemoryBackend)
        ensures
            backend.reliable(),
            backend.listing() == Seq::<ContactModel>::empty(),
    {
        let backend = MemoryBackend { contacts: Vec::new() };
        assert(backend.entries() =~= Seq::<ContactModel>::empty());
        backend
    }

    /// How many contacts are stored.
    pub fn len(&self) -> (n: usize)
        ensures
            n == self.listing().len(),
    {
        self.contacts.len()
    }

    /// Where `name` stands in the order, or would stand, found by halving.
    fn position(&self, name: &str) -> (i: usize)
        ensures
            i <= self.contacts.len(),
            self.reliable() ==> i == rank(self.entries(), name@),
    {
        let mut low: usize = 0;
        let mut high: usize = self.contacts.len();
        while low < high
            invariant
                low <= high <= self.contacts.len(),
                self.reliable() ==> forall|j: int|
                    0 <= j < low ==> lex_less((#[trigger] self.entries()[j]).name, name@),
                self.reliable() ==> forall|j: int|
                    high <= j < self.contacts.len() ==> !lex_less(
                        (#[trigger] self.entries()[j]).name,
                        name@,
                    ),
            decreases high - low,
        {
            let mid = low + (high - low) / 2;
            let ghost l = self.entries();
            if text_less(self.contacts[mid].name.as_str(), name) {
                proof {
                    if self.reliable() {
                        assert forall|j: int| 0 <= j < mid + 1 implies lex_less(
                            (#[trigger] l[j]).name,
                            name@,
                        ) by {
                            if j < mid {
                                assert(lex_less(l[j].name, l[mid as int].name));
                                lemma_lex_transitive(l[j].name, l[mid as int].name, name@);
                            }
                        }
                    }
                }
                low = mid + 1;
            } else {
                proof {
                    if self.reliable() {
                        assert forall|j: int| mid <= j < l.len() implies !lex_less(
                            (#[trigger] l[j]).name,
                            name@,
                        ) by {
                            if j > mid && lex_less(l[j].name, name@) {
                                assert(lex_less(l[mid as int].name, l[j].name));
                                lemma_lex_transitive(l[mid as int].name, l[j].name, name@);
                            }
                        }
                    }
                }
                high = mid;
            }
        }
        proof {
            if self.reliable() {
                lemma_rank_is(self.entries(), name@, low as int);
            }
        }
        low
    }

    /// Whether the contact at `i`, if there is one, is called `name`.
    fn holds_at(&self, i: usize, name: &str) -> (found: bool)
        ensures
            found == (i < self.contacts.len() && self.entries()[i as int].name == name@),
            i == rank(self.entries(), name@) ==> found == contains(self.entries(), name@),
    {
        i < self.contacts.len() && text_eq(self.contacts[i].name.as_str(), name)
    }
}

impl StorageBackend for MemoryBackend {
    open spec fn reliable(&self) -> bool {
        sorted_by_name(self.entries())
    }

    open spec fn listing(&self) -> Seq<ContactModel> {
        self.entries()
    }

    proof fn listing_in_order(&self) {
    }

    fn insert(&mut self, contact: Contact) -> (r: Result<(), ContactsError>) {
        let i = self.position(contact.name.as_str());
        if self.holds_at(i, contact.name.as_str()) {
            return Err(duplicate_error(contact.name.as_str()));
        }
        proof {
            if self.reliable() {
                lemma_with_contact(self.entries(), contact@);
            }
            assert(contact_views(self.contacts@.insert(i as int, contact)) =~= contact_views(
                self.contacts@,
            ).insert(i as int, contact@));
        }
        self.contacts.insert(i, contact);
        Ok(())
    }

    fn update_email(&mut self, name: &str, email: &str) -> (r: Result<usize, ContactsError>) {
        let i = self.position(name);
        if !self.holds_at(i, name) {
            return Ok(0);
        }
        let changed = Contact::new(name, email, self.contacts[i].phone_number);
        proof {
            assert(contact_views(self.contacts@.update(i as int, changed)) =~= contact_views(
                self.contacts@,
            ).update(i as int, changed@));
            lemma_same_names(
                self.entries(),
                self.entries().update(i as int, changed@),
                name@,
            );
        }
        self.contacts.set(i, changed);
        Ok(1)
    }

    fn update_phone(&mut self, name: &str, phone_number: i64) -> (r: Result<usize, ContactsError>) {
        let i = self.position(name);
        if !self.holds_at(i, name) {
            return Ok(0);
        }
        let changed = Contact::new(name, self.contacts[i].email.as_str(), phone_number);
        proof {
            assert(contact_views(self.contacts@.update(i as int, changed)) =~= contact_views(
                self.contacts@,
            ).update(i as int, changed@));
            lemma_same_names(
                self.entries(),
                self.entries().update(i as int, changed@),
                name@,
            );
        }
        self.contacts.set(i, changed);
        Ok(1)
    }

    fn delete(&mut self, name: &str) -> (r: Result<(), ContactsError>) {
        let i = self.position(name);
        if self.holds_at(i, name) {
            proof {
                if self.reliable() {
                    lemma_without_name(self.entries(), name@);
                }
                assert(contact_views(self.contacts@.remove(i as int)) =~= contact_views(
                    self.contacts@,
                ).remove(i as int));
            }
            self.contacts.remove(i);
        }
        Ok(())
    }

    fn get_by_name(&self, name: &str) -> (r: Result<Contact, ContactsError>) {
        let i = self.position(name);
        if self.holds_at(i, name) {
            Ok(self.contacts[i].duplicate())
        } else {
            Err(missing_error())
        }
    }

    fn get_page(&self, page_num: usize, page_size: usize) -> (r: Result<
        Vec<Contact>,
        ContactsError,
    >) {
        let mut page: Vec<Contact> = Vec::new();
        let len = self.contacts.len();
        let start = match page_num.checked_mul(page_size) {
            Some(start) => start,
            None => {
                assert(page_num * page_size >= len) by (nonlinear_arith)
                    requires
                        page_num * page_size > usize::MAX,
                        len <= usize::MAX,
                ;
                assert(contact_views(page@) =~= page_window(
                    self.entries(),
                    page_num as int,
                    page_size as int,
                ));
                return Ok(page);
            },
        };
        if page_size == 0 || start >= len {
            assert(contact_views(page@) =~= page_window(
                self.entries(),
                page_num as int,
                page_size as int,
            ));
            return Ok(page);
        }
        let end = if page_size <= len - start {
            start + page_size
        } else {
            len
        };
        let mut i: usize = start;
        while i < end
            invariant
                start <= i <= end <= len,
                len == self.contacts.len(),
                contact_views(page@) == self.entries().subrange(start as int, i as int),
            decreases end - i,
        {
            let copy = self.contacts[i].duplicate();
            let ghost before = page@;
            page.push(copy);
            assert(contact_views(page@) =~= contact_views(before).push(copy@));
            assert(self.entries()[i as int] == copy@);
            assert(self.entries().subrange(start as int, i + 1) =~= self.entries().subrange(
                start as int,
                i as int,
            ).push(copy@));
            i = i + 1;
        }
        Ok(page)
    }
}

} // verus!
