//! What holds of the directory across calls, stated over the listing that
//! the operations' contracts speak of.

use vstd::prelude::*;
use crate::backend::{lookup_outcome, missing_message};
use crate::contact_error::Failure;
use crate::domain::ContactModel;
use crate::model::{
    contains, lemma_contains_iff_listed, lemma_name_at_rank, lemma_with_contact,
    lemma_with_contact_others, lemma_with_email, lemma_with_email_others, lemma_with_phone,
    lemma_with_phone_others, lemma_without_name, lemma_without_name_others, lookup, page_window,
    sorted_by_name, without_name,
};
use crate::service::{
    add_outcome, after_add, after_update_email, after_update_phone, delete_outcome, described,
    unknown_message, update_email_outcome, update_phone_outcome,
};
use crate::validator::{
    email_failure, input_failure, name_failure, parsed_phone, phone_failure, valid_email,
    valid_name, valid_phone,
};

verus! {

/// With an empty name, adding a contact and updating an email or a phone
/// number fail as malformed input, whatever the other fields and the
/// directory hold, and the directory stays as it is.
pub proof fn law_empty_name_refused(
    l: Seq<ContactModel>,
    name: Seq<char>,
    email: Seq<char>,
    phone: Seq<char>,
)
    requires
        name.len() == 0,
    ensures
        add_outcome(l, name, email, phone) is Err,
        add_outcome(l, name, email, phone)->Err_0 is Input,
        update_email_outcome(l, name, email) is Err,
        update_email_outcome(l, name, email)->Err_0 is Input,
        update_phone_outcome(l, name, phone) is Err,
        update_phone_outcome(l, name, phone)->Err_0 is Input,
        after_add(l, name, email, phone) == l,
        after_update_email(l, name, email) == l,
        after_update_phone(l, name, phone) == l,
{
    law_blank_name_refused(l, name, email, phone);
}

/// The same holds of every name that is nothing but white space, and the
/// failure carries the same message.
pub proof fn law_blank_name_refused(
    l: Seq<ContactModel>,
    name: Seq<char>,
    email: Seq<char>,
    phone: Seq<char>,
)
    requires
        !valid_name(name),
    ensures
        input_failure(name, Some(email), Some(phone)) == Some(
            Failure::Input("Name cannot be empty"@),
        ),
        add_outcome(l, name, email, phone) == Err::<ContactModel, Failure>(
            Failure::Input("Name cannot be empty"@),
        ),
        update_email_outcome(l, name, email) == Err::<ContactModel, Failure>(
            Failure::Input("Name cannot be empty"@),
        ),
        update_phone_outcome(l, name, phone) == Err::<ContactModel, Failure>(
            Failure::Input("Name cannot be empty"@),
        ),
        after_add(l, name, email, phone) == l,
        after_update_email(l, name, email) == l,
        after_update_phone(l, name, phone) == l,
{
}

/// Validation lets through exactly the valid fields, and a valid phone
/// number writes a number.
pub proof fn law_validation_is_exact(name: Seq<char>, email: Seq<char>, phone: Seq<char>)
    ensures
        name_failure(name) is None <==> valid_name(name),
        email_failure(email) is None <==> valid_email(email),
        phone_failure(phone) is None <==> valid_phone(phone),
        valid_phone(phone) ==> parsed_phone(phone) is Some,
        input_failure(name, Some(email), Some(phone)) is None <==> valid_name(name) && valid_email(
            email,
        ) && valid_phone(phone),
        input_failure(name, Some(email), None) is None <==> valid_name(name) && valid_email(email),
        input_failure(name, None, Some(phone)) is None <==> valid_name(name) && valid_phone(phone),
{
}

/// After valid input is added, the name leads to exactly the contact that
/// the input describes: where the name was new, and where it was already
/// stored with the same email and phone number.
pub proof fn law_add_then_get(
    l: Seq<ContactModel>,
    name: Seq<char>,
    email: Seq<char>,
    phone: Seq<char>,
)
    requires
        sorted_by_name(l),
        input_failure(name, Some(email), Some(phone)) is None,
        lookup(l, name) is None || lookup(l, name) == Some(described(name, email, phone)),
    ensures
        sorted_by_name(after_add(l, name, email, phone)),
        lookup_outcome(after_add(l, name, email, phone), name) == Ok::<ContactModel, Failure>(
            described(name, email, phone),
        ),
        lookup(l, name) is None ==> add_outcome(l, name, email, phone) == Ok::<
            ContactModel,
            Failure,
        >(described(name, email, phone)),
{
    if !contains(l, name) {
        lemma_with_contact(l, described(name, email, phone));
    }
}

/// Deleting a name twice succeeds both times and leaves what deleting it
/// once leaves; the name is then unknown.
pub proof fn law_delete_twice(l: Seq<ContactModel>, name: Seq<char>)
    requires
        sorted_by_name(l),
    ensures
        delete_outcome(l, name) is Ok,
        delete_outcome(without_name(l, name), name) is Ok,
        sorted_by_name(without_name(l, name)),
        without_name(without_name(l, name), name) == without_name(l, name),
        lookup_outcome(without_name(l, name), name) == Err::<ContactModel, Failure>(
            Failure::NotFound(missing_message()),
        ),
{
    lemma_without_name(l, name);
}

/// A lookup succeeds exactly for the names that occur in the directory, and
/// for every other name it reports that nothing was found.
pub proof fn law_missing_is_not_found(l: Seq<ContactModel>, name: Seq<char>)
    requires
        sorted_by_name(l),
    ensures
        lookup_outcome(l, name) is Ok <==> exists|i: int|
            0 <= i < l.len() && (#[trigger] l[i]).name == name,
        lookup_outcome(l, name) matches Ok(c) ==> c.name == name,
        lookup_outcome(l, name) is Err ==> lookup_outcome(l, name) == Err::<ContactModel, Failure>(
            Failure::NotFound(missing_message()),
        ),
{
    lemma_contains_iff_listed(l, name);
}

/// An update of a name that is not stored reports that nothing was found and
/// changes nothing.
pub proof fn law_update_missing(
    l: Seq<ContactModel>,
    name: Seq<char>,
    email: Seq<char>,
    phone: Seq<char>,
)
    requires
        !contains(l, name),
    ensures
        input_failure(name, Some(email), None) is None ==> update_email_outcome(l, name, email)
            == Err::<ContactModel, Failure>(Failure::NotFound(unknown_message(name))),
        input_failure(name, None, Some(phone)) is None ==> update_phone_outcome(l, name, phone)
            == Err::<ContactModel, Failure>(Failure::NotFound(unknown_message(name))),
        after_update_email(l, name, email) == l,
        after_update_phone(l, name, phone) == l,
{
}

/// A page holds at most `page_size` contacts, in the order of the listing,
/// starting at position `page_num * page_size`; past the end it is empty.
pub proof fn law_page_window(l: Seq<ContactModel>, page_num: nat, page_size: nat)
    ensures
        page_window(l, page_num as int, page_size as int).len() <= page_size,
        page_num * page_size >= l.len() ==> page_window(l, page_num as int, page_size as int)
            == Seq::<ContactModel>::empty(),
        forall|k: int|
            0 <= k < page_window(l, page_num as int, page_size as int).len() ==> page_num
                * page_size + k < l.len() && #[trigger] page_window(
                l,
                page_num as int,
                page_size as int,
            )[k] == l[page_num * page_size + k],
        page_num * page_size + page_size <= l.len() ==> page_window(
            l,
            page_num as int,
            page_size as int,
        ).len() == page_size,
{
    assert(page_num * page_size >= 0) by (nonlinear_arith);
}

/// A contact's life: added under a new name, given a new phone number,
/// deleted. The update returns the contact with the new number and its old
/// email, a lookup then shows the same, and after the deletion the name is
/// unknown.
pub proof fn law_lifecycle(
    l: Seq<ContactModel>,
    name: Seq<char>,
    email: Seq<char>,
    phone: Seq<char>,
    new_phone: Seq<char>,
)
    requires
        sorted_by_name(l),
        !contains(l, name),
        input_failure(name, Some(email), Some(phone)) is None,
        input_failure(name, None, Some(new_phone)) is None,
    ensures
        ({
            let added = after_add(l, name, email, phone);
            let updated = after_update_phone(added, name, new_phone);
            let deleted = without_name(updated, name);
            let changed = ContactModel { name, email, phone_number: parsed_phone(new_phone)->0 };
            &&& add_outcome(l, name, email, phone) == Ok::<ContactModel, Failure>(
                described(name, email, phone),
            )
            &&& update_phone_outcome(added, name, new_phone) == Ok::<ContactModel, Failure>(changed)
            &&& lookup_outcome(updated, name) == Ok::<ContactModel, Failure>(changed)
            &&& lookup_outcome(deleted, name) == Err::<ContactModel, Failure>(
                Failure::NotFound(missing_message()),
            )
        }),
{
    let added = after_add(l, name, email, phone);
    lemma_with_contact(l, described(name, email, phone));
    lemma_with_phone(added, name, parsed_phone(new_phone)->0);
    let updated = after_update_phone(added, name, new_phone);
    lemma_without_name(updated, name);
}

/// An operation on one name leaves the contact of every other name as it
/// was, whether the operation succeeds or fails.
pub proof fn law_other_names_untouched(
    l: Seq<ContactModel>,
    name: Seq<char>,
    email: Seq<char>,
    phone: Seq<char>,
    other: Seq<char>,
)
    requires
        sorted_by_name(l),
        other != name,
    ensures
        lookup(after_add(l, name, email, phone), other) == lookup(l, other),
        lookup(after_update_email(l, name, email), other) == lookup(l, other),
        lookup(after_update_phone(l, name, phone), other) == lookup(l, other),
        lookup(without_name(l, name), other) == lookup(l, other),
{
    if !contains(l, name) {
        lemma_with_contact_others(l, described(name, email, phone), other);
    }
    lemma_with_email_others(l, name, email, other);
    lemma_with_phone_others(l, name, parsed_phone(phone)->0, other);
    lemma_without_name_others(l, name, other);
}

/// Every operation keeps the listing in order, so no name is ever stored
/// twice.
pub proof fn law_names_stay_unique(
    l: Seq<ContactModel>,
    name: Seq<char>,
    email: Seq<char>,
    phone: Seq<char>,
)
    requires
        sorted_by_name(l),
    ensures
        sorted_by_name(after_add(l, name, email, phone)),
        sorted_by_name(after_update_email(l, name, email)),
        sorted_by_name(after_update_phone(l, name, phone)),
        sorted_by_name(without_name(l, name)),
        forall|i: int, j: int|
            0 <= i < l.len() && 0 <= j < l.len() && (#[trigger] l[i]).name == (#[trigger] l[j]).name
                ==> i == j,
{
    if !contains(l, name) {
        lemma_with_contact(l, described(name, email, phone));
    }
    lemma_with_email(l, name, email);
    lemma_with_phone(l, name, parsed_phone(phone)->0);
    lemma_without_name(l, name);
    assert forall|i: int, j: int|
        0 <= i < l.len() && 0 <= j < l.len() && (#[trigger] l[i]).name == (#[trigger] l[j]).name
        implies i == j by {
        lemma_name_at_rank(l, i);
        lemma_name_at_rank(l, j);
    }
}

} // verus!
