//! The part of a request handler that computes: which service call a request
//! body stands for, and which status and body answer each outcome.

use vstd::prelude::*;
use vstd::string::StringExecFns;
use crate::backend::yields;
use crate::contact_error::{ContactsError, Failure};
use crate::decimal::{decimal_text, phone_text};
use crate::domain::{
    contact_views, Contact, GetAllQueryParams, UpdateEmailBody, UpdatePhoneNumberBody,
};
use crate::model::page_window;
use crate::service::{
    add_outcome, after_add, after_update_email, after_update_phone, update_email_outcome,
    update_phone_outcome, ContactsService,
};
use crate::validator::input_failure;

verus! {

pub const STATUS_OK: u16 = 200;

pub const STATUS_NO_CONTENT: u16 = 204;

pub const STATUS_BAD_REQUEST: u16 = 400;

pub const STATUS_NOT_FOUND: u16 = 404;

pub const STATUS_CONFLICT: u16 = 409;

pub const STATUS_INTERNAL_SERVER_ERROR: u16 = 500;

/// What a handler answers: a status code and a body.
#[derive(Debug, PartialEq, Eq)]
pub struct Reply {
    pub status: u16,
    pub body: String,
}

/// The status that answers a failure: malformed input, an unknown name and a
/// name already taken are the caller's to mend; anything else is not.
pub open spec fn failure_status(failure: Failure) -> u16 {
    match failure {
        Failure::Input(_) => STATUS_BAD_REQUEST,
        Failure::NotFound(_) => STATUS_NOT_FOUND,
        Failure::Duplicate(_) => STATUS_CONFLICT,
        Failure::Backend => STATUS_INTERNAL_SERVER_ERROR,
    }
}

/// The body that answers a failure of the caller's: its bare message.
pub open spec fn failure_body(failure: Failure) -> Option<Seq<char>> {
    match failure {
        Failure::Input(m) => Some(m),
        Failure::NotFound(m) => Some(m),
        Failure::Duplicate(m) => Some(m),
        Failure::Backend => None,
    }
}

/// The reply to a failure. Where the storage engine or the serializer
/// failed, the body is the failure's text with its cause.
pub fn failure_reply(error: ContactsError) -> (reply: Reply)
    ensures
        reply.status == failure_status(error@),
        failure_body(error@) matches Some(m) ==> reply.body@ == m,
{
    match error {
        ContactsError::InputError(m) => Reply { status: STATUS_BAD_REQUEST, body: m },
        ContactsError::NotFoundError(m) => Reply { status: STATUS_NOT_FOUND, body: m },
        ContactsError::DuplicateError(m) => Reply { status: STATUS_CONFLICT, body: m },
        other => Reply { status: STATUS_INTERNAL_SERVER_ERROR, body: other.message() },
    }
}

/// The reply to a request that created or changed a contact: the contact as
/// text with status 200, or the failure.
pub fn handle_create_update_response(response: Result<String, ContactsError>) -> (reply: Reply)
    ensures
        match response {
            Ok(text) => reply.status == STATUS_OK && reply.body == text,
            Err(e) => reply.status == failure_status(e@) && (failure_body(e@) matches Some(m)
                ==> reply.body@ == m),
        },
{
    match response {
        Ok(text) => Reply { status: STATUS_OK, body: text },
        Err(e) => failure_reply(e),
    }
}

/// The reply to a request that read one contact or a page: the text with
/// status 200, status 404 with the message for an unknown name, and status
/// 500 for every other failure.
pub fn handle_read_response(response: Result<String, ContactsError>) -> (reply: Reply)
    ensures
        match response {
            Ok(text) => reply.status == STATUS_OK && reply.body == text,
            Err(e) => match e@ {
                Failure::NotFound(m) => reply.status == STATUS_NOT_FOUND && reply.body@ == m,
                _ => reply.status == STATUS_INTERNAL_SERVER_ERROR,
            },
        },
{
    match response {
        Ok(text) => Reply { status: STATUS_OK, body: text },
        Err(ContactsError::NotFoundError(m)) => Reply { status: STATUS_NOT_FOUND, body: m },
        Err(other) => Reply { status: STATUS_INTERNAL_SERVER_ERROR, body: other.message() },
    }
}

/// The reply to a request that deleted a contact: status 204 without a body,
/// or status 500 with a fixed text that gives nothing away.
pub fn handle_delete_response(response: Result<String, ContactsError>) -> (reply: Reply)
    ensures
        response is Ok ==> reply.status == STATUS_NO_CONTENT && reply.body@ == Seq::<char>::empty(),
        response is Err ==> reply.status == STATUS_INTERNAL_SERVER_ERROR && reply.body@
            == "Internal server error"@,
{
    match response {
        Ok(_) => Reply { status: STATUS_NO_CONTENT, body: String::new() },
        Err(_) => Reply {
            status: STATUS_INTERNAL_SERVER_ERROR,
            body: String::from_str("Internal server error"),
        },
    }
}

/// Adds the contact that a request body describes. The phone number goes to
/// the service as decimal text and is validated there like any other input.
pub fn create_contact<S: ContactsService>(service: &mut S, contact: Contact) -> (r: Result<
    Contact,
    ContactsError,
>)
    ensures
        input_failure(
            contact.name@,
            Some(contact.email@),
            Some(decimal_text(contact.phone_number as int)),
        ) matches Some(f) ==> r is Err && r->Err_0@ == f && final(service).listing()
            == old(service).listing(),
        old(service).reliable() ==> final(service).reliable(),
        old(service).reliable() ==> final(service).listing() == after_add(
            old(service).listing(),
            contact.name@,
            contact.email@,
            decimal_text(contact.phone_number as int),
        ),
        old(service).reliable() ==> yields(
            r,
            add_outcome(
                old(service).listing(),
                contact.name@,
                contact.email@,
                decimal_text(contact.phone_number as int),
            ),
        ),
{
    let phone = phone_text(contact.phone_number);
    service.add(contact.name, contact.email, phone)
}

/// Replaces the email that a request body names.
pub fn update_contact_email<S: ContactsService>(service: &mut S, body: UpdateEmailBody) -> (r:
    Result<Contact, ContactsError>)
    ensures
        input_failure(body.name@, Some(body.email@), None) matches Some(f) ==> r is Err
            && r->Err_0@ == f && final(service).listing() == old(service).listing(),
        old(service).reliable() ==> final(service).reliable(),
        old(service).reliable() ==> final(service).listing() == after_update_email(
            old(service).listing(),
            body.name@,
            body.email@,
        ),
        old(service).reliable() ==> yields(
            r,
            update_email_outcome(old(service).listing(), body.name@, body.email@),
        ),
{
    service.update_email(body.name, body.email)
}

/// Replaces the phone number that a request body names. The number goes to
/// the service as decimal text and is validated there.
pub fn update_contact_phone<S: ContactsService>(service: &mut S, body: UpdatePhoneNumberBody) -> (r:
    Result<Contact, ContactsError>)
    ensures
        input_failure(body.name@, None, Some(decimal_text(body.phone_number as int))) matches Some(
            f,
        ) ==> r is Err && r->Err_0@ == f && final(service).listing() == old(service).listing(),
        old(service).reliable() ==> final(service).reliable(),
        old(service).reliable() ==> final(service).listing() == after_update_phone(
            old(service).listing(),
            body.name@,
            decimal_text(body.phone_number as int),
        ),
        old(service).reliable() ==> yields(
            r,
            update_phone_outcome(
                old(service).listing(),
                body.name@,
                decimal_text(body.phone_number as int),
            ),
        ),
{
    let phone = phone_text(body.phone_number);
    service.update_phone(body.name, phone)
}

/// The page that a query asks for.
pub fn list_contacts<S: ContactsService>(service: &mut S, params: GetAllQueryParams) -> (r: Result<
    Vec<Contact>,
    ContactsError,
>)
    ensures
        final(service).reliable() == old(service).reliable(),
        final(service).listing() == old(service).listing(),
        r matches Ok(page) ==> page.len() <= params.page_size,
        old(service).reliable() ==> r is Ok && contact_views(r->Ok_0@) == page_window(
            old(service).listing(),
            params.page_num as int,
            params.page_size as int,
        ),
{
    service.get_all(params.page_num, params.page_size)
}

} // verus!
