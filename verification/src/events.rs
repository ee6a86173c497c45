//! The events of the node that lead to notifications: which invoice was
//! paid, and which payment went through.

use vstd::prelude::*;
use vstd::string::*;
use crate::json::{member, text_of, JsonValue};
use crate::lookups::{hash_text_valid, is_hash_text};

verus! {

/// Why an event of the node could not be read.
#[derive(Clone, Copy, Debug, PartialEq, Eq, Structural)]
pub enum EventError {
    /// The event lacks its body.
    BodyMissing,
    /// The body lacks the member that names the subject.
    SubjectMissing,
    /// The subject is no text.
    SubjectNotString,
    /// The payment hash is none.
    BadPaymentHash,
}

/// The message that goes with an [`EventError`], for the event `event`
/// whose subject is the member `subject`.
pub fn event_error_message(error: EventError, event: &str, subject: &str) -> (r: String)
    ensures
        r@ == match error {
            EventError::BodyMissing => "Malformed "@ + event@ + " notification: missing "@
                + event@,
            EventError::SubjectMissing => "Malformed "@ + event@ + " notification: missing "@
                + subject@,
            EventError::SubjectNotString => subject@ + " not a string"@,
            EventError::BadPaymentHash => subject@ + " is not a payment hash"@,
        },
{
    let mut out: String = String::new();
    match error {
        EventError::BodyMissing => {
            out.append("Malformed ");
            out.append(event);
            out.append(" notification: missing ");
            out.append(event);
            proof {
                assert(out@ =~= "Malformed "@ + event@ + " notification: missing "@ + event@);
            }
        },
        EventError::SubjectMissing => {
            out.append("Malformed ");
            out.append(event);
            out.append(" notification: missing ");
            out.append(subject);
            proof {
                assert(out@ =~= "Malformed "@ + event@ + " notification: missing "@ + subject@);
            }
        },
        EventError::SubjectNotString => {
            out.append(subject);
            out.append(" not a string");
            proof {
                assert(out@ =~= subject@ + " not a string"@);
            }
        },
        EventError::BadPaymentHash => {
            out.append(subject);
            out.append(" is not a payment hash");
            proof {
                assert(out@ =~= subject@ + " is not a payment hash"@);
            }
        },
    }
    out
}

/// The subject of an event: the text at the member `subject` of the
/// member `event` of its arguments.
pub open spec fn subject_of(args: JsonValue, event: Seq<char>, subject: Seq<char>) -> Result<
    Seq<char>,
    EventError,
> {
    match member(args, event) {
        None => Err(EventError::BodyMissing),
        Some(body) => match member(body, subject) {
            None => Err(EventError::SubjectMissing),
            Some(v) => match text_of(v) {
                None => Err(EventError::SubjectNotString),
                Some(s) => Ok(s),
            },
        },
    }
}

/// Reads the subject of an event.
pub fn event_subject(args: &JsonValue, event: &str, subject: &str) -> (r: Result<
    String,
    EventError,
>)
    ensures
        match r {
            Ok(s) => subject_of(*args, event@, subject@) == Ok::<Seq<char>, EventError>(s@),
            Err(e) => subject_of(*args, event@, subject@) == Err::<Seq<char>, EventError>(e),
        },
{
    let body = match args.get(event) {
        Some(b) => b,
        None => {
            return Err(EventError::BodyMissing);
        },
    };
    let value = match body.get(subject) {
        Some(v) => v,
        None => {
            return Err(EventError::SubjectMissing);
        },
    };
    match value.as_str() {
        Some(s) => Ok(s.clone()),
        None => Err(EventError::SubjectNotString),
    }
}

/// Reads the label of the invoice that was paid from the event about it.
pub fn paid_invoice_label(args: &JsonValue) -> (r: Result<String, EventError>)
    ensures
        match r {
            Ok(s) => subject_of(*args, "invoice_payment"@, "label"@) == Ok::<
                Seq<char>,
                EventError,
            >(s@),
            Err(e) => subject_of(*args, "invoice_payment"@, "label"@) == Err::<
                Seq<char>,
                EventError,
            >(e),
        },
{
    event_subject(args, "invoice_payment", "label")
}

/// Reads the payment hash of the payment that went through from the event
/// about it; a text that is no payment hash is refused.
pub fn sent_payment_hash(args: &JsonValue) -> (r: Result<String, EventError>)
    ensures
        match r {
            Ok(s) => subject_of(*args, "sendpay_success"@, "payment_hash"@) == Ok::<
                Seq<char>,
                EventError,
            >(s@) && is_hash_text(s@),
            Err(e) => match subject_of(*args, "sendpay_success"@, "payment_hash"@) {
                Ok(s) => !is_hash_text(s) && e == EventError::BadPaymentHash,
                Err(f) => e == f,
            },
        },
{
    match event_subject(args, "sendpay_success", "payment_hash") {
        Ok(hash) => {
            if hash_text_valid(hash.as_str()) {
                Ok(hash)
            } else {
                Err(EventError::BadPaymentHash)
            }
        },
        Err(e) => Err(e),
    }
}

} // verus!
