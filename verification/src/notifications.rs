//! Notifications about payments: what is told to the remote parties when
//! an invoice is paid, a payment completes or a hold invoice is accepted.

use vstd::prelude::*;
use crate::encoding::{hex_encode, hex_lower};
use crate::invoice::{
    amount_of,
    created_at_of,
    described,
    described_hash,
    description_hash_of,
    description_of,
    expires_at_of,
    invoice_kind,
    invoice_state,
    invoiced_amount,
    invoiced_at,
    invoiced_until,
    is_invoice,
    pay_state,
    state_of_invoice,
    state_of_pay,
};
use crate::node::{Decoded, Htlc, ListedInvoice, ListedPay, PayStatus, PeerChannel};
use crate::protocol::{
    HoldInvoiceAcceptedNotification,
    HoldInvoiceAcceptedNotificationView,
    PaymentNotification,
    PaymentNotificationView,
    TransactionType,
};
use crate::text::clone_text;

verus! {

/// Why no notification could be made.
#[derive(Clone, Copy, Debug, PartialEq, Eq, Structural)]
pub enum NotifyError {
    /// What the node decoded is invalid or no invoice.
    NotInvoice,
    /// A paid invoice or a completed payment has no preimage.
    MissingPreimage,
    /// A paid invoice has no time of payment.
    MissingPaidAt,
    /// The companion service handed back something that is no invoice.
    NotInvoiceString,
    /// A payment hash is not 32 bytes long.
    BadPaymentHash,
}

/// The message that goes with a [`NotifyError`].
pub fn notify_error_message(error: NotifyError) -> (r: String)
    ensures
        r@ == match error {
            NotifyError::NotInvoice => "Not an invoice or invalid invoice"@,
            NotifyError::MissingPreimage => "missing preimage from paid invoice"@,
            NotifyError::MissingPaidAt => "paid invoice missing paid_at time"@,
            NotifyError::NotInvoiceString => "hold plugin did not return an invoice string"@,
            NotifyError::BadPaymentHash => "payment hash is not 32 bytes long"@,
        },
{
    match error {
        NotifyError::NotInvoice => "Not an invoice or invalid invoice".to_owned(),
        NotifyError::MissingPreimage => "missing preimage from paid invoice".to_owned(),
        NotifyError::MissingPaidAt => "paid invoice missing paid_at time".to_owned(),
        NotifyError::NotInvoiceString => "hold plugin did not return an invoice string".to_owned(),
        NotifyError::BadPaymentHash => "payment hash is not 32 bytes long".to_owned(),
    }
}

/// One side of a result by its view, the error as it is.
pub open spec fn viewed<T: DeepView, E>(r: Result<T, E>) -> Result<T::V, E> {
    match r {
        Ok(v) => Ok(v.deep_view()),
        Err(e) => Err(e),
    }
}

/// The notification for a paid invoice.
///
/// It is refused where the decoding is invalid or no invoice, and where the
/// listed invoice lacks its preimage or its time of payment, in this order.
pub open spec fn payment_received(invoice: ListedInvoice, invstring: Seq<char>, d: Decoded) -> Result<
    PaymentNotificationView,
    NotifyError,
> {
    if !d.valid || !is_invoice(d.item_type) {
        Err(NotifyError::NotInvoice)
    } else if invoice.payment_preimage is None {
        Err(NotifyError::MissingPreimage)
    } else if invoice.paid_at is None {
        Err(NotifyError::MissingPaidAt)
    } else {
        Ok(
            PaymentNotificationView {
                transaction_type: Some(TransactionType::Incoming),
                state: Some(invoice_state(invoice.status)),
                invoice: invstring,
                description: described(d),
                description_hash: described_hash(d),
                preimage: hex_lower(invoice.payment_preimage->0@),
                payment_hash: invoice.payment_hash@,
                amount: invoiced_amount(d, invoice.amount_msat),
                fees_paid: 0,
                created_at: invoiced_at(d),
                expires_at: None,
                settled_at: invoice.paid_at->0,
            },
        )
    }
}

/// Makes the notification for a paid invoice from the node's listing of it
/// and the decoding of its text.
pub fn make_payment_received_from_listinvoices(
    invoice: &ListedInvoice,
    invstring: &str,
    invoice_decoded: &Decoded,
) -> (r: Result<PaymentNotification, NotifyError>)
    requires
        invoice_decoded.dated(),
    ensures
        viewed(r) == payment_received(*invoice, invstring@, *invoice_decoded),
{
    if !invoice_decoded.valid {
        return Err(NotifyError::NotInvoice);
    }
    if !invoice_kind(invoice_decoded.item_type) {
        return Err(NotifyError::NotInvoice);
    }
    let description = description_of(invoice_decoded);
    let description_hash = description_hash_of(invoice_decoded);
    let amount = amount_of(invoice_decoded, invoice.amount_msat);
    let created_at = created_at_of(invoice_decoded);
    let preimage = match &invoice.payment_preimage {
        Some(p) => hex_encode(p),
        None => {
            return Err(NotifyError::MissingPreimage);
        },
    };
    let settled_at = match invoice.paid_at {
        Some(t) => t,
        None => {
            return Err(NotifyError::MissingPaidAt);
        },
    };
    Ok(
        PaymentNotification {
            transaction_type: Some(TransactionType::Incoming),
            state: Some(state_of_invoice(invoice.status)),
            invoice: invstring.to_owned(),
            description,
            description_hash,
            preimage,
            payment_hash: invoice.payment_hash.clone(),
            amount,
            fees_paid: 0,
            created_at,
            expires_at: None,
            settled_at,
        },
    )
}

/// Finds the first completed payment of a listing: `Some(i)` exactly where
/// `pays[i]` is complete and no earlier payment is.
pub fn first_complete_pay(pays: &Vec<ListedPay>) -> (r: Option<usize>)
    ensures
        match r {
            Some(i) => i < pays@.len() && pays@[i as int].status == PayStatus::Complete
                && forall|j: int| 0 <= j < i ==> pays@[j].status != PayStatus::Complete,
            None => forall|j: int| 0 <= j < pays@.len() ==> pays@[j].status != PayStatus::Complete,
        },
{
    let mut i: usize = 0;
    while i < pays.len()
        invariant
            0 <= i <= pays@.len(),
            forall|j: int| 0 <= j < i ==> pays@[j].status != PayStatus::Complete,
        decreases pays@.len() - i,
    {
        match pays[i].status {
            PayStatus::Complete => {
                return Some(i);
            },
            _ => {},
        }
        i = i + 1;
    }
    None
}

/// Whether the text that a payment went to must be decoded: where the node
/// kept one and it is not empty.
pub open spec fn needs_decoding(pay: ListedPay) -> bool {
    pay.text() is Some && pay.text()->0.len() > 0
}

/// The amount of a sent payment: that of the decoded invoice where there is
/// one, else what the node listed, else zero.
pub open spec fn sent_amount(pay: ListedPay, d: Option<Decoded>) -> u64 {
    if needs_decoding(pay) {
        invoiced_amount(d->0, pay.amount_msat)
    } else if pay.amount_msat is Some {
        pay.amount_msat->0
    } else {
        0
    }
}

/// What a sent payment that has its preimage must come with, so that its
/// notification can be made: its time of completion; the decoding of its
/// text where it has one; in a valid decoding of the newer format, the
/// amount; and an amount sent that is no less than the amount paid.
pub open spec fn sent_inputs_fit(pay: ListedPay, d: Option<Decoded>) -> bool {
    pay.preimage is Some ==> {
        &&& pay.completed_at is Some
        &&& needs_decoding(pay) ==> d is Some
        &&& needs_decoding(pay) && d->0.valid && is_invoice(d->0.item_type) ==> d->0.amounted()
        &&& (needs_decoding(pay) ==> d->0.valid && is_invoice(d->0.item_type))
            && pay.amount_sent_msat is Some ==> sent_amount(pay, d) <= pay.amount_sent_msat->0
    }
}

/// The notification for a completed payment.
///
/// It is refused where the payment lacks its preimage, and where its text
/// was decoded as invalid or as no invoice.
pub open spec fn payment_sent(pay: ListedPay, d: Option<Decoded>) -> Result<
    PaymentNotificationView,
    NotifyError,
> {
    if pay.preimage is None {
        Err(NotifyError::MissingPreimage)
    } else if needs_decoding(pay) && (!d->0.valid || !is_invoice(d->0.item_type)) {
        Err(NotifyError::NotInvoice)
    } else {
        Ok(
            PaymentNotificationView {
                transaction_type: Some(TransactionType::Outgoing),
                state: Some(pay_state(pay.status)),
                invoice: if pay.text() is Some {
                    pay.text()->0
                } else {
                    Seq::empty()
                },
                description: if needs_decoding(pay) {
                    described(d->0)
                } else {
                    pay.description.deep_view()
                },
                description_hash: if needs_decoding(pay) {
                    described_hash(d->0)
                } else {
                    None
                },
                preimage: hex_lower(pay.preimage->0@),
                payment_hash: pay.payment_hash@,
                amount: sent_amount(pay, d),
                fees_paid: if pay.amount_sent_msat is Some {
                    (pay.amount_sent_msat->0 - sent_amount(pay, d)) as u64
                } else {
                    0
                },
                created_at: pay.created_at,
                expires_at: None,
                settled_at: pay.completed_at->0,
            },
        )
    }
}

/// Says what has to be decoded before the notification for a completed
/// payment can be made: the payment's text, unless the payment lacks its
/// preimage (an error) or has no text (nothing to decode).
pub fn payment_sent_text(pay: &ListedPay) -> (r: Result<Option<&String>, NotifyError>)
    ensures
        match r {
            Ok(Some(text)) => pay.preimage is Some && needs_decoding(*pay) && text@ == pay.text()->0,
            Ok(None) => pay.preimage is Some && !needs_decoding(*pay),
            Err(e) => pay.preimage is None && e == NotifyError::MissingPreimage,
        },
{
    if pay.preimage.is_none() {
        return Err(NotifyError::MissingPreimage);
    }
    match pay.invstring() {
        Some(text) => {
            if text.as_str().unicode_len() == 0 {
                Ok(None)
            } else {
                Ok(Some(text))
            }
        },
        None => Ok(None),
    }
}

/// Tests [`sent_inputs_fit`].
pub fn sent_inputs_checked(pay: &ListedPay, invoice_decoded: &Option<Decoded>) -> (r: bool)
    ensures
        r == sent_inputs_fit(*pay, *invoice_decoded),
{
    if pay.preimage.is_none() {
        return true;
    }
    if pay.completed_at.is_none() {
        return false;
    }
    let text_len: usize = match pay.invstring() {
        Some(text) => text.as_str().unicode_len(),
        None => 0,
    };
    let amount: u64 = if text_len > 0 {
        match invoice_decoded {
            None => {
                return false;
            },
            Some(d) => {
                if !d.valid || !invoice_kind(d.item_type) {
                    return true;
                }
                if !d.is_amounted() {
                    return false;
                }
                amount_of(d, pay.amount_msat)
            },
        }
    } else {
        match pay.amount_msat {
            Some(a) => a,
            None => 0,
        }
    };
    match pay.amount_sent_msat {
        Some(sent) => amount <= sent,
        None => true,
    }
}

/// Makes the notification for a completed payment from the node's listing
/// of it and, where it has a text, the decoding of that text.
pub fn make_payment_sent_from_listpays(pay: &ListedPay, invoice_decoded: &Option<Decoded>) -> (r:
    Result<PaymentNotification, NotifyError>)
    requires
        sent_inputs_fit(*pay, *invoice_decoded),
    ensures
        viewed(r) == payment_sent(*pay, *invoice_decoded),
{
    let invstring: String = match pay.invstring() {
        Some(text) => text.clone(),
        None => String::new(),
    };
    let preimage = match &pay.preimage {
        Some(p) => hex_encode(p),
        None => {
            return Err(NotifyError::MissingPreimage);
        },
    };
    let settled_at: u64 = pay.completed_at.unwrap();
    let description;
    let description_hash;
    let amount: u64;
    if invstring.as_str().unicode_len() == 0 {
        description = clone_text(&pay.description);
        description_hash = None;
        amount = match pay.amount_msat {
            Some(a) => a,
            None => 0,
        };
    } else {
        let d = invoice_decoded.as_ref().unwrap();
        if !d.valid {
            return Err(NotifyError::NotInvoice);
        }
        if !invoice_kind(d.item_type) {
            return Err(NotifyError::NotInvoice);
        }
        description = description_of(d);
        description_hash = description_hash_of(d);
        amount = amount_of(d, pay.amount_msat);
    }
    let fees_paid: u64 = match pay.amount_sent_msat {
        Some(sent) => sent - amount,
        None => 0,
    };
    Ok(
        PaymentNotification {
            transaction_type: Some(TransactionType::Outgoing),
            state: Some(state_of_pay(pay.status)),
            invoice: invstring,
            description,
            description_hash,
            preimage,
            payment_hash: pay.payment_hash.clone(),
            amount,
            fees_paid,
            created_at: pay.created_at,
            expires_at: None,
            settled_at,
        },
    )
}

/// A hold invoice, as the companion service lists it.
#[derive(Clone, Debug, PartialEq, Eq)]
pub struct HoldInvoice {
    pub invoice: String,
    pub payment_hash: Vec<u8>,
}

/// The least of `start` and the expiries of those of `htlcs` that pay to `hash`.
pub open spec fn least_expiry(htlcs: Seq<Htlc>, hash: Seq<char>, start: u32) -> u32
    decreases htlcs.len(),
{
    if htlcs.len() == 0 {
        start
    } else {
        let before = least_expiry(htlcs.drop_last(), hash, start);
        if htlcs.last().payment_hash@ == hash && htlcs.last().expiry < before {
            htlcs.last().expiry
        } else {
            before
        }
    }
}

/// The least of `start` and the expiries of the pending payments to `hash`
/// on `channels`.
pub open spec fn least_channel_expiry(channels: Seq<PeerChannel>, hash: Seq<char>, start: u32) -> u32
    decreases channels.len(),
{
    if channels.len() == 0 {
        start
    } else {
        let before = least_channel_expiry(channels.drop_last(), hash, start);
        match channels.last().htlcs {
            Some(htlcs) => least_expiry(htlcs@, hash, before),
            None => before,
        }
    }
}

/// The least of `start` and the expiries of the pending payments to `hash`.
pub fn lowest_htlc_expiry(channels: &Vec<PeerChannel>, hash: &String, start: u32) -> (r: u32)
    ensures
        r == least_channel_expiry(channels@, hash@, start),
{
    let mut lowest: u32 = start;
    let mut c: usize = 0;
    while c < channels.len()
        invariant
            0 <= c <= channels@.len(),
            lowest == least_channel_expiry(channels@.take(c as int), hash@, start),
        decreases channels@.len() - c,
    {
        proof {
            assert(channels@.take(c as int + 1).drop_last() =~= channels@.take(c as int));
        }
        match &channels[c].htlcs {
            Some(htlcs) => {
                let ghost before = lowest;
                let mut h: usize = 0;
                while h < htlcs.len()
                    invariant
                        0 <= h <= htlcs@.len(),
                        lowest == least_expiry(htlcs@.take(h as int), hash@, before),
                    decreases htlcs@.len() - h,
                {
                    proof {
                        assert(htlcs@.take(h as int + 1).drop_last() =~= htlcs@.take(h as int));
                    }
                    if htlcs[h].payment_hash == *hash && htlcs[h].expiry < lowest {
                        lowest = htlcs[h].expiry;
                    }
                    h = h + 1;
                }
                proof {
                    assert(htlcs@.take(htlcs@.len() as int) =~= htlcs@);
                }
            },
            None => {},
        }
        c = c + 1;
    }
    proof {
        assert(channels@.take(channels@.len() as int) =~= channels@);
    }
    lowest
}

/// The notification for an accepted hold invoice.
///
/// It is refused where the text of the hold invoice was decoded as no
/// invoice, and where the payment hash that was watched is not 32 bytes long.
/// The deadline for settling is the least expiry of the pending payments
/// to that hash, and the largest value that can be written where none is
/// pending.
pub open spec fn hold_invoice_accepted(
    hold_invoice: HoldInvoice,
    payment_hash: Seq<u8>,
    d: Decoded,
    channels: Seq<PeerChannel>,
) -> Result<HoldInvoiceAcceptedNotificationView, NotifyError> {
    if !is_invoice(d.item_type) {
        Err(NotifyError::NotInvoiceString)
    } else if payment_hash.len() != 32 {
        Err(NotifyError::BadPaymentHash)
    } else {
        Ok(
            HoldInvoiceAcceptedNotificationView {
                transaction_type: TransactionType::Incoming,
                invoice: hold_invoice.invoice@,
                description: None,
                description_hash: None,
                payment_hash: hex_lower(hold_invoice.payment_hash@),
                amount: invoiced_amount(d, None),
                created_at: invoiced_at(d),
                expires_at: invoiced_until(d),
                settle_deadline: least_channel_expiry(channels, hex_lower(payment_hash), u32::MAX),
            },
        )
    }
}

/// Makes the notification for an accepted hold invoice from the companion
/// service's listing of it, the decoding of its text and the node's channels.
pub fn make_hold_invoice_accepted(
    hold_invoice: &HoldInvoice,
    payment_hash: &Vec<u8>,
    invoice_decoded: &Decoded,
    channels: &Vec<PeerChannel>,
) -> (r: Result<HoldInvoiceAcceptedNotification, NotifyError>)
    requires
        invoice_decoded.expiring(),
    ensures
        viewed(r) == hold_invoice_accepted(
            *hold_invoice,
            payment_hash@,
            *invoice_decoded,
            channels@,
        ),
{
    if !invoice_kind(invoice_decoded.item_type) {
        return Err(NotifyError::NotInvoiceString);
    }
    let amount = amount_of(invoice_decoded, None);
    let created_at = created_at_of(invoice_decoded);
    let expires_at = expires_at_of(invoice_decoded);
    if payment_hash.len() != 32 {
        return Err(NotifyError::BadPaymentHash);
    }
    let watched: String = hex_encode(payment_hash);
    let settle_deadline = lowest_htlc_expiry(channels, &watched, u32::MAX);
    Ok(
        HoldInvoiceAcceptedNotification {
            transaction_type: TransactionType::Incoming,
            invoice: hold_invoice.invoice.clone(),
            description: None,
            description_hash: None,
            payment_hash: hex_encode(&hold_invoice.payment_hash),
            amount,
            created_at,
            expires_at,
            settle_deadline,
        },
    )
}

} // verus!
