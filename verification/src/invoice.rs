//! What a decoded invoice says, by its format: description, amount and
//! dates, shared by lookups and notifications.

use vstd::prelude::*;
use crate::node::{Decoded, DecodeType, InvoiceStatus, PayStatus};
use crate::protocol::TransactionState;
use crate::text::clone_text;

verus! {

/// The text that stands in errors about something that is no invoice.
pub open spec fn not_invoice_text() -> Seq<char> {
    "Not an invoice or invalid invoice"@
}

/// The text that stands in errors about something that is no invoice.
pub fn not_invoice_message() -> (r: String)
    ensures
        r@ == not_invoice_text(),
{
    "Not an invoice or invalid invoice".to_owned()
}

/// Whether what was decoded is an invoice, in either format.
pub open spec fn is_invoice(item_type: DecodeType) -> bool {
    item_type == DecodeType::Bolt12Invoice || item_type == DecodeType::Bolt11Invoice
}

/// Tests [`is_invoice`].
pub fn invoice_kind(item_type: DecodeType) -> (r: bool)
    ensures
        r == is_invoice(item_type),
{
    match item_type {
        DecodeType::Bolt12Invoice => true,
        DecodeType::Bolt11Invoice => true,
        _ => false,
    }
}

/// The description of an invoice: that of its offer in the newer format.
pub open spec fn described(d: Decoded) -> Option<Seq<char>> {
    if d.item_type == DecodeType::Bolt12Invoice {
        d.offer_description.deep_view()
    } else {
        d.description.deep_view()
    }
}

/// The description hash of an invoice; the newer format has none.
pub open spec fn described_hash(d: Decoded) -> Option<Seq<char>> {
    if d.item_type == DecodeType::Bolt12Invoice {
        None
    } else {
        d.description_hash.deep_view()
    }
}

/// The amount of an invoice. The newer format always states one; the older
/// may leave it open, and then `fallback` stands in, or zero.
pub open spec fn invoiced_amount(d: Decoded, fallback: Option<u64>) -> u64 {
    if d.item_type == DecodeType::Bolt12Invoice {
        d.invoice_amount_msat->0
    } else if d.amount_msat is Some {
        d.amount_msat->0
    } else if fallback is Some {
        fallback->0
    } else {
        0
    }
}

/// When an invoice was created.
pub open spec fn invoiced_at(d: Decoded) -> u64 {
    if d.item_type == DecodeType::Bolt12Invoice {
        d.invoice_created_at->0
    } else {
        d.created_at->0
    }
}

/// Until when an invoice can be paid: its creation time plus its expiry,
/// held at the largest time that can be written.
pub open spec fn invoiced_until(d: Decoded) -> u64 {
    let span: int = if d.item_type == DecodeType::Bolt12Invoice {
        d.invoice_relative_expiry->0 as int
    } else {
        d.expiry->0 as int
    };
    if invoiced_at(d) + span > u64::MAX {
        u64::MAX
    } else {
        (invoiced_at(d) + span) as u64
    }
}

/// The protocol's word for the state of an issued invoice.
pub open spec fn invoice_state(status: InvoiceStatus) -> TransactionState {
    match status {
        InvoiceStatus::Unpaid => TransactionState::Pending,
        InvoiceStatus::Paid => TransactionState::Settled,
        InvoiceStatus::Expired => TransactionState::Expired,
    }
}

/// The protocol's word for the state of a sent payment.
pub open spec fn pay_state(status: PayStatus) -> TransactionState {
    match status {
        PayStatus::Pending => TransactionState::Pending,
        PayStatus::Failed => TransactionState::Failed,
        PayStatus::Complete => TransactionState::Settled,
    }
}

/// The description of a decoded invoice.
pub fn description_of(d: &Decoded) -> (r: Option<String>)
    ensures
        r.deep_view() == described(*d),
{
    match d.item_type {
        DecodeType::Bolt12Invoice => clone_text(&d.offer_description),
        _ => clone_text(&d.description),
    }
}

/// The description hash of a decoded invoice.
pub fn description_hash_of(d: &Decoded) -> (r: Option<String>)
    ensures
        r.deep_view() == described_hash(*d),
{
    match d.item_type {
        DecodeType::Bolt12Invoice => None,
        _ => clone_text(&d.description_hash),
    }
}

/// The amount of a decoded invoice.
pub fn amount_of(d: &Decoded, fallback: Option<u64>) -> (r: u64)
    requires
        d.item_type == DecodeType::Bolt12Invoice ==> d.invoice_amount_msat is Some,
    ensures
        r == invoiced_amount(*d, fallback),
{
    match d.item_type {
        DecodeType::Bolt12Invoice => d.invoice_amount_msat.unwrap(),
        _ => match d.amount_msat {
            Some(amt) => amt,
            None => match fallback {
                Some(a) => a,
                None => 0,
            },
        },
    }
}

/// When a decoded invoice was created.
pub fn created_at_of(d: &Decoded) -> (r: u64)
    requires
        is_invoice(d.item_type),
        d.item_type == DecodeType::Bolt12Invoice ==> d.invoice_created_at is Some,
        d.item_type == DecodeType::Bolt11Invoice ==> d.created_at is Some,
    ensures
        r == invoiced_at(*d),
{
    match d.item_type {
        DecodeType::Bolt12Invoice => d.invoice_created_at.unwrap(),
        _ => d.created_at.unwrap(),
    }
}

/// Until when a decoded invoice can be paid.
pub fn expires_at_of(d: &Decoded) -> (r: u64)
    requires
        is_invoice(d.item_type),
        d.expiring(),
    ensures
        r == invoiced_until(*d),
{
    match d.item_type {
        DecodeType::Bolt12Invoice => {
            let span: u32 = d.invoice_relative_expiry.unwrap();
            d.invoice_created_at.unwrap().saturating_add(span as u64)
        },
        _ => d.created_at.unwrap().saturating_add(d.expiry.unwrap()),
    }
}

/// The protocol's word for the state of an issued invoice.
pub fn state_of_invoice(status: InvoiceStatus) -> (r: TransactionState)
    ensures
        r == invoice_state(status),
{
    match status {
        InvoiceStatus::Unpaid => TransactionState::Pending,
        InvoiceStatus::Paid => TransactionState::Settled,
        InvoiceStatus::Expired => TransactionState::Expired,
    }
}

/// The protocol's word for the state of a sent payment.
pub fn state_of_pay(status: PayStatus) -> (r: TransactionState)
    ensures
        r == pay_state(status),
{
    match status {
        PayStatus::Pending => TransactionState::Pending,
        PayStatus::Failed => TransactionState::Failed,
        PayStatus::Complete => TransactionState::Settled,
    }
}

} // verus!
