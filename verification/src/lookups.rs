//! Looking transactions up and listing them: which queries go to the node,
//! how its answers become protocol transactions, and how a listing is
//! ordered, cut and kept under a size.

use vstd::prelude::*;
use crate::encoding::{hex_lower, hex_of_optional};
use crate::invoice::{
    amount_of,
    created_at_of,
    described,
    described_hash,
    description_hash_of,
    description_of,
    invoice_kind,
    invoice_state,
    invoiced_amount,
    invoiced_at,
    is_invoice,
    not_invoice_message,
    not_invoice_text,
    pay_state,
    state_of_invoice,
    state_of_pay,
};
use crate::node::{Decoded, InvoiceStatus, ListedInvoice, ListedPay};
use crate::protocol::{
    deep_result,
    failure,
    ErrorCode,
    ListTransactionsRequest,
    LookupInvoiceRequest,
    LookupInvoiceResponse,
    LookupInvoiceResponseView,
    Nip47Error,
    Nip47ErrorView,
    TransactionType,
};
use crate::text::clone_text;

verus! {

/// What the node is asked when a transaction is looked up.
#[derive(Clone, Debug, PartialEq, Eq)]
pub struct LookupQuery {
    pub invstring: Option<String>,
    pub payment_hash: Option<String>,
}

/// The view of a [`LookupQuery`].
pub struct LookupQueryView {
    pub invstring: Option<Seq<char>>,
    pub payment_hash: Option<Seq<char>>,
}

impl DeepView for LookupQuery {
    type V = LookupQueryView;

    open spec fn deep_view(&self) -> LookupQueryView {
        LookupQueryView {
            invstring: self.invstring.deep_view(),
            payment_hash: self.payment_hash.deep_view(),
        }
    }
}

/// The query for a lookup: by payment hash where one is given, else by
/// invoice; a request with neither is refused.
pub open spec fn lookup_asks(params: LookupInvoiceRequest) -> Result<LookupQueryView, Nip47ErrorView> {
    if params.payment_hash is None && params.invoice is None {
        Err(failure(ErrorCode::Other, "Neither invoice nor payment_hash given"@))
    } else {
        Ok(
            LookupQueryView {
                invstring: if params.payment_hash is Some {
                    None
                } else {
                    params.invoice.deep_view()
                },
                payment_hash: params.payment_hash.deep_view(),
            },
        )
    }
}

/// Says what the node is asked for a lookup.
pub fn lookup_query(params: &LookupInvoiceRequest) -> (r: Result<LookupQuery, Nip47Error>)
    ensures
        deep_result(r) == lookup_asks(*params),
{
    if params.payment_hash.is_none() && params.invoice.is_none() {
        return Err(Nip47Error::new(ErrorCode::Other, "Neither invoice nor payment_hash given"));
    }
    let invstring = if params.payment_hash.is_some() {
        None
    } else {
        clone_text(&params.invoice)
    };
    Ok(LookupQuery { invstring, payment_hash: clone_text(&params.payment_hash) })
}

/// A hexadecimal digit, in either case.
pub open spec fn is_hex_digit(c: char) -> bool {
    48 <= c as u32 <= 57 || 97 <= c as u32 <= 102 || 65 <= c as u32 <= 70
}

/// The text of a payment hash: 64 hexadecimal digits.
pub open spec fn is_hash_text(s: Seq<char>) -> bool {
    s.len() == 64 && forall|i: int| 0 <= i < s.len() ==> is_hex_digit(#[trigger] s[i])
}

/// Tests [`is_hash_text`].
pub fn hash_text_valid(s: &str) -> (r: bool)
    ensures
        r == is_hash_text(s@),
{
    if s.unicode_len() != 64 {
        return false;
    }
    let mut i: usize = 0;
    while i < 64
        invariant
            s@.len() == 64,
            0 <= i <= 64,
            forall|k: int| 0 <= k < i ==> is_hex_digit(#[trigger] s@[k]),
        decreases 64 - i,
    {
        let code: u32 = s.get_char(i) as u32;
        let hex: bool = (48 <= code && code <= 57) || (97 <= code && code <= 102) || (65 <= code
            && code <= 70);
        if !hex {
            return false;
        }
        i = i + 1;
    }
    true
}

/// What follows the node's list of matching invoices.
#[derive(Clone, Copy, Debug, PartialEq, Eq, Structural)]
pub enum LookupStep {
    /// Exactly one invoice matched: it is the transaction.
    FromInvoice,
    /// The node's payments are asked next.
    AskPays,
    /// The payment hash of the request cannot be one.
    BadHash,
}

/// What follows `count` matching invoices: with exactly one the lookup is
/// done; otherwise the payments are asked, unless the request names a
/// payment hash that is none.
pub open spec fn lookup_next(count: nat, payment_hash: Option<Seq<char>>) -> LookupStep {
    if count == 1 {
        LookupStep::FromInvoice
    } else if payment_hash is Some && !is_hash_text(payment_hash->0) {
        LookupStep::BadHash
    } else {
        LookupStep::AskPays
    }
}

/// Decides what follows the node's list of matching invoices.
pub fn lookup_after_invoices(count: usize, query: &LookupQuery) -> (r: LookupStep)
    ensures
        r == lookup_next(count as nat, query.payment_hash.deep_view()),
{
    if count == 1 {
        return LookupStep::FromInvoice;
    }
    match &query.payment_hash {
        Some(hash) => {
            if hash_text_valid(hash.as_str()) {
                LookupStep::AskPays
            } else {
                LookupStep::BadHash
            }
        },
        None => LookupStep::AskPays,
    }
}

/// The error for a payment hash that is none.
pub fn bad_hash_error() -> (r: Nip47Error)
    ensures
        r.deep_view() == failure(ErrorCode::Internal, "Could not convert payment hash"@),
{
    Nip47Error::new(ErrorCode::Internal, "Could not convert payment hash")
}

/// Decides what follows the node's list of matching payments: exactly one
/// is the transaction, anything else means that there is none.
pub fn lookup_after_pays(count: usize) -> (r: Result<(), Nip47Error>)
    ensures
        match r {
            Ok(_) => count == 1,
            Err(e) => count != 1 && e.deep_view() == failure(
                ErrorCode::NotFound,
                "Transaction not found"@,
            ),
        },
{
    if count != 1 {
        return Err(Nip47Error::new(ErrorCode::NotFound, "Transaction not found"));
    }
    Ok(())
}

/// The transaction that an issued invoice stands for.
///
/// It is refused where the decoding of its text is invalid or no invoice.
pub open spec fn lookup_from_invoice(invoice: ListedInvoice, d: Decoded) -> Result<
    LookupInvoiceResponseView,
    Nip47ErrorView,
> {
    if !d.valid || !is_invoice(d.item_type) {
        Err(failure(ErrorCode::Other, not_invoice_text()))
    } else {
        Ok(
            LookupInvoiceResponseView {
                transaction_type: Some(TransactionType::Incoming),
                state: Some(invoice_state(invoice.status)),
                invoice: Some(invoice.text()),
                description: described(d),
                description_hash: described_hash(d),
                preimage: match invoice.payment_preimage {
                    Some(p) => Some(hex_lower(p@)),
                    None => None,
                },
                payment_hash: invoice.payment_hash@,
                amount: invoiced_amount(d, invoice.amount_msat),
                fees_paid: 0,
                created_at: invoiced_at(d),
                expires_at: Some(invoice.expires_at),
                settled_at: invoice.paid_at,
            },
        )
    }
}

/// Makes a transaction from the node's listing of an invoice and the
/// decoding of its text.
pub fn make_lookup_response_from_listinvoices(list_invoice: &ListedInvoice, invoice_decoded: &Decoded) -> (r:
    Result<LookupInvoiceResponse, Nip47Error>)
    requires
        list_invoice.has_text(),
        invoice_decoded.dated(),
    ensures
        deep_result(r) == lookup_from_invoice(*list_invoice, *invoice_decoded),
{
    if !invoice_decoded.valid {
        return Err(Nip47Error { code: ErrorCode::Other, message: not_invoice_message() });
    }
    if !invoice_kind(invoice_decoded.item_type) {
        return Err(Nip47Error { code: ErrorCode::Other, message: not_invoice_message() });
    }
    Ok(
        LookupInvoiceResponse {
            transaction_type: Some(TransactionType::Incoming),
            state: Some(state_of_invoice(list_invoice.status)),
            invoice: Some(list_invoice.invstring().clone()),
            description: description_of(invoice_decoded),
            description_hash: description_hash_of(invoice_decoded),
            preimage: hex_of_optional(&list_invoice.payment_preimage),
            payment_hash: list_invoice.payment_hash.clone(),
            amount: amount_of(invoice_decoded, list_invoice.amount_msat),
            fees_paid: 0,
            created_at: created_at_of(invoice_decoded),
            expires_at: Some(list_invoice.expires_at),
            settled_at: list_invoice.paid_at,
        },
    )
}

/// The amount of a listed payment: what the node listed, else that of the
/// decoded invoice, where it states one, else zero.
pub open spec fn paid_amount(pay: ListedPay, d: Option<Decoded>) -> u64 {
    if pay.amount_msat is Some {
        pay.amount_msat->0
    } else {
        invoiced_amount(d->0, None)
    }
}

/// Whether a listed payment can be made into a transaction.
pub open spec fn pay_readable(pay: ListedPay, d: Option<Decoded>) -> bool {
    if pay.text() is Some {
        d->0.valid && is_invoice(d->0.item_type)
    } else {
        pay.amount_msat is Some
    }
}

/// What a listed payment must come with, so that its transaction can be
/// made: the decoding of its text where it has one; in a valid decoding of
/// the newer format, the amount where the payment lists none; and an
/// amount sent that is no less than the amount paid.
pub open spec fn pay_inputs_fit(pay: ListedPay, d: Option<Decoded>) -> bool {
    &&& pay.text() is Some ==> d is Some
    &&& pay_readable(pay, d) && pay.text() is Some && pay.amount_msat is None
        ==> d->0.amounted()
    &&& pay_readable(pay, d) && pay.amount_sent_msat is Some ==> paid_amount(pay, d)
        <= pay.amount_sent_msat->0
}

/// The transaction that a listed payment stands for.
///
/// It is refused where the payment's text was decoded as invalid or as no
/// invoice, and where the payment has neither a text nor an amount.
pub open spec fn lookup_from_pay(pay: ListedPay, d: Option<Decoded>) -> Result<
    LookupInvoiceResponseView,
    Nip47ErrorView,
> {
    if !pay_readable(pay, d) {
        Err(failure(ErrorCode::Other, not_invoice_text()))
    } else {
        Ok(
            LookupInvoiceResponseView {
                transaction_type: Some(TransactionType::Outgoing),
                state: Some(pay_state(pay.status)),
                invoice: pay.text(),
                description: if pay.text() is Some {
                    described(d->0)
                } else {
                    pay.description.deep_view()
                },
                description_hash: if pay.text() is Some {
                    described_hash(d->0)
                } else {
                    None
                },
                preimage: match pay.preimage {
                    Some(p) => Some(hex_lower(p@)),
                    None => None,
                },
                payment_hash: pay.payment_hash@,
                amount: paid_amount(pay, d),
                fees_paid: if pay.amount_sent_msat is Some {
                    (pay.amount_sent_msat->0 - paid_amount(pay, d)) as u64
                } else {
                    0
                },
                created_at: pay.created_at,
                expires_at: None,
                settled_at: pay.completed_at,
            },
        )
    }
}

/// Tests [`pay_inputs_fit`].
pub fn pay_inputs_checked(list_pay: &ListedPay, invoice_decoded: &Option<Decoded>) -> (r: bool)
    ensures
        r == pay_inputs_fit(*list_pay, *invoice_decoded),
{
    let amount: u64 = if list_pay.invstring().is_some() {
        match invoice_decoded {
            None => {
                return false;
            },
            Some(d) => {
                if !d.valid || !invoice_kind(d.item_type) {
                    return true;
                }
                match list_pay.amount_msat {
                    Some(a) => a,
                    None => {
                        if !d.is_amounted() {
                            return false;
                        }
                        amount_of(d, None)
                    },
                }
            },
        }
    } else {
        match list_pay.amount_msat {
            Some(a) => a,
            None => {
                return true;
            },
        }
    };
    match list_pay.amount_sent_msat {
        Some(sent) => amount <= sent,
        None => true,
    }
}

/// Makes a transaction from the node's listing of a payment and, where the
/// payment has a text, the decoding of that text. A decoding that comes
/// with a payment without text is not read.
pub fn make_lookup_response_from_listpays(list_pay: &ListedPay, invoice_decoded: &Option<Decoded>) -> (r:
    Result<LookupInvoiceResponse, Nip47Error>)
    requires
        pay_inputs_fit(*list_pay, *invoice_decoded),
    ensures
        deep_result(r) == lookup_from_pay(*list_pay, *invoice_decoded),
{
    let invstring: Option<String> = match list_pay.invstring() {
        Some(text) => Some(text.clone()),
        None => None,
    };
    let description;
    let description_hash;
    let amount: u64;
    if invstring.is_some() {
        let d = invoice_decoded.as_ref().unwrap();
        if !d.valid {
            return Err(Nip47Error { code: ErrorCode::Other, message: not_invoice_message() });
        }
        if !invoice_kind(d.item_type) {
            return Err(Nip47Error { code: ErrorCode::Other, message: not_invoice_message() });
        }
        description_hash = description_hash_of(d);
        amount = match list_pay.amount_msat {
            Some(a) => a,
            None => amount_of(d, None),
        };
        description = description_of(d);
    } else {
        description_hash = None;
        amount = match list_pay.amount_msat {
            Some(a) => a,
            None => {
                return Err(Nip47Error { code: ErrorCode::Other, message: not_invoice_message() });
            },
        };
        description = clone_text(&list_pay.description);
    }
    let fees_paid: u64 = match list_pay.amount_sent_msat {
        Some(sent) => sent - amount,
        None => 0,
    };
    Ok(
        LookupInvoiceResponse {
            transaction_type: Some(TransactionType::Outgoing),
            state: Some(state_of_pay(list_pay.status)),
            invoice: invstring,
            description,
            description_hash,
            preimage: hex_of_optional(&list_pay.preimage),
            payment_hash: list_pay.payment_hash.clone(),
            amount,
            fees_paid,
            created_at: list_pay.created_at,
            expires_at: None,
            settled_at: list_pay.completed_at,
        },
    )
}

/// Which of the node's lists a listing of transactions draws on: invoices,
/// payments, or both where the request names no direction.
pub fn transaction_sources(params: &ListTransactionsRequest) -> (r: (bool, bool))
    ensures
        r.0 == (params.transaction_type != Some(TransactionType::Outgoing)),
        r.1 == (params.transaction_type != Some(TransactionType::Incoming)),
{
    match params.transaction_type {
        Some(TransactionType::Incoming) => (true, false),
        Some(TransactionType::Outgoing) => (false, true),
        None => (true, true),
    }
}

/// Whether an issued invoice belongs in a listing: unpaid ones only where
/// the request asks for them.
pub fn lists_invoice(params: &ListTransactionsRequest, status: InvoiceStatus) -> (r: bool)
    ensures
        r == (params.unpaid == Some(true) || status != InvoiceStatus::Unpaid),
{
    let unpaid: bool = match params.unpaid {
        Some(u) => u,
        None => false,
    };
    match status {
        InvoiceStatus::Unpaid => unpaid,
        _ => true,
    }
}

} // verus!
