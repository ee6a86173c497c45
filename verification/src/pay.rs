//! Paying an invoice: validating what the node decoded, reconciling the
//! amounts with the budget, choosing the payment path, and turning the
//! node's answer into a response or an error of the protocol.

use vstd::prelude::*;
use crate::budget::{budget_amount_check, budget_verdict, debited, NwcStore, NwcStoreView, QuotaError, quota_error_message};
use crate::encoding::{hex_encode, hex_lower};
use crate::invoice::{not_invoice_message, not_invoice_text};
use crate::node::{Decoded, DecodeType};
use crate::protocol::{
    failure,
    ErrorCode,
    Nip47Error,
    Nip47ErrorView,
    PayInvoiceRequest,
    PayInvoiceResponse,
    PayInvoiceResponseView,
};
use crate::text::clone_text;
use crate::version::{at_or_above_version, version_error_message, version_verdict, VersionError};

verus! {

/// The version from which on the node pays by its newer command.
pub open spec fn modern_pay_version() -> Seq<char> {
    "24.11"@
}

/// An error together with the identifier of the request that it answers.
pub type Tagged = (Nip47Error, Option<String>);

/// The view of a [`Tagged`] error.
pub type TaggedView = (Nip47ErrorView, Option<Seq<char>>);

/// Whether the decoded text can be paid as an invoice: it is valid and an
/// invoice of the older format.
pub open spec fn payable(d: Decoded) -> bool {
    d.valid && d.item_type == DecodeType::Bolt11Invoice
}

/// Refuses what cannot be paid as an invoice, with the request's own
/// identifier on the error.
pub fn decode_and_validate_invoice(invoice_decoded: &Decoded, params: &PayInvoiceRequest) -> (r:
    Result<(), Tagged>)
    ensures
        match r {
            Ok(_) => payable(*invoice_decoded),
            Err(e) => !payable(*invoice_decoded) && e.deep_view() == (
                failure(ErrorCode::Other, not_invoice_text()),
                params.id.deep_view(),
            ),
        },
{
    if !invoice_decoded.valid {
        return Err(
            (
                Nip47Error { code: ErrorCode::Other, message: not_invoice_message() },
                clone_text(&params.id),
            ),
        );
    }
    match invoice_decoded.item_type {
        DecodeType::Bolt11Invoice => Ok(()),
        _ => Err(
            (
                Nip47Error { code: ErrorCode::Other, message: not_invoice_message() },
                clone_text(&params.id),
            ),
        ),
    }
}

/// The identifier under which a payment is answered: that of the request,
/// else the payment hash of the invoice.
pub open spec fn payment_id(params: PayInvoiceRequest, d: Decoded) -> Result<Seq<char>, TaggedView> {
    if params.id is Some {
        Ok(params.id->0@)
    } else if d.payment_hash is Some {
        Ok(d.payment_hash->0@)
    } else {
        Err((failure(ErrorCode::Internal, "payment_hash missing in decoded invoice"@), None))
    }
}

/// Picks the identifier under which a payment is answered.
pub fn get_payment_id(params: &PayInvoiceRequest, decoded_invoice: &Decoded) -> (r: Result<
    String,
    Tagged,
>)
    ensures
        match r {
            Ok(id) => payment_id(*params, *decoded_invoice) == Ok::<Seq<char>, TaggedView>(id@),
            Err(e) => payment_id(*params, *decoded_invoice) == Err::<Seq<char>, TaggedView>(
                e.deep_view(),
            ),
        },
{
    match &params.id {
        Some(i) => Ok(i.clone()),
        None => match &decoded_invoice.payment_hash {
            Some(hash) => Ok(hash.clone()),
            None => Err(
                (
                    Nip47Error::new(
                        ErrorCode::Internal,
                        "payment_hash missing in decoded invoice",
                    ),
                    None,
                ),
            ),
        },
    }
}

/// The amount that an invoice states, if it states one.
pub fn get_invoice_amount_msat(decoded_invoice: &Decoded) -> (r: Option<u64>)
    ensures
        r == decoded_invoice.amount_msat,
{
    decoded_invoice.amount_msat
}

/// The code under which a refusal of the ledger goes out: amounts that are
/// missing or disagree are a fault of the request, the rest is the quota.
pub open spec fn quota_code(error: QuotaError) -> ErrorCode {
    match error {
        QuotaError::AmountMissing => ErrorCode::Other,
        QuotaError::AmountMismatch => ErrorCode::Other,
        QuotaError::QuotaExceeded => ErrorCode::QuotaExceeded,
    }
}

/// The message of a [`QuotaError`].
pub open spec fn quota_text(error: QuotaError) -> Seq<char> {
    match error {
        QuotaError::AmountMissing => "No amount given to check budget against!"@,
        QuotaError::AmountMismatch => "Amount from request and invoice differ!"@,
        QuotaError::QuotaExceeded => "Payment exceeds budget!"@,
    }
}

/// Amounts that differ are refused as a fault of the request, whatever the
/// budget is: the quota is not looked at before the amounts agree.
pub proof fn lemma_mismatch_comes_before_quota(
    request_amt_msat: u64,
    invoice_amt_msat: u64,
    budget_msat: Option<u64>,
)
    requires
        request_amt_msat != invoice_amt_msat,
    ensures
        budget_verdict(Some(request_amt_msat), Some(invoice_amt_msat), budget_msat) == Err::<
            (),
            QuotaError,
        >(QuotaError::AmountMismatch),
        quota_code(QuotaError::AmountMismatch) == ErrorCode::Other,
{
}

/// The protocol error for a refusal of the ledger.
pub fn quota_failure(error: QuotaError) -> (r: Nip47Error)
    ensures
        r.deep_view() == failure(quota_code(error), quota_text(error)),
{
    let code = match error {
        QuotaError::AmountMissing => ErrorCode::Other,
        QuotaError::AmountMismatch => ErrorCode::Other,
        QuotaError::QuotaExceeded => ErrorCode::QuotaExceeded,
    };
    Nip47Error { code, message: quota_error_message(error) }
}

/// Reconciles the amounts of a payment with each other and with the
/// budget of the connection; a refusal carries the payment's identifier.
pub fn check_budget(
    params: &PayInvoiceRequest,
    invoice_amt_msat: Option<u64>,
    budget_msat: Option<u64>,
    id: &str,
) -> (r: Result<(), Tagged>)
    ensures
        match r {
            Ok(_) => budget_verdict(params.amount, invoice_amt_msat, budget_msat) is Ok,
            Err(e) => budget_verdict(params.amount, invoice_amt_msat, budget_msat) is Err
                && e.deep_view() == (
                failure(
                    quota_code(budget_verdict(params.amount, invoice_amt_msat, budget_msat)->Err_0),
                    quota_text(budget_verdict(params.amount, invoice_amt_msat, budget_msat)->Err_0),
                ),
                Some(id@),
            ),
        },
{
    match budget_amount_check(params.amount, invoice_amt_msat, budget_msat) {
        Ok(()) => Ok(()),
        Err(e) => Err((quota_failure(e), Some(id.to_owned()))),
    }
}

/// The message of a [`VersionError`] for the version `my_version`.
pub open spec fn version_text(error: VersionError, my_version: Seq<char>) -> Seq<char> {
    match error {
        VersionError::MissingMarker => "Could not find v in version string"@,
        VersionError::ComponentCount => "Version string parse error: "@ + my_version,
        VersionError::BadComponent => "Version component is not a number: "@ + my_version,
    }
}

/// Chooses the payment path: the newer one where the node's version is at
/// or above the threshold. A version that cannot be read is an internal
/// error under the payment's identifier.
pub fn check_cln_version(my_version: &str, id: &str) -> (r: Result<bool, Tagged>)
    ensures
        match r {
            Ok(modern) => version_verdict(my_version@, modern_pay_version()) == Ok::<
                bool,
                VersionError,
            >(modern),
            Err(e) => version_verdict(my_version@, modern_pay_version()) is Err && e.deep_view()
                == (
                failure(
                    ErrorCode::Internal,
                    version_text(
                        version_verdict(my_version@, modern_pay_version())->Err_0,
                        my_version@,
                    ),
                ),
                Some(id@),
            ),
        },
{
    match at_or_above_version(my_version, "24.11") {
        Ok(modern) => Ok(modern),
        Err(e) => Err(
            (Nip47Error::internal(version_error_message(e, my_version)), Some(id.to_owned())),
        ),
    }
}

/// The code for a failure of the node's payment command, by the node's
/// numeric code and the path that was taken.
///
/// Both paths know codes for a payment that was rejected before it was
/// tried and codes for one that was tried and failed; only the older path
/// knows one for a balance that does not suffice. Every other code, and a
/// failure without a code, is an internal error.
pub open spec fn pay_error_code(code: Option<i32>, is_xpay: bool) -> ErrorCode {
    match code {
        None => ErrorCode::Internal,
        Some(c) => if c == 207 || c == 219 || (!is_xpay && c == 201) {
            ErrorCode::Other
        } else if c == 203 || c == 205 || c == 209 || (!is_xpay && c == 210) {
            ErrorCode::PaymentFailed
        } else if !is_xpay && c == 206 {
            ErrorCode::InsufficientBalance
        } else {
            ErrorCode::Internal
        },
    }
}

/// Turns a failure of the node's payment command into an error of the
/// protocol, under the payment's identifier.
pub fn map_cln_error_to_nip47(code: Option<i32>, message: String, id: &str, is_xpay: bool) -> (r:
    Tagged)
    ensures
        r.deep_view() == (failure(pay_error_code(code, is_xpay), message@), Some(id@)),
{
    let kind = match code {
        Some(c) => {
            if c == 207 || c == 219 || (!is_xpay && c == 201) {
                ErrorCode::Other
            } else if c == 203 || c == 205 || c == 209 || (!is_xpay && c == 210) {
                ErrorCode::PaymentFailed
            } else if !is_xpay && c == 206 {
                ErrorCode::InsufficientBalance
            } else {
                ErrorCode::Internal
            }
        },
        None => ErrorCode::Internal,
    };
    (Nip47Error { code: kind, message }, Some(id.to_owned()))
}

/// Books a payment that went through: the budget is debited by what was
/// sent, fees included, and the response carries the preimage and the
/// fees. Returns the response with the payment's identifier, and whether
/// the record changed and has to be stored.
pub fn update_budget_and_create_response(
    nwc_store: &mut NwcStore,
    amount_sent_msat: u64,
    amount_msat: u64,
    preimage: &Vec<u8>,
    id: &str,
) -> (r: ((PayInvoiceResponse, Option<String>), bool))
    requires
        amount_msat <= amount_sent_msat,
    ensures
        r.0.deep_view() == (
            PayInvoiceResponseView {
                preimage: hex_lower(preimage@),
                fees_paid: Some((amount_sent_msat - amount_msat) as u64),
            },
            Some(id@),
        ),
        r.1 == old(nwc_store).budget_msat is Some,
        final(nwc_store).deep_view() == (NwcStoreView {
            budget_msat: match old(nwc_store).budget_msat {
                Some(b) => Some(debited(b as int, amount_sent_msat as int) as u64),
                None => None,
            },
            ..old(nwc_store).deep_view()
        }),
        old(nwc_store).deep_view().well_formed() ==> final(nwc_store).deep_view().well_formed(),
{
    let stored = nwc_store.debit(amount_sent_msat);
    let response = PayInvoiceResponse {
        preimage: hex_encode(preimage),
        fees_paid: Some(amount_sent_msat - amount_msat),
    };
    ((response, Some(id.to_owned())), stored)
}

} // verus!
