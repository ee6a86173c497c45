//! From results to responses: what goes back to the requester for each
//! operation, one response for a single operation and one for every item
//! of a batch.

use vstd::prelude::*;
use crate::keysend::keysend_id;
use crate::pay::Tagged;
use crate::protocol::{
    refusal,
    success,
    CancelHoldInvoiceRequest,
    ErrorCode,
    GetBalanceResponse,
    GetInfoResponse,
    ListTransactionsRequest,
    LookupInvoiceRequest,
    LookupInvoiceResponse,
    MakeHoldInvoiceRequest,
    MakeInvoiceRequest,
    MakeInvoiceResponse,
    Method,
    Nip47Error,
    PayInvoiceRequest,
    PayInvoiceResponse,
    PayKeysendRequest,
    PayKeysendResponse,
    Response,
    ResponseResult,
    SettleHoldInvoiceRequest,
};

verus! {

/// How long a batch rests between two of its items, in milliseconds, so
/// that the relays are not asked to publish faster than they allow.
pub const BATCH_DELAY_MILLIS: u64 = 100;

/// How an operation is handled.
#[derive(Clone, Copy, Debug, PartialEq, Eq, Structural)]
pub enum HandlerShape {
    /// Asks the node and answers; never touches the budget.
    Read,
    /// Checks the budget, pays once, and debits on success.
    SingleSpend,
    /// Runs the single operation on every item in turn, one answer each.
    Batch,
    /// Has no backend: answers that it is not implemented.
    Unimplemented,
}

/// The shape of the handler of each operation.
pub open spec fn shape_of(method: Method) -> HandlerShape {
    match method {
        Method::PayInvoice | Method::PayKeysend | Method::PayOffer => HandlerShape::SingleSpend,
        Method::MultiPayInvoice | Method::MultiPayKeysend | Method::MultiPayOffer => HandlerShape::Batch,
        Method::MakeHoldInvoice | Method::CancelHoldInvoice | Method::SettleHoldInvoice => HandlerShape::Unimplemented,
        _ => HandlerShape::Read,
    }
}

/// Tells how an operation is handled.
pub fn handler_shape(method: Method) -> (r: HandlerShape)
    ensures
        r == shape_of(method),
{
    match method {
        Method::PayInvoice | Method::PayKeysend | Method::PayOffer => HandlerShape::SingleSpend,
        Method::MultiPayInvoice | Method::MultiPayKeysend | Method::MultiPayOffer => HandlerShape::Batch,
        Method::MakeHoldInvoice | Method::CancelHoldInvoice | Method::SettleHoldInvoice => HandlerShape::Unimplemented,
        _ => HandlerShape::Read,
    }
}

/// A request: one of the operations, with what it was asked with.
#[derive(Clone, Debug, PartialEq, Eq)]
pub enum RequestParams {
    PayInvoice(PayInvoiceRequest),
    MultiPayInvoice(Vec<PayInvoiceRequest>),
    PayKeysend(PayKeysendRequest),
    MultiPayKeysend(Vec<PayKeysendRequest>),
    MakeInvoice(MakeInvoiceRequest),
    LookupInvoice(LookupInvoiceRequest),
    ListTransactions(ListTransactionsRequest),
    GetBalance,
    GetInfo,
    MakeHoldInvoice(MakeHoldInvoiceRequest),
    CancelHoldInvoice(CancelHoldInvoiceRequest),
    SettleHoldInvoice(SettleHoldInvoiceRequest),
}

/// The operation that a request asks for.
pub open spec fn method_of(params: RequestParams) -> Method {
    match params {
        RequestParams::PayInvoice(_) => Method::PayInvoice,
        RequestParams::MultiPayInvoice(_) => Method::MultiPayInvoice,
        RequestParams::PayKeysend(_) => Method::PayKeysend,
        RequestParams::MultiPayKeysend(_) => Method::MultiPayKeysend,
        RequestParams::MakeInvoice(_) => Method::MakeInvoice,
        RequestParams::LookupInvoice(_) => Method::LookupInvoice,
        RequestParams::ListTransactions(_) => Method::ListTransactions,
        RequestParams::GetBalance => Method::GetBalance,
        RequestParams::GetInfo => Method::GetInfo,
        RequestParams::MakeHoldInvoice(_) => Method::MakeHoldInvoice,
        RequestParams::CancelHoldInvoice(_) => Method::CancelHoldInvoice,
        RequestParams::SettleHoldInvoice(_) => Method::SettleHoldInvoice,
    }
}

/// How many responses a request is owed: one for each item of a batch,
/// else one.
pub open spec fn answers_owed(params: RequestParams) -> nat {
    match params {
        RequestParams::MultiPayInvoice(invoices) => invoices@.len(),
        RequestParams::MultiPayKeysend(keysends) => keysends@.len(),
        _ => 1,
    }
}

/// Tells which operation a request asks for, and how many responses it
/// is owed.
pub fn route(params: &RequestParams) -> (r: (Method, usize))
    ensures
        r.0 == method_of(*params),
        r.1 == answers_owed(*params),
{
    match params {
        RequestParams::PayInvoice(_) => (Method::PayInvoice, 1),
        RequestParams::MultiPayInvoice(invoices) => (Method::MultiPayInvoice, invoices.len()),
        RequestParams::PayKeysend(_) => (Method::PayKeysend, 1),
        RequestParams::MultiPayKeysend(keysends) => (Method::MultiPayKeysend, keysends.len()),
        RequestParams::MakeInvoice(_) => (Method::MakeInvoice, 1),
        RequestParams::LookupInvoice(_) => (Method::LookupInvoice, 1),
        RequestParams::ListTransactions(_) => (Method::ListTransactions, 1),
        RequestParams::GetBalance => (Method::GetBalance, 1),
        RequestParams::GetInfo => (Method::GetInfo, 1),
        RequestParams::MakeHoldInvoice(_) => (Method::MakeHoldInvoice, 1),
        RequestParams::CancelHoldInvoice(_) => (Method::CancelHoldInvoice, 1),
        RequestParams::SettleHoldInvoice(_) => (Method::SettleHoldInvoice, 1),
    }
}

/// The response for the outcome of one operation.
pub open spec fn answer(method: Method, outcome: Result<ResponseResult, Nip47Error>) -> Response {
    match outcome {
        Ok(o) => success(method, o),
        Err(e) => refusal(method, e),
    }
}

/// Makes the response for the outcome of one operation.
pub fn respond(method: Method, outcome: Result<ResponseResult, Nip47Error>) -> (r: Response)
    ensures
        r == answer(method, outcome),
{
    match outcome {
        Ok(o) => Response { result_type: method, error: None, result: Some(o) },
        Err(e) => Response { result_type: method, error: Some(e), result: None },
    }
}

/// Makes the one response of a single operation, under `id`.
pub fn single_response(
    method: Method,
    outcome: Result<ResponseResult, Nip47Error>,
    id: Option<String>,
) -> (r: Vec<(Response, Option<String>)>)
    ensures
        r@ == seq![(answer(method, outcome), id)],
{
    let mut out: Vec<(Response, Option<String>)> = Vec::new();
    out.push((respond(method, outcome), id));
    proof {
        assert(out@ =~= seq![(answer(method, outcome), id)]);
    }
    out
}

/// The response to a balance query.
pub fn get_balance_response(outcome: Result<GetBalanceResponse, Nip47Error>) -> (r: Vec<
    (Response, Option<String>),
>)
    ensures
        r@ == seq![
            (
                answer(
                    Method::GetBalance,
                    match outcome {
                        Ok(o) => Ok(ResponseResult::GetBalance(o)),
                        Err(e) => Err(e),
                    },
                ),
                None::<String>,
            ),
        ],
{
    let wrapped = match outcome {
        Ok(o) => Ok(ResponseResult::GetBalance(o)),
        Err(e) => Err(e),
    };
    single_response(Method::GetBalance, wrapped, None)
}

/// The response to an info query.
pub fn get_info_response(outcome: Result<GetInfoResponse, Nip47Error>) -> (r: Vec<
    (Response, Option<String>),
>)
    ensures
        r@ == seq![
            (
                answer(
                    Method::GetInfo,
                    match outcome {
                        Ok(o) => Ok(ResponseResult::GetInfo(o)),
                        Err(e) => Err(e),
                    },
                ),
                None::<String>,
            ),
        ],
{
    let wrapped = match outcome {
        Ok(o) => Ok(ResponseResult::GetInfo(o)),
        Err(e) => Err(e),
    };
    single_response(Method::GetInfo, wrapped, None)
}

/// The response to a request for an invoice.
pub fn make_invoice_response(outcome: Result<MakeInvoiceResponse, Nip47Error>) -> (r: Vec<
    (Response, Option<String>),
>)
    ensures
        r@ == seq![
            (
                answer(
                    Method::MakeInvoice,
                    match outcome {
                        Ok(o) => Ok(ResponseResult::MakeInvoice(o)),
                        Err(e) => Err(e),
                    },
                ),
                None::<String>,
            ),
        ],
{
    let wrapped = match outcome {
        Ok(o) => Ok(ResponseResult::MakeInvoice(o)),
        Err(e) => Err(e),
    };
    single_response(Method::MakeInvoice, wrapped, None)
}

/// The response to a lookup.
pub fn lookup_invoice_response(outcome: Result<LookupInvoiceResponse, Nip47Error>) -> (r: Vec<
    (Response, Option<String>),
>)
    ensures
        r@ == seq![
            (
                answer(
                    Method::LookupInvoice,
                    match outcome {
                        Ok(o) => Ok(ResponseResult::LookupInvoice(o)),
                        Err(e) => Err(e),
                    },
                ),
                None::<String>,
            ),
        ],
{
    let wrapped = match outcome {
        Ok(o) => Ok(ResponseResult::LookupInvoice(o)),
        Err(e) => Err(e),
    };
    single_response(Method::LookupInvoice, wrapped, None)
}

/// The response to a request for a listing.
pub fn list_transactions_response(outcome: Result<Vec<LookupInvoiceResponse>, Nip47Error>) -> (r:
    Vec<(Response, Option<String>)>)
    ensures
        r@ == seq![
            (
                answer(
                    Method::ListTransactions,
                    match outcome {
                        Ok(o) => Ok(ResponseResult::ListTransactions(o)),
                        Err(e) => Err(e),
                    },
                ),
                None::<String>,
            ),
        ],
{
    let wrapped = match outcome {
        Ok(o) => Ok(ResponseResult::ListTransactions(o)),
        Err(e) => Err(e),
    };
    single_response(Method::ListTransactions, wrapped, None)
}

/// The response and identifier for the outcome of one invoice payment,
/// answered as `method`.
pub open spec fn pay_answer(
    method: Method,
    outcome: Result<(PayInvoiceResponse, Option<String>), Tagged>,
) -> (Response, Option<String>) {
    match outcome {
        Ok((resp, id)) => (
            success(
                method,
                if method == Method::MultiPayInvoice {
                    ResponseResult::MultiPayInvoice(resp)
                } else {
                    ResponseResult::PayInvoice(resp)
                },
            ),
            id,
        ),
        Err((e, id)) => (refusal(method, e), id),
    }
}

/// The response to a request to pay one invoice.
pub fn pay_invoice_response(outcome: Result<(PayInvoiceResponse, Option<String>), Tagged>) -> (r:
    Vec<(Response, Option<String>)>)
    ensures
        r@ == seq![pay_answer(Method::PayInvoice, outcome)],
{
    match outcome {
        Ok((resp, id)) => single_response(
            Method::PayInvoice,
            Ok(ResponseResult::PayInvoice(resp)),
            id,
        ),
        Err((e, id)) => single_response(Method::PayInvoice, Err(e), id),
    }
}

/// The responses to a request to pay several invoices: one for each
/// outcome, in order, whatever the outcomes are.
pub fn multi_pay_invoice(outcomes: Vec<Result<(PayInvoiceResponse, Option<String>), Tagged>>) -> (r:
    Vec<(Response, Option<String>)>)
    ensures
        r@.len() == outcomes@.len(),
        forall|i: int|
            0 <= i < outcomes@.len() ==> #[trigger] r@[i] == pay_answer(
                Method::MultiPayInvoice,
                outcomes@[i],
            ),
{
    let mut rest = outcomes;
    let mut responses: Vec<(Response, Option<String>)> = Vec::new();
    while rest.len() > 0
        invariant
            responses@.len() + rest@.len() == outcomes@.len(),
            forall|i: int|
                0 <= i < responses@.len() ==> #[trigger] responses@[i] == pay_answer(
                    Method::MultiPayInvoice,
                    outcomes@[i],
                ),
            forall|i: int| 0 <= i < rest@.len() ==> #[trigger] rest@[i] == outcomes@[responses@.len() + i],
        decreases rest@.len(),
    {
        let outcome = rest.remove(0);
        let entry = match outcome {
            Ok((resp, id)) => (
                respond(Method::MultiPayInvoice, Ok(ResponseResult::MultiPayInvoice(resp))),
                id,
            ),
            Err((e, id)) => (respond(Method::MultiPayInvoice, Err(e)), id),
        };
        responses.push(entry);
    }
    responses
}

/// The response to a request for one keysend payment.
pub fn pay_keysend_response(outcome: Result<PayKeysendResponse, Nip47Error>) -> (r: Vec<
    (Response, Option<String>),
>)
    ensures
        r@ == seq![
            (
                answer(
                    Method::PayKeysend,
                    match outcome {
                        Ok(o) => Ok(ResponseResult::PayKeysend(o)),
                        Err(e) => Err(e),
                    },
                ),
                None::<String>,
            ),
        ],
{
    let wrapped = match outcome {
        Ok(o) => Ok(ResponseResult::PayKeysend(o)),
        Err(e) => Err(e),
    };
    single_response(Method::PayKeysend, wrapped, None)
}

/// The response for the outcome of one keysend payment of a batch.
pub open spec fn keysend_answer(outcome: Result<PayKeysendResponse, Nip47Error>) -> Response {
    match outcome {
        Ok(resp) => success(Method::MultiPayKeysend, ResponseResult::MultiPayKeysend(resp)),
        Err(e) => refusal(Method::MultiPayKeysend, e),
    }
}

/// The responses to a request for several keysend payments: one for each
/// outcome, in order, whatever the outcomes are, each under the identifier
/// of its request, or under the receiver's key where the request has none.
pub fn multi_pay_keysend(
    keysends: &Vec<PayKeysendRequest>,
    outcomes: Vec<Result<PayKeysendResponse, Nip47Error>>,
) -> (r: Vec<(Response, String)>)
    requires
        keysends@.len() == outcomes@.len(),
    ensures
        r@.len() == outcomes@.len(),
        forall|i: int|
            0 <= i < outcomes@.len() ==> (#[trigger] r@[i]).0 == keysend_answer(outcomes@[i])
                && r@[i].1@ == match keysends@[i].id {
                Some(id) => id@,
                None => keysends@[i].pubkey@,
            },
{
    let mut rest = outcomes;
    let mut responses: Vec<(Response, String)> = Vec::new();
    while rest.len() > 0
        invariant
            keysends@.len() == outcomes@.len(),
            responses@.len() + rest@.len() == outcomes@.len(),
            forall|i: int|
                0 <= i < responses@.len() ==> (#[trigger] responses@[i]).0 == keysend_answer(
                    outcomes@[i],
                ) && responses@[i].1@ == match keysends@[i].id {
                    Some(id) => id@,
                    None => keysends@[i].pubkey@,
                },
            forall|i: int| 0 <= i < rest@.len() ==> #[trigger] rest@[i] == outcomes@[responses@.len() + i],
        decreases rest@.len(),
    {
        let id = keysend_id(&keysends[responses.len()]);
        let outcome = rest.remove(0);
        let response = match outcome {
            Ok(resp) => respond(Method::MultiPayKeysend, Ok(ResponseResult::MultiPayKeysend(resp))),
            Err(e) => respond(Method::MultiPayKeysend, Err(e)),
        };
        responses.push((response, id));
    }
    responses
}

/// The error of an operation that has no backend.
pub open spec fn not_implemented() -> crate::protocol::Nip47ErrorView {
    crate::protocol::failure(ErrorCode::NotImplemented, "Not implemented"@)
}

/// Whether `r` is the one response of an operation without a backend:
/// under the operation that was asked for, with the error that it is not
/// implemented, and with no payload and no identifier.
pub open spec fn is_unimplemented(r: Seq<(Response, Option<String>)>, method: Method) -> bool {
    &&& r.len() == 1
    &&& r[0].0.result_type == method
    &&& r[0].0.result is None
    &&& r[0].0.error is Some
    &&& r[0].0.error->0.deep_view() == not_implemented()
    &&& r[0].1 is None
}

/// The one response of an operation that has no backend.
pub fn unimplemented_response(method: Method) -> (r: Vec<(Response, Option<String>)>)
    ensures
        is_unimplemented(r@, method),
{
    single_response(
        method,
        Err(Nip47Error::new(ErrorCode::NotImplemented, "Not implemented")),
        None,
    )
}

/// Answers a request for a hold invoice: not implemented.
pub fn make_hold_invoice_response(_params: &MakeHoldInvoiceRequest, _label: &str) -> (r: Vec<
    (Response, Option<String>),
>)
    ensures
        is_unimplemented(r@, Method::MakeHoldInvoice),
{
    unimplemented_response(Method::MakeHoldInvoice)
}

/// Answers a request to cancel a hold invoice: not implemented.
pub fn cancel_hold_invoice_response(_params: &CancelHoldInvoiceRequest, _label: &str) -> (r: Vec<
    (Response, Option<String>),
>)
    ensures
        is_unimplemented(r@, Method::CancelHoldInvoice),
{
    unimplemented_response(Method::CancelHoldInvoice)
}

/// Answers a request to settle a hold invoice: not implemented.
pub fn settle_hold_invoice_response(_params: &SettleHoldInvoiceRequest, _label: &str) -> (r: Vec<
    (Response, Option<String>),
>)
    ensures
        is_unimplemented(r@, Method::SettleHoldInvoice),
{
    unimplemented_response(Method::SettleHoldInvoice)
}

} // verus!
