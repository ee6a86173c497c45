//! The wallet protocol's vocabulary: methods, error codes, requests,
//! responses and notifications, each with its mathematical view.

use vstd::prelude::*;

verus! {

/// An operation that a remote party can ask for.
#[derive(Clone, Copy, Debug, PartialEq, Eq, Structural)]
pub enum Method {
    PayInvoice,
    MultiPayInvoice,
    PayKeysend,
    MultiPayKeysend,
    MakeInvoice,
    LookupInvoice,
    ListTransactions,
    GetBalance,
    GetInfo,
    MakeHoldInvoice,
    CancelHoldInvoice,
    SettleHoldInvoice,
    MakeOffer,
    LookupOffer,
    PayOffer,
    MultiPayOffer,
}

/// An event that the wallet tells its remote parties about.
#[derive(Clone, Copy, Debug, PartialEq, Eq, Structural)]
pub enum NotificationType {
    PaymentReceived,
    PaymentSent,
    HoldInvoiceAccepted,
}

/// The error codes of the protocol.
#[derive(Clone, Copy, Debug, PartialEq, Eq, Structural)]
pub enum ErrorCode {
    RateLimited,
    NotImplemented,
    InsufficientBalance,
    PaymentFailed,
    NotFound,
    QuotaExceeded,
    Restricted,
    Unauthorized,
    Internal,
    Other,
}

/// The direction of a transaction, seen from the wallet.
#[derive(Clone, Copy, Debug, PartialEq, Eq, Structural)]
pub enum TransactionType {
    Incoming,
    Outgoing,
}

/// How far a transaction has come.
#[derive(Clone, Copy, Debug, PartialEq, Eq, Structural)]
pub enum TransactionState {
    Pending,
    Settled,
    Expired,
    Failed,
}

/// A protocol error: a code and a message for humans.
#[derive(Clone, Debug, PartialEq, Eq)]
pub struct Nip47Error {
    pub code: ErrorCode,
    pub message: String,
}

/// The view of a [`Nip47Error`].
pub struct Nip47ErrorView {
    pub code: ErrorCode,
    pub message: Seq<char>,
}

impl DeepView for Nip47Error {
    type V = Nip47ErrorView;

    open spec fn deep_view(&self) -> Nip47ErrorView {
        Nip47ErrorView { code: self.code, message: self.message@ }
    }
}

/// The error with the given code and message.
pub open spec fn failure(code: ErrorCode, message: Seq<char>) -> Nip47ErrorView {
    Nip47ErrorView { code, message }
}

impl Nip47Error {
    /// The error with the given code and message.
    pub fn new(code: ErrorCode, message: &str) -> (r: Nip47Error)
        ensures
            r.deep_view() == failure(code, message@),
    {
        Nip47Error { code, message: message.to_owned() }
    }

    /// The error about a failure of the node or of the wire, with its message.
    pub fn internal(message: String) -> (r: Nip47Error)
        ensures
            r.deep_view() == failure(ErrorCode::Internal, message@),
    {
        Nip47Error { code: ErrorCode::Internal, message }
    }
}

/// Both sides of a result, each by its view.
pub open spec fn deep_result<T: DeepView, E: DeepView>(r: Result<T, E>) -> Result<T::V, E::V> {
    match r {
        Ok(v) => Ok(v.deep_view()),
        Err(e) => Err(e.deep_view()),
    }
}

/// A request to pay an invoice.
#[derive(Clone, Debug, PartialEq, Eq)]
pub struct PayInvoiceRequest {
    pub id: Option<String>,
    pub invoice: String,
    pub amount: Option<u64>,
}

/// One extra record of a keysend payment.
#[derive(Clone, Debug, PartialEq, Eq)]
pub struct KeysendTlvRecord {
    pub tlv_type: u64,
    pub value: String,
}

/// A request to pay a node directly.
#[derive(Clone, Debug, PartialEq, Eq)]
pub struct PayKeysendRequest {
    pub id: Option<String>,
    pub amount: u64,
    pub pubkey: String,
    pub preimage: Option<String>,
    pub tlv_records: Vec<KeysendTlvRecord>,
}

/// A request to create an invoice.
#[derive(Clone, Debug, PartialEq, Eq)]
pub struct MakeInvoiceRequest {
    pub amount: u64,
    pub description: Option<String>,
    pub description_hash: Option<String>,
    pub expiry: Option<u64>,
}

/// A request to look a transaction up, by payment hash or by invoice.
#[derive(Clone, Debug, PartialEq, Eq)]
pub struct LookupInvoiceRequest {
    pub payment_hash: Option<String>,
    pub invoice: Option<String>,
}

/// A request to list transactions.
#[derive(Clone, Debug, PartialEq, Eq)]
pub struct ListTransactionsRequest {
    pub from: Option<u64>,
    pub until: Option<u64>,
    pub limit: Option<u64>,
    pub offset: Option<u64>,
    pub unpaid: Option<bool>,
    pub transaction_type: Option<TransactionType>,
}

/// A request to create a hold invoice.
#[derive(Clone, Debug, PartialEq, Eq)]
pub struct MakeHoldInvoiceRequest {
    pub amount: u64,
    pub description: Option<String>,
    pub description_hash: Option<String>,
    pub expiry: Option<u64>,
    pub payment_hash: String,
    pub cltv_expiry_delta: Option<u32>,
}

/// A request to cancel a hold invoice.
#[derive(Clone, Debug, PartialEq, Eq)]
pub struct CancelHoldInvoiceRequest {
    pub payment_hash: String,
}

/// A request to settle a hold invoice.
#[derive(Clone, Debug, PartialEq, Eq)]
pub struct SettleHoldInvoiceRequest {
    pub preimage: String,
}

/// The result of a paid invoice.
#[derive(Clone, Debug, PartialEq, Eq)]
pub struct PayInvoiceResponse {
    pub preimage: String,
    pub fees_paid: Option<u64>,
}

/// The view of a [`PayInvoiceResponse`].
pub struct PayInvoiceResponseView {
    pub preimage: Seq<char>,
    pub fees_paid: Option<u64>,
}

impl DeepView for PayInvoiceResponse {
    type V = PayInvoiceResponseView;

    open spec fn deep_view(&self) -> PayInvoiceResponseView {
        PayInvoiceResponseView { preimage: self.preimage@, fees_paid: self.fees_paid }
    }
}

/// The result of a keysend payment.
#[derive(Clone, Debug, PartialEq, Eq)]
pub struct PayKeysendResponse {
    pub preimage: String,
    pub fees_paid: Option<u64>,
}

/// The view of a [`PayKeysendResponse`].
pub struct PayKeysendResponseView {
    pub preimage: Seq<char>,
    pub fees_paid: Option<u64>,
}

impl DeepView for PayKeysendResponse {
    type V = PayKeysendResponseView;

    open spec fn deep_view(&self) -> PayKeysendResponseView {
        PayKeysendResponseView { preimage: self.preimage@, fees_paid: self.fees_paid }
    }
}

/// The result of a created invoice.
#[derive(Clone, Debug, PartialEq, Eq)]
pub struct MakeInvoiceResponse {
    pub invoice: String,
    pub payment_hash: Option<String>,
    pub description: Option<String>,
    pub description_hash: Option<String>,
    pub preimage: Option<String>,
    pub amount: Option<u64>,
    pub created_at: Option<u64>,
    pub expires_at: Option<u64>,
}

/// The view of a [`MakeInvoiceResponse`].
pub struct MakeInvoiceResponseView {
    pub invoice: Seq<char>,
    pub payment_hash: Option<Seq<char>>,
    pub description: Option<Seq<char>>,
    pub description_hash: Option<Seq<char>>,
    pub preimage: Option<Seq<char>>,
    pub amount: Option<u64>,
    pub created_at: Option<u64>,
    pub expires_at: Option<u64>,
}

impl DeepView for MakeInvoiceResponse {
    type V = MakeInvoiceResponseView;

    open spec fn deep_view(&self) -> MakeInvoiceResponseView {
        MakeInvoiceResponseView {
            invoice: self.invoice@,
            payment_hash: self.payment_hash.deep_view(),
            description: self.description.deep_view(),
            description_hash: self.description_hash.deep_view(),
            preimage: self.preimage.deep_view(),
            amount: self.amount,
            created_at: self.created_at,
            expires_at: self.expires_at,
        }
    }
}

/// One transaction, as a lookup or a listing reports it.
#[derive(Clone, Debug, PartialEq, Eq)]
pub struct LookupInvoiceResponse {
    pub transaction_type: Option<TransactionType>,
    pub state: Option<TransactionState>,
    pub invoice: Option<String>,
    pub description: Option<String>,
    pub description_hash: Option<String>,
    pub preimage: Option<String>,
    pub payment_hash: String,
    pub amount: u64,
    pub fees_paid: u64,
    pub created_at: u64,
    pub expires_at: Option<u64>,
    pub settled_at: Option<u64>,
}

/// The view of a [`LookupInvoiceResponse`].
pub struct LookupInvoiceResponseView {
    pub transaction_type: Option<TransactionType>,
    pub state: Option<TransactionState>,
    pub invoice: Option<Seq<char>>,
    pub description: Option<Seq<char>>,
    pub description_hash: Option<Seq<char>>,
    pub preimage: Option<Seq<char>>,
    pub payment_hash: Seq<char>,
    pub amount: u64,
    pub fees_paid: u64,
    pub created_at: u64,
    pub expires_at: Option<u64>,
    pub settled_at: Option<u64>,
}

impl DeepView for LookupInvoiceResponse {
    type V = LookupInvoiceResponseView;

    open spec fn deep_view(&self) -> LookupInvoiceResponseView {
        LookupInvoiceResponseView {
            transaction_type: self.transaction_type,
            state: self.state,
            invoice: self.invoice.deep_view(),
            description: self.description.deep_view(),
            description_hash: self.description_hash.deep_view(),
            preimage: self.preimage.deep_view(),
            payment_hash: self.payment_hash@,
            amount: self.amount,
            fees_paid: self.fees_paid,
            created_at: self.created_at,
            expires_at: self.expires_at,
            settled_at: self.settled_at,
        }
    }
}

/// The balance that a connection may spend.
#[derive(Clone, Copy, Debug, PartialEq, Eq, Structural)]
pub struct GetBalanceResponse {
    pub balance: u64,
}

/// What a connection learns about the node and about itself.
#[derive(Clone, Debug, PartialEq, Eq)]
pub struct GetInfoResponse {
    pub alias: Option<String>,
    pub color: Option<String>,
    pub pubkey: Option<String>,
    pub network: Option<String>,
    pub block_height: Option<u32>,
    pub block_hash: Option<String>,
    pub methods: Vec<Method>,
    pub notifications: Vec<String>,
}

/// The view of a [`GetInfoResponse`].
pub struct GetInfoResponseView {
    pub alias: Option<Seq<char>>,
    pub color: Option<Seq<char>>,
    pub pubkey: Option<Seq<char>>,
    pub network: Option<Seq<char>>,
    pub block_height: Option<u32>,
    pub block_hash: Option<Seq<char>>,
    pub methods: Seq<Method>,
    pub notifications: Seq<Seq<char>>,
}

impl DeepView for GetInfoResponse {
    type V = GetInfoResponseView;

    open spec fn deep_view(&self) -> GetInfoResponseView {
        GetInfoResponseView {
            alias: self.alias.deep_view(),
            color: self.color.deep_view(),
            pubkey: self.pubkey.deep_view(),
            network: self.network.deep_view(),
            block_height: self.block_height,
            block_hash: self.block_hash.deep_view(),
            methods: self.methods@,
            notifications: self.notifications.deep_view(),
        }
    }
}

/// The payload of a response, by the operation that produced it.
#[derive(Clone, Debug, PartialEq, Eq)]
pub enum ResponseResult {
    PayInvoice(PayInvoiceResponse),
    MultiPayInvoice(PayInvoiceResponse),
    PayKeysend(PayKeysendResponse),
    MultiPayKeysend(PayKeysendResponse),
    MakeInvoice(MakeInvoiceResponse),
    LookupInvoice(LookupInvoiceResponse),
    ListTransactions(Vec<LookupInvoiceResponse>),
    GetBalance(GetBalanceResponse),
    GetInfo(GetInfoResponse),
}

/// A response: the operation it answers, and either a payload or an error.
#[derive(Clone, Debug, PartialEq, Eq)]
pub struct Response {
    pub result_type: Method,
    pub error: Option<Nip47Error>,
    pub result: Option<ResponseResult>,
}

/// The response that carries a payload.
pub open spec fn success(result_type: Method, result: ResponseResult) -> Response {
    Response { result_type, error: None, result: Some(result) }
}

/// The response that carries an error.
pub open spec fn refusal(result_type: Method, error: Nip47Error) -> Response {
    Response { result_type, error: Some(error), result: None }
}

/// A notification about a payment that was received or sent.
#[derive(Clone, Debug, PartialEq, Eq)]
pub struct PaymentNotification {
    pub transaction_type: Option<TransactionType>,
    pub state: Option<TransactionState>,
    pub invoice: String,
    pub description: Option<String>,
    pub description_hash: Option<String>,
    pub preimage: String,
    pub payment_hash: String,
    pub amount: u64,
    pub fees_paid: u64,
    pub created_at: u64,
    pub expires_at: Option<u64>,
    pub settled_at: u64,
}

/// The view of a [`PaymentNotification`].
pub struct PaymentNotificationView {
    pub transaction_type: Option<TransactionType>,
    pub state: Option<TransactionState>,
    pub invoice: Seq<char>,
    pub description: Option<Seq<char>>,
    pub description_hash: Option<Seq<char>>,
    pub preimage: Seq<char>,
    pub payment_hash: Seq<char>,
    pub amount: u64,
    pub fees_paid: u64,
    pub created_at: u64,
    pub expires_at: Option<u64>,
    pub settled_at: u64,
}

impl DeepView for PaymentNotification {
    type V = PaymentNotificationView;

    open spec fn deep_view(&self) -> PaymentNotificationView {
        PaymentNotificationView {
            transaction_type: self.transaction_type,
            state: self.state,
            invoice: self.invoice@,
            description: self.description.deep_view(),
            description_hash: self.description_hash.deep_view(),
            preimage: self.preimage@,
            payment_hash: self.payment_hash@,
            amount: self.amount,
            fees_paid: self.fees_paid,
            created_at: self.created_at,
            expires_at: self.expires_at,
            settled_at: self.settled_at,
        }
    }
}

/// A notification that a hold invoice has its funds locked in.
#[derive(Clone, Debug, PartialEq, Eq)]
pub struct HoldInvoiceAcceptedNotification {
    pub transaction_type: TransactionType,
    pub invoice: String,
    pub description: Option<String>,
    pub description_hash: Option<String>,
    pub payment_hash: String,
    pub amount: u64,
    pub created_at: u64,
    pub expires_at: u64,
    pub settle_deadline: u32,
}

/// The view of a [`HoldInvoiceAcceptedNotification`].
pub struct HoldInvoiceAcceptedNotificationView {
    pub transaction_type: TransactionType,
    pub invoice: Seq<char>,
    pub description: Option<Seq<char>>,
    pub description_hash: Option<Seq<char>>,
    pub payment_hash: Seq<char>,
    pub amount: u64,
    pub created_at: u64,
    pub expires_at: u64,
    pub settle_deadline: u32,
}

impl DeepView for HoldInvoiceAcceptedNotification {
    type V = HoldInvoiceAcceptedNotificationView;

    open spec fn deep_view(&self) -> HoldInvoiceAcceptedNotificationView {
        HoldInvoiceAcceptedNotificationView {
            transaction_type: self.transaction_type,
            invoice: self.invoice@,
            description: self.description.deep_view(),
            description_hash: self.description_hash.deep_view(),
            payment_hash: self.payment_hash@,
            amount: self.amount,
            created_at: self.created_at,
            expires_at: self.expires_at,
            settle_deadline: self.settle_deadline,
        }
    }
}

} // verus!
