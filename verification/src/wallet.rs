//! The reading operations: the balance of a connection, what it learns
//! about the node, and the invoices it asks for.

use vstd::prelude::*;
use vstd::string::*;
use crate::budget::{is_read_only_nwc, NwcStore};
use crate::capabilities::{
    build_methods_vec,
    build_notifications_vec,
    methods_for,
    notification_texts,
    notifications_for,
    Features,
};
use crate::encoding::{hex_encode, hex_lower};
use crate::lookups::{hash_text_valid, is_hash_text};
use crate::node::{ChannelState, NodeInfo, PeerChannel};
use crate::protocol::{
    deep_result,
    failure,
    ErrorCode,
    GetBalanceResponse,
    GetInfoResponse,
    GetInfoResponseView,
    MakeInvoiceRequest,
    MakeInvoiceResponse,
    MakeInvoiceResponseView,
    Nip47Error,
    Nip47ErrorView,
};
use crate::text::{clone_text, str_eq};

verus! {

/// What a channel adds to the balance: what can be spent over it while it
/// is in normal operation or awaits a splice.
pub open spec fn channel_spendable(channel: PeerChannel) -> nat {
    if (channel.state == ChannelState::Normal || channel.state == ChannelState::AwaitingSplice)
        && channel.spendable_msat is Some {
        channel.spendable_msat->0 as nat
    } else {
        0
    }
}

/// What can be spent over all of `channels`.
pub open spec fn spendable_sum(channels: Seq<PeerChannel>) -> nat
    decreases channels.len(),
{
    if channels.len() == 0 {
        0
    } else {
        spendable_sum(channels.drop_last()) + channel_spendable(channels.last())
    }
}

/// Adding channels never lowers the sum.
pub proof fn lemma_spendable_sum_grows(channels: Seq<PeerChannel>, k: int)
    requires
        0 <= k <= channels.len(),
    ensures
        spendable_sum(channels.take(k)) <= spendable_sum(channels),
    decreases channels.len() - k,
{
    if k == channels.len() {
        assert(channels.take(k) =~= channels);
    } else {
        lemma_spendable_sum_grows(channels, k + 1);
        assert(channels.take(k + 1).drop_last() =~= channels.take(k));
    }
}

/// Sums up what can be spent over the node's channels; `None` where the
/// sum is more than can be counted.
pub fn spendable_total(channels: &Vec<PeerChannel>) -> (r: Option<u64>)
    ensures
        r == if spendable_sum(channels@) <= u64::MAX {
            Some(spendable_sum(channels@) as u64)
        } else {
            None
        },
{
    let mut amount_msat: u64 = 0;
    let mut i: usize = 0;
    while i < channels.len()
        invariant
            0 <= i <= channels@.len(),
            amount_msat == spendable_sum(channels@.take(i as int)),
        decreases channels@.len() - i,
    {
        proof {
            assert(channels@.take(i as int + 1).drop_last() =~= channels@.take(i as int));
        }
        let counted: bool = match channels[i].state {
            ChannelState::Normal => true,
            ChannelState::AwaitingSplice => true,
            ChannelState::Other => false,
        };
        if counted {
            if let Some(spend) = channels[i].spendable_msat {
                match amount_msat.checked_add(spend) {
                    Some(total) => {
                        amount_msat = total;
                    },
                    None => {
                        proof {
                            lemma_spendable_sum_grows(channels@, i as int + 1);
                        }
                        return None;
                    },
                }
            }
        }
        i = i + 1;
    }
    proof {
        assert(channels@.take(channels@.len() as int) =~= channels@);
    }
    Some(amount_msat)
}

/// The balance of a connection: its budget where it has one, else what
/// the node can spend over its channels.
pub fn get_balance(budget_msat: Option<u64>, channels: &Vec<PeerChannel>) -> (r: GetBalanceResponse)
    requires
        budget_msat is None ==> spendable_sum(channels@) <= u64::MAX,
    ensures
        r.balance == match budget_msat {
            Some(b) => b as nat,
            None => spendable_sum(channels@),
        },
{
    match budget_msat {
        Some(bdgt_amt) => GetBalanceResponse { balance: bdgt_amt },
        None => GetBalanceResponse { balance: spendable_total(channels).unwrap() },
    }
}

/// The name of a network in the protocol: the node's word, but `mainnet`
/// for `bitcoin`.
pub open spec fn network_text(network: Seq<char>) -> Seq<char> {
    if network == "bitcoin"@ {
        "mainnet"@
    } else {
        network
    }
}

/// What a connection learns about the node and about itself.
pub open spec fn info_of(node: NodeInfo, read_only: bool, features: Features) -> GetInfoResponseView {
    GetInfoResponseView {
        alias: node.alias.deep_view(),
        color: Some(node.color@),
        pubkey: Some(node.id@),
        network: Some(network_text(node.network@)),
        block_height: Some(node.blockheight),
        block_hash: None,
        methods: methods_for(read_only, features),
        notifications: notification_texts(notifications_for(features)),
    }
}

/// Answers an info query from what the node says about itself, the record
/// of the connection and the features of the node.
pub fn get_info(node: &NodeInfo, nwc_store: &NwcStore, features: &Features) -> (r: GetInfoResponse)
    ensures
        r.deep_view() == info_of(*node, nwc_store.deep_view().read_only(), *features),
{
    let network = if str_eq(node.network.as_str(), "bitcoin") {
        "mainnet".to_owned()
    } else {
        node.network.clone()
    };
    let notifications = build_notifications_vec(features);
    let methods = build_methods_vec(is_read_only_nwc(nwc_store), features);
    proof {
        assert(notifications.deep_view() =~= notification_texts(notifications_for(*features)));
    }
    GetInfoResponse {
        alias: clone_text(&node.alias),
        color: Some(node.color.clone()),
        pubkey: Some(node.id.clone()),
        network: Some(network),
        block_height: Some(node.blockheight),
        block_hash: None,
        methods,
        notifications,
    }
}

/// The SHA-256 digest of a byte string.
pub uninterp spec fn sha256_digest(data: Seq<u8>) -> Seq<u8>;

/// Calls `sha256::Hash::const_hash` of `bitcoin_hashes`, as `cln_rpc`
/// hands it on. Trusted: the result is the digest of `data`, which depends
/// on `data` alone.
#[verifier::external_body]
fn sha256(data: &Vec<u8>) -> (r: Vec<u8>)
    ensures
        r@ == sha256_digest(data@),
{
    cln_rpc::primitives::Sha256::const_hash(data.as_slice())[..].to_vec()
}

/// A hexadecimal digit in lower case.
pub open spec fn lower_digit(c: char) -> char {
    if 65 <= c as u32 <= 70 {
        ((c as u32 + 32) as u8) as char
    } else {
        c
    }
}

/// A text with its hexadecimal digits in lower case.
pub open spec fn lower_hex(s: Seq<char>) -> Seq<char> {
    Seq::new(s.len(), |i: int| lower_digit(s[i]))
}

/// Whether the text of a hash names the given digest: it is a hash in
/// hexadecimal, in either case, of these very bytes.
pub open spec fn names_digest(hash: Seq<char>, digest: Seq<u8>) -> bool {
    is_hash_text(hash) && lower_hex(hash) == hex_lower(digest)
}

/// Tests [`names_digest`] against the digest written out in hexadecimal.
pub fn hash_matches(hash: &str, digest_hex: &str) -> (r: bool)
    requires
        is_hash_text(hash@),
    ensures
        r == (lower_hex(hash@) == digest_hex@),
{
    if digest_hex.unicode_len() != 64 {
        proof {
            assert(lower_hex(hash@).len() == 64);
        }
        return false;
    }
    let mut i: usize = 0;
    while i < 64
        invariant
            hash@.len() == 64,
            digest_hex@.len() == 64,
            0 <= i <= 64,
            forall|k: int| 0 <= k < i ==> lower_hex(hash@)[k] == digest_hex@[k],
        decreases 64 - i,
    {
        let c: char = hash.get_char(i);
        let code: u32 = c as u32;
        let lower: char = if 65 <= code && code <= 70 {
            ((code + 32) as u8) as char
        } else {
            c
        };
        if lower != digest_hex.get_char(i) {
            proof {
                assert(lower_hex(hash@)[i as int] != digest_hex@[i as int]);
            }
            return false;
        }
        i = i + 1;
    }
    proof {
        assert(lower_hex(hash@) =~= digest_hex@);
    }
    true
}

/// What the node is asked for an invoice.
#[derive(Clone, Debug, PartialEq, Eq)]
pub struct InvoiceCall {
    pub amount_msat: u64,
    pub description: String,
    pub deschashonly: Option<bool>,
    pub expiry: Option<u64>,
}

/// The view of an [`InvoiceCall`].
pub struct InvoiceCallView {
    pub amount_msat: u64,
    pub description: Seq<char>,
    pub deschashonly: Option<bool>,
    pub expiry: Option<u64>,
}

impl DeepView for InvoiceCall {
    type V = InvoiceCallView;

    open spec fn deep_view(&self) -> InvoiceCallView {
        InvoiceCallView {
            amount_msat: self.amount_msat,
            description: self.description@,
            deschashonly: self.deschashonly,
            expiry: self.expiry,
        }
    }
}

/// What the node is asked for an invoice, given the digest of the
/// description where the request has one.
///
/// A description hash must come with a description, must be a hash, and
/// must be the digest of the description; the invoice then carries the
/// hash only. An invoice without a description gets a standing one.
pub open spec fn invoice_planned(params: MakeInvoiceRequest, digest: Seq<u8>) -> Result<
    InvoiceCallView,
    Nip47ErrorView,
> {
    if params.description_hash is Some && params.description is None {
        Err(failure(ErrorCode::Other, "Must have description when using description_hash"@))
    } else if params.description_hash is Some && !is_hash_text(params.description_hash->0@) {
        Err(failure(ErrorCode::Internal, "description_hash is not a hash"@))
    } else if params.description_hash is Some && !names_digest(
        params.description_hash->0@,
        digest,
    ) {
        Err(failure(ErrorCode::Other, "description_hash not matching description"@))
    } else {
        Ok(
            InvoiceCallView {
                amount_msat: params.amount,
                description: match params.description {
                    Some(d) => d@,
                    None => "NWC make_invoice"@,
                },
                deschashonly: if params.description_hash is Some {
                    Some(true)
                } else {
                    None
                },
                expiry: params.expiry,
            },
        )
    }
}

/// Says what the node is asked for an invoice, once the digest of the
/// description is known. `digest` is read only where the request has a
/// description hash and a description.
pub fn invoice_call(params: &MakeInvoiceRequest, digest: &Vec<u8>) -> (r: Result<
    InvoiceCall,
    Nip47Error,
>)
    ensures
        deep_result(r) == invoice_planned(*params, digest@),
{
    let mut deschashonly: Option<bool> = None;
    match &params.description_hash {
        Some(d_hash) => {
            if params.description.is_none() {
                return Err(
                    Nip47Error::new(
                        ErrorCode::Other,
                        "Must have description when using description_hash",
                    ),
                );
            }
            if !hash_text_valid(d_hash.as_str()) {
                return Err(Nip47Error::new(ErrorCode::Internal, "description_hash is not a hash"));
            }
            let digest_hex = hex_encode(digest);
            if !hash_matches(d_hash.as_str(), digest_hex.as_str()) {
                return Err(
                    Nip47Error::new(ErrorCode::Other, "description_hash not matching description"),
                );
            }
            deschashonly = Some(true);
        },
        None => {},
    }
    let description = match &params.description {
        Some(d) => d.clone(),
        None => "NWC make_invoice".to_owned(),
    };
    Ok(InvoiceCall { amount_msat: params.amount, description, deschashonly, expiry: params.expiry })
}

/// The bytes of the description of a request; none where it has no description.
pub open spec fn description_bytes(params: MakeInvoiceRequest) -> Seq<u8> {
    match params.description {
        Some(d) => vstd::utf8::encode_utf8(d@),
        None => Seq::empty(),
    }
}

/// Says what the node is asked for an invoice.
pub fn make_invoice(params: &MakeInvoiceRequest) -> (r: Result<InvoiceCall, Nip47Error>)
    ensures
        deep_result(r) == invoice_planned(*params, sha256_digest(description_bytes(*params))),
{
    let bytes: Vec<u8> = match &params.description {
        Some(d) => d.as_str().as_bytes_vec(),
        None => Vec::new(),
    };
    let digest = sha256(&bytes);
    invoice_call(params, &digest)
}

/// The answer to a request for an invoice, from the invoice and the
/// payment hash that the node made.
pub fn invoice_made(bolt11: String, payment_hash: String) -> (r: MakeInvoiceResponse)
    ensures
        r.deep_view() == (MakeInvoiceResponseView {
            invoice: bolt11@,
            payment_hash: Some(payment_hash@),
            description: None,
            description_hash: None,
            preimage: None,
            amount: None,
            created_at: None,
            expires_at: None,
        }),
{
    MakeInvoiceResponse {
        invoice: bolt11,
        payment_hash: Some(payment_hash),
        description: None,
        description_hash: None,
        preimage: None,
        amount: None,
        created_at: None,
        expires_at: None,
    }
}

} // verus!
