//! Paying a node directly: what is checked before the node is asked, what
//! the node is asked, and what its answer becomes.

use vstd::prelude::*;
use vstd::string::*;
use crate::budget::{budget_amount_check, debited, NwcStore, NwcStoreView};
use crate::encoding::{hex_encode, hex_lower};
use crate::pay::quota_failure;
use crate::protocol::{
    deep_result,
    failure,
    ErrorCode,
    KeysendTlvRecord,
    Nip47Error,
    Nip47ErrorView,
    PayKeysendRequest,
    PayKeysendResponse,
    PayKeysendResponseView,
};

verus! {

/// What is wrong with the text of a node's public key, in the words of the
/// library that parses it; `None` for a key that parses.
pub uninterp spec fn node_key_fault(text: Seq<char>) -> Option<Seq<char>>;

/// Calls `PublicKey::from_str` of `secp256k1`, as `cln_rpc` hands it on.
/// Trusted: whether and with which message the call fails depends on the
/// text alone.
#[verifier::external_body]
fn parse_node_key(text: &str) -> (r: Option<String>)
    ensures
        r.deep_view() == node_key_fault(text@),
{
    match <cln_rpc::primitives::PublicKey as std::str::FromStr>::from_str(text) {
        Ok(_) => None,
        Err(e) => Some(e.to_string()),
    }
}

/// One extra record, as the node takes it.
#[derive(Clone, Debug, PartialEq, Eq)]
pub struct TlvEntry {
    pub typ: u64,
    pub value: Vec<u8>,
}

impl DeepView for TlvEntry {
    type V = (u64, Seq<u8>);

    open spec fn deep_view(&self) -> (u64, Seq<u8>) {
        (self.typ, self.value@)
    }
}

/// What the node is asked for a keysend payment.
#[derive(Clone, Debug, PartialEq, Eq)]
pub struct KeysendCall {
    pub amount_msat: u64,
    pub destination: String,
    pub extratlvs: Option<Vec<TlvEntry>>,
}

/// The view of a [`KeysendCall`].
pub struct KeysendCallView {
    pub amount_msat: u64,
    pub destination: Seq<char>,
    pub extratlvs: Option<Seq<(u64, Seq<u8>)>>,
}

impl DeepView for KeysendCall {
    type V = KeysendCallView;

    open spec fn deep_view(&self) -> KeysendCallView {
        KeysendCallView {
            amount_msat: self.amount_msat,
            destination: self.destination@,
            extratlvs: self.extratlvs.deep_view(),
        }
    }
}

/// The extra records of a request, each with its value as bytes.
pub open spec fn tlv_entries(records: Seq<KeysendTlvRecord>) -> Seq<(u64, Seq<u8>)> {
    Seq::new(
        records.len(),
        |i: int| (records[i].tlv_type, vstd::utf8::encode_utf8(records[i].value@)),
    )
}

/// The extra records of a request as the node takes them; none at all
/// where the request has none.
pub fn keysend_tlvs(records: &Vec<KeysendTlvRecord>) -> (r: Option<Vec<TlvEntry>>)
    ensures
        r.deep_view() == if records@.len() == 0 {
            None
        } else {
            Some(tlv_entries(records@))
        },
{
    if records.len() == 0 {
        return None;
    }
    let mut entries: Vec<TlvEntry> = Vec::new();
    let mut i: usize = 0;
    while i < records.len()
        invariant
            0 <= i <= records@.len(),
            entries.deep_view() =~= tlv_entries(records@).take(i as int),
        decreases records@.len() - i,
    {
        let ghost before = entries.deep_view();
        entries.push(TlvEntry { typ: records[i].tlv_type, value: records[i].value.as_str().as_bytes_vec() });
        proof {
            assert(entries.deep_view() =~= before.push(tlv_entries(records@)[i as int]));
            assert(tlv_entries(records@).take(i as int + 1) =~= tlv_entries(records@).take(
                i as int,
            ).push(tlv_entries(records@)[i as int]));
        }
        i = i + 1;
    }
    proof {
        assert(tlv_entries(records@).take(records@.len() as int) =~= tlv_entries(records@));
    }
    Some(entries)
}

/// Refuses a keysend request that brings its own preimage: the node makes
/// the preimage itself.
pub fn keysend_precheck(params: &PayKeysendRequest) -> (r: Result<(), Nip47Error>)
    ensures
        match r {
            Ok(_) => params.preimage is None,
            Err(e) => params.preimage is Some && e.deep_view() == failure(
                ErrorCode::Other,
                "CLN generates the preimage itself!"@,
            ),
        },
{
    if params.preimage.is_some() {
        return Err(Nip47Error::new(ErrorCode::Other, "CLN generates the preimage itself!"));
    }
    Ok(())
}

/// What the node is asked for a keysend request, given the budget of the
/// connection and what is wrong with the receiver's key.
///
/// The request is refused where it brings a preimage, where its amount is
/// over the budget, and where the receiver's key does not parse, in this
/// order.
pub open spec fn keysend_planned(
    params: PayKeysendRequest,
    budget_msat: Option<u64>,
    key_fault: Option<Seq<char>>,
) -> Result<KeysendCallView, Nip47ErrorView> {
    if params.preimage is Some {
        Err(failure(ErrorCode::Other, "CLN generates the preimage itself!"@))
    } else if budget_msat is Some && budget_msat->0 < params.amount {
        Err(failure(ErrorCode::QuotaExceeded, "Payment exceeds budget!"@))
    } else if key_fault is Some {
        Err(failure(ErrorCode::Other, key_fault->0))
    } else {
        Ok(
            KeysendCallView {
                amount_msat: params.amount,
                destination: params.pubkey@,
                extratlvs: if params.tlv_records@.len() == 0 {
                    None
                } else {
                    Some(tlv_entries(params.tlv_records@))
                },
            },
        )
    }
}

/// Says what the node is asked for a keysend request, once the receiver's
/// key has been looked at.
pub fn keysend_call(params: &PayKeysendRequest, budget_msat: Option<u64>, key_fault: Option<String>) -> (r:
    Result<KeysendCall, Nip47Error>)
    ensures
        deep_result(r) == keysend_planned(*params, budget_msat, key_fault.deep_view()),
{
    match keysend_precheck(params) {
        Ok(()) => {},
        Err(e) => {
            return Err(e);
        },
    }
    match budget_amount_check(Some(params.amount), None, budget_msat) {
        Ok(()) => {},
        Err(e) => {
            return Err(quota_failure(e));
        },
    }
    match key_fault {
        Some(message) => {
            return Err(Nip47Error { code: ErrorCode::Other, message });
        },
        None => {},
    }
    Ok(
        KeysendCall {
            amount_msat: params.amount,
            destination: params.pubkey.clone(),
            extratlvs: keysend_tlvs(&params.tlv_records),
        },
    )
}

/// Says what the node is asked for a keysend request.
pub fn prepare_keysend(params: &PayKeysendRequest, budget_msat: Option<u64>) -> (r: Result<
    KeysendCall,
    Nip47Error,
>)
    ensures
        deep_result(r) == keysend_planned(*params, budget_msat, node_key_fault(params.pubkey@)),
{
    let key_fault = parse_node_key(params.pubkey.as_str());
    keysend_call(params, budget_msat, key_fault)
}

/// The code for a failure of the node's keysend command, by the node's
/// numeric code.
pub open spec fn keysend_error_code(code: Option<i32>) -> ErrorCode {
    match code {
        Some(c) => if c == 203 || c == 205 || c == 210 {
            ErrorCode::PaymentFailed
        } else if c == 206 {
            ErrorCode::InsufficientBalance
        } else {
            ErrorCode::Internal
        },
        None => ErrorCode::Internal,
    }
}

/// Turns a failure of the node's keysend command into an error of the protocol.
pub fn map_keysend_error(code: Option<i32>, message: String) -> (r: Nip47Error)
    ensures
        r.deep_view() == failure(keysend_error_code(code), message@),
{
    let kind = match code {
        Some(c) => {
            if c == 203 || c == 205 || c == 210 {
                ErrorCode::PaymentFailed
            } else if c == 206 {
                ErrorCode::InsufficientBalance
            } else {
                ErrorCode::Internal
            }
        },
        None => ErrorCode::Internal,
    };
    Nip47Error { code: kind, message }
}

/// Books a keysend payment that went through: the budget is debited by
/// what was sent, and the response carries the preimage. Returns the
/// response and whether the record changed and has to be stored.
pub fn settle_keysend(nwc_store: &mut NwcStore, amount_sent_msat: u64, preimage: &Vec<u8>) -> (r: (
    PayKeysendResponse,
    bool,
))
    ensures
        r.0.deep_view() == (PayKeysendResponseView {
            preimage: hex_lower(preimage@),
            fees_paid: None,
        }),
        r.1 == old(nwc_store).budget_msat is Some,
        final(nwc_store).deep_view() == (NwcStoreView {
            budget_msat: match old(nwc_store).budget_msat {
                Some(b) => Some(debited(b as int, amount_sent_msat as int) as u64),
                None => None,
            },
            ..old(nwc_store).deep_view()
        }),
        old(nwc_store).deep_view().well_formed() ==> final(nwc_store).deep_view().well_formed(),
{
    let stored = nwc_store.debit(amount_sent_msat);
    (PayKeysendResponse { preimage: hex_encode(preimage), fees_paid: None }, stored)
}

/// The identifier under which one payment of a batch is answered: that of
/// the request, else the receiver's key.
pub fn keysend_id(params: &PayKeysendRequest) -> (r: String)
    ensures
        r@ == match params.id {
            Some(i) => i@,
            None => params.pubkey@,
        },
{
    match &params.id {
        Some(i) => i.clone(),
        None => params.pubkey.clone(),
    }
}

} // verus!
