//! Offers: reusable requests for payment, looked up and made.

use vstd::prelude::*;
use vstd::string::*;
use crate::node::{Decoded, DecodeType};
use crate::number::{decimal_of, decimal_text};
use crate::protocol::{deep_result, failure, ErrorCode, Nip47Error, Nip47ErrorView, TransactionType};
use crate::text::clone_text;

verus! {

/// A request to make an offer.
#[derive(Clone, Debug, PartialEq, Eq)]
pub struct MakeOfferRequest {
    pub amount: Option<u64>,
    pub description: Option<String>,
    pub issuer: Option<String>,
    pub expiry: Option<u64>,
}

/// What is known about an offer.
#[derive(Clone, Debug, PartialEq, Eq)]
pub struct OfferResponse {
    pub transaction_type: TransactionType,
    pub offer: Option<String>,
    pub description: Option<String>,
    pub amount: Option<u64>,
    pub issuer: Option<String>,
    pub expires_at: Option<u64>,
    pub metadata: Option<String>,
}

/// The view of an [`OfferResponse`].
pub struct OfferResponseView {
    pub transaction_type: TransactionType,
    pub offer: Option<Seq<char>>,
    pub description: Option<Seq<char>>,
    pub amount: Option<u64>,
    pub issuer: Option<Seq<char>>,
    pub expires_at: Option<u64>,
    pub metadata: Option<Seq<char>>,
}

impl DeepView for OfferResponse {
    type V = OfferResponseView;

    open spec fn deep_view(&self) -> OfferResponseView {
        OfferResponseView {
            transaction_type: self.transaction_type,
            offer: self.offer.deep_view(),
            description: self.description.deep_view(),
            amount: self.amount,
            issuer: self.issuer.deep_view(),
            expires_at: self.expires_at,
            metadata: self.metadata.deep_view(),
        }
    }
}

/// What the node is asked for an offer.
#[derive(Clone, Debug, PartialEq, Eq)]
pub struct OfferCall {
    pub amount: String,
    pub description: Option<String>,
    pub issuer: Option<String>,
    pub absolute_expiry: Option<u64>,
}

/// The view of an [`OfferCall`].
pub struct OfferCallView {
    pub amount: Seq<char>,
    pub description: Option<Seq<char>>,
    pub issuer: Option<Seq<char>>,
    pub absolute_expiry: Option<u64>,
}

impl DeepView for OfferCall {
    type V = OfferCallView;

    open spec fn deep_view(&self) -> OfferCallView {
        OfferCallView {
            amount: self.amount@,
            description: self.description.deep_view(),
            issuer: self.issuer.deep_view(),
            absolute_expiry: self.absolute_expiry,
        }
    }
}

/// What is known about an offer text that the node decoded.
///
/// It is refused where the decoding is invalid or no offer.
pub open spec fn offer_found(offer: Seq<char>, d: Decoded) -> Result<
    OfferResponseView,
    Nip47ErrorView,
> {
    if !d.valid || d.item_type != DecodeType::Bolt12Offer {
        Err(failure(ErrorCode::Other, "Not an offer or invalid offer"@))
    } else {
        Ok(
            OfferResponseView {
                transaction_type: TransactionType::Incoming,
                offer: Some(offer),
                description: d.offer_description.deep_view(),
                amount: d.offer_amount_msat,
                issuer: d.offer_issuer.deep_view(),
                expires_at: d.offer_absolute_expiry,
                metadata: d.offer_metadata.deep_view(),
            },
        )
    }
}

/// Answers the lookup of an offer from the node's decoding of it.
pub fn lookup_offer(offer: String, decoded_offer: &Decoded) -> (r: Result<OfferResponse, Nip47Error>)
    ensures
        deep_result(r) == offer_found(offer@, *decoded_offer),
{
    if !decoded_offer.valid {
        return Err(Nip47Error::new(ErrorCode::Other, "Not an offer or invalid offer"));
    }
    match decoded_offer.item_type {
        DecodeType::Bolt12Offer => {},
        _ => {
            return Err(Nip47Error::new(ErrorCode::Other, "Not an offer or invalid offer"));
        },
    }
    Ok(
        OfferResponse {
            transaction_type: TransactionType::Incoming,
            offer: Some(offer),
            description: clone_text(&decoded_offer.offer_description),
            amount: decoded_offer.offer_amount_msat,
            issuer: clone_text(&decoded_offer.offer_issuer),
            expires_at: decoded_offer.offer_absolute_expiry,
            metadata: clone_text(&decoded_offer.offer_metadata),
        },
    )
}

/// When an offer ends: so many seconds after `now`, where it ends at all.
pub open spec fn offer_ends(expiry: Option<u64>, now: u64) -> Option<u64> {
    match expiry {
        Some(e) => Some((now + e) as u64),
        None => None,
    }
}

/// Says what the node is asked for an offer at the time `now`: the amount
/// in decimal, or `any` for an offer that leaves it open.
pub fn make_offer(params: &MakeOfferRequest, now: u64) -> (r: OfferCall)
    requires
        params.expiry is Some ==> now + params.expiry->0 <= u64::MAX,
    ensures
        r.deep_view() == (OfferCallView {
            amount: match params.amount {
                Some(a) => decimal_of(a as nat),
                None => "any"@,
            },
            description: params.description.deep_view(),
            issuer: params.issuer.deep_view(),
            absolute_expiry: offer_ends(params.expiry, now),
        }),
{
    let absolute_expiry = match params.expiry {
        Some(e) => Some(now + e),
        None => None,
    };
    let amount = match params.amount {
        Some(a) => decimal_text(a),
        None => "any".to_owned(),
    };
    OfferCall {
        amount,
        description: clone_text(&params.description),
        issuer: clone_text(&params.issuer),
        absolute_expiry,
    }
}

/// The answer to a request for an offer, from the offer that the node made.
pub fn offer_made(bolt12: String, params: &MakeOfferRequest, call: &OfferCall) -> (r: OfferResponse)
    ensures
        r.deep_view() == (OfferResponseView {
            transaction_type: TransactionType::Incoming,
            offer: Some(bolt12@),
            description: params.description.deep_view(),
            amount: params.amount,
            issuer: params.issuer.deep_view(),
            expires_at: call.absolute_expiry,
            metadata: None,
        }),
{
    OfferResponse {
        transaction_type: TransactionType::Incoming,
        offer: Some(bolt12),
        description: clone_text(&params.description),
        amount: params.amount,
        issuer: clone_text(&params.issuer),
        expires_at: call.absolute_expiry,
        metadata: None,
    }
}

} // verus!
