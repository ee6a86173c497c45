//! What the Lightning node reports, as plain values: decoded invoices,
//! listed invoices and payments, channels and their pending payments.

use vstd::prelude::*;

verus! {

/// What kind of text the node decoded.
#[derive(Clone, Copy, Debug, PartialEq, Eq, Structural)]
pub enum DecodeType {
    Bolt12Offer,
    Bolt12Invoice,
    Bolt12InvoiceRequest,
    Bolt11Invoice,
    Rune,
    EmergencyRecover,
    Bolt12PayerProof,
}

/// The state of an invoice that the node issued.
#[derive(Clone, Copy, Debug, PartialEq, Eq, Structural)]
pub enum InvoiceStatus {
    Unpaid,
    Paid,
    Expired,
}

/// The state of a payment that the node sent.
#[derive(Clone, Copy, Debug, PartialEq, Eq, Structural)]
pub enum PayStatus {
    Pending,
    Failed,
    Complete,
}

/// The state of a channel, as far as balances depend on it.
#[derive(Clone, Copy, Debug, PartialEq, Eq, Structural)]
pub enum ChannelState {
    Normal,
    AwaitingSplice,
    Other,
}

/// The node's decoding of an invoice or offer text.
#[derive(Clone, Debug, PartialEq, Eq)]
pub struct Decoded {
    pub valid: bool,
    pub item_type: DecodeType,
    pub description: Option<String>,
    pub description_hash: Option<String>,
    pub payment_hash: Option<String>,
    pub amount_msat: Option<u64>,
    pub created_at: Option<u64>,
    pub expiry: Option<u64>,
    pub invoice_amount_msat: Option<u64>,
    pub invoice_created_at: Option<u64>,
    pub invoice_relative_expiry: Option<u32>,
    pub offer_description: Option<String>,
    pub offer_amount_msat: Option<u64>,
    pub offer_metadata: Option<String>,
    pub offer_absolute_expiry: Option<u64>,
    pub offer_issuer: Option<String>,
}

impl Decoded {
    /// A valid invoice carries its creation time, and one of the newer
    /// format its amount too.
    pub open spec fn dated(&self) -> bool {
        self.valid ==> match self.item_type {
            DecodeType::Bolt12Invoice => self.invoice_amount_msat is Some
                && self.invoice_created_at is Some,
            DecodeType::Bolt11Invoice => self.created_at is Some,
            _ => true,
        }
    }

    /// An invoice of the newer format states its amount.
    pub open spec fn amounted(&self) -> bool {
        self.item_type == DecodeType::Bolt12Invoice ==> self.invoice_amount_msat is Some
    }

    /// Tests [`Decoded::amounted`].
    pub fn is_amounted(&self) -> (r: bool)
        ensures
            r == self.amounted(),
    {
        match self.item_type {
            DecodeType::Bolt12Invoice => self.invoice_amount_msat.is_some(),
            _ => true,
        }
    }

    /// An invoice carries how long it stays payable.
    pub open spec fn expiring(&self) -> bool {
        match self.item_type {
            DecodeType::Bolt12Invoice => self.invoice_amount_msat is Some
                && self.invoice_created_at is Some && self.invoice_relative_expiry is Some,
            DecodeType::Bolt11Invoice => self.created_at is Some && self.expiry is Some,
            _ => true,
        }
    }

    /// Tests [`Decoded::dated`].
    pub fn is_dated(&self) -> (r: bool)
        ensures
            r == self.dated(),
    {
        if !self.valid {
            return true;
        }
        match self.item_type {
            DecodeType::Bolt12Invoice => self.invoice_amount_msat.is_some()
                && self.invoice_created_at.is_some(),
            DecodeType::Bolt11Invoice => self.created_at.is_some(),
            _ => true,
        }
    }

    /// Tests [`Decoded::expiring`].
    pub fn is_expiring(&self) -> (r: bool)
        ensures
            r == self.expiring(),
    {
        match self.item_type {
            DecodeType::Bolt12Invoice => self.invoice_amount_msat.is_some()
                && self.invoice_created_at.is_some() && self.invoice_relative_expiry.is_some(),
            DecodeType::Bolt11Invoice => self.created_at.is_some() && self.expiry.is_some(),
            _ => true,
        }
    }
}

/// An invoice from the node's list of invoices.
#[derive(Clone, Debug, PartialEq, Eq)]
pub struct ListedInvoice {
    pub bolt11: Option<String>,
    pub bolt12: Option<String>,
    pub amount_msat: Option<u64>,
    pub payment_preimage: Option<Vec<u8>>,
    pub status: InvoiceStatus,
    pub payment_hash: String,
    pub expires_at: u64,
    pub paid_at: Option<u64>,
}

impl ListedInvoice {
    /// The invoice has a text in one of the two formats.
    pub open spec fn has_text(&self) -> bool {
        self.bolt11 is Some || self.bolt12 is Some
    }

    /// The text of the invoice: the older format where both are there.
    pub open spec fn text(&self) -> Seq<char> {
        if self.bolt11 is Some {
            self.bolt11->0@
        } else {
            self.bolt12->0@
        }
    }

    /// Tests [`ListedInvoice::has_text`].
    pub fn is_texted(&self) -> (r: bool)
        ensures
            r == self.has_text(),
    {
        self.bolt11.is_some() || self.bolt12.is_some()
    }

    /// The invoice's text.
    pub fn invstring(&self) -> (r: &String)
        requires
            self.has_text(),
        ensures
            r@ == self.text(),
    {
        if self.bolt11.is_some() {
            self.bolt11.as_ref().unwrap()
        } else {
            self.bolt12.as_ref().unwrap()
        }
    }
}

/// A payment from the node's list of payments.
#[derive(Clone, Debug, PartialEq, Eq)]
pub struct ListedPay {
    pub bolt11: Option<String>,
    pub bolt12: Option<String>,
    pub description: Option<String>,
    pub amount_msat: Option<u64>,
    pub amount_sent_msat: Option<u64>,
    pub preimage: Option<Vec<u8>>,
    pub status: PayStatus,
    pub payment_hash: String,
    pub created_at: u64,
    pub completed_at: Option<u64>,
}

impl ListedPay {
    /// The text that was paid, where the node kept one: the older format
    /// where both are there.
    pub open spec fn text(&self) -> Option<Seq<char>> {
        if self.bolt11 is Some {
            Some(self.bolt11->0@)
        } else if self.bolt12 is Some {
            Some(self.bolt12->0@)
        } else {
            None
        }
    }

    /// The text that was paid.
    pub fn invstring(&self) -> (r: Option<&String>)
        ensures
            r.deep_view() == self.text(),
    {
        match &self.bolt11 {
            Some(b11) => Some(b11),
            None => match &self.bolt12 {
                Some(b12) => Some(b12),
                None => None,
            },
        }
    }
}

/// A payment that is pending on a channel.
#[derive(Clone, Debug, PartialEq, Eq)]
pub struct Htlc {
    pub payment_hash: String,
    pub expiry: u32,
}

/// A channel with a peer.
#[derive(Clone, Debug, PartialEq, Eq)]
pub struct PeerChannel {
    pub state: ChannelState,
    pub spendable_msat: Option<u64>,
    pub htlcs: Option<Vec<Htlc>>,
}

/// What the node says about itself.
#[derive(Clone, Debug, PartialEq, Eq)]
pub struct NodeInfo {
    pub id: String,
    pub alias: Option<String>,
    pub color: String,
    pub network: String,
    pub blockheight: u32,
}

} // verus!
