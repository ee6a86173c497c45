//! The budget ledger: amount reconciliation against a spending ceiling,
//! saturating debits, the read-only derivation, and the changes that the
//! administrative commands make to a connection's record.

use vstd::prelude::*;

verus! {

/// Why a spend was refused by the ledger.
#[derive(Clone, Copy, Debug, PartialEq, Eq, Structural)]
pub enum QuotaError {
    /// Neither the request nor the invoice carries an amount.
    AmountMissing,
    /// Request and invoice both carry an amount and the two differ.
    AmountMismatch,
    /// An amount is larger than the budget that is left.
    QuotaExceeded,
}

/// When and to what a budget is reset.
#[derive(Clone, Copy, Debug, PartialEq, Eq, Structural)]
pub struct BudgetIntervalConfig {
    pub interval_secs: u64,
    pub reset_budget_msat: u64,
    pub last_reset: u64,
}

/// The persisted record of one connection.
#[derive(Clone, Debug, PartialEq, Eq)]
pub struct NwcStore {
    pub uri: String,
    pub walletkey: String,
    pub budget_msat: Option<u64>,
    pub interval_config: Option<BudgetIntervalConfig>,
}

/// The view of an [`NwcStore`].
pub struct NwcStoreView {
    pub uri: Seq<char>,
    pub walletkey: Seq<char>,
    pub budget_msat: Option<u64>,
    pub interval_config: Option<BudgetIntervalConfig>,
}

impl DeepView for NwcStore {
    type V = NwcStoreView;

    open spec fn deep_view(&self) -> NwcStoreView {
        NwcStoreView {
            uri: self.uri@,
            walletkey: self.walletkey@,
            budget_msat: self.budget_msat,
            interval_config: self.interval_config,
        }
    }
}

impl NwcStoreView {
    /// A record with an interval has a budget, and is reset to more than nothing.
    pub open spec fn well_formed(self) -> bool {
        self.interval_config is Some ==> self.budget_msat is Some
            && self.interval_config->0.reset_budget_msat > 0
    }

    /// A record is read-only where its budget is exactly zero and it has no interval.
    pub open spec fn read_only(self) -> bool {
        self.budget_msat == Some(0u64) && self.interval_config is None
    }
}

/// The verdict of the ledger on a spend, as a function of the three optional amounts.
pub open spec fn budget_verdict(
    request_amt_msat: Option<u64>,
    invoice_amt_msat: Option<u64>,
    budget_msat: Option<u64>,
) -> Result<(), QuotaError> {
    if request_amt_msat is None && invoice_amt_msat is None {
        Err(QuotaError::AmountMissing)
    } else if request_amt_msat is Some && invoice_amt_msat is Some && request_amt_msat->0
        != invoice_amt_msat->0 {
        Err(QuotaError::AmountMismatch)
    } else if budget_msat is Some && ((request_amt_msat is Some && budget_msat->0
        < request_amt_msat->0) || (invoice_amt_msat is Some && budget_msat->0
        < invoice_amt_msat->0)) {
        Err(QuotaError::QuotaExceeded)
    } else {
        Ok(())
    }
}

/// Checks the amounts of a spend against each other and against the budget.
pub fn budget_amount_check(
    request_amt_msat: Option<u64>,
    invoice_amt_msat: Option<u64>,
    budget_msat: Option<u64>,
) -> (res: Result<(), QuotaError>)
    ensures
        res == budget_verdict(request_amt_msat, invoice_amt_msat, budget_msat),
{
    if request_amt_msat.is_none() && invoice_amt_msat.is_none() {
        return Err(QuotaError::AmountMissing);
    }
    if let Some(req_amt) = request_amt_msat {
        if let Some(inv_amt) = invoice_amt_msat {
            if req_amt != inv_amt {
                return Err(QuotaError::AmountMismatch);
            }
        }
    }
    if let Some(bdgt_msat) = budget_msat {
        if let Some(req_amt) = request_amt_msat {
            if bdgt_msat < req_amt {
                return Err(QuotaError::QuotaExceeded);
            }
        }
        if let Some(inv_amt) = invoice_amt_msat {
            if bdgt_msat < inv_amt {
                return Err(QuotaError::QuotaExceeded);
            }
        }
    }
    Ok(())
}

/// The message that goes with a [`QuotaError`].
pub fn quota_error_message(error: QuotaError) -> (r: String)
    ensures
        r@ == match error {
            QuotaError::AmountMissing => "No amount given to check budget against!"@,
            QuotaError::AmountMismatch => "Amount from request and invoice differ!"@,
            QuotaError::QuotaExceeded => "Payment exceeds budget!"@,
        },
{
    match error {
        QuotaError::AmountMissing => "No amount given to check budget against!".to_owned(),
        QuotaError::AmountMismatch => "Amount from request and invoice differ!".to_owned(),
        QuotaError::QuotaExceeded => "Payment exceeds budget!".to_owned(),
    }
}

/// A spend passes the ledger exactly where an amount is given, the given
/// amounts agree, and none of them is over the budget.
pub proof fn lemma_budget_verdict_ok(
    request_amt_msat: Option<u64>,
    invoice_amt_msat: Option<u64>,
    budget_msat: Option<u64>,
)
    ensures
        budget_verdict(request_amt_msat, invoice_amt_msat, budget_msat) is Ok <==> {
            &&& request_amt_msat is Some || invoice_amt_msat is Some
            &&& request_amt_msat is Some && invoice_amt_msat is Some ==> request_amt_msat
                == invoice_amt_msat
            &&& budget_msat is Some && request_amt_msat is Some ==> request_amt_msat->0
                <= budget_msat->0
            &&& budget_msat is Some && invoice_amt_msat is Some ==> invoice_amt_msat->0
                <= budget_msat->0
        },
{
}

/// What is left of a budget after `amount_sent` has gone out: the
/// difference, and nothing where more went out than was there.
pub open spec fn debited(budget: int, amount_sent: int) -> int {
    if amount_sent >= budget {
        0
    } else {
        budget - amount_sent
    }
}

/// A debit never leaves less than nothing, and never more than was there.
pub proof fn lemma_debit_bounds(budget: int, amount_sent: int)
    requires
        0 <= budget,
        0 <= amount_sent,
    ensures
        0 <= debited(budget, amount_sent) <= budget,
        amount_sent <= budget ==> debited(budget, amount_sent) + amount_sent == budget,
{
}

/// Takes `amount_sent` from a budget. A budget that is not set stays so:
/// a connection without a ceiling is never debited.
pub fn debit(budget_msat: Option<u64>, amount_sent_msat: u64) -> (r: Option<u64>)
    ensures
        match budget_msat {
            Some(b) => r is Some && r->0 == debited(b as int, amount_sent_msat as int),
            None => r is None,
        },
{
    match budget_msat {
        Some(b) => Some(b.saturating_sub(amount_sent_msat)),
        None => None,
    }
}

/// Whether a connection may only read: its budget is exactly zero and it
/// has no interval.
pub fn is_read_only_nwc(nwc_store: &NwcStore) -> (r: bool)
    ensures
        r == nwc_store.deep_view().read_only(),
        r == (nwc_store.budget_msat == Some(0u64) && nwc_store.interval_config is None),
{
    if let Some(budget_msat) = nwc_store.budget_msat {
        if budget_msat == 0 && nwc_store.interval_config.is_none() {
            return true;
        }
    }
    false
}

/// A connection with a budget above zero, with an interval, or with no
/// budget at all is never read-only.
pub proof fn lemma_read_only_cases(store: NwcStoreView)
    ensures
        store.budget_msat is None ==> !store.read_only(),
        store.interval_config is Some ==> !store.read_only(),
        store.budget_msat is Some && store.budget_msat->0 > 0 ==> !store.read_only(),
        store.budget_msat == Some(0u64) && store.interval_config is None ==> store.read_only(),
{
}

/// The budget and interval that a command asks for can stand in a record:
/// an interval comes with a budget above zero.
pub open spec fn budget_request_fits(budget_msat: Option<u64>, interval_secs: Option<u64>) -> bool {
    interval_secs is Some ==> budget_msat is Some && budget_msat->0 > 0
}

/// The interval of a record that is given `budget_msat` and
/// `interval_secs` at the time `now`.
pub open spec fn interval_from(budget_msat: Option<u64>, interval_secs: Option<u64>, now: u64) -> Option<
    BudgetIntervalConfig,
> {
    if budget_msat is Some && interval_secs is Some {
        Some(
            BudgetIntervalConfig {
                interval_secs: interval_secs->0,
                reset_budget_msat: budget_msat->0,
                last_reset: now,
            },
        )
    } else {
        None
    }
}

/// Makes the interval of a record.
pub fn make_interval(budget_msat: Option<u64>, interval_secs: Option<u64>, now: u64) -> (r: Option<
    BudgetIntervalConfig,
>)
    ensures
        r == interval_from(budget_msat, interval_secs, now),
{
    match (budget_msat, interval_secs) {
        (Some(budget), Some(interval)) => Some(
            BudgetIntervalConfig {
                interval_secs: interval,
                reset_budget_msat: budget,
                last_reset: now,
            },
        ),
        _ => None,
    }
}

impl NwcStore {
    /// The record of a new connection.
    pub fn new(
        uri: String,
        walletkey: String,
        budget_msat: Option<u64>,
        interval_secs: Option<u64>,
        now: u64,
    ) -> (r: NwcStore)
        ensures
            r.deep_view() == (NwcStoreView {
                uri: uri@,
                walletkey: walletkey@,
                budget_msat,
                interval_config: interval_from(budget_msat, interval_secs, now),
            }),
            budget_request_fits(budget_msat, interval_secs) ==> r.deep_view().well_formed(),
    {
        NwcStore {
            uri,
            walletkey,
            budget_msat,
            interval_config: make_interval(budget_msat, interval_secs, now),
        }
    }

    /// Tests [`NwcStoreView::well_formed`].
    pub fn is_well_formed(&self) -> (r: bool)
        ensures
            r == self.deep_view().well_formed(),
    {
        match self.interval_config {
            Some(conf) => self.budget_msat.is_some() && conf.reset_budget_msat > 0,
            None => true,
        }
    }

    /// Brings a record of an earlier format into line: an interval that
    /// resets to nothing is dropped and the budget becomes zero. Returns
    /// whether the record changed.
    pub fn normalize(&mut self) -> (changed: bool)
        ensures
            changed == (old(self).interval_config is Some && old(self).interval_config->0.reset_budget_msat == 0),
            changed ==> final(self).deep_view() == (NwcStoreView {
                budget_msat: Some(0u64),
                interval_config: None,
                ..old(self).deep_view()
            }),
            !changed ==> *final(self) == *old(self),
            old(self).interval_config is Some ==> old(self).budget_msat is Some ==> final(self).deep_view().well_formed(),
    {
        match self.interval_config {
            Some(conf) => {
                if conf.reset_budget_msat == 0 {
                    self.interval_config = None;
                    self.budget_msat = Some(0);
                    true
                } else {
                    false
                }
            },
            None => false,
        }
    }

    /// Takes `amount_sent_msat` from the budget, where there is one.
    /// Returns whether the record changed hands and has to be stored.
    pub fn debit(&mut self, amount_sent_msat: u64) -> (stored: bool)
        ensures
            stored == old(self).budget_msat is Some,
            final(self).deep_view() == (NwcStoreView {
                budget_msat: match old(self).budget_msat {
                    Some(b) => Some(debited(b as int, amount_sent_msat as int) as u64),
                    None => None,
                },
                ..old(self).deep_view()
            }),
            old(self).deep_view().well_formed() ==> final(self).deep_view().well_formed(),
    {
        let stored = self.budget_msat.is_some();
        self.budget_msat = debit(self.budget_msat, amount_sent_msat);
        stored
    }
}

/// What a change of budget asks of the session around the record.
#[derive(Clone, Copy, Debug, PartialEq, Eq, Structural)]
pub struct BudgetChange {
    /// The record now has an interval, so a job has to run for it.
    pub start_job: bool,
    /// The connection went from read-only to spending or back, so its
    /// capabilities have to be advertised again.
    pub advertise: bool,
    /// Whether the connection is read-only from now on.
    pub read_only: bool,
}

/// Replaces budget and interval of a record, as the command that sets a
/// budget asks. Without a budget the connection has no ceiling and no
/// interval.
pub fn set_budget(
    nwc_store: &mut NwcStore,
    budget_msat: Option<u64>,
    interval_secs: Option<u64>,
    now: u64,
) -> (change: BudgetChange)
    ensures
        final(nwc_store).deep_view() == (NwcStoreView {
            budget_msat,
            interval_config: interval_from(budget_msat, interval_secs, now),
            ..old(nwc_store).deep_view()
        }),
        budget_request_fits(budget_msat, interval_secs) ==> final(nwc_store).deep_view().well_formed(),
        change.start_job == final(nwc_store).interval_config is Some,
        change.read_only == final(nwc_store).deep_view().read_only(),
        change.advertise == (old(nwc_store).deep_view().read_only() != final(nwc_store).deep_view().read_only()),
{
    let was_read_only = is_read_only_nwc(nwc_store);
    nwc_store.budget_msat = budget_msat;
    nwc_store.interval_config = make_interval(budget_msat, interval_secs, now);
    let read_only = is_read_only_nwc(nwc_store);
    BudgetChange {
        start_job: nwc_store.interval_config.is_some(),
        advertise: was_read_only != read_only,
        read_only,
    }
}

} // verus!
