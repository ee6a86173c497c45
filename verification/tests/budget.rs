use cln_nip47::admin::{nwc_budget, nwc_create, NewKeys};
use cln_nip47::budget::{
    budget_amount_check, debit, is_read_only_nwc, quota_error_message, set_budget,
    BudgetIntervalConfig, NwcStore, QuotaError,
};
use cln_nip47::capabilities::Features;
use cln_nip47::interval::{
    job_error_message, job_start, job_step, next_reset_delay, JobAction, JobError, JobEvent,
    JobState,
};
use cln_nip47::pay::update_budget_and_create_response;

fn store(budget_msat: Option<u64>, interval_config: Option<BudgetIntervalConfig>) -> NwcStore {
    NwcStore {
        uri: "nostr+walletconnect://uri".to_owned(),
        walletkey: "00".repeat(32),
        budget_msat,
        interval_config,
    }
}

fn keys() -> NewKeys {
    NewKeys {
        uri: "nostr+walletconnect://uri".to_owned(),
        walletkey: "11".repeat(32),
        walletkey_public: "22".repeat(32),
        clientkey_public: "33".repeat(32),
    }
}

fn plain() -> Features {
    Features { offer_support: false, hold_support: false, notifications: true }
}

#[test]
fn test_budget_check() {
    assert!(budget_amount_check(Some(1), Some(1), Some(2)).is_ok());
    assert!(budget_amount_check(Some(1), Some(2), Some(2)).is_err());
    assert!(budget_amount_check(Some(2), Some(2), Some(1)).is_err());
    assert!(budget_amount_check(Some(2), None, None).is_ok());
    assert!(budget_amount_check(Some(2), None, Some(2)).is_ok());

    assert!(budget_amount_check(None, None, None).is_err());
    assert!(budget_amount_check(None, None, Some(2)).is_err());
    assert!(budget_amount_check(Some(0), None, Some(1)).is_ok());
    assert!(budget_amount_check(Some(0), None, Some(0)).is_ok());
    assert!(budget_amount_check(None, Some(0), Some(1)).is_ok());
    assert!(budget_amount_check(None, Some(0), Some(0)).is_ok());
    assert!(budget_amount_check(Some(0), Some(0), Some(1)).is_ok());
    assert!(budget_amount_check(Some(0), Some(0), Some(0)).is_ok());
}

#[test]
fn budget_check_names_each_refusal() {
    assert_eq!(budget_amount_check(None, None, Some(2)), Err(QuotaError::AmountMissing));
    assert_eq!(budget_amount_check(Some(1), Some(2), Some(2)), Err(QuotaError::AmountMismatch));
    assert_eq!(budget_amount_check(Some(2), Some(2), Some(1)), Err(QuotaError::QuotaExceeded));
    assert_eq!(budget_amount_check(None, Some(3), Some(2)), Err(QuotaError::QuotaExceeded));
    assert_eq!(budget_amount_check(Some(3), None, Some(2)), Err(QuotaError::QuotaExceeded));
    assert_eq!(budget_amount_check(Some(u64::MAX), Some(u64::MAX), None), Ok(()));
}

#[test]
fn mismatch_is_found_before_the_quota() {
    assert_eq!(budget_amount_check(Some(5), Some(6), Some(1)), Err(QuotaError::AmountMismatch));
}

#[test]
fn quota_messages() {
    assert_eq!(
        quota_error_message(QuotaError::AmountMissing),
        "No amount given to check budget against!"
    );
    assert_eq!(
        quota_error_message(QuotaError::AmountMismatch),
        "Amount from request and invoice differ!"
    );
    assert_eq!(quota_error_message(QuotaError::QuotaExceeded), "Payment exceeds budget!");
}

#[test]
fn debit_saturates_at_zero() {
    assert_eq!(debit(Some(500), 700), Some(0));
    assert_eq!(debit(Some(700), 500), Some(200));
    assert_eq!(debit(Some(500), 500), Some(0));
    assert_eq!(debit(Some(0), 1), Some(0));
    assert_eq!(debit(Some(u64::MAX), 1), Some(u64::MAX - 1));
    assert_eq!(debit(Some(7), 0), Some(7));
}

#[test]
fn debit_leaves_an_unlimited_budget_alone() {
    assert_eq!(debit(None, 700), None);
    let mut unlimited = store(None, None);
    assert!(!unlimited.debit(700));
    assert_eq!(unlimited, store(None, None));
}

#[test]
fn read_only_is_zero_budget_without_interval() {
    let interval = BudgetIntervalConfig { interval_secs: 60, reset_budget_msat: 5, last_reset: 0 };
    assert!(is_read_only_nwc(&store(Some(0), None)));
    assert!(!is_read_only_nwc(&store(Some(0), Some(interval))));
    assert!(!is_read_only_nwc(&store(None, None)));
    assert!(!is_read_only_nwc(&store(Some(5), None)));
    assert!(!is_read_only_nwc(&store(None, Some(interval))));
}

#[test]
fn pay_half_of_a_plain_budget() {
    let (mut record, created, start_job) =
        nwc_create("shop".to_owned(), Some(1_000_000), None, keys(), 1_700_000_000);
    assert!(!start_job);
    assert_eq!(created.budget_msat, Some(1_000_000));
    assert_eq!(created.interval_config, None);
    assert_eq!(created.label, "shop");
    assert_eq!(budget_amount_check(Some(500_000), Some(500_000), record.budget_msat), Ok(()));
    let ((response, id), stored) =
        update_budget_and_create_response(&mut record, 500_000, 500_000, &vec![0xab; 32], "id-1");
    assert!(stored);
    assert_eq!(record.budget_msat, Some(500_000));
    assert_eq!(response.fees_paid, Some(0));
    assert_eq!(response.preimage, "ab".repeat(32));
    assert_eq!(id, Some("id-1".to_owned()));
}

#[test]
fn fees_count_against_the_budget() {
    let mut record = store(Some(1_000), None);
    let ((response, _), stored) =
        update_budget_and_create_response(&mut record, 130, 100, &vec![1, 2, 3, 15, 16], "x");
    assert!(stored);
    assert_eq!(record.budget_msat, Some(870));
    assert_eq!(response.fees_paid, Some(30));
    assert_eq!(response.preimage, "0102030f10");
}

#[test]
fn interval_budget_resets_and_revocation_stops_it() {
    let created_at = 1_700_000_000;
    let (mut record, created, start_job) =
        nwc_create("hourly".to_owned(), Some(1_000), Some(3_600), keys(), created_at);
    assert!(start_job);
    assert_eq!(
        created.interval_config,
        Some(BudgetIntervalConfig {
            interval_secs: 3_600,
            reset_budget_msat: 1_000,
            last_reset: created_at
        })
    );
    assert!(record.is_well_formed());

    assert!(record.debit(100));
    assert_eq!(record.budget_msat, Some(900));

    assert_eq!(job_start(&record, created_at + 600), Ok(3_000));

    let before_cancel = record.clone();
    let mut revoked = record.clone();
    assert_eq!(job_step(&mut revoked, JobEvent::Cancelled), (JobState::Stopped, JobAction::Exit));
    assert_eq!(revoked, before_cancel);

    let fired_at = created_at + 3_600;
    let (state, action) = job_step(&mut record, JobEvent::TimerFired { now: fired_at });
    assert_eq!(state, JobState::Running);
    assert_eq!(action, JobAction::StoreAndWait { secs: 3_600 });
    assert_eq!(record.budget_msat, Some(1_000));
    assert_eq!(record.interval_config.unwrap().last_reset, fired_at);
    assert_eq!(record.interval_config.unwrap().reset_budget_msat, 1_000);
}

#[test]
fn next_reset_is_never_sooner_than_a_second() {
    let conf = BudgetIntervalConfig { interval_secs: 100, reset_budget_msat: 1, last_reset: 1_000 };
    assert_eq!(next_reset_delay(&conf, 1_000), 100);
    assert_eq!(next_reset_delay(&conf, 1_040), 60);
    assert_eq!(next_reset_delay(&conf, 1_099), 1);
    assert_eq!(next_reset_delay(&conf, 1_100), 1);
    assert_eq!(next_reset_delay(&conf, 9_999), 1);
    assert_eq!(next_reset_delay(&conf, 500), 100);
    let none = BudgetIntervalConfig { interval_secs: 0, reset_budget_msat: 1, last_reset: 0 };
    assert_eq!(next_reset_delay(&none, 0), 1);
    let long = BudgetIntervalConfig { interval_secs: u64::MAX, reset_budget_msat: 1, last_reset: 0 };
    assert_eq!(next_reset_delay(&long, 0), u64::MAX);
}

#[test]
fn job_fails_on_a_record_that_lost_its_interval_or_budget() {
    let mut bare = store(Some(5), None);
    assert_eq!(job_start(&bare, 10), Err(JobError::IntervalMissing));
    assert_eq!(
        job_step(&mut bare, JobEvent::TimerFired { now: 10 }),
        (JobState::Stopped, JobAction::Fail { error: JobError::IntervalMissing })
    );
    assert_eq!(bare, store(Some(5), None));
    let conf = BudgetIntervalConfig { interval_secs: 60, reset_budget_msat: 9, last_reset: 0 };
    let mut broke = store(None, Some(conf));
    assert_eq!(
        job_step(&mut broke, JobEvent::TimerFired { now: 10 }),
        (JobState::Stopped, JobAction::Fail { error: JobError::BudgetMissing })
    );
    assert_eq!(broke, store(None, Some(conf)));
    assert_eq!(job_error_message(JobError::IntervalMissing), "interval_config disappeared!");
    assert_eq!(job_error_message(JobError::BudgetMissing), "budget_msat missing");
}

#[test]
fn legacy_interval_with_zero_reset_is_dropped() {
    let legacy = BudgetIntervalConfig { interval_secs: 60, reset_budget_msat: 0, last_reset: 7 };
    let mut record = store(Some(123), Some(legacy));
    assert!(!record.is_well_formed());
    assert!(record.normalize());
    assert_eq!(record, store(Some(0), None));
    assert!(record.is_well_formed());
    assert!(is_read_only_nwc(&record));

    let sound = BudgetIntervalConfig { interval_secs: 60, reset_budget_msat: 5, last_reset: 7 };
    let mut kept = store(Some(3), Some(sound));
    assert!(!kept.normalize());
    assert_eq!(kept, store(Some(3), Some(sound)));
    let mut bare = store(None, None);
    assert!(!bare.normalize());
    assert_eq!(bare, store(None, None));
}

#[test]
fn leaving_read_only_advertises_once_with_the_pay_methods() {
    let mut record = store(Some(0), None);
    let update = nwc_budget(&mut record, Some(5_000), None, 42, &plain());
    assert!(!update.start_job);
    assert_eq!(
        update.advertise,
        Some(
            "make_invoice lookup_invoice list_transactions get_balance get_info pay_invoice \
             multi_pay_invoice pay_keysend multi_pay_keysend"
                .to_owned()
        )
    );
    assert_eq!(record.budget_msat, Some(5_000));

    let again = nwc_budget(&mut record, Some(9_000), None, 43, &plain());
    assert_eq!(again.advertise, None);
    let unlimited = nwc_budget(&mut record, None, None, 44, &plain());
    assert_eq!(unlimited.advertise, None);
    assert_eq!(record.budget_msat, None);
    assert_eq!(record.interval_config, None);

    let back = nwc_budget(&mut record, Some(0), None, 45, &plain());
    assert_eq!(
        back.advertise,
        Some("make_invoice lookup_invoice list_transactions get_balance get_info".to_owned())
    );
    let still = nwc_budget(&mut record, Some(0), None, 46, &plain());
    assert_eq!(still.advertise, None);
}

#[test]
fn set_budget_with_interval_starts_a_job() {
    let mut record = store(Some(0), None);
    let change = set_budget(&mut record, Some(700), Some(86_400), 1_000);
    assert!(change.start_job);
    assert!(change.advertise);
    assert!(!change.read_only);
    assert_eq!(
        record.interval_config,
        Some(BudgetIntervalConfig { interval_secs: 86_400, reset_budget_msat: 700, last_reset: 1_000 })
    );
    let dropped = set_budget(&mut record, None, Some(60), 2_000);
    assert!(!dropped.start_job);
    assert_eq!(record.interval_config, None);
    assert_eq!(record.budget_msat, None);
}
