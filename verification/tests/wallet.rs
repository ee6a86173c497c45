use cln_nip47::budget::{BudgetIntervalConfig, NwcStore};
use cln_nip47::capabilities::{
    build_capabilities, build_methods_vec, build_notifications_vec, info_event_content,
    info_event_tags, method_name, method_names, notification_name, Features,
};
use cln_nip47::node::{ChannelState, NodeInfo, PeerChannel};
use cln_nip47::offers::{lookup_offer, make_offer, offer_made, MakeOfferRequest, OfferCall};
use cln_nip47::node::{DecodeType, Decoded};
use cln_nip47::protocol::{
    ErrorCode, MakeInvoiceRequest, Method, Nip47Error, NotificationType, TransactionType,
};
use nostr_sdk::nips::nip47;
use cln_nip47::wallet::{
    get_balance, get_info, hash_matches, invoice_call, invoice_made, make_invoice, spendable_total,
    InvoiceCall,
};

fn features(offer_support: bool, hold_support: bool, notifications: bool) -> Features {
    Features { offer_support, hold_support, notifications }
}

fn channel(state: ChannelState, spendable_msat: Option<u64>) -> PeerChannel {
    PeerChannel { state, spendable_msat, htlcs: None }
}

fn record(budget_msat: Option<u64>) -> NwcStore {
    NwcStore { uri: "u".to_owned(), walletkey: "w".to_owned(), budget_msat, interval_config: None }
}

#[test]
fn balance_is_the_budget_or_what_the_channels_can_spend() {
    let channels = vec![
        channel(ChannelState::Normal, Some(1_000)),
        channel(ChannelState::Other, Some(50_000)),
        channel(ChannelState::AwaitingSplice, Some(200)),
        channel(ChannelState::Normal, None),
        channel(ChannelState::Normal, Some(30)),
    ];
    assert_eq!(get_balance(None, &channels).balance, 1_230);
    assert_eq!(get_balance(Some(77), &channels).balance, 77);
    assert_eq!(get_balance(Some(0), &channels).balance, 0);
    assert_eq!(get_balance(None, &vec![]).balance, 0);
    assert_eq!(spendable_total(&channels), Some(1_230));
}

#[test]
fn balance_that_cannot_be_counted() {
    let huge = vec![
        channel(ChannelState::Normal, Some(u64::MAX)),
        channel(ChannelState::Other, Some(1)),
    ];
    assert_eq!(spendable_total(&huge), Some(u64::MAX));
    let over = vec![
        channel(ChannelState::Normal, Some(u64::MAX)),
        channel(ChannelState::AwaitingSplice, Some(1)),
    ];
    assert_eq!(spendable_total(&over), None);
    assert_eq!(get_balance(Some(5), &over).balance, 5);
}

#[test]
fn methods_by_flag_and_features() {
    let read = [
        Method::MakeInvoice,
        Method::LookupInvoice,
        Method::ListTransactions,
        Method::GetBalance,
        Method::GetInfo,
    ];
    let pay = [
        Method::PayInvoice,
        Method::MultiPayInvoice,
        Method::PayKeysend,
        Method::MultiPayKeysend,
    ];
    let offer_read = [Method::MakeOffer, Method::LookupOffer];
    let offer_pay = [Method::PayOffer, Method::MultiPayOffer];
    let hold = [Method::MakeHoldInvoice, Method::CancelHoldInvoice, Method::SettleHoldInvoice];
    assert_eq!(build_methods_vec(true, &features(false, false, true)), read);
    assert_eq!(build_methods_vec(false, &features(false, false, false)), [&read[..], &pay[..]].concat());
    assert_eq!(
        build_methods_vec(true, &features(true, false, true)),
        [&read[..], &offer_read[..]].concat()
    );
    assert_eq!(
        build_methods_vec(false, &features(true, false, true)),
        [&read[..], &pay[..], &offer_read[..], &offer_pay[..]].concat()
    );
    assert_eq!(
        build_methods_vec(false, &features(true, true, true)),
        [&read[..], &pay[..], &offer_read[..], &offer_pay[..], &hold[..]].concat()
    );
    assert_eq!(build_methods_vec(true, &features(false, true, false)), [&read[..], &hold[..]].concat());
}

#[test]
fn same_inputs_give_the_same_capabilities() {
    for read_only in [true, false] {
        for bits in 0..8 {
            let f = features(bits & 1 != 0, bits & 2 != 0, bits & 4 != 0);
            assert_eq!(build_capabilities(read_only, &f), build_capabilities(read_only, &f));
            let (methods, topics) = build_capabilities(read_only, &f);
            assert_eq!(methods, method_names(&build_methods_vec(read_only, &f)).join(" "));
            assert_eq!(topics, build_notifications_vec(&f).join(" "));
            assert_eq!(methods.contains("pay_"), !read_only);
        }
    }
}

#[test]
fn capability_texts() {
    assert_eq!(
        build_capabilities(true, &features(false, false, true)),
        (
            "make_invoice lookup_invoice list_transactions get_balance get_info".to_owned(),
            "payment_received payment_sent".to_owned()
        )
    );
    assert_eq!(
        build_capabilities(false, &features(true, true, false)),
        (
            "make_invoice lookup_invoice list_transactions get_balance get_info pay_invoice \
             multi_pay_invoice pay_keysend multi_pay_keysend make_offer lookup_offer pay_offer \
             multi_pay_offer make_hold_invoice cancel_hold_invoice settle_hold_invoice"
                .to_owned(),
            String::new()
        )
    );
    assert_eq!(
        build_notifications_vec(&features(false, true, true)),
        ["payment_received", "payment_sent", "hold_invoice_accepted"]
    );
    assert_eq!(build_notifications_vec(&features(true, true, false)), Vec::<String>::new());
}

#[test]
fn names_on_the_wire_are_those_of_the_protocol_library() {
    for (ours, theirs) in [
        (Method::PayInvoice, nip47::Method::PayInvoice),
        (Method::MultiPayInvoice, nip47::Method::MultiPayInvoice),
        (Method::PayKeysend, nip47::Method::PayKeysend),
        (Method::MultiPayKeysend, nip47::Method::MultiPayKeysend),
        (Method::MakeInvoice, nip47::Method::MakeInvoice),
        (Method::LookupInvoice, nip47::Method::LookupInvoice),
        (Method::ListTransactions, nip47::Method::ListTransactions),
        (Method::GetBalance, nip47::Method::GetBalance),
        (Method::GetInfo, nip47::Method::GetInfo),
        (Method::MakeHoldInvoice, nip47::Method::MakeHoldInvoice),
        (Method::CancelHoldInvoice, nip47::Method::CancelHoldInvoice),
        (Method::SettleHoldInvoice, nip47::Method::SettleHoldInvoice),
    ] {
        assert_eq!(method_name(ours), theirs.to_string());
    }
    for (ours, theirs) in [
        (NotificationType::PaymentReceived, nip47::NotificationType::PaymentReceived),
        (NotificationType::PaymentSent, nip47::NotificationType::PaymentSent),
        (NotificationType::HoldInvoiceAccepted, nip47::NotificationType::HoldInvoiceAccepted),
    ] {
        assert_eq!(notification_name(ours), theirs.to_string());
    }
    assert_eq!(method_name(Method::MakeOffer), "make_offer");
    assert_eq!(method_name(Method::LookupOffer), "lookup_offer");
    assert_eq!(method_name(Method::PayOffer), "pay_offer");
    assert_eq!(method_name(Method::MultiPayOffer), "multi_pay_offer");
}

#[test]
fn advertisement_event() {
    assert_eq!(info_event_content("get_info", true), "get_info notifications");
    assert_eq!(info_event_content("get_info", false), "get_info");
    assert_eq!(info_event_content("", true), " notifications");
    assert_eq!(
        info_event_tags(&features(false, false, false)),
        vec![vec!["encryption".to_owned(), "nip44_v2 nip04".to_owned()]]
    );
    assert_eq!(
        info_event_tags(&features(false, true, true)),
        vec![
            vec!["encryption".to_owned(), "nip44_v2 nip04".to_owned()],
            vec![
                "notifications".to_owned(),
                "payment_received payment_sent hold_invoice_accepted".to_owned()
            ],
        ]
    );
}

#[test]
fn info_of_a_connection() {
    let node = NodeInfo {
        id: "02abc".to_owned(),
        alias: Some("carol".to_owned()),
        color: "ff9900".to_owned(),
        network: "bitcoin".to_owned(),
        blockheight: 840_000,
    };
    let info = get_info(&node, &record(Some(0)), &features(false, false, true));
    assert_eq!(info.alias, Some("carol".to_owned()));
    assert_eq!(info.color, Some("ff9900".to_owned()));
    assert_eq!(info.pubkey, Some("02abc".to_owned()));
    assert_eq!(info.network, Some("mainnet".to_owned()));
    assert_eq!(info.block_height, Some(840_000));
    assert_eq!(info.block_hash, None);
    assert_eq!(info.methods.len(), 5);
    assert_eq!(info.notifications, ["payment_received", "payment_sent"]);

    let mut testnet = node.clone();
    testnet.network = "regtest".to_owned();
    testnet.alias = None;
    let mut spending = record(Some(0));
    spending.interval_config =
        Some(BudgetIntervalConfig { interval_secs: 1, reset_budget_msat: 1, last_reset: 0 });
    let info = get_info(&testnet, &spending, &features(false, false, false));
    assert_eq!(info.network, Some("regtest".to_owned()));
    assert_eq!(info.alias, None);
    assert_eq!(info.methods.len(), 9);
    assert_eq!(info.notifications, Vec::<String>::new());
    let mut other = node;
    other.network = "Bitcoin".to_owned();
    assert_eq!(
        get_info(&other, &record(None), &features(false, false, false)).network,
        Some("Bitcoin".to_owned())
    );
}

const HELLO_DIGEST: &str = "2cf24dba5fb0a30e26e83b2ac5b9e29e1b161e5c1fa7425e73043362938b9824";

fn invoice(description: Option<&str>, description_hash: Option<&str>) -> MakeInvoiceRequest {
    MakeInvoiceRequest {
        amount: 21_000,
        description: description.map(str::to_owned),
        description_hash: description_hash.map(str::to_owned),
        expiry: Some(600),
    }
}

#[test]
fn invoice_with_and_without_description() {
    assert_eq!(
        make_invoice(&invoice(Some("hello"), None)),
        Ok(InvoiceCall {
            amount_msat: 21_000,
            description: "hello".to_owned(),
            deschashonly: None,
            expiry: Some(600)
        })
    );
    assert_eq!(
        make_invoice(&invoice(None, None)),
        Ok(InvoiceCall {
            amount_msat: 21_000,
            description: "NWC make_invoice".to_owned(),
            deschashonly: None,
            expiry: Some(600)
        })
    );
}

#[test]
fn description_hash_must_be_the_digest_of_the_description() {
    let hashed = make_invoice(&invoice(Some("hello"), Some(HELLO_DIGEST))).unwrap();
    assert_eq!(hashed.deschashonly, Some(true));
    assert_eq!(hashed.description, "hello");
    assert!(make_invoice(&invoice(Some("hello"), Some(&HELLO_DIGEST.to_uppercase()))).is_ok());
    assert_eq!(
        make_invoice(&invoice(Some("hullo"), Some(HELLO_DIGEST))),
        Err(Nip47Error {
            code: ErrorCode::Other,
            message: "description_hash not matching description".to_owned()
        })
    );
    assert_eq!(
        make_invoice(&invoice(None, Some(HELLO_DIGEST))),
        Err(Nip47Error {
            code: ErrorCode::Other,
            message: "Must have description when using description_hash".to_owned()
        })
    );
    assert_eq!(
        make_invoice(&invoice(Some("hello"), Some("2cf2"))),
        Err(Nip47Error {
            code: ErrorCode::Internal,
            message: "description_hash is not a hash".to_owned()
        })
    );
    assert_eq!(
        make_invoice(&invoice(None, Some("2cf2"))).unwrap_err().code,
        ErrorCode::Other
    );
}

#[test]
fn invoice_call_from_a_given_digest() {
    let digest = vec![0xab; 32];
    assert!(invoice_call(&invoice(Some("x"), Some(&"ab".repeat(32))), &digest).is_ok());
    assert!(invoice_call(&invoice(Some("x"), Some(&"AB".repeat(32))), &digest).is_ok());
    assert!(invoice_call(&invoice(Some("x"), Some(&"ac".repeat(32))), &digest).is_err());
    assert!(invoice_call(&invoice(Some("x"), Some(&"ab".repeat(32))), &vec![0xab; 31]).is_err());
    assert!(invoice_call(&invoice(Some("x"), None), &vec![]).is_ok());
    assert!(hash_matches(&"aB".repeat(32), &"ab".repeat(32)));
    assert!(!hash_matches(&"ab".repeat(32), &"AB".repeat(32)));
    assert!(!hash_matches(&"ab".repeat(32), "ab"));
}

#[test]
fn answer_for_a_made_invoice() {
    let made = invoice_made("lnbc1...".to_owned(), "ab".repeat(32));
    assert_eq!(made.invoice, "lnbc1...");
    assert_eq!(made.payment_hash, Some("ab".repeat(32)));
    assert_eq!(made.description, None);
    assert_eq!(made.amount, None);
    assert_eq!(made.created_at, None);
}

fn offer_decoded() -> Decoded {
    Decoded {
        valid: true,
        item_type: DecodeType::Bolt12Offer,
        description: None,
        description_hash: None,
        payment_hash: None,
        amount_msat: None,
        created_at: None,
        expiry: None,
        invoice_amount_msat: None,
        invoice_created_at: None,
        invoice_relative_expiry: None,
        offer_description: Some("beans".to_owned()),
        offer_amount_msat: Some(9_000),
        offer_metadata: Some("meta".to_owned()),
        offer_absolute_expiry: Some(1_800_000_000),
        offer_issuer: Some("roaster".to_owned()),
    }
}

#[test]
fn offers_are_looked_up() {
    let found = lookup_offer("lno1...".to_owned(), &offer_decoded()).unwrap();
    assert_eq!(found.transaction_type, TransactionType::Incoming);
    assert_eq!(found.offer, Some("lno1...".to_owned()));
    assert_eq!(found.description, Some("beans".to_owned()));
    assert_eq!(found.amount, Some(9_000));
    assert_eq!(found.issuer, Some("roaster".to_owned()));
    assert_eq!(found.expires_at, Some(1_800_000_000));
    assert_eq!(found.metadata, Some("meta".to_owned()));
    let refused =
        Nip47Error { code: ErrorCode::Other, message: "Not an offer or invalid offer".to_owned() };
    let mut invalid = offer_decoded();
    invalid.valid = false;
    assert_eq!(lookup_offer("x".to_owned(), &invalid), Err(refused.clone()));
    let mut invoice = offer_decoded();
    invoice.item_type = DecodeType::Bolt12Invoice;
    assert_eq!(lookup_offer("x".to_owned(), &invoice), Err(refused));
}

#[test]
fn offers_are_made() {
    let params = MakeOfferRequest {
        amount: Some(12_345),
        description: Some("beans".to_owned()),
        issuer: None,
        expiry: Some(600),
    };
    let call = make_offer(&params, 1_700_000_000);
    assert_eq!(
        call,
        OfferCall {
            amount: "12345".to_owned(),
            description: Some("beans".to_owned()),
            issuer: None,
            absolute_expiry: Some(1_700_000_600),
        }
    );
    let made = offer_made("lno1...".to_owned(), &params, &call);
    assert_eq!(made.offer, Some("lno1...".to_owned()));
    assert_eq!(made.amount, Some(12_345));
    assert_eq!(made.expires_at, Some(1_700_000_600));
    assert_eq!(made.metadata, None);
    let open = MakeOfferRequest { amount: None, description: None, issuer: None, expiry: None };
    let call = make_offer(&open, 5);
    assert_eq!(call.amount, "any");
    assert_eq!(call.absolute_expiry, None);
    let zero = MakeOfferRequest { amount: Some(0), description: None, issuer: None, expiry: Some(0) };
    let call = make_offer(&zero, u64::MAX);
    assert_eq!(call.amount, "0");
    assert_eq!(call.absolute_expiry, Some(u64::MAX));
}
