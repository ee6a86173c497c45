use cln_nip47::admin::{list_entry, set_member};
use cln_nip47::args::{
    args_error_message, parse_full_args, parse_list_args, parse_raw_args, parse_revoke_args,
    settle_full_args, ArgsError,
};
use cln_nip47::json::JsonValue;
use cln_nip47::period::PeriodError;
use cln_nip47::registry::Registry;
use cln_nip47::session::{
    any_connected, publish_outcome, request_disposition, session_start, session_step,
    subscription_since, Disposition, NotificationKind, SessionAction, SessionEvent, SessionState,
    CONNECT_TIMEOUT_SECS, RETRY_DELAY_SECS, STARTUP_DELAY,
};
use cln_nip47::startup::{
    check_relays_option, offer_support, read_startup_options, refused_relays, settle_startup,
    startup_error_message, Config, StartupError,
};
use cln_nip47::version::VersionError;

fn text(s: &str) -> JsonValue {
    JsonValue::Text(s.to_owned())
}

fn object(fields: Vec<(&str, JsonValue)>) -> JsonValue {
    JsonValue::Object(fields.into_iter().map(|(k, v)| (k.to_owned(), v)).collect())
}

fn full(label: &str, budget: Option<u64>, interval: Option<u64>) -> Result<(String, Option<u64>, Option<u64>), ArgsError> {
    Ok((label.to_owned(), budget, interval))
}

#[test]
fn full_args_in_their_three_forms() {
    assert_eq!(parse_full_args(&text("shop")), full("shop", None, None));
    assert_eq!(parse_full_args(&JsonValue::Array(vec![text("shop")])), full("shop", None, None));
    assert_eq!(
        parse_full_args(&JsonValue::Array(vec![text("shop"), JsonValue::Unsigned(5_000)])),
        full("shop", Some(5_000), None)
    );
    assert_eq!(
        parse_full_args(&JsonValue::Array(vec![text("shop"), JsonValue::Unsigned(5_000), text("1 day")])),
        full("shop", Some(5_000), Some(86_400))
    );
    assert_eq!(
        parse_full_args(&JsonValue::Array(vec![
            text("shop"),
            JsonValue::Unsigned(0),
            JsonValue::Null,
            text("ignored")
        ])),
        Err(ArgsError::IntervalNotString)
    );
    assert_eq!(
        parse_full_args(&object(vec![
            ("interval", text("2h")),
            ("budget_msat", JsonValue::Unsigned(9)),
            ("label", text("kiosk")),
            ("other", JsonValue::Bool(true)),
        ])),
        full("kiosk", Some(9), Some(7_200))
    );
    assert_eq!(parse_full_args(&object(vec![("label", text("kiosk"))])), full("kiosk", None, None));
    assert_eq!(
        parse_full_args(&object(vec![("label", text("a")), ("budget_msat", JsonValue::Unsigned(0))])),
        full("a", Some(0), None)
    );
}

#[test]
fn full_args_refusals() {
    assert_eq!(parse_full_args(&JsonValue::Null), Err(ArgsError::InvalidType));
    assert_eq!(parse_full_args(&JsonValue::Unsigned(3)), Err(ArgsError::InvalidType));
    assert_eq!(parse_full_args(&JsonValue::Bool(true)), Err(ArgsError::InvalidType));
    assert_eq!(parse_full_args(&JsonValue::Number("1.5".to_owned())), Err(ArgsError::InvalidType));
    assert_eq!(parse_full_args(&JsonValue::Array(vec![])), Err(ArgsError::LabelMissing));
    assert_eq!(parse_full_args(&object(vec![])), Err(ArgsError::LabelMissing));
    assert_eq!(
        parse_full_args(&JsonValue::Array(vec![JsonValue::Unsigned(1), text("x")])),
        Err(ArgsError::LabelNotString)
    );
    assert_eq!(
        parse_full_args(&object(vec![("label", JsonValue::Null), ("budget_msat", text("x"))])),
        Err(ArgsError::LabelNotString)
    );
    assert_eq!(
        parse_full_args(&JsonValue::Array(vec![text("a"), text("5000"), JsonValue::Null])),
        Err(ArgsError::BudgetNotInteger)
    );
    assert_eq!(
        parse_full_args(&JsonValue::Array(vec![text("a"), JsonValue::Number("-5".to_owned())])),
        Err(ArgsError::BudgetNotInteger)
    );
    assert_eq!(
        parse_full_args(&object(vec![("label", text("a")), ("interval", JsonValue::Unsigned(60))])),
        Err(ArgsError::IntervalNotString)
    );
    assert_eq!(
        parse_full_args(&object(vec![("label", text("a")), ("interval", text("soon"))])),
        Err(ArgsError::Interval(PeriodError::InvalidFormat))
    );
    assert_eq!(
        parse_full_args(&JsonValue::Array(vec![text("a"), JsonValue::Unsigned(0), text("3 moons")])),
        Err(ArgsError::Interval(PeriodError::UnsupportedUnit))
    );
    assert_eq!(
        parse_full_args(&object(vec![("label", text("a")), ("interval", text("1h"))])),
        Err(ArgsError::IntervalWithoutBudget)
    );
    assert_eq!(
        parse_full_args(&JsonValue::Array(vec![text("a"), JsonValue::Unsigned(0), text("1h")])),
        Err(ArgsError::ZeroBudgetWithInterval)
    );
}

#[test]
fn settled_args() {
    assert_eq!(settle_full_args("a".to_owned(), None, None), full("a", None, None));
    assert_eq!(settle_full_args("a".to_owned(), Some(1), Some(Ok(0))), full("a", Some(1), Some(0)));
    assert_eq!(
        settle_full_args("a".to_owned(), None, Some(Err(PeriodError::TooLong))),
        Err(ArgsError::Interval(PeriodError::TooLong))
    );
    assert_eq!(
        settle_full_args("a".to_owned(), None, Some(Ok(5))),
        Err(ArgsError::IntervalWithoutBudget)
    );
    let raw = parse_raw_args(&JsonValue::Array(vec![text("a"), JsonValue::Unsigned(2), text("zz")])).unwrap();
    assert_eq!(raw.label, "a");
    assert_eq!(raw.budget_msat, Some(2));
    assert_eq!(raw.interval, Some("zz".to_owned()));
}

#[test]
fn revoke_and_list_args() {
    assert_eq!(parse_revoke_args(&text("a")), Ok("a".to_owned()));
    assert_eq!(parse_revoke_args(&JsonValue::Array(vec![text("a"), text("b")])), Ok("a".to_owned()));
    assert_eq!(parse_revoke_args(&object(vec![("label", text("a"))])), Ok("a".to_owned()));
    assert_eq!(parse_revoke_args(&JsonValue::Array(vec![])), Err(ArgsError::LabelMissing));
    assert_eq!(parse_revoke_args(&object(vec![("name", text("a"))])), Err(ArgsError::LabelMissing));
    assert_eq!(
        parse_revoke_args(&JsonValue::Array(vec![JsonValue::Bool(false)])),
        Err(ArgsError::LabelNotString)
    );
    assert_eq!(parse_revoke_args(&JsonValue::Null), Err(ArgsError::InvalidType));

    assert_eq!(parse_list_args(&text("a")), Ok(Some("a".to_owned())));
    assert_eq!(parse_list_args(&JsonValue::Array(vec![])), Ok(None));
    assert_eq!(parse_list_args(&object(vec![])), Ok(None));
    assert_eq!(parse_list_args(&JsonValue::Array(vec![text("a")])), Ok(Some("a".to_owned())));
    assert_eq!(parse_list_args(&object(vec![("label", text("a"))])), Ok(Some("a".to_owned())));
    assert_eq!(
        parse_list_args(&object(vec![("label", JsonValue::Unsigned(1))])),
        Err(ArgsError::LabelNotString)
    );
    assert_eq!(parse_list_args(&JsonValue::Unsigned(1)), Err(ArgsError::InvalidType));
}

#[test]
fn args_messages() {
    assert_eq!(args_error_message(ArgsError::InvalidType), "Invalid argument type");
    assert_eq!(args_error_message(ArgsError::LabelMissing), "label missing");
    assert_eq!(args_error_message(ArgsError::LabelNotString), "label is not a string");
    assert_eq!(args_error_message(ArgsError::BudgetNotInteger), "budget_msat is not an integer");
    assert_eq!(args_error_message(ArgsError::IntervalNotString), "interval is not a string");
    assert_eq!(
        args_error_message(ArgsError::Interval(PeriodError::TooLong)),
        "interval is not a period of time"
    );
    assert_eq!(
        args_error_message(ArgsError::IntervalWithoutBudget),
        "Must set `budget_msat` if you use `interval`"
    );
    assert_eq!(
        args_error_message(ArgsError::ZeroBudgetWithInterval),
        "`budget_msat` must be greater than 0 if you use `interval`"
    );
}

#[test]
fn json_values_are_read() {
    let v = object(vec![("a", JsonValue::Unsigned(1)), ("b", JsonValue::Bool(true)), ("a", text("x"))]);
    assert_eq!(v.get("a").and_then(JsonValue::as_u64), Some(1));
    assert_eq!(v.get("b").and_then(JsonValue::as_bool), Some(true));
    assert!(v.get("c").is_none());
    assert!(v.is_object());
    assert!(v.at(0).is_none());
    let list = JsonValue::Array(vec![text("x"), JsonValue::Null]);
    assert_eq!(list.at(0).and_then(JsonValue::as_str), Some(&"x".to_owned()));
    assert_eq!(list.at(1).and_then(JsonValue::as_str), None);
    assert!(list.at(2).is_none());
    assert!(list.get("x").is_none());
    assert!(!list.is_object());
    assert_eq!(text("7").as_u64(), None);
    assert_eq!(JsonValue::Number("7.0".to_owned()).as_u64(), None);
    assert_eq!(JsonValue::Unsigned(7).as_bool(), None);
}

fn member_text(v: &JsonValue, key: &str) -> Option<String> {
    v.get(key).and_then(JsonValue::as_str).cloned()
}

#[test]
fn listing_line_carries_the_public_keys() {
    let record = object(vec![
        ("uri", text("nostr+walletconnect://...")),
        ("walletkey", text("secret")),
        ("budget_msat", JsonValue::Unsigned(5)),
    ]);
    let line = list_entry("shop".to_owned(), record, "wpub".to_owned(), "cpub".to_owned());
    let shown = line.get("shop").unwrap();
    assert_eq!(member_text(shown, "uri"), Some("nostr+walletconnect://...".to_owned()));
    assert_eq!(member_text(shown, "walletkey"), Some("secret".to_owned()));
    assert_eq!(shown.get("budget_msat").and_then(JsonValue::as_u64), Some(5));
    assert_eq!(member_text(shown, "walletkey_public"), Some("wpub".to_owned()));
    assert_eq!(member_text(shown, "clientkey_public"), Some("cpub".to_owned()));

    let stale = object(vec![("walletkey_public", text("old")), ("uri", text("u"))]);
    let line = list_entry("a".to_owned(), stale, "new".to_owned(), "c".to_owned());
    let shown = line.get("a").unwrap();
    assert_eq!(member_text(shown, "walletkey_public"), Some("new".to_owned()));
    assert_eq!(member_text(shown, "uri"), Some("u".to_owned()));

    let odd = list_entry("n".to_owned(), JsonValue::Null, "w".to_owned(), "c".to_owned());
    assert!(matches!(odd.get("n"), Some(JsonValue::Null)));
}

#[test]
fn members_are_set_in_place() {
    let mut fields = vec![("a".to_owned(), JsonValue::Unsigned(1)), ("b".to_owned(), JsonValue::Unsigned(2))];
    set_member(&mut fields, "a", JsonValue::Unsigned(9));
    set_member(&mut fields, "c", JsonValue::Unsigned(3));
    let v = JsonValue::Object(fields);
    assert_eq!(v.get("a").and_then(JsonValue::as_u64), Some(9));
    assert_eq!(v.get("b").and_then(JsonValue::as_u64), Some(2));
    assert_eq!(v.get("c").and_then(JsonValue::as_u64), Some(3));
}

#[test]
fn registry_holds_one_handle_for_each_label() {
    let mut registry: Registry<u32> = Registry::new();
    assert_eq!(registry.len(), 0);
    assert_eq!(registry.insert("a".to_owned(), 1), None);
    assert_eq!(registry.insert("b".to_owned(), 2), None);
    assert_eq!(registry.insert("a".to_owned(), 3), Some(1));
    assert_eq!(registry.len(), 2);
    assert_eq!(registry.get("a"), Some(&3));
    assert_eq!(registry.get("b"), Some(&2));
    assert_eq!(registry.get("c"), None);
    assert!(registry.contains("a"));
    assert!(!registry.contains("A"));
    assert_eq!(registry.remove("c"), None);
    assert_eq!(registry.remove("b"), Some(2));
    assert_eq!(registry.remove("b"), None);
    assert_eq!(registry.len(), 1);
    assert_eq!(registry.insert("b".to_owned(), 4), None);
    assert_eq!(registry.entries(), &vec![("a".to_owned(), 3), ("b".to_owned(), 4)]);
    assert_eq!(registry.drain(), vec![("a".to_owned(), 3), ("b".to_owned(), 4)]);
    assert_eq!(registry.len(), 0);
    assert_eq!(registry.get("a"), None);
    assert_eq!(registry.drain(), vec![]);
}

#[test]
fn session_runs_through_its_cycle() {
    let connect = SessionAction::Connect { wait_secs: 30 };
    assert_eq!(session_start(), (SessionState::Connecting, connect));
    assert_eq!(
        session_step(SessionState::Connecting, SessionEvent::ConnectDone { relays: 2, connected: true }),
        (SessionState::Advertising, SessionAction::Advertise)
    );
    assert_eq!(
        session_step(SessionState::Advertising, SessionEvent::AdvertiseDone { accepted: true }),
        (SessionState::Subscribing, SessionAction::Subscribe)
    );
    assert_eq!(
        session_step(SessionState::Subscribing, SessionEvent::SubscribeDone { subscribed: true }),
        (SessionState::Subscribed, SessionAction::Process)
    );
    assert_eq!(
        session_step(SessionState::Subscribed, SessionEvent::StreamEnded),
        (SessionState::Connecting, connect)
    );
    assert_eq!(
        session_step(SessionState::Connecting, SessionEvent::ConnectDone { relays: 0, connected: false }),
        (SessionState::ShutDown, SessionAction::Stop)
    );
    assert_eq!(
        session_step(SessionState::Connecting, SessionEvent::ConnectDone { relays: 0, connected: true }),
        (SessionState::ShutDown, SessionAction::Stop)
    );
}

#[test]
fn session_backs_off_and_tries_again() {
    let plain = SessionAction::BackOff { disconnect: false, secs: 5 };
    let after_disconnect = SessionAction::BackOff { disconnect: true, secs: 5 };
    assert_eq!(
        session_step(SessionState::Connecting, SessionEvent::ConnectDone { relays: 3, connected: false }),
        (SessionState::Disconnected, plain)
    );
    assert_eq!(
        session_step(SessionState::Advertising, SessionEvent::AdvertiseDone { accepted: false }),
        (SessionState::Disconnected, after_disconnect)
    );
    assert_eq!(
        session_step(SessionState::Subscribing, SessionEvent::SubscribeDone { subscribed: false }),
        (SessionState::Disconnected, after_disconnect)
    );
    assert_eq!(
        session_step(SessionState::Disconnected, SessionEvent::RetryElapsed),
        (SessionState::Connecting, SessionAction::Connect { wait_secs: 30 })
    );
    assert_eq!(CONNECT_TIMEOUT_SECS, 30);
    assert_eq!(RETRY_DELAY_SECS, 5);
    assert_eq!(STARTUP_DELAY, 1);
}

#[test]
fn reports_that_do_not_belong_are_passed_over() {
    let events = [
        SessionEvent::ConnectDone { relays: 1, connected: true },
        SessionEvent::AdvertiseDone { accepted: true },
        SessionEvent::SubscribeDone { subscribed: true },
        SessionEvent::StreamEnded,
        SessionEvent::RetryElapsed,
    ];
    for event in events {
        assert_eq!(
            session_step(SessionState::ShutDown, event),
            (SessionState::ShutDown, SessionAction::Ignore)
        );
    }
    assert_eq!(
        session_step(SessionState::Subscribed, SessionEvent::RetryElapsed),
        (SessionState::Subscribed, SessionAction::Ignore)
    );
    assert_eq!(
        session_step(SessionState::Connecting, SessionEvent::StreamEnded),
        (SessionState::Connecting, SessionAction::Ignore)
    );
    assert_eq!(
        session_step(SessionState::Advertising, SessionEvent::SubscribeDone { subscribed: true }),
        (SessionState::Advertising, SessionAction::Ignore)
    );
}

#[test]
fn relay_notifications() {
    assert_eq!(request_disposition(NotificationKind::Shutdown, None, 10), Disposition::Stop);
    assert_eq!(request_disposition(NotificationKind::Shutdown, Some(1), 10), Disposition::Stop);
    assert_eq!(request_disposition(NotificationKind::Message, None, 10), Disposition::Ignore);
    assert_eq!(request_disposition(NotificationKind::Event, None, 10), Disposition::Process);
    assert_eq!(request_disposition(NotificationKind::Event, Some(9), 10), Disposition::Ignore);
    assert_eq!(request_disposition(NotificationKind::Event, Some(10), 10), Disposition::Process);
    assert_eq!(request_disposition(NotificationKind::Event, Some(11), 10), Disposition::Process);
    assert!(any_connected(&vec![false, true, false]));
    assert!(!any_connected(&vec![false, false]));
    assert!(!any_connected(&vec![]));
    assert_eq!(subscription_since(1_700_000_000), 1_699_999_998);
    assert_eq!(subscription_since(2), 0);
    assert_eq!(subscription_since(1), 0);
    assert_eq!(subscription_since(0), 0);
}

#[test]
fn published_events_need_one_relay() {
    let failed = vec!["timeout".to_owned(), "blocked: spam".to_owned()];
    assert_eq!(publish_outcome(1, &failed, "x: "), Ok(()));
    assert_eq!(publish_outcome(3, &vec![], "x: "), Ok(()));
    assert_eq!(
        publish_outcome(0, &failed, "None of the relays received the info_event! "),
        Err("None of the relays received the info_event! timeout, blocked: spam".to_owned())
    );
    assert_eq!(publish_outcome(0, &vec![], "nobody: "), Err("nobody: ".to_owned()));
    assert_eq!(publish_outcome(0, &vec!["one".to_owned()], ""), Err("one".to_owned()));
}

fn listconfigs(set: JsonValue) -> JsonValue {
    object(vec![("configs", object(vec![("experimental-offers", object(vec![("set", set)]))]))])
}

#[test]
fn offers_by_version_or_configuration() {
    assert_eq!(offer_support("v24.11", &JsonValue::Null), Ok(true));
    assert_eq!(offer_support("v25.02", &listconfigs(JsonValue::Bool(false))), Ok(true));
    assert_eq!(offer_support("v24.08", &listconfigs(JsonValue::Bool(true))), Ok(true));
    assert_eq!(offer_support("v24.08", &listconfigs(JsonValue::Bool(false))), Ok(false));
    assert_eq!(
        offer_support("24.08", &listconfigs(JsonValue::Bool(true))),
        Err(StartupError::Version(VersionError::MissingMarker))
    );
    assert_eq!(offer_support("v24.08", &JsonValue::Null), Err(StartupError::ListconfigsNotObject));
    assert_eq!(offer_support("v24.08", &object(vec![])), Err(StartupError::ConfigsMissing));
    assert_eq!(
        offer_support("v24.08", &object(vec![("configs", object(vec![]))])),
        Err(StartupError::ExperimentalOffersMissing)
    );
    assert_eq!(
        offer_support(
            "v24.08",
            &object(vec![("configs", object(vec![("experimental-offers", object(vec![]))]))])
        ),
        Err(StartupError::SetMissing)
    );
    assert_eq!(offer_support("v24.08", &listconfigs(text("true"))), Err(StartupError::SetNotBool));
}

#[test]
fn startup_settles_the_settings() {
    let relays = vec!["wss://relay.example.com".to_owned(), "ws://127.0.0.1:7777".to_owned()];
    assert_eq!(
        read_startup_options(Some(relays.clone()), "v24.11.1".to_owned(), &JsonValue::Null),
        Ok(Config { relays: relays.clone(), my_cln_version: "v24.11.1".to_owned(), offer_support: true })
    );
    assert_eq!(
        read_startup_options(
            Some(relays.clone()),
            "v24.02".to_owned(),
            &listconfigs(JsonValue::Bool(false))
        ),
        Ok(Config { relays, my_cln_version: "v24.02".to_owned(), offer_support: false })
    );
    assert_eq!(
        read_startup_options(None, "nonsense".to_owned(), &JsonValue::Null),
        Err(StartupError::RelaysUnset)
    );
    assert_eq!(
        read_startup_options(Some(vec![]), "nonsense".to_owned(), &JsonValue::Null),
        Err(StartupError::RelaysEmpty)
    );
    assert_eq!(
        read_startup_options(Some(vec!["not a relay".to_owned()]), "v24".to_owned(), &JsonValue::Null),
        Err(StartupError::Version(VersionError::ComponentCount))
    );
    assert_eq!(
        read_startup_options(
            Some(vec!["wss://ok.example".to_owned(), "not a relay".to_owned()]),
            "v25.0".to_owned(),
            &JsonValue::Null
        ),
        Err(StartupError::BadRelay)
    );
    assert_eq!(check_relays_option(&None), Err(StartupError::RelaysUnset));
    assert_eq!(check_relays_option(&Some(vec![])), Err(StartupError::RelaysEmpty));
    assert_eq!(check_relays_option(&Some(vec![String::new()])), Ok(()));
}

#[test]
fn relays_are_parsed_by_the_relay_library() {
    let relays: Vec<String> = [
        "wss://relay.example.com",
        "ws://127.0.0.1:7777",
        "https://relay.example.com",
        "relay.example.com",
        "",
        "wss://",
        "wss://relay.example.com/path?x=1",
    ]
    .iter()
    .map(|s| (*s).to_owned())
    .collect();
    let refused = refused_relays(&relays);
    assert_eq!(refused.len(), relays.len());
    for (text, refused) in relays.iter().zip(refused.iter()) {
        assert_eq!(*refused, nostr_sdk::RelayUrl::parse(text).is_err(), "{text}");
    }
    assert!(!refused[0]);
    assert!(refused[3]);
    assert_eq!(
        settle_startup(Some(relays.clone()), "v25.0".to_owned(), &JsonValue::Null, &refused),
        Err(StartupError::BadRelay)
    );
    assert!(settle_startup(
        Some(relays.clone()),
        "v25.0".to_owned(),
        &JsonValue::Null,
        &vec![false; relays.len()]
    )
    .is_ok());
}

#[test]
fn startup_messages_and_default() {
    assert_eq!(
        Config::default(),
        Config { relays: vec![], my_cln_version: String::new(), offer_support: false }
    );
    assert_eq!(
        startup_error_message(StartupError::RelaysUnset),
        "`nip47-relays` not set, must specify atleast one relay url!"
    );
    assert_eq!(
        startup_error_message(StartupError::RelaysEmpty),
        "Empty `nip47-relays` option, must specify atleast one relay url!"
    );
    assert_eq!(startup_error_message(StartupError::ListconfigsNotObject), "listconfigs not an object");
    assert_eq!(
        startup_error_message(StartupError::ConfigsMissing),
        "listconfigs doesn't have `configs` object"
    );
    assert_eq!(
        startup_error_message(StartupError::ExperimentalOffersMissing),
        "listconfigs doesn't have `experimental-offers` object"
    );
    assert_eq!(startup_error_message(StartupError::SetMissing), "listconfigs doesn't have `set` object");
    assert_eq!(
        startup_error_message(StartupError::SetNotBool),
        "listconfigs doesn't have `set` as a bool"
    );
    assert_eq!(startup_error_message(StartupError::BadRelay), "Invalid relay url");
    assert_eq!(
        startup_error_message(StartupError::Version(VersionError::BadComponent)),
        "Version string parse error"
    );
}
