use cln_nip47::codec::{
    build_notification_event, build_response_event, check_nip44_support, codec_error_message,
    decrypt_request, encrypt_response_content, fanout_drafts, response_drafts, settle_decryption,
    CodecError,
    SessionKeys, KIND_INFO, KIND_NOTIFICATION_NIP04, KIND_NOTIFICATION_NIP44, KIND_REQUEST,
    KIND_RESPONSE,
};
use nostr_sdk::nips::{nip04, nip44};
use nostr_sdk::Keys;

fn pair() -> (SessionKeys, Keys, Keys) {
    let wallet = Keys::generate();
    let client = Keys::generate();
    let keys = SessionKeys {
        wallet_secret: wallet.secret_key().to_secret_hex(),
        client_pubkey: client.public_key().to_hex(),
    };
    (keys, wallet, client)
}

fn tags(list: &[&[&str]]) -> Vec<Vec<String>> {
    list.iter().map(|t| t.iter().map(|s| (*s).to_owned()).collect()).collect()
}

#[test]
fn round_trip_under_the_newer_cipher() {
    let (keys, _, _) = pair();
    let plain = "{\"method\":\"get_balance\",\"params\":{}}";
    let sealed = encrypt_response_content(plain, &keys, true).unwrap();
    assert_ne!(sealed, plain);
    let mut use_nip44 = true;
    assert_eq!(decrypt_request(&sealed, &keys, &mut use_nip44), Ok(plain.to_owned()));
    assert!(use_nip44);
}

#[test]
fn round_trip_under_the_older_cipher() {
    let (keys, _, _) = pair();
    let plain = "{\"method\":\"get_info\",\"params\":{}}";
    let sealed = encrypt_response_content(plain, &keys, false).unwrap();
    assert_ne!(sealed, plain);
    assert!(sealed.contains("?iv="));
    let mut use_nip44 = false;
    assert_eq!(decrypt_request(&sealed, &keys, &mut use_nip44), Ok(plain.to_owned()));
    assert!(!use_nip44);
}

#[test]
fn wrong_hint_falls_back_to_the_other_cipher() {
    let (keys, _, _) = pair();
    let plain = "payload";
    let older = encrypt_response_content(plain, &keys, false).unwrap();
    let mut hint = true;
    assert_eq!(decrypt_request(&older, &keys, &mut hint), Ok(plain.to_owned()));
    assert!(!hint);

    let newer = encrypt_response_content(plain, &keys, true).unwrap();
    let mut hint = false;
    assert_eq!(decrypt_request(&newer, &keys, &mut hint), Ok(plain.to_owned()));
    assert!(hint);
}

#[test]
fn requests_of_the_remote_party_open() {
    let (keys, wallet, client) = pair();
    let plain = "{\"method\":\"pay_invoice\",\"params\":{\"invoice\":\"lnbc1\"}}";
    let newer =
        nip44::encrypt(client.secret_key(), &wallet.public_key(), plain, nip44::Version::V2).unwrap();
    let mut hint = true;
    assert_eq!(decrypt_request(&newer, &keys, &mut hint), Ok(plain.to_owned()));
    assert!(hint);
    let older = nip04::encrypt(client.secret_key(), &wallet.public_key(), plain).unwrap();
    let mut hint = true;
    assert_eq!(decrypt_request(&older, &keys, &mut hint), Ok(plain.to_owned()));
    assert!(!hint);
}

#[test]
fn responses_open_at_the_remote_party() {
    let (keys, wallet, client) = pair();
    let plain = "{\"result_type\":\"get_balance\",\"result\":{\"balance\":1}}";
    let newer = encrypt_response_content(plain, &keys, true).unwrap();
    assert_eq!(nip44::decrypt(client.secret_key(), &wallet.public_key(), newer).unwrap(), plain);
    let older = encrypt_response_content(plain, &keys, false).unwrap();
    assert_eq!(nip04::decrypt(client.secret_key(), &wallet.public_key(), older).unwrap(), plain);
}

#[test]
fn content_that_no_cipher_opens_is_dropped() {
    let (keys, _, _) = pair();
    for hint in [true, false] {
        let mut use_nip44 = hint;
        assert_eq!(
            decrypt_request("not a sealed text", &keys, &mut use_nip44),
            Err(CodecError::Undecipherable)
        );
        assert_eq!(use_nip44, hint);
    }
    let (others, _, _) = pair();
    let sealed = encrypt_response_content("secret", &others, true).unwrap();
    let mut use_nip44 = true;
    assert_eq!(decrypt_request(&sealed, &keys, &mut use_nip44), Err(CodecError::Undecipherable));
    assert!(use_nip44);
}

#[test]
fn keys_that_are_none_fail() {
    let bad = SessionKeys { wallet_secret: "zz".to_owned(), client_pubkey: "11".repeat(32) };
    assert_eq!(encrypt_response_content("x", &bad, true), Err(CodecError::Nip44Failed));
    assert_eq!(encrypt_response_content("x", &bad, false), Err(CodecError::Nip04Failed));
    let mut hint = false;
    assert_eq!(decrypt_request("x", &bad, &mut hint), Err(CodecError::Undecipherable));
}

#[test]
fn the_newer_cipher_refuses_an_empty_text() {
    let (keys, _, _) = pair();
    assert_eq!(encrypt_response_content("", &keys, true), Err(CodecError::Nip44Failed));
}

#[test]
fn settle_takes_the_hinted_text_first() {
    let a = Some("a".to_owned());
    let b = Some("b".to_owned());
    assert_eq!(settle_decryption(true, a.clone(), b.clone()), Ok(("a".to_owned(), true)));
    assert_eq!(settle_decryption(false, a.clone(), b.clone()), Ok(("a".to_owned(), false)));
    assert_eq!(settle_decryption(true, None, b.clone()), Ok(("b".to_owned(), false)));
    assert_eq!(settle_decryption(false, None, b), Ok(("b".to_owned(), true)));
    assert_eq!(settle_decryption(true, a, None), Ok(("a".to_owned(), true)));
    assert_eq!(settle_decryption(true, None, None), Err(CodecError::Undecipherable));
    assert_eq!(settle_decryption(false, None, None), Err(CodecError::Undecipherable));
}

#[test]
fn cipher_announcement_in_tags() {
    assert!(check_nip44_support(&tags(&[&["encryption", "nip44_v2"]])));
    assert!(check_nip44_support(&tags(&[&["p", "abc"], &["encryption", "nip04 nip44_v2"]])));
    assert!(!check_nip44_support(&tags(&[&["encryption", "nip04"]])));
    assert!(!check_nip44_support(&tags(&[&["encryption"]])));
    assert!(!check_nip44_support(&tags(&[&["p", "nip44_v2"]])));
    assert!(!check_nip44_support(&tags(&[])));
    assert!(!check_nip44_support(&tags(&[&[], &["e", "1"]])));
    assert!(!check_nip44_support(&tags(&[&["encryption", "nip04"], &["encryption", "nip44_v2"]])));
    assert!(check_nip44_support(&tags(&[&["encryption", "xnip44_v2x", "more"]])));
    assert!(!check_nip44_support(&tags(&[&["encryption", "nip44_v"]])));
    assert!(!check_nip44_support(&tags(&[&["Encryption", "nip44_v2"]])));
}

#[test]
fn response_event_tags() {
    let draft = build_response_event("ev1", "sealed".to_owned(), "pk1", &None);
    assert_eq!(draft.kind, 23195);
    assert_eq!(draft.content, "sealed");
    assert_eq!(draft.tags, tags(&[&["e", "ev1"], &["p", "pk1"]]));
    let tagged = build_response_event("ev1", "sealed".to_owned(), "pk1", &Some("item-2".to_owned()));
    assert_eq!(tagged.tags, tags(&[&["e", "ev1"], &["p", "pk1"], &["d", "item-2"]]));
}

#[test]
fn event_kinds() {
    assert_eq!(KIND_INFO, 13194);
    assert_eq!(KIND_REQUEST, 23194);
    assert_eq!(KIND_RESPONSE, 23195);
    assert_eq!(KIND_NOTIFICATION_NIP04, 23196);
    assert_eq!(KIND_NOTIFICATION_NIP44, 23197);
}

#[test]
fn notification_events_under_both_ciphers() {
    let (keys, wallet, client) = pair();
    let note = "{\"notification_type\":\"payment_sent\"}";
    let older = build_notification_event(note, &keys, false).unwrap();
    assert_eq!(older.kind, 23196);
    assert_eq!(older.tags, tags(&[&["p", &keys.client_pubkey]]));
    assert_eq!(
        nip04::decrypt(client.secret_key(), &wallet.public_key(), older.content).unwrap(),
        note
    );
    let newer = build_notification_event(note, &keys, true).unwrap();
    assert_eq!(newer.kind, 23197);
    assert_eq!(
        nip44::decrypt(client.secret_key(), &wallet.public_key(), newer.content).unwrap(),
        note
    );
}

#[test]
fn fanout_goes_on_after_a_failure() {
    let (first, _, _) = pair();
    let broken = SessionKeys { wallet_secret: "nope".to_owned(), client_pubkey: "nope".to_owned() };
    let (third, _, _) = pair();
    let drafts = fanout_drafts("note", &vec![first, broken.clone(), third]);
    assert_eq!(drafts.len(), 3);
    assert!(drafts[0].0.is_ok() && drafts[0].1.is_ok());
    assert_eq!(drafts[1].0, Err(CodecError::Nip04Failed));
    assert_eq!(drafts[1].1, Err(CodecError::Nip44Failed));
    assert!(drafts[2].0.is_ok() && drafts[2].1.is_ok());
    assert_eq!(drafts[2].0.as_ref().unwrap().kind, 23196);
    assert_eq!(drafts[2].1.as_ref().unwrap().kind, 23197);
    assert_eq!(fanout_drafts("note", &vec![]).len(), 0);
}

#[test]
fn responses_of_a_batch_are_drafted_one_by_one() {
    let (keys, wallet, client) = pair();
    let responses = vec![
        ("{\"n\":1}".to_owned(), Some("a".to_owned())),
        (String::new(), Some("b".to_owned())),
        ("{\"n\":3}".to_owned(), None),
    ];
    let drafts = response_drafts(&responses, "ev9", &keys, true);
    assert_eq!(drafts.len(), 3);
    let first = drafts[0].as_ref().unwrap();
    assert_eq!(first.kind, 23195);
    assert_eq!(first.tags, tags(&[&["e", "ev9"], &["p", &keys.client_pubkey], &["d", "a"]]));
    assert_eq!(
        nip44::decrypt(client.secret_key(), &wallet.public_key(), &first.content).unwrap(),
        "{\"n\":1}"
    );
    assert_eq!(drafts[1], Err(CodecError::Nip44Failed));
    let third = drafts[2].as_ref().unwrap();
    assert_eq!(third.tags, tags(&[&["e", "ev9"], &["p", &keys.client_pubkey]]));
    assert_eq!(
        nip44::decrypt(client.secret_key(), &wallet.public_key(), &third.content).unwrap(),
        "{\"n\":3}"
    );
    let older = response_drafts(&responses, "ev9", &keys, false);
    assert_eq!(older.len(), 3);
    assert!(older.iter().all(|d| d.is_ok()));
    assert_eq!(
        nip04::decrypt(client.secret_key(), &wallet.public_key(), &older[1].as_ref().unwrap().content)
            .unwrap(),
        ""
    );
    assert_eq!(response_drafts(&vec![], "ev9", &keys, true).len(), 0);
}

#[test]
fn codec_messages() {
    assert_eq!(
        codec_error_message(CodecError::Undecipherable),
        "Could not decrypt using NIP-04 or NIP-44"
    );
    assert_eq!(codec_error_message(CodecError::Nip04Failed), "Error encrypting response with nip04!");
    assert_eq!(codec_error_message(CodecError::Nip44Failed), "Error encrypting response with nip44!");
}
