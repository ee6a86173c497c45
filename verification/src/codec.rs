//! The request codec: which cipher an event announces, opening a request
//! under the announced cipher or else under the other, sealing a response
//! under the cipher that opened the request, and the events that go out.

use vstd::prelude::*;
use vstd::string::*;
use crate::text::{contains, has_substring, str_eq, texts};

verus! {

/// The keys of one session, as text: the wallet's secret key and the
/// public key of the remote party, both in hexadecimal.
#[derive(Clone, Debug, PartialEq, Eq)]
pub struct SessionKeys {
    pub wallet_secret: String,
    pub client_pubkey: String,
}

/// Why the codec gave up.
#[derive(Clone, Copy, Debug, PartialEq, Eq, Structural)]
pub enum CodecError {
    /// Neither cipher opens the content.
    Undecipherable,
    /// The older cipher could not seal the content.
    Nip04Failed,
    /// The newer cipher could not seal the content.
    Nip44Failed,
}

/// The message that goes with a [`CodecError`].
pub fn codec_error_message(error: CodecError) -> (r: String)
    ensures
        r@ == match error {
            CodecError::Undecipherable => "Could not decrypt using NIP-04 or NIP-44"@,
            CodecError::Nip04Failed => "Error encrypting response with nip04!"@,
            CodecError::Nip44Failed => "Error encrypting response with nip44!"@,
        },
{
    match error {
        CodecError::Undecipherable => "Could not decrypt using NIP-04 or NIP-44".to_owned(),
        CodecError::Nip04Failed => "Error encrypting response with nip04!".to_owned(),
        CodecError::Nip44Failed => "Error encrypting response with nip44!".to_owned(),
    }
}

/// What the older cipher makes of `content` under a secret key and a
/// public key, both in hexadecimal: the plain text, or `None` where a key
/// is none or the content does not open.
pub uninterp spec fn nip04_opened(secret_key: Seq<char>, public_key: Seq<char>, content: Seq<char>) -> Option<Seq<char>>;

/// What the newer cipher makes of `content` under a secret key and a
/// public key, both in hexadecimal: the plain text, or `None` where a key
/// is none or the content does not open.
pub uninterp spec fn nip44_opened(secret_key: Seq<char>, public_key: Seq<char>, content: Seq<char>) -> Option<Seq<char>>;

/// Calls `nip04::decrypt` of `nostr`, with the keys read by `from_hex`.
/// Trusted: what comes out depends on the three texts alone.
#[verifier::external_body]
fn nip04_decrypt(secret_key: &str, public_key: &str, content: &str) -> (r: Option<String>)
    ensures
        r.deep_view() == nip04_opened(secret_key@, public_key@, content@),
{
    let sk = nostr_sdk::SecretKey::from_hex(secret_key).ok()?;
    let pk = nostr_sdk::PublicKey::from_hex(public_key).ok()?;
    nostr_sdk::nips::nip04::decrypt(&sk, &pk, content).ok()
}

/// Calls `nip44::decrypt` of `nostr`, with the keys read by `from_hex`.
/// Trusted: what comes out depends on the three texts alone.
#[verifier::external_body]
fn nip44_decrypt(secret_key: &str, public_key: &str, content: &str) -> (r: Option<String>)
    ensures
        r.deep_view() == nip44_opened(secret_key@, public_key@, content@),
{
    let sk = nostr_sdk::SecretKey::from_hex(secret_key).ok()?;
    let pk = nostr_sdk::PublicKey::from_hex(public_key).ok()?;
    nostr_sdk::nips::nip44::decrypt(&sk, &pk, content).ok()
}

/// Calls `nip04::encrypt` of `nostr`, with the keys read by `from_hex`.
/// Trusted: whatever initialisation vector was drawn, the result opens
/// again to `content` under the same pair of keys.
#[verifier::external_body]
fn nip04_encrypt(secret_key: &str, public_key: &str, content: &str) -> (r: Option<String>)
    ensures
        r is Some ==> nip04_opened(secret_key@, public_key@, r->0@) == Some(content@),
{
    let sk = nostr_sdk::SecretKey::from_hex(secret_key).ok()?;
    let pk = nostr_sdk::PublicKey::from_hex(public_key).ok()?;
    nostr_sdk::nips::nip04::encrypt(&sk, &pk, content).ok()
}

/// Calls `nip44::encrypt` of `nostr` in its second version, with the keys
/// read by `from_hex`. Trusted: whatever nonce was drawn, the result opens
/// again to `content` under the same pair of keys.
#[verifier::external_body]
fn nip44_encrypt(secret_key: &str, public_key: &str, content: &str) -> (r: Option<String>)
    ensures
        r is Some ==> nip44_opened(secret_key@, public_key@, r->0@) == Some(content@),
{
    let sk = nostr_sdk::SecretKey::from_hex(secret_key).ok()?;
    let pk = nostr_sdk::PublicKey::from_hex(public_key).ok()?;
    nostr_sdk::nips::nip44::encrypt(&sk, &pk, content, nostr_sdk::nips::nip44::Version::V2).ok()
}

/// Where the first tag that announces ciphers stands: the first position
/// from `from` on whose tag begins with the word `encryption`, or the
/// number of tags where there is none.
pub open spec fn cipher_tag_at(tags: Seq<Vec<String>>, from: int) -> int
    decreases tags.len() - from,
{
    if 0 <= from < tags.len() && !(tags[from]@.len() > 0 && tags[from]@[0]@ == "encryption"@) {
        cipher_tag_at(tags, from + 1)
    } else {
        from
    }
}

/// Whether an event announces the newer cipher: its first tag about
/// ciphers has a value, and the value names the newer cipher.
pub open spec fn announces_nip44(tags: Seq<Vec<String>>) -> bool {
    let at = cipher_tag_at(tags, 0);
    0 <= at < tags.len() && tags[at]@.len() > 1 && has_substring(tags[at]@[1]@, "nip44_v2"@)
}

/// Tells from the tags of an event whether it announces the newer cipher.
pub fn check_nip44_support(tags: &Vec<Vec<String>>) -> (r: bool)
    ensures
        r == announces_nip44(tags@),
{
    let mut i: usize = 0;
    while i < tags.len()
        invariant
            0 <= i <= tags@.len(),
            cipher_tag_at(tags@, 0) == cipher_tag_at(tags@, i as int),
        decreases tags@.len() - i,
    {
        if tags[i].len() > 0 && str_eq(tags[i][0].as_str(), "encryption") {
            if tags[i].len() > 1 {
                return contains(tags[i][1].as_str(), "nip44_v2");
            }
            return false;
        }
        i = i + 1;
    }
    false
}

/// The plain text of a request and the cipher that opened it: the
/// announced cipher is tried first, and only where it fails the other.
pub open spec fn opened(hint: bool, by_nip44: Option<Seq<char>>, by_nip04: Option<Seq<char>>) -> Option<
    (Seq<char>, bool),
> {
    if hint {
        if by_nip44 is Some {
            Some((by_nip44->0, true))
        } else if by_nip04 is Some {
            Some((by_nip04->0, false))
        } else {
            None
        }
    } else {
        if by_nip04 is Some {
            Some((by_nip04->0, false))
        } else if by_nip44 is Some {
            Some((by_nip44->0, true))
        } else {
            None
        }
    }
}

/// Settles which plain text stands, given what the announced cipher and
/// what the other cipher made of the content.
pub fn settle_decryption(hint: bool, by_hinted: Option<String>, by_other: Option<String>) -> (r:
    Result<(String, bool), CodecError>)
    ensures
        match r {
            Ok((text, cipher)) => Some((text@, cipher)) == if hint {
                opened(hint, by_hinted.deep_view(), by_other.deep_view())
            } else {
                opened(hint, by_other.deep_view(), by_hinted.deep_view())
            },
            Err(e) => e == CodecError::Undecipherable && by_hinted is None && by_other is None,
        },
{
    match by_hinted {
        Some(text) => Ok((text, hint)),
        None => match by_other {
            Some(text) => Ok((text, !hint)),
            None => Err(CodecError::Undecipherable),
        },
    }
}

/// Opens the content of a request. On entry `use_nip44` says which cipher
/// the event announced; on success it says which cipher opened the
/// content. Where neither does, the event has no reader and is dropped.
pub fn decrypt_request(event_content: &str, keys: &SessionKeys, use_nip44: &mut bool) -> (r: Result<
    String,
    CodecError,
>)
    ensures
        match opened(
            *old(use_nip44),
            nip44_opened(keys.wallet_secret@, keys.client_pubkey@, event_content@),
            nip04_opened(keys.wallet_secret@, keys.client_pubkey@, event_content@),
        ) {
            Some((text, cipher)) => r is Ok && r->Ok_0@ == text && *final(use_nip44) == cipher,
            None => r == Err::<String, CodecError>(CodecError::Undecipherable) && *final(use_nip44)
                == *old(use_nip44),
        },
{
    let hint: bool = *use_nip44;
    let secret = keys.wallet_secret.as_str();
    let public = keys.client_pubkey.as_str();
    let by_hinted = if hint {
        nip44_decrypt(secret, public, event_content)
    } else {
        nip04_decrypt(secret, public, event_content)
    };
    let by_other = if by_hinted.is_some() {
        None
    } else if hint {
        nip04_decrypt(secret, public, event_content)
    } else {
        nip44_decrypt(secret, public, event_content)
    };
    match settle_decryption(hint, by_hinted, by_other) {
        Ok((text, cipher)) => {
            *use_nip44 = cipher;
            Ok(text)
        },
        Err(e) => Err(e),
    }
}

/// What a cipher makes of `content` under the keys of a session.
pub open spec fn opened_by(keys: SessionKeys, nip44: bool, content: Seq<char>) -> Option<Seq<char>> {
    if nip44 {
        nip44_opened(keys.wallet_secret@, keys.client_pubkey@, content)
    } else {
        nip04_opened(keys.wallet_secret@, keys.client_pubkey@, content)
    }
}

/// Seals a response that is already written out, under the cipher that
/// opened the request. What comes back opens again to the response under
/// the same cipher and keys.
pub fn encrypt_response_content(response: &str, keys: &SessionKeys, use_nip44: bool) -> (r: Result<
    String,
    CodecError,
>)
    ensures
        match r {
            Ok(sealed) => opened_by(*keys, use_nip44, sealed@) == Some(response@),
            Err(e) => e == if use_nip44 {
                CodecError::Nip44Failed
            } else {
                CodecError::Nip04Failed
            },
        },
{
    let secret = keys.wallet_secret.as_str();
    let public = keys.client_pubkey.as_str();
    if use_nip44 {
        match nip44_encrypt(secret, public, response) {
            Some(sealed) => Ok(sealed),
            None => Err(CodecError::Nip44Failed),
        }
    } else {
        match nip04_encrypt(secret, public, response) {
            Some(sealed) => Ok(sealed),
            None => Err(CodecError::Nip04Failed),
        }
    }
}

/// What was sealed under a cipher opens again under the same cipher: a
/// request whose event announces the cipher that sealed it comes out as
/// it went in, and the cipher stays.
pub proof fn lemma_round_trip(keys: SessionKeys, nip44: bool, plain: Seq<char>, sealed: Seq<char>)
    requires
        opened_by(keys, nip44, sealed) == Some(plain),
    ensures
        opened(nip44, opened_by(keys, true, sealed), opened_by(keys, false, sealed)) == Some(
            (plain, nip44),
        ),
{
}

/// Where the announced cipher fails and the other opens the content, the
/// other cipher's plain text stands and the cipher is switched; the
/// announced cipher is not tried again.
pub proof fn lemma_fallback(keys: SessionKeys, hint: bool, plain: Seq<char>, content: Seq<char>)
    requires
        opened_by(keys, hint, content) is None,
        opened_by(keys, !hint, content) == Some(plain),
    ensures
        opened(hint, opened_by(keys, true, content), opened_by(keys, false, content)) == Some(
            (plain, !hint),
        ),
{
}

/// An event that is ready to be signed and sent.
#[derive(Clone, Debug, PartialEq, Eq)]
pub struct EventDraft {
    pub kind: u16,
    pub content: String,
    pub tags: Vec<Vec<String>>,
}

/// The kind of the event that advertises a connection.
pub const KIND_INFO: u16 = 13194;

/// The kind of a request.
pub const KIND_REQUEST: u16 = 23194;

/// The kind of a response.
pub const KIND_RESPONSE: u16 = 23195;

/// The kind of a notification under the older cipher.
pub const KIND_NOTIFICATION_NIP04: u16 = 23196;

/// The kind of a notification under the newer cipher.
pub const KIND_NOTIFICATION_NIP44: u16 = 23197;

/// A tag of two words.
pub fn pair_tag(name: &str, value: &str) -> (r: Vec<String>)
    ensures
        texts(r@) == seq![name@, value@],
{
    let mut tag: Vec<String> = Vec::new();
    tag.push(name.to_owned());
    tag.push(value.to_owned());
    proof {
        assert(texts(tag@) =~= seq![name@, value@]);
    }
    tag
}

/// The tags of a response: the event it answers, the party it goes to,
/// and the identifier of the item it is about where it has one.
pub open spec fn response_tags(event_id: Seq<char>, client_pubkey: Seq<char>, id: Option<Seq<char>>) -> Seq<
    Seq<Seq<char>>,
> {
    let base = seq![seq!["e"@, event_id], seq!["p"@, client_pubkey]];
    match id {
        Some(i) => base.push(seq!["d"@, i]),
        None => base,
    }
}

/// The tags of a list of tags, each as a list of texts.
pub open spec fn tag_texts(tags: Seq<Vec<String>>) -> Seq<Seq<Seq<char>>> {
    Seq::new(tags.len(), |i: int| texts(tags[i]@))
}

/// Drafts the event that carries a sealed response.
pub fn build_response_event(event_id: &str, content: String, client_pubkey: &str, id: &Option<String>) -> (r:
    EventDraft)
    ensures
        r.kind == KIND_RESPONSE,
        r.content == content,
        tag_texts(r.tags@) == response_tags(event_id@, client_pubkey@, id.deep_view()),
{
    let mut tags: Vec<Vec<String>> = Vec::new();
    tags.push(pair_tag("e", event_id));
    tags.push(pair_tag("p", client_pubkey));
    match id {
        Some(i) => {
            tags.push(pair_tag("d", i.as_str()));
        },
        None => {},
    }
    proof {
        assert(tag_texts(tags@) =~= response_tags(event_id@, client_pubkey@, id.deep_view()));
    }
    EventDraft { kind: KIND_RESPONSE, content, tags }
}

/// Drafts the event that carries a notification under one cipher: sealed
/// for the remote party and addressed to it, of the kind that goes with
/// the cipher.
pub fn build_notification_event(notification: &str, keys: &SessionKeys, use_nip44: bool) -> (r:
    Result<EventDraft, CodecError>)
    ensures
        match r {
            Ok(draft) => draft.kind == (if use_nip44 {
                KIND_NOTIFICATION_NIP44
            } else {
                KIND_NOTIFICATION_NIP04
            }) && opened_by(*keys, use_nip44, draft.content@) == Some(notification@) && tag_texts(
                draft.tags@,
            ) == seq![seq!["p"@, keys.client_pubkey@]],
            Err(e) => e == if use_nip44 {
                CodecError::Nip44Failed
            } else {
                CodecError::Nip04Failed
            },
        },
{
    let content = match encrypt_response_content(notification, keys, use_nip44) {
        Ok(sealed) => sealed,
        Err(e) => {
            return Err(e);
        },
    };
    let mut tags: Vec<Vec<String>> = Vec::new();
    tags.push(pair_tag("p", keys.client_pubkey.as_str()));
    proof {
        assert(tag_texts(tags@) =~= seq![seq!["p"@, keys.client_pubkey@]]);
    }
    let kind: u16 = if use_nip44 {
        KIND_NOTIFICATION_NIP44
    } else {
        KIND_NOTIFICATION_NIP04
    };
    Ok(EventDraft { kind, content, tags })
}

/// Whether `r` is the outcome of drafting the event for one written
/// response: a draft that answers the event `event_id`, sealed for the
/// remote party under the cipher that opened the request, or the failure
/// of that cipher.
pub open spec fn response_drafted(
    r: Result<EventDraft, CodecError>,
    response: (String, Option<String>),
    event_id: Seq<char>,
    keys: SessionKeys,
    use_nip44: bool,
) -> bool {
    match r {
        Ok(draft) => draft.kind == KIND_RESPONSE && opened_by(keys, use_nip44, draft.content@)
            == Some(response.0@) && tag_texts(draft.tags@) == response_tags(
            event_id,
            keys.client_pubkey@,
            response.1.deep_view(),
        ),
        Err(e) => e == if use_nip44 {
            CodecError::Nip44Failed
        } else {
            CodecError::Nip04Failed
        },
    }
}

/// Drafts the events for the written responses to one request, each with
/// its identifier: one outcome for each response, in order. A response
/// that cannot be sealed leaves the others as they are.
pub fn response_drafts(
    responses: &Vec<(String, Option<String>)>,
    event_id: &str,
    keys: &SessionKeys,
    use_nip44: bool,
) -> (r: Vec<Result<EventDraft, CodecError>>)
    ensures
        r@.len() == responses@.len(),
        forall|i: int|
            0 <= i < responses@.len() ==> response_drafted(
                #[trigger] r@[i],
                responses@[i],
                event_id@,
                *keys,
                use_nip44,
            ),
{
    let mut out: Vec<Result<EventDraft, CodecError>> = Vec::new();
    let mut i: usize = 0;
    while i < responses.len()
        invariant
            0 <= i <= responses@.len(),
            out@.len() == i,
            forall|k: int|
                0 <= k < i ==> response_drafted(
                    #[trigger] out@[k],
                    responses@[k],
                    event_id@,
                    *keys,
                    use_nip44,
                ),
        decreases responses@.len() - i,
    {
        let drafted = match encrypt_response_content(responses[i].0.as_str(), keys, use_nip44) {
            Ok(content) => Ok(
                build_response_event(
                    event_id,
                    content,
                    keys.client_pubkey.as_str(),
                    &responses[i].1,
                ),
            ),
            Err(e) => Err(e),
        };
        out.push(drafted);
        i = i + 1;
    }
    out
}

/// Whether `r` is the outcome of drafting a notification under one
/// cipher: a draft of the kind that goes with the cipher, sealed for the
/// remote party and addressed to it, or the failure of that cipher.
pub open spec fn notification_drafted(
    r: Result<EventDraft, CodecError>,
    notification: Seq<char>,
    keys: SessionKeys,
    use_nip44: bool,
) -> bool {
    match r {
        Ok(draft) => draft.kind == (if use_nip44 {
            KIND_NOTIFICATION_NIP44
        } else {
            KIND_NOTIFICATION_NIP04
        }) && opened_by(keys, use_nip44, draft.content@) == Some(notification) && tag_texts(
            draft.tags@,
        ) == seq![seq!["p"@, keys.client_pubkey@]],
        Err(e) => e == if use_nip44 {
            CodecError::Nip44Failed
        } else {
            CodecError::Nip04Failed
        },
    }
}

/// Drafts a notification for every session, under the older and under the
/// newer cipher: one pair of outcomes for each session, in order. A
/// failure for one session or one cipher leaves the others as they are.
pub fn fanout_drafts(notification: &str, sessions: &Vec<SessionKeys>) -> (r: Vec<
    (Result<EventDraft, CodecError>, Result<EventDraft, CodecError>),
>)
    ensures
        r@.len() == sessions@.len(),
        forall|i: int|
            0 <= i < sessions@.len() ==> notification_drafted(
                (#[trigger] r@[i]).0,
                notification@,
                sessions@[i],
                false,
            ) && notification_drafted(r@[i].1, notification@, sessions@[i], true),
{
    let mut out: Vec<(Result<EventDraft, CodecError>, Result<EventDraft, CodecError>)> = Vec::new();
    let mut i: usize = 0;
    while i < sessions.len()
        invariant
            0 <= i <= sessions@.len(),
            out@.len() == i,
            forall|k: int|
                0 <= k < i ==> notification_drafted(
                    (#[trigger] out@[k]).0,
                    notification@,
                    sessions@[k],
                    false,
                ) && notification_drafted(out@[k].1, notification@, sessions@[k], true),
        decreases sessions@.len() - i,
    {
        let older = build_notification_event(notification, &sessions[i], false);
        let newer = build_notification_event(notification, &sessions[i], true);
        out.push((older, newer));
        i = i + 1;
    }
    out
}

} // verus!
