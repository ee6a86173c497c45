//! What the process settles at its start: its relays, the version of the
//! node, and whether the node can handle offers.

use vstd::prelude::*;
use vstd::string::*;
use crate::json::{bool_of, member, JsonValue};
use crate::pay::modern_pay_version;
use crate::version::{at_or_above_version, version_verdict, VersionError};

verus! {

/// The settings that all sessions share.
#[derive(Clone, Debug, PartialEq, Eq)]
pub struct Config {
    pub relays: Vec<String>,
    pub my_cln_version: String,
    pub offer_support: bool,
}

impl Config {
    /// Settings with nothing in them.
    pub fn default() -> (r: Config)
        ensures
            r.relays@.len() == 0,
            r.my_cln_version@.len() == 0,
            !r.offer_support,
    {
        Config { relays: Vec::new(), my_cln_version: String::new(), offer_support: false }
    }
}

/// Why the process cannot start.
#[derive(Clone, Copy, Debug, PartialEq, Eq, Structural)]
pub enum StartupError {
    /// The option for relays is not set.
    RelaysUnset,
    /// The option for relays is set to nothing.
    RelaysEmpty,
    /// The version of the node cannot be read.
    Version(VersionError),
    /// The node's answer about its configuration is no object.
    ListconfigsNotObject,
    /// The answer has no member `configs`.
    ConfigsMissing,
    /// The answer has no member `experimental-offers`.
    ExperimentalOffersMissing,
    /// The answer has no member `set`.
    SetMissing,
    /// The member `set` is no truth value.
    SetNotBool,
    /// A relay is no address of a relay.
    BadRelay,
}

/// The message that goes with a [`StartupError`].
pub fn startup_error_message(error: StartupError) -> (r: String)
    ensures
        r@ == match error {
            StartupError::RelaysUnset => "`nip47-relays` not set, must specify atleast one relay url!"@,
            StartupError::RelaysEmpty => "Empty `nip47-relays` option, must specify atleast one relay url!"@,
            StartupError::Version(_) => "Version string parse error"@,
            StartupError::ListconfigsNotObject => "listconfigs not an object"@,
            StartupError::ConfigsMissing => "listconfigs doesn't have `configs` object"@,
            StartupError::ExperimentalOffersMissing => "listconfigs doesn't have `experimental-offers` object"@,
            StartupError::SetMissing => "listconfigs doesn't have `set` object"@,
            StartupError::SetNotBool => "listconfigs doesn't have `set` as a bool"@,
            StartupError::BadRelay => "Invalid relay url"@,
        },
{
    match error {
        StartupError::RelaysUnset => "`nip47-relays` not set, must specify atleast one relay url!".to_owned(),
        StartupError::RelaysEmpty => "Empty `nip47-relays` option, must specify atleast one relay url!".to_owned(),
        StartupError::Version(_) => "Version string parse error".to_owned(),
        StartupError::ListconfigsNotObject => "listconfigs not an object".to_owned(),
        StartupError::ConfigsMissing => "listconfigs doesn't have `configs` object".to_owned(),
        StartupError::ExperimentalOffersMissing => "listconfigs doesn't have `experimental-offers` object".to_owned(),
        StartupError::SetMissing => "listconfigs doesn't have `set` object".to_owned(),
        StartupError::SetNotBool => "listconfigs doesn't have `set` as a bool".to_owned(),
        StartupError::BadRelay => "Invalid relay url".to_owned(),
    }
}

/// Whether the option for relays names at least one.
pub fn check_relays_option(relays: &Option<Vec<String>>) -> (r: Result<(), StartupError>)
    ensures
        r == match *relays {
            None => Err::<(), StartupError>(StartupError::RelaysUnset),
            Some(list) => if list@.len() == 0 {
                Err(StartupError::RelaysEmpty)
            } else {
                Ok(())
            },
        },
{
    match relays {
        None => Err(StartupError::RelaysUnset),
        Some(list) => {
            if list.len() == 0 {
                Err(StartupError::RelaysEmpty)
            } else {
                Ok(())
            }
        },
    }
}

/// Whether the node's configuration switches offers on: the truth value
/// at `configs`, `experimental-offers`, `set` of the node's answer.
pub open spec fn offers_configured(listconfigs: JsonValue) -> Result<bool, StartupError> {
    if !(listconfigs is Object) {
        Err(StartupError::ListconfigsNotObject)
    } else {
        match member(listconfigs, "configs"@) {
            None => Err(StartupError::ConfigsMissing),
            Some(configs) => match member(configs, "experimental-offers"@) {
                None => Err(StartupError::ExperimentalOffersMissing),
                Some(offers) => match member(offers, "set"@) {
                    None => Err(StartupError::SetMissing),
                    Some(set) => match bool_of(set) {
                        None => Err(StartupError::SetNotBool),
                        Some(b) => Ok(b),
                    },
                },
            },
        }
    }
}

/// Whether the node can handle offers: always from a certain version on,
/// before that where its configuration switches them on.
pub open spec fn offers_supported(version: Seq<char>, listconfigs: JsonValue) -> Result<
    bool,
    StartupError,
> {
    match version_verdict(version, modern_pay_version()) {
        Err(e) => Err(StartupError::Version(e)),
        Ok(true) => Ok(true),
        Ok(false) => offers_configured(listconfigs),
    }
}

/// Tells whether the node can handle offers.
pub fn offer_support(version: &str, listconfigs: &JsonValue) -> (r: Result<bool, StartupError>)
    ensures
        r == offers_supported(version@, *listconfigs),
{
    match at_or_above_version(version, "24.11") {
        Err(e) => {
            return Err(StartupError::Version(e));
        },
        Ok(true) => {
            return Ok(true);
        },
        Ok(false) => {},
    }
    if !listconfigs.is_object() {
        return Err(StartupError::ListconfigsNotObject);
    }
    let configs = match listconfigs.get("configs") {
        Some(v) => v,
        None => {
            return Err(StartupError::ConfigsMissing);
        },
    };
    let offers = match configs.get("experimental-offers") {
        Some(v) => v,
        None => {
            return Err(StartupError::ExperimentalOffersMissing);
        },
    };
    let set = match offers.get("set") {
        Some(v) => v,
        None => {
            return Err(StartupError::SetMissing);
        },
    };
    match set.as_bool() {
        Some(b) => Ok(b),
        None => Err(StartupError::SetNotBool),
    }
}

/// Whether a text is refused as the address of a relay.
pub uninterp spec fn relay_refused(text: Seq<char>) -> bool;

/// Calls `RelayUrl::parse` of `nostr`. Trusted: whether the text is taken
/// depends on the text alone.
#[verifier::external_body]
fn relay_url_refused(text: &str) -> (r: bool)
    ensures
        r == relay_refused(text@),
{
    nostr_sdk::RelayUrl::parse(text).is_err()
}

/// Which relays are refused, one truth value for each.
pub fn refused_relays(relays: &Vec<String>) -> (r: Vec<bool>)
    ensures
        r@.len() == relays@.len(),
        forall|i: int| 0 <= i < relays@.len() ==> r@[i] == relay_refused(#[trigger] relays@[i]@),
{
    let mut out: Vec<bool> = Vec::new();
    let mut i: usize = 0;
    while i < relays.len()
        invariant
            0 <= i <= relays@.len(),
            out@.len() == i,
            forall|k: int| 0 <= k < i ==> out@[k] == relay_refused(#[trigger] relays@[k]@),
        decreases relays@.len() - i,
    {
        out.push(relay_url_refused(relays[i].as_str()));
        i = i + 1;
    }
    out
}

/// The settings of the process, given its option for relays, the version
/// and configuration of the node, and which relays are refused.
///
/// The option must name a relay; the version must be one; before the
/// version that always has offers, the configuration must say whether
/// they are on; and no relay may be refused. The first of these that
/// fails is the error.
pub fn settle_startup(
    relays: Option<Vec<String>>,
    version: String,
    listconfigs: &JsonValue,
    refused: &Vec<bool>,
) -> (r: Result<Config, StartupError>)
    requires
        relays is Some ==> refused@.len() == relays->0@.len(),
    ensures
        match r {
            Ok(config) => relays is Some && relays->0@.len() > 0 && config.relays == relays->0
                && config.my_cln_version == version && offers_supported(version@, *listconfigs)
                == Ok::<bool, StartupError>(config.offer_support) && forall|i: int|
                0 <= i < refused@.len() ==> !refused@[i],
            Err(e) => if relays is None {
                e == StartupError::RelaysUnset
            } else if relays->0@.len() == 0 {
                e == StartupError::RelaysEmpty
            } else if offers_supported(version@, *listconfigs) is Err {
                Err::<bool, StartupError>(e) == offers_supported(version@, *listconfigs)
            } else {
                e == StartupError::BadRelay && exists|i: int| 0 <= i < refused@.len() && refused@[i]
            },
        },
{
    match check_relays_option(&relays) {
        Ok(()) => {},
        Err(e) => {
            return Err(e);
        },
    }
    let offers = match offer_support(version.as_str(), listconfigs) {
        Ok(b) => b,
        Err(e) => {
            return Err(e);
        },
    };
    let mut i: usize = 0;
    while i < refused.len()
        invariant
            0 <= i <= refused@.len(),
            relays is Some,
            relays->0@.len() > 0,
            offers_supported(version@, *listconfigs) == Ok::<bool, StartupError>(offers),
            forall|k: int| 0 <= k < i ==> !refused@[k],
        decreases refused@.len() - i,
    {
        if refused[i] {
            return Err(StartupError::BadRelay);
        }
        i = i + 1;
    }
    match relays {
        Some(list) => Ok(Config { relays: list, my_cln_version: version, offer_support: offers }),
        None => Err(StartupError::RelaysUnset),
    }
}

/// Settles the settings of the process from its option for relays and
/// from the version and configuration of the node.
pub fn read_startup_options(relays: Option<Vec<String>>, version: String, listconfigs: &JsonValue) -> (r:
    Result<Config, StartupError>)
    ensures
        match r {
            Ok(config) => relays is Some && relays->0@.len() > 0 && config.relays == relays->0
                && config.my_cln_version == version && offers_supported(version@, *listconfigs)
                == Ok::<bool, StartupError>(config.offer_support) && forall|i: int|
                0 <= i < relays->0@.len() ==> !relay_refused(#[trigger] relays->0@[i]@),
            Err(e) => if relays is None {
                e == StartupError::RelaysUnset
            } else if relays->0@.len() == 0 {
                e == StartupError::RelaysEmpty
            } else if offers_supported(version@, *listconfigs) is Err {
                Err::<bool, StartupError>(e) == offers_supported(version@, *listconfigs)
            } else {
                e == StartupError::BadRelay && exists|i: int|
                    0 <= i < relays->0@.len() && relay_refused(#[trigger] relays->0@[i]@)
            },
        },
{
    let refused: Vec<bool> = match &relays {
        Some(list) => refused_relays(list),
        None => Vec::new(),
    };
    let r = settle_startup(relays, version, listconfigs, &refused);
    proof {
        if relays is Some {
            let list = relays->0@;
            if r is Ok {
                assert forall|i: int| 0 <= i < list.len() implies !relay_refused(
                    #[trigger] list[i]@,
                ) by {
                    assert(!refused@[i]);
                }
            } else if list.len() > 0 && offers_supported(version@, *listconfigs) is Ok {
                let i = choose|i: int| 0 <= i < refused@.len() && refused@[i];
                assert(relay_refused(list[i]@));
            }
        }
    }
    r
}

} // verus!
