//! The administrative commands: what creating a connection, setting its
//! budget and listing it make of the record and tell the operator.

use vstd::prelude::*;
use vstd::string::*;
use crate::budget::{
    budget_request_fits,
    interval_from,
    set_budget,
    BudgetIntervalConfig,
    NwcStore,
    NwcStoreView,
};
use crate::capabilities::{build_capabilities, capability_text, Features};
use crate::json::{member, member_at, JsonValue};

verus! {

/// What the operator is told about a new connection.
#[derive(Clone, Debug, PartialEq, Eq)]
pub struct CreatedConnection {
    pub uri: String,
    pub label: String,
    pub walletkey_public: String,
    pub clientkey_public: String,
    pub budget_msat: Option<u64>,
    pub interval_config: Option<BudgetIntervalConfig>,
}

/// The view of a [`CreatedConnection`].
pub struct CreatedConnectionView {
    pub uri: Seq<char>,
    pub label: Seq<char>,
    pub walletkey_public: Seq<char>,
    pub clientkey_public: Seq<char>,
    pub budget_msat: Option<u64>,
    pub interval_config: Option<BudgetIntervalConfig>,
}

impl DeepView for CreatedConnection {
    type V = CreatedConnectionView;

    open spec fn deep_view(&self) -> CreatedConnectionView {
        CreatedConnectionView {
            uri: self.uri@,
            label: self.label@,
            walletkey_public: self.walletkey_public@,
            clientkey_public: self.clientkey_public@,
            budget_msat: self.budget_msat,
            interval_config: self.interval_config,
        }
    }
}

/// The keys of a new connection, as text.
#[derive(Clone, Debug, PartialEq, Eq)]
pub struct NewKeys {
    /// The address that the remote party connects with.
    pub uri: String,
    /// The wallet's secret key.
    pub walletkey: String,
    /// The wallet's public key.
    pub walletkey_public: String,
    /// The remote party's public key.
    pub clientkey_public: String,
}

/// Makes the record of a new connection and what the operator is told
/// about it. The record and the answer carry the same budget and interval;
/// a job has to run for the connection exactly where it has an interval.
pub fn nwc_create(
    label: String,
    budget_msat: Option<u64>,
    interval_secs: Option<u64>,
    keys: NewKeys,
    now: u64,
) -> (r: (NwcStore, CreatedConnection, bool))
    ensures
        r.0.deep_view() == (NwcStoreView {
            uri: keys.uri@,
            walletkey: keys.walletkey@,
            budget_msat,
            interval_config: interval_from(budget_msat, interval_secs, now),
        }),
        r.1.deep_view() == (CreatedConnectionView {
            uri: keys.uri@,
            label: label@,
            walletkey_public: keys.walletkey_public@,
            clientkey_public: keys.clientkey_public@,
            budget_msat,
            interval_config: interval_from(budget_msat, interval_secs, now),
        }),
        r.2 == r.0.interval_config is Some,
        budget_request_fits(budget_msat, interval_secs) ==> r.0.deep_view().well_formed(),
{
    let uri_copy = keys.uri.clone();
    let store = NwcStore::new(keys.uri, keys.walletkey, budget_msat, interval_secs, now);
    let created = CreatedConnection {
        uri: uri_copy,
        label,
        walletkey_public: keys.walletkey_public,
        clientkey_public: keys.clientkey_public,
        budget_msat,
        interval_config: store.interval_config,
    };
    let start_job = store.interval_config.is_some();
    (store, created, start_job)
}

/// What follows a change of budget.
#[derive(Clone, Debug, PartialEq, Eq)]
pub struct BudgetUpdate {
    /// A job has to run for the connection from now on.
    pub start_job: bool,
    /// The capability text to advertise, where the connection went from
    /// read-only to spending or back; `None` where nothing is advertised.
    pub advertise: Option<String>,
}

/// Sets budget and interval of a connection. The job that ran for it is
/// stopped before; a new one starts exactly where the record now has an
/// interval. The capabilities are advertised again exactly where the
/// read-only flag changed, and then for the new flag.
pub fn nwc_budget(
    nwc_store: &mut NwcStore,
    budget_msat: Option<u64>,
    interval_secs: Option<u64>,
    now: u64,
    features: &Features,
) -> (r: BudgetUpdate)
    ensures
        final(nwc_store).deep_view() == (NwcStoreView {
            budget_msat,
            interval_config: interval_from(budget_msat, interval_secs, now),
            ..old(nwc_store).deep_view()
        }),
        budget_request_fits(budget_msat, interval_secs) ==> final(nwc_store).deep_view().well_formed(),
        r.start_job == final(nwc_store).interval_config is Some,
        r.advertise.deep_view() == if old(nwc_store).deep_view().read_only() != final(nwc_store).deep_view().read_only() {
            Some(capability_text(final(nwc_store).deep_view().read_only(), *features))
        } else {
            None
        },
{
    let change = set_budget(nwc_store, budget_msat, interval_secs, now);
    let advertise = if change.advertise {
        let (method_capabilities, _) = build_capabilities(change.read_only, features);
        Some(method_capabilities)
    } else {
        None
    };
    BudgetUpdate { start_job: change.start_job, advertise }
}

/// Where the first field named `key` stands is settled by what stands before it.
proof fn lemma_member_at(fields: Seq<(String, JsonValue)>, key: Seq<char>, from: int, at: int)
    requires
        0 <= from <= at <= fields.len(),
        forall|j: int| from <= j < at ==> (#[trigger] fields[j]).0@ != key,
        at < fields.len() ==> fields[at].0@ == key,
    ensures
        member_at(fields, key, from) == at,
    decreases at - from,
{
    if from < at {
        lemma_member_at(fields, key, from + 1, at);
    }
}

/// The first field named `key` is a field named `key`, and none before it is.
proof fn lemma_member_at_first(fields: Seq<(String, JsonValue)>, key: Seq<char>, from: int)
    requires
        0 <= from <= fields.len(),
    ensures
        from <= member_at(fields, key, from) <= fields.len(),
        forall|j: int| from <= j < member_at(fields, key, from) ==> (#[trigger] fields[j]).0@ != key,
        member_at(fields, key, from) < fields.len() ==> fields[member_at(fields, key, from)].0@
            == key,
    decreases fields.len() - from,
{
    if from < fields.len() && fields[from].0@ != key {
        lemma_member_at_first(fields, key, from + 1);
    }
}

/// Gives the object `record` the member `key` with the given value, in
/// place of one of that name where it has one. Every other member stays.
pub fn set_member(record: &mut Vec<(String, JsonValue)>, key: &str, value: JsonValue)
    ensures
        member(JsonValue::Object(*final(record)), key@) == Some(value),
        forall|other: Seq<char>|
            other != key@ ==> #[trigger] member(JsonValue::Object(*final(record)), other) == member(
                JsonValue::Object(*old(record)),
                other,
            ),
{
    let wanted: String = key.to_owned();
    let ghost before = record@;
    let mut i: usize = 0;
    let mut found: bool = false;
    while i < record.len() && !found
        invariant
            0 <= i <= record@.len(),
            record@ == before,
            wanted@ == key@,
            forall|j: int| 0 <= j < i ==> (#[trigger] record@[j]).0@ != key@,
            found ==> i < record@.len() && record@[i as int].0@ == key@,
        decreases record@.len() - i + if found { 0int } else { 1int },
    {
        if record[i].0 == wanted {
            found = true;
        } else {
            i = i + 1;
        }
    }
    if found {
        record.set(i, (wanted, value));
    } else {
        record.push((wanted, value));
    }
    proof {
        let after = record@;
        lemma_member_at(after, key@, 0, i as int);
        assert forall|other: Seq<char>| other != key@ implies #[trigger] member(
            JsonValue::Object(*record),
            other,
        ) == member(JsonValue::Object(*old(record)), other) by {
            lemma_member_at_first(before, other, 0);
            let at = member_at(before, other, 0);
            assert forall|j: int| 0 <= j < at implies (#[trigger] after[j]).0@ != other by {
                if j != i {
                    assert(after[j] == before[j]);
                }
            }
            if at < before.len() {
                assert(at != i);
                assert(after[at] == before[at]);
                lemma_member_at(after, other, 0, at);
            } else {
                if i < before.len() {
                    lemma_member_at(after, other, 0, at);
                } else {
                    assert(after[at].0@ == key@);
                    lemma_member_at(after, other, 0, at + 1);
                }
            }
        }
    }
}

/// One line of the listing of connections: the record as the store holds
/// it, with the two public keys added where it is an object, under the
/// connection's label.
pub fn list_entry(label: String, record: JsonValue, walletkey_public: String, clientkey_public: String) -> (r:
    JsonValue)
    ensures
        r is Object,
        r->Object_0@.len() == 1,
        r->Object_0@[0].0 == label,
        !(record is Object) ==> r->Object_0@[0].1 == record,
        record is Object ==> {
            let shown = r->Object_0@[0].1;
            &&& shown is Object
            &&& member(shown, "walletkey_public"@) == Some(JsonValue::Text(walletkey_public))
            &&& member(shown, "clientkey_public"@) == Some(JsonValue::Text(clientkey_public))
            &&& forall|other: Seq<char>|
                other != "walletkey_public"@ && other != "clientkey_public"@ ==> #[trigger] member(
                    shown,
                    other,
                ) == member(record, other)
        },
{
    let shown = match record {
        JsonValue::Object(fields) => {
            let mut fields = fields;
            let ghost first = fields;
            set_member(&mut fields, "walletkey_public", JsonValue::Text(walletkey_public));
            let ghost second = fields;
            set_member(&mut fields, "clientkey_public", JsonValue::Text(clientkey_public));
            proof {
                reveal_strlit("walletkey_public");
                reveal_strlit("clientkey_public");
                assert("walletkey_public"@ != "clientkey_public"@) by {
                    assert("walletkey_public"@[0] != "clientkey_public"@[0]);
                }
                assert forall|other: Seq<char>|
                    other != "walletkey_public"@ && other != "clientkey_public"@ implies #[trigger] member(
                    JsonValue::Object(fields),
                    other,
                ) == member(JsonValue::Object(first), other) by {
                    assert(member(JsonValue::Object(second), other) == member(
                        JsonValue::Object(first),
                        other,
                    ));
                }
            }
            JsonValue::Object(fields)
        },
        other => other,
    };
    let mut line: Vec<(String, JsonValue)> = Vec::new();
    line.push((label, shown));
    JsonValue::Object(line)
}

} // verus!
