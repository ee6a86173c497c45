//! What a connection advertises: the methods it answers and the
//! notifications it sends, from its read-only flag and the features of the
//! node.

use vstd::prelude::*;
use vstd::string::*;
use crate::protocol::{Method, NotificationType};
use crate::text::{concat, join, joined, texts};

verus! {

/// The features that decide what is advertised.
#[derive(Clone, Copy, Debug, PartialEq, Eq, Structural)]
pub struct Features {
    /// The node can issue and pay offers.
    pub offer_support: bool,
    /// A companion service for hold invoices is configured.
    pub hold_support: bool,
    /// Notifications are switched on.
    pub notifications: bool,
}

/// The methods that every connection has.
pub open spec fn read_methods() -> Seq<Method> {
    seq![
        Method::MakeInvoice,
        Method::LookupInvoice,
        Method::ListTransactions,
        Method::GetBalance,
        Method::GetInfo,
    ]
}

/// The methods that spend.
pub open spec fn pay_methods() -> Seq<Method> {
    seq![Method::PayInvoice, Method::MultiPayInvoice, Method::PayKeysend, Method::MultiPayKeysend]
}

/// The methods on offers that do not spend.
pub open spec fn offer_read_methods() -> Seq<Method> {
    seq![Method::MakeOffer, Method::LookupOffer]
}

/// The methods on offers that spend.
pub open spec fn offer_pay_methods() -> Seq<Method> {
    seq![Method::PayOffer, Method::MultiPayOffer]
}

/// The methods on hold invoices.
pub open spec fn hold_methods() -> Seq<Method> {
    seq![Method::MakeHoldInvoice, Method::CancelHoldInvoice, Method::SettleHoldInvoice]
}

/// Whether a method spends from the budget.
pub open spec fn spends(method: Method) -> bool {
    pay_methods().contains(method) || offer_pay_methods().contains(method)
}

/// The methods of a connection, in the order in which they are advertised:
/// the reading ones; the paying ones unless it is read-only; with offers,
/// those that read and, unless it is read-only, those that pay.
///
/// The feature for hold invoices adds the three methods on hold invoices
/// at the end, for a read-only connection too: a hold invoice receives and
/// spends nothing from the budget. Without that feature the list is
/// exactly the four groups above.
pub open spec fn methods_for(read_only: bool, features: Features) -> Seq<Method> {
    read_methods() + (if read_only {
        Seq::empty()
    } else {
        pay_methods()
    }) + (if features.offer_support {
        offer_read_methods()
    } else {
        Seq::empty()
    }) + (if features.offer_support && !read_only {
        offer_pay_methods()
    } else {
        Seq::empty()
    }) + (if features.hold_support {
        hold_methods()
    } else {
        Seq::empty()
    })
}

/// The notifications of a connection: none where they are switched off,
/// else those about payments. The feature for hold invoices adds the one
/// about an accepted hold invoice.
pub open spec fn notifications_for(features: Features) -> Seq<NotificationType> {
    if !features.notifications {
        Seq::empty()
    } else if features.hold_support {
        seq![
            NotificationType::PaymentReceived,
            NotificationType::PaymentSent,
            NotificationType::HoldInvoiceAccepted,
        ]
    } else {
        seq![NotificationType::PaymentReceived, NotificationType::PaymentSent]
    }
}

/// The name of a method on the wire.
pub open spec fn method_text(method: Method) -> Seq<char> {
    match method {
        Method::PayInvoice => "pay_invoice"@,
        Method::MultiPayInvoice => "multi_pay_invoice"@,
        Method::PayKeysend => "pay_keysend"@,
        Method::MultiPayKeysend => "multi_pay_keysend"@,
        Method::MakeInvoice => "make_invoice"@,
        Method::LookupInvoice => "lookup_invoice"@,
        Method::ListTransactions => "list_transactions"@,
        Method::GetBalance => "get_balance"@,
        Method::GetInfo => "get_info"@,
        Method::MakeHoldInvoice => "make_hold_invoice"@,
        Method::CancelHoldInvoice => "cancel_hold_invoice"@,
        Method::SettleHoldInvoice => "settle_hold_invoice"@,
        Method::MakeOffer => "make_offer"@,
        Method::LookupOffer => "lookup_offer"@,
        Method::PayOffer => "pay_offer"@,
        Method::MultiPayOffer => "multi_pay_offer"@,
    }
}

/// The name of a notification on the wire.
pub open spec fn notification_text(topic: NotificationType) -> Seq<char> {
    match topic {
        NotificationType::PaymentReceived => "payment_received"@,
        NotificationType::PaymentSent => "payment_sent"@,
        NotificationType::HoldInvoiceAccepted => "hold_invoice_accepted"@,
    }
}

/// The names of a list of methods.
pub open spec fn method_texts(methods: Seq<Method>) -> Seq<Seq<char>> {
    Seq::new(methods.len(), |i: int| method_text(methods[i]))
}

/// The names of a list of notifications.
pub open spec fn notification_texts(topics: Seq<NotificationType>) -> Seq<Seq<char>> {
    Seq::new(topics.len(), |i: int| notification_text(topics[i]))
}

/// The name of a method on the wire.
pub fn method_name(method: Method) -> (r: String)
    ensures
        r@ == method_text(method),
{
    match method {
        Method::PayInvoice => "pay_invoice".to_owned(),
        Method::MultiPayInvoice => "multi_pay_invoice".to_owned(),
        Method::PayKeysend => "pay_keysend".to_owned(),
        Method::MultiPayKeysend => "multi_pay_keysend".to_owned(),
        Method::MakeInvoice => "make_invoice".to_owned(),
        Method::LookupInvoice => "lookup_invoice".to_owned(),
        Method::ListTransactions => "list_transactions".to_owned(),
        Method::GetBalance => "get_balance".to_owned(),
        Method::GetInfo => "get_info".to_owned(),
        Method::MakeHoldInvoice => "make_hold_invoice".to_owned(),
        Method::CancelHoldInvoice => "cancel_hold_invoice".to_owned(),
        Method::SettleHoldInvoice => "settle_hold_invoice".to_owned(),
        Method::MakeOffer => "make_offer".to_owned(),
        Method::LookupOffer => "lookup_offer".to_owned(),
        Method::PayOffer => "pay_offer".to_owned(),
        Method::MultiPayOffer => "multi_pay_offer".to_owned(),
    }
}

/// The name of a notification on the wire.
pub fn notification_name(topic: NotificationType) -> (r: String)
    ensures
        r@ == notification_text(topic),
{
    match topic {
        NotificationType::PaymentReceived => "payment_received".to_owned(),
        NotificationType::PaymentSent => "payment_sent".to_owned(),
        NotificationType::HoldInvoiceAccepted => "hold_invoice_accepted".to_owned(),
    }
}

/// The methods of a connection.
pub fn build_methods_vec(read_only: bool, features: &Features) -> (r: Vec<Method>)
    ensures
        r@ == methods_for(read_only, *features),
{
    let mut methods: Vec<Method> = Vec::new();
    methods.push(Method::MakeInvoice);
    methods.push(Method::LookupInvoice);
    methods.push(Method::ListTransactions);
    methods.push(Method::GetBalance);
    methods.push(Method::GetInfo);
    if !read_only {
        methods.push(Method::PayInvoice);
        methods.push(Method::MultiPayInvoice);
        methods.push(Method::PayKeysend);
        methods.push(Method::MultiPayKeysend);
    }
    if features.offer_support {
        methods.push(Method::MakeOffer);
        methods.push(Method::LookupOffer);
        if !read_only {
            methods.push(Method::PayOffer);
            methods.push(Method::MultiPayOffer);
        }
    }
    if features.hold_support {
        methods.push(Method::MakeHoldInvoice);
        methods.push(Method::CancelHoldInvoice);
        methods.push(Method::SettleHoldInvoice);
    }
    proof {
        assert(methods@ =~= methods_for(read_only, *features));
    }
    methods
}

/// The names of the notifications of a connection.
pub fn build_notifications_vec(features: &Features) -> (r: Vec<String>)
    ensures
        texts(r@) == notification_texts(notifications_for(*features)),
{
    let mut topics: Vec<String> = Vec::new();
    if features.notifications {
        topics.push(notification_name(NotificationType::PaymentReceived));
        topics.push(notification_name(NotificationType::PaymentSent));
        if features.hold_support {
            topics.push(notification_name(NotificationType::HoldInvoiceAccepted));
        }
    }
    proof {
        assert(texts(topics@) =~= notification_texts(notifications_for(*features)));
    }
    topics
}

/// The names of a list of methods.
pub fn method_names(methods: &Vec<Method>) -> (r: Vec<String>)
    ensures
        texts(r@) == method_texts(methods@),
{
    let mut names: Vec<String> = Vec::new();
    let mut i: usize = 0;
    while i < methods.len()
        invariant
            0 <= i <= methods@.len(),
            names@.len() == i,
            forall|k: int| 0 <= k < i ==> (#[trigger] names@[k])@ == method_text(methods@[k]),
        decreases methods@.len() - i,
    {
        names.push(method_name(methods[i]));
        i = i + 1;
    }
    proof {
        assert(texts(names@) =~= method_texts(methods@));
    }
    names
}

/// The capability text of a connection: the names of its methods with a
/// blank between neighbours.
pub open spec fn capability_text(read_only: bool, features: Features) -> Seq<char> {
    joined(method_texts(methods_for(read_only, features)), " "@)
}

/// The notification text of a connection: the names of its notifications
/// with a blank between neighbours.
pub open spec fn topics_text(features: Features) -> Seq<char> {
    joined(notification_texts(notifications_for(features)), " "@)
}

/// The capability text and the notification text of a connection.
pub fn build_capabilities(read_only: bool, features: &Features) -> (r: (String, String))
    ensures
        r.0@ == capability_text(read_only, *features),
        r.1@ == topics_text(*features),
{
    let methods = build_methods_vec(read_only, features);
    let names = method_names(&methods);
    let topics = build_notifications_vec(features);
    (join(&names, " "), join(&topics, " "))
}

/// The content of the event that advertises a connection: its capability
/// text, and after it the word for notifications where they are switched on.
pub fn info_event_content(capabilities: &str, notifications: bool) -> (r: String)
    ensures
        r@ == if notifications {
            capabilities@ + " notifications"@
        } else {
            capabilities@
        },
{
    if notifications {
        concat(capabilities, " notifications")
    } else {
        capabilities.to_owned()
    }
}

/// The tags of the event that advertises a connection: the ciphers it
/// understands and, where notifications are switched on, their names.
pub fn info_event_tags(features: &Features) -> (r: Vec<Vec<String>>)
    ensures
        r@.len() == if features.notifications {
            2nat
        } else {
            1nat
        },
        texts(r@[0]@) == seq!["encryption"@, "nip44_v2 nip04"@],
        features.notifications ==> texts(r@[1]@) == seq!["notifications"@, topics_text(*features)],
{
    let mut tags: Vec<Vec<String>> = Vec::new();
    let mut ciphers: Vec<String> = Vec::new();
    ciphers.push("encryption".to_owned());
    ciphers.push("nip44_v2 nip04".to_owned());
    proof {
        assert(texts(ciphers@) =~= seq!["encryption"@, "nip44_v2 nip04"@]);
    }
    tags.push(ciphers);
    if features.notifications {
        let topics = build_notifications_vec(features);
        let mut tag: Vec<String> = Vec::new();
        tag.push("notifications".to_owned());
        tag.push(join(&topics, " "));
        proof {
            assert(texts(tag@) =~= seq!["notifications"@, topics_text(*features)]);
        }
        tags.push(tag);
    }
    tags
}

/// A read-only connection advertises no method that spends, with any features.
pub proof fn lemma_read_only_never_spends(features: Features)
    ensures
        forall|i: int|
            0 <= i < methods_for(true, features).len() ==> !spends(
                #[trigger] methods_for(true, features)[i],
            ),
{
    let ms = methods_for(true, features);
    assert forall|i: int| 0 <= i < ms.len() implies !spends(#[trigger] ms[i]) by {
        let m = ms[i];
        assert(m != Method::PayInvoice && m != Method::MultiPayInvoice && m != Method::PayKeysend
            && m != Method::MultiPayKeysend && m != Method::PayOffer && m != Method::MultiPayOffer);
        assert forall|k: int| 0 <= k < pay_methods().len() implies pay_methods()[k] != m by {}
        assert forall|k: int| 0 <= k < offer_pay_methods().len() implies offer_pay_methods()[k]
            != m by {}
    }
}

/// Without the feature for hold invoices, the methods are the reading
/// ones, then the paying ones unless the connection is read-only, then
/// with offers those that read and, unless it is read-only, those that pay,
/// and nothing else.
pub proof fn lemma_methods_without_hold(read_only: bool, features: Features)
    requires
        !features.hold_support,
    ensures
        methods_for(read_only, features) =~= read_methods() + (if read_only {
            Seq::<Method>::empty()
        } else {
            pay_methods()
        }) + (if features.offer_support {
            offer_read_methods()
        } else {
            Seq::<Method>::empty()
        }) + (if features.offer_support && !read_only {
            offer_pay_methods()
        } else {
            Seq::<Method>::empty()
        }),
{
}

/// A connection that may spend advertises every method of the read-only
/// one, and the payment of invoices besides.
pub proof fn lemma_spending_expands(features: Features)
    ensures
        forall|i: int|
            0 <= i < methods_for(true, features).len() ==> methods_for(false, features).contains(
                #[trigger] methods_for(true, features)[i],
            ),
        methods_for(false, features).contains(Method::PayInvoice),
        !methods_for(true, features).contains(Method::PayInvoice),
        methods_for(false, features) != methods_for(true, features),
{
    let ro = methods_for(true, features);
    let rw = methods_for(false, features);
    assert(rw[5] == Method::PayInvoice);
    assert forall|i: int| 0 <= i < ro.len() implies rw.contains(#[trigger] ro[i]) by {
        if i < 5 {
            assert(rw[i] == ro[i]);
        } else if features.offer_support && i < 7 {
            assert(rw[i + 4] == ro[i]);
        } else if features.offer_support {
            assert(rw[i + 6] == ro[i]);
        } else {
            assert(rw[i + 4] == ro[i]);
        }
    }
    assert forall|i: int| 0 <= i < ro.len() implies ro[i] != Method::PayInvoice by {}
    assert(rw.len() != ro.len());
}

} // verus!
