//! One connection's session with its relays: the cycle of connecting,
//! advertising, subscribing and processing, what each relay notification
//! is met with, and whether a published event counts as delivered.

use vstd::prelude::*;
use crate::text::{concat, join, joined, texts};

verus! {

/// How long a session waits for a relay to report that it is connected.
pub const CONNECT_TIMEOUT_SECS: u64 = 30;

/// How long a session waits before it tries again.
pub const RETRY_DELAY_SECS: u64 = 5;

/// How long the process waits at its start before it opens sessions.
pub const STARTUP_DELAY: u64 = 1;

/// Where a session stands.
#[derive(Clone, Copy, Debug, PartialEq, Eq, Structural)]
pub enum SessionState {
    /// Connecting to the relays and waiting for one to answer.
    Connecting,
    /// Publishing the event that advertises the connection.
    Advertising,
    /// Subscribing to the requests of the remote party.
    Subscribing,
    /// Subscribed: requests are processed as they come.
    Subscribed,
    /// Waiting before the next attempt to connect.
    Disconnected,
    /// Torn down for good.
    ShutDown,
}

/// What the relay client reported back to the session.
#[derive(Clone, Copy, Debug, PartialEq, Eq, Structural)]
pub enum SessionEvent {
    /// The wait for connections is over: how many relays the session has,
    /// and whether one of them is connected.
    ConnectDone { relays: usize, connected: bool },
    /// The advertisement was published, or no relay took it.
    AdvertiseDone { accepted: bool },
    /// The subscription stands, or failed.
    SubscribeDone { subscribed: bool },
    /// The stream of notifications has ended.
    StreamEnded,
    /// The wait before the next attempt is over.
    RetryElapsed,
}

/// What the session asks of the relay client next.
#[derive(Clone, Copy, Debug, PartialEq, Eq, Structural)]
pub enum SessionAction {
    /// Connect and wait for a connection, at most so many seconds.
    Connect { wait_secs: u64 },
    /// Publish the advertisement.
    Advertise,
    /// Subscribe to requests.
    Subscribe,
    /// Process notifications until the stream ends.
    Process,
    /// Wait so many seconds, after disconnecting where that is asked.
    BackOff { disconnect: bool, secs: u64 },
    /// Stop: the session is over.
    Stop,
    /// Nothing: the report does not belong to this state.
    Ignore,
}

/// The next state of a session and what it does next.
///
/// A session connects; with no relays left it shuts down for good; with
/// none connected it backs off and connects again. Connected, it
/// advertises, then subscribes, and backs off after disconnecting where
/// either fails. Subscribed, it processes requests until the stream ends,
/// and then connects again.
pub open spec fn session_next(state: SessionState, event: SessionEvent) -> (
    SessionState,
    SessionAction,
) {
    match (state, event) {
        (SessionState::ShutDown, _) => (SessionState::ShutDown, SessionAction::Ignore),
        (SessionState::Connecting, SessionEvent::ConnectDone { relays, connected }) => if relays
            == 0 {
            (SessionState::ShutDown, SessionAction::Stop)
        } else if !connected {
            (
                SessionState::Disconnected,
                SessionAction::BackOff { disconnect: false, secs: RETRY_DELAY_SECS },
            )
        } else {
            (SessionState::Advertising, SessionAction::Advertise)
        },
        (SessionState::Advertising, SessionEvent::AdvertiseDone { accepted }) => if accepted {
            (SessionState::Subscribing, SessionAction::Subscribe)
        } else {
            (
                SessionState::Disconnected,
                SessionAction::BackOff { disconnect: true, secs: RETRY_DELAY_SECS },
            )
        },
        (SessionState::Subscribing, SessionEvent::SubscribeDone { subscribed }) => if subscribed {
            (SessionState::Subscribed, SessionAction::Process)
        } else {
            (
                SessionState::Disconnected,
                SessionAction::BackOff { disconnect: true, secs: RETRY_DELAY_SECS },
            )
        },
        (SessionState::Subscribed, SessionEvent::StreamEnded) => (
            SessionState::Connecting,
            SessionAction::Connect { wait_secs: CONNECT_TIMEOUT_SECS },
        ),
        (SessionState::Disconnected, SessionEvent::RetryElapsed) => (
            SessionState::Connecting,
            SessionAction::Connect { wait_secs: CONNECT_TIMEOUT_SECS },
        ),
        _ => (state, SessionAction::Ignore),
    }
}

/// The state in which a session starts, and its first action.
pub fn session_start() -> (r: (SessionState, SessionAction))
    ensures
        r == (SessionState::Connecting, SessionAction::Connect { wait_secs: CONNECT_TIMEOUT_SECS }),
{
    (SessionState::Connecting, SessionAction::Connect { wait_secs: CONNECT_TIMEOUT_SECS })
}

/// Moves a session on by one report of the relay client.
pub fn session_step(state: SessionState, event: SessionEvent) -> (r: (SessionState, SessionAction))
    ensures
        r == session_next(state, event),
{
    match state {
        SessionState::ShutDown => (SessionState::ShutDown, SessionAction::Ignore),
        SessionState::Connecting => match event {
            SessionEvent::ConnectDone { relays, connected } => {
                if relays == 0 {
                    (SessionState::ShutDown, SessionAction::Stop)
                } else if !connected {
                    (
                        SessionState::Disconnected,
                        SessionAction::BackOff { disconnect: false, secs: RETRY_DELAY_SECS },
                    )
                } else {
                    (SessionState::Advertising, SessionAction::Advertise)
                }
            },
            _ => (state, SessionAction::Ignore),
        },
        SessionState::Advertising => match event {
            SessionEvent::AdvertiseDone { accepted } => {
                if accepted {
                    (SessionState::Subscribing, SessionAction::Subscribe)
                } else {
                    (
                        SessionState::Disconnected,
                        SessionAction::BackOff { disconnect: true, secs: RETRY_DELAY_SECS },
                    )
                }
            },
            _ => (state, SessionAction::Ignore),
        },
        SessionState::Subscribing => match event {
            SessionEvent::SubscribeDone { subscribed } => {
                if subscribed {
                    (SessionState::Subscribed, SessionAction::Process)
                } else {
                    (
                        SessionState::Disconnected,
                        SessionAction::BackOff { disconnect: true, secs: RETRY_DELAY_SECS },
                    )
                }
            },
            _ => (state, SessionAction::Ignore),
        },
        SessionState::Subscribed => match event {
            SessionEvent::StreamEnded => (
                SessionState::Connecting,
                SessionAction::Connect { wait_secs: CONNECT_TIMEOUT_SECS },
            ),
            _ => (state, SessionAction::Ignore),
        },
        SessionState::Disconnected => match event {
            SessionEvent::RetryElapsed => (
                SessionState::Connecting,
                SessionAction::Connect { wait_secs: CONNECT_TIMEOUT_SECS },
            ),
            _ => (state, SessionAction::Ignore),
        },
    }
}

/// A session ends only while it connects, and only with no relays left;
/// once it has ended it stays so.
pub proof fn lemma_shutdown_only_without_relays(state: SessionState, event: SessionEvent)
    ensures
        session_next(state, event).0 == SessionState::ShutDown ==> state == SessionState::ShutDown
            || (state == SessionState::Connecting && event is ConnectDone
            && event->ConnectDone_relays == 0),
        state == SessionState::ShutDown ==> session_next(state, event).0 == SessionState::ShutDown,
        session_next(state, event).1 == SessionAction::Stop ==> session_next(state, event).0
            == SessionState::ShutDown,
{
}

/// Requests are processed only after the advertisement was taken and the
/// subscription stands.
pub proof fn lemma_processing_needs_subscription(state: SessionState, event: SessionEvent)
    ensures
        session_next(state, event).1 == SessionAction::Process ==> state
            == SessionState::Subscribing && event == (SessionEvent::SubscribeDone {
            subscribed: true,
        }),
        session_next(state, event).1 == SessionAction::Subscribe ==> state
            == SessionState::Advertising && event == (SessionEvent::AdvertiseDone {
            accepted: true,
        }),
{
}

/// Whether one of the relays is connected.
pub fn any_connected(connected: &Vec<bool>) -> (r: bool)
    ensures
        r == exists|i: int| 0 <= i < connected@.len() && connected@[i],
{
    let mut i: usize = 0;
    while i < connected.len()
        invariant
            0 <= i <= connected@.len(),
            forall|k: int| 0 <= k < i ==> !connected@[k],
        decreases connected@.len() - i,
    {
        if connected[i] {
            return true;
        }
        i = i + 1;
    }
    false
}

/// From when on a session asks for requests: the time of its start, less
/// the delay at the start of the process and one second more.
pub fn subscription_since(now: u64) -> (r: u64)
    ensures
        r == if now >= STARTUP_DELAY + 1 {
            (now - STARTUP_DELAY - 1) as u64
        } else {
            0
        },
{
    now.saturating_sub(STARTUP_DELAY).saturating_sub(1)
}

/// What kind of notification the relay client handed over.
#[derive(Clone, Copy, Debug, PartialEq, Eq, Structural)]
pub enum NotificationKind {
    /// An event of the subscription.
    Event,
    /// A protocol message of a relay.
    Message,
    /// The client is shutting down.
    Shutdown,
}

/// What a notification is met with.
#[derive(Clone, Copy, Debug, PartialEq, Eq, Structural)]
pub enum Disposition {
    /// Nothing is done and the stream goes on.
    Ignore,
    /// The stream of notifications is left.
    Stop,
    /// The event is a request: it is opened and answered.
    Process,
}

/// What a notification is met with: a shutdown ends the stream, a relay's
/// message is passed over, and so is an event whose expiration lies before
/// `now`; any other event is a request.
pub open spec fn disposition(kind: NotificationKind, expiration: Option<u64>, now: u64) -> Disposition {
    match kind {
        NotificationKind::Shutdown => Disposition::Stop,
        NotificationKind::Message => Disposition::Ignore,
        NotificationKind::Event => if expiration is Some && expiration->0 < now {
            Disposition::Ignore
        } else {
            Disposition::Process
        },
    }
}

/// Decides what a notification is met with.
pub fn request_disposition(kind: NotificationKind, expiration: Option<u64>, now: u64) -> (r:
    Disposition)
    ensures
        r == disposition(kind, expiration, now),
{
    match kind {
        NotificationKind::Shutdown => Disposition::Stop,
        NotificationKind::Message => Disposition::Ignore,
        NotificationKind::Event => match expiration {
            Some(expi) => {
                if expi < now {
                    Disposition::Ignore
                } else {
                    Disposition::Process
                }
            },
            None => Disposition::Process,
        },
    }
}

/// Whether a published event counts as delivered: at least one relay took
/// it. Otherwise the complaint begins with `complaint` and lists what the
/// relays said, with a comma and a blank between them.
pub fn publish_outcome(accepted: usize, failed: &Vec<String>, complaint: &str) -> (r: Result<
    (),
    String,
>)
    ensures
        match r {
            Ok(_) => accepted > 0,
            Err(message) => accepted == 0 && message@ == complaint@ + joined(texts(failed@), ", "@),
        },
{
    if accepted == 0 {
        let reasons = join(failed, ", ");
        return Err(concat(complaint, reasons.as_str()));
    }
    Ok(())
}

} // verus!
