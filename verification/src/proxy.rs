//! The proxy as a whole: the accept loop together with every session it
//! has opened, as a transition system over the events that are observed
//! at the sockets.
//!
//! The executable parts of this crate each take one of these transitions
//! for the piece of state they own. The model puts them side by side, so
//! that what must hold across connections can be stated and proved.

use vstd::prelude::*;
use crate::accept::{accepted_after, dispatch_of, next_session, AcceptEvent, Dispatch};
use crate::address::SocketAddress;
use crate::config::ConfigurationView;
use crate::filter::{admission_of, Rejection};
use crate::relay::{RelayDirection, RelayOutcome};
use crate::session::{ConnectOutcome, RelayStatus, SessionPhase, SessionView};

verus! {

/// Something observed at a socket of the proxy.
#[allow(inconsistent_fields)]
pub enum ProxyEvent {
    /// An attempt to accept an inbound connection ended.
    Accept { event: AcceptEvent },
    /// The connect attempt of session `session` ended.
    Connect { session: u64, outcome: ConnectOutcome },
    /// A relay direction of session `session` ended.
    RelayEnd { session: u64, direction: RelayDirection, outcome: RelayOutcome },
}

/// The state of the whole proxy.
pub struct ProxyView {
    /// The number of connections accepted so far.
    pub accepted: nat,
    /// Every session opened so far, by its identifier.
    pub sessions: Map<u64, SessionView>,
}

impl ProxyView {
    /// The proxy before anything was accepted.
    pub open spec fn initial() -> ProxyView {
        ProxyView { accepted: 0, sessions: Map::empty() }
    }

    /// The proxy after one event.
    ///
    /// An accepted connection is counted and, if it is forwarded, a
    /// session is opened for it. The end of a connect attempt or of a
    /// relay direction moves the session it names. An event that names no
    /// session, and a connection for which no identifier is left, change
    /// nothing.
    pub open spec fn next(self, config: ConfigurationView, event: ProxyEvent) -> ProxyView {
        match event {
            ProxyEvent::Accept { event } => {
                if event is Connection && self.accepted >= u64::MAX {
                    self
                } else {
                    ProxyView {
                        accepted: accepted_after(self.accepted, event),
                        sessions: match dispatch_of(config, self.accepted, event).session_of() {
                            Some(opened) => self.sessions.insert(opened.id, opened),
                            None => self.sessions,
                        },
                    }
                }
            },
            ProxyEvent::Connect { session, outcome } => {
                if self.sessions.dom().contains(session) {
                    ProxyView {
                        sessions: self.sessions.insert(
                            session,
                            self.sessions[session].after_connect(outcome),
                        ),
                        ..self
                    }
                } else {
                    self
                }
            },
            ProxyEvent::RelayEnd { session, direction, outcome } => {
                if self.sessions.dom().contains(session) {
                    ProxyView {
                        sessions: self.sessions.insert(
                            session,
                            self.sessions[session].after_relay_end(direction, outcome),
                        ),
                        ..self
                    }
                } else {
                    self
                }
            },
        }
    }

    /// The proxy after a sequence of events, taken in order.
    pub open spec fn after(self, config: ConfigurationView, events: Seq<ProxyEvent>) -> ProxyView
        decreases events.len(),
    {
        if events.len() == 0 {
            self
        } else {
            self.after(config, events.drop_last()).next(config, events.last())
        }
    }

    /// What holds of the proxy at all times: session identifiers are
    /// those of accepted connections, and every session belongs to an
    /// allowed peer and leads to the configured destination.
    pub open spec fn well_formed(self, config: ConfigurationView) -> bool {
        &&& self.accepted <= u64::MAX
        &&& forall|id: u64| #[trigger]
            self.sessions.dom().contains(id) ==> {
                &&& 1 <= id <= self.accepted
                &&& self.sessions[id].id == id
                &&& self.sessions[id].destination == config.destination
                &&& config.allowlist.contains(self.sessions[id].peer)
            }
    }
}

/// The proxy starts well formed.
pub proof fn lemma_initial_well_formed(config: ConfigurationView)
    ensures
        ProxyView::initial().well_formed(config),
{
}

/// Every event keeps the proxy well formed, never lowers the number of
/// accepted connections, keeps every session that exists, and opens a
/// session only under an identifier that was not given out before.
pub proof fn lemma_next_well_formed(config: ConfigurationView, state: ProxyView, event: ProxyEvent)
    requires
        state.well_formed(config),
    ensures
        state.next(config, event).well_formed(config),
        state.accepted <= state.next(config, event).accepted,
        forall|id: u64|
            state.sessions.dom().contains(id) ==> #[trigger] state.next(
                config,
                event,
            ).sessions.dom().contains(id),
        forall|id: u64| #[trigger]
            state.next(config, event).sessions.dom().contains(id)
                ==> state.sessions.dom().contains(id) || id > state.accepted,
{
    let after = state.next(config, event);
    assert forall|id: u64| #[trigger] after.sessions.dom().contains(id) implies {
        &&& 1 <= id <= after.accepted
        &&& after.sessions[id].id == id
        &&& after.sessions[id].destination == config.destination
        &&& config.allowlist.contains(after.sessions[id].peer)
        &&& (state.sessions.dom().contains(id) || id > state.accepted)
    } by {
        if state.sessions.dom().contains(id) {
            assert(1 <= id <= state.accepted);
        }
    }
}

/// Every sequence of events keeps the proxy well formed, never lowers the
/// number of accepted connections, keeps every session that exists, and
/// opens sessions only under identifiers that were not given out before.
pub proof fn lemma_after_well_formed(
    config: ConfigurationView,
    state: ProxyView,
    events: Seq<ProxyEvent>,
)
    requires
        state.well_formed(config),
    ensures
        state.after(config, events).well_formed(config),
        state.accepted <= state.after(config, events).accepted,
        forall|id: u64|
            state.sessions.dom().contains(id) ==> #[trigger] state.after(
                config,
                events,
            ).sessions.dom().contains(id),
        forall|id: u64| #[trigger]
            state.after(config, events).sessions.dom().contains(id)
                ==> state.sessions.dom().contains(id) || id > state.accepted,
    decreases events.len(),
{
    if events.len() > 0 {
        let before = state.after(config, events.drop_last());
        lemma_after_well_formed(config, state, events.drop_last());
        lemma_next_well_formed(config, before, events.last());
        let end = state.after(config, events);
        assert(end == before.next(config, events.last()));
        assert forall|id: u64| #[trigger] end.sessions.dom().contains(id) implies (
        state.sessions.dom().contains(id) || id > state.accepted) by {
            if before.sessions.dom().contains(id) {
            } else {
                assert(id > before.accepted);
            }
        }
        assert forall|id: u64| state.sessions.dom().contains(id) implies #[trigger]
            end.sessions.dom().contains(id) by {
            assert(before.sessions.dom().contains(id));
        }
    }
}

/// Every session that is ever opened leads to the configured destination,
/// so any two sessions of one run lead to the same endpoint, whenever they
/// were opened.
pub proof fn lemma_destination_is_fixed(
    config: ConfigurationView,
    events: Seq<ProxyEvent>,
    one: u64,
    other: u64,
)
    requires
        ProxyView::initial().after(config, events).sessions.dom().contains(one),
        ProxyView::initial().after(config, events).sessions.dom().contains(other),
    ensures
        ProxyView::initial().after(config, events).sessions[one].destination == config.destination,
        ProxyView::initial().after(config, events).sessions[one].destination
            == ProxyView::initial().after(config, events).sessions[other].destination,
{
    lemma_after_well_formed(config, ProxyView::initial(), events);
}

/// A connection that the filter rejects opens nothing, now or later: it
/// is discarded, every session is left as it was, and whatever follows,
/// no session ever exists under its identifier, so that no outbound
/// connection is opened for it and nothing is relayed for it.
pub proof fn lemma_rejected_opens_nothing(
    config: ConfigurationView,
    state: ProxyView,
    source: SocketAddress,
    later: Seq<ProxyEvent>,
)
    requires
        state.well_formed(config),
        state.accepted < u64::MAX,
        admission_of(config.allowlist, source) is Reject,
    ensures
        ({
            let event = AcceptEvent::Connection { source };
            let rejected = next_session(state.accepted);
            let discarded = state.next(config, ProxyEvent::Accept { event });
            &&& dispatch_of(config, state.accepted, event) is Discard
            &&& !dispatch_of(config, state.accepted, event).opens_outbound()
            &&& discarded.sessions == state.sessions
            &&& !discarded.after(config, later).sessions.dom().contains(rejected)
        }),
{
    let event = AcceptEvent::Connection { source };
    let rejected = next_session(state.accepted);
    let discarded = state.next(config, ProxyEvent::Accept { event });
    lemma_next_well_formed(config, state, ProxyEvent::Accept { event });
    lemma_after_well_formed(config, discarded, later);
    assert(discarded.accepted == rejected);
    if state.sessions.dom().contains(rejected) {
        assert(rejected <= state.accepted);
    }
}

/// An IPv4 source that the allowlist does not hold is never forwarded: its
/// connection is discarded as not allowed, and no session ever exists for
/// it.
pub proof fn lemma_unlisted_source_never_forwarded(
    config: ConfigurationView,
    state: ProxyView,
    source: SocketAddress,
    later: Seq<ProxyEvent>,
)
    requires
        state.well_formed(config),
        state.accepted < u64::MAX,
        source.ipv4_of() matches Some(ip) && !config.allowlist.contains(ip),
    ensures
        ({
            let event = AcceptEvent::Connection { source };
            let rejected = next_session(state.accepted);
            let discarded = state.next(config, ProxyEvent::Accept { event });
            &&& dispatch_of(config, state.accepted, event) == (Dispatch::Discard {
                session: rejected,
                cause: Rejection::NotAllowed,
            })
            &&& discarded.sessions == state.sessions
            &&& !discarded.after(config, later).sessions.dom().contains(rejected)
        }),
{
    lemma_rejected_opens_nothing(config, state, source, later);
}

/// A source that is not an IPv4 address is never forwarded, whatever the
/// allowlist holds: its connection is discarded as an unsupported family,
/// and no session ever exists for it.
pub proof fn lemma_other_family_never_forwarded(
    config: ConfigurationView,
    state: ProxyView,
    source: SocketAddress,
    later: Seq<ProxyEvent>,
)
    requires
        state.well_formed(config),
        state.accepted < u64::MAX,
        source.ipv4_of() is None,
    ensures
        ({
            let event = AcceptEvent::Connection { source };
            let rejected = next_session(state.accepted);
            let discarded = state.next(config, ProxyEvent::Accept { event });
            &&& dispatch_of(config, state.accepted, event) == (Dispatch::Discard {
                session: rejected,
                cause: Rejection::UnsupportedFamily,
            })
            &&& discarded.sessions == state.sessions
            &&& !discarded.after(config, later).sessions.dom().contains(rejected)
        }),
{
    lemma_rejected_opens_nothing(config, state, source, later);
}

/// A failed connect attempt of one session does not stand in the way of a
/// later client: whatever happens in between, an allowed source that
/// connects afterwards is forwarded under a new identifier, and once its
/// own connect attempt succeeds it relays in both directions to the
/// configured destination.
pub proof fn lemma_failed_connect_spares_later_clients(
    config: ConfigurationView,
    state: ProxyView,
    failed: u64,
    reason: String,
    between: Seq<ProxyEvent>,
    source: SocketAddress,
)
    requires
        state.well_formed(config),
        state.sessions.dom().contains(failed),
        state.sessions[failed].phase is Connecting,
        admission_of(config.allowlist, source) is Admit,
        state.next(
            config,
            ProxyEvent::Connect { session: failed, outcome: ConnectOutcome::Failed { reason } },
        ).after(config, between).accepted < u64::MAX,
    ensures
        ({
            let at_accept = state.next(
                config,
                ProxyEvent::Connect { session: failed, outcome: ConnectOutcome::Failed { reason } },
            ).after(config, between);
            let event = AcceptEvent::Connection { source };
            let later = next_session(at_accept.accepted);
            let opened = at_accept.next(config, ProxyEvent::Accept { event });
            let connected = opened.next(
                config,
                ProxyEvent::Connect { session: later, outcome: ConnectOutcome::Connected },
            );
            &&& dispatch_of(config, at_accept.accepted, event) is Forward
            &&& later != failed
            &&& opened.sessions.dom().contains(later)
            &&& opened.sessions[later].phase is Connecting
            &&& connected.sessions[later].phase == (SessionPhase::Relaying {
                client_to_destination: RelayStatus::Running,
                destination_to_client: RelayStatus::Running,
            })
            &&& connected.sessions[later].destination == config.destination
        }),
{
    let failure = ProxyEvent::Connect {
        session: failed,
        outcome: ConnectOutcome::Failed { reason },
    };
    let after_failure = state.next(config, failure);
    lemma_next_well_formed(config, state, failure);
    lemma_after_well_formed(config, after_failure, between);
    let at_accept = after_failure.after(config, between);
    assert(after_failure.sessions.dom().contains(failed));
    assert(at_accept.sessions.dom().contains(failed));
    assert(failed <= at_accept.accepted);
}

/// The end of a connect attempt or of a relay direction touches the one
/// session it names: the number of accepted connections and every other
/// session stay as they were.
pub proof fn lemma_session_event_is_local(
    config: ConfigurationView,
    state: ProxyView,
    event: ProxyEvent,
    other: u64,
)
    requires
        match event {
            ProxyEvent::Accept { .. } => false,
            ProxyEvent::Connect { session, .. } => session != other,
            ProxyEvent::RelayEnd { session, .. } => session != other,
        },
    ensures
        state.next(config, event).accepted == state.accepted,
        state.next(config, event).sessions.dom().contains(other) == state.sessions.dom().contains(
            other,
        ),
        state.next(config, event).sessions[other] == state.sessions[other],
{
}

/// Accepting a connection leaves every session that exists as it was.
pub proof fn lemma_accept_spares_sessions(
    config: ConfigurationView,
    state: ProxyView,
    event: AcceptEvent,
    existing: u64,
)
    requires
        state.well_formed(config),
        state.sessions.dom().contains(existing),
    ensures
        state.next(config, ProxyEvent::Accept { event }).sessions.dom().contains(existing),
        state.next(config, ProxyEvent::Accept { event }).sessions[existing]
            == state.sessions[existing],
{
    assert(existing <= state.accepted);
}

} // verus!
