//! The accept loop: what is done with each outcome of accepting.

use vstd::prelude::*;
use crate::address::{Ipv4Address, SocketAddress};
use crate::config::{Configuration, ConfigurationView, StartupError};
use crate::diagnostic::Diagnostic;
use crate::filter::{admission_of, decide_admission, Admission, Rejection};
use crate::session::{Session, SessionView};

verus! {

/// What binding the listening socket came to.
#[derive(Debug, PartialEq, Eq)]
pub enum BindOutcome {
    /// The listening socket is bound.
    Bound,
    /// Binding failed with the error that `reason` describes.
    Failed { reason: String },
}

/// What one attempt to accept an inbound connection came to.
#[derive(Debug, PartialEq, Eq)]
pub enum AcceptEvent {
    /// A connection from `source` was accepted.
    Connection { source: SocketAddress },
    /// Accepting failed with the error that `reason` describes.
    Failure { reason: String },
}

/// What is to be done after one attempt to accept. In every case the
/// listener then goes on accepting.
#[derive(Clone, Copy, Debug, PartialEq, Eq, Structural)]
pub enum Dispatch {
    /// Open an outbound connection to `destination` for the admitted
    /// `peer` and relay between the two.
    Forward { session: u64, peer: Ipv4Address, destination: SocketAddress },
    /// Drop the inbound connection: nothing is opened and nothing is
    /// transferred for it.
    Discard { session: u64, cause: Rejection },
    /// No connection came out of the attempt.
    Idle,
}

impl Dispatch {
    /// Whether this dispatch has an outbound connection opened.
    pub open spec fn opens_outbound(self) -> bool {
        self is Forward
    }

    /// The session that this dispatch opens: one for a forwarded
    /// connection, none for anything else.
    pub open spec fn session_of(self) -> Option<SessionView> {
        match self {
            Dispatch::Forward { session, peer, destination } => Some(
                SessionView::opened(session, peer, destination),
            ),
            _ => None,
        }
    }

    /// Opens the session for a forwarded connection. A discarded
    /// connection has no session, so that nothing is connected or relayed
    /// for it.
    pub fn open_session(&self) -> (opened: Option<Session>)
        ensures
            match self.session_of() {
                Some(session) => opened matches Some(o) && o@ == session,
                None => opened is None,
            },
    {
        match self {
            Dispatch::Forward { session, peer, destination } => Some(
                Session::open(*session, *peer, *destination),
            ),
            _ => None,
        }
    }
}

/// The result of one step of the accept loop.
#[derive(Debug)]
pub struct AcceptStep {
    /// What to do with the connection, if there is one.
    pub dispatch: Dispatch,
    /// What to make observable, in this order.
    pub diagnostics: Vec<Diagnostic>,
}

/// The identifier of the session that is accepted next when `accepted`
/// sessions were accepted before it.
pub open spec fn next_session(accepted: nat) -> u64
    recommends
        accepted < u64::MAX,
{
    (accepted + 1) as u64
}

/// The number of accepted connections after `event`.
pub open spec fn accepted_after(accepted: nat, event: AcceptEvent) -> nat {
    match event {
        AcceptEvent::Connection { .. } => accepted + 1,
        AcceptEvent::Failure { .. } => accepted,
    }
}

/// What is done after `event` when `accepted` connections were accepted
/// before it: an accepted connection gets the next session identifier and
/// is forwarded to the configured destination if the filter admits its
/// source, and discarded otherwise.
pub open spec fn dispatch_of(
    config: ConfigurationView,
    accepted: nat,
    event: AcceptEvent,
) -> Dispatch {
    match event {
        AcceptEvent::Failure { .. } => Dispatch::Idle,
        AcceptEvent::Connection { source } => match admission_of(config.allowlist, source) {
            Admission::Admit { peer } => Dispatch::Forward {
                session: next_session(accepted),
                peer,
                destination: config.destination,
            },
            Admission::Reject { cause } => Dispatch::Discard {
                session: next_session(accepted),
                cause,
            },
        },
    }
}

/// What is made observable after `event`: for an accepted connection its
/// acceptance and then the filter's decision, for a failure its error.
pub open spec fn diagnostics_of(
    config: ConfigurationView,
    accepted: nat,
    event: AcceptEvent,
) -> Seq<Diagnostic> {
    match event {
        AcceptEvent::Failure { reason } => seq![Diagnostic::AcceptFailed { reason }],
        AcceptEvent::Connection { source } => seq![
            Diagnostic::ConnectionAccepted { session: next_session(accepted), source },
            Diagnostic::AdmissionDecided {
                session: next_session(accepted),
                source,
                admission: admission_of(config.allowlist, source),
            },
        ],
    }
}

/// The state that the accept loop carries from one attempt to the next:
/// the number of connections accepted so far.
///
/// Nothing else is carried over, so no connection can influence what is
/// decided for a later one beyond the identifier that it is given.
#[derive(Debug)]
pub struct AcceptLoop {
    accepted: u64,
}

impl View for AcceptLoop {
    type V = nat;

    /// The number of connections accepted so far.
    closed spec fn view(&self) -> nat {
        self.accepted as nat
    }
}

impl AcceptLoop {
    /// Starts the accept loop on what binding the listening socket came
    /// to. A bound socket gives a loop that has accepted nothing yet; a
    /// failed bind gives no loop at all.
    pub fn start(bind: BindOutcome) -> (started: Result<AcceptLoop, StartupError>)
        ensures
            match bind {
                BindOutcome::Bound => started matches Ok(fresh) && fresh@ == 0,
                BindOutcome::Failed { reason } => started matches Err(e) && e
                    == (StartupError::BindFailed { reason }),
            },
    {
        match bind {
            BindOutcome::Bound => Ok(AcceptLoop { accepted: 0 }),
            BindOutcome::Failed { reason } => Err(StartupError::BindFailed { reason }),
        }
    }

    /// The number of connections accepted so far, which is also the
    /// identifier of the latest session.
    pub fn accepted(&self) -> (accepted: u64)
        ensures
            accepted == self@,
    {
        self.accepted
    }

    /// Whether another connection can be given an identifier.
    pub fn has_capacity(&self) -> (room: bool)
        ensures
            room == (self@ < u64::MAX),
    {
        self.accepted < u64::MAX
    }

    /// Takes one step of the accept loop for what the latest attempt to
    /// accept came to.
    ///
    /// An accepted connection is counted, so that session identifiers
    /// start at 1 and grow by 1 with each accepted connection, admitted or
    /// not. A failure leaves the count as it is.
    pub fn step(&mut self, config: &Configuration, event: AcceptEvent) -> (taken: AcceptStep)
        requires
            event is Connection ==> old(self)@ < u64::MAX,
        ensures
            final(self)@ == accepted_after(old(self)@, event),
            taken.dispatch == dispatch_of(config@, old(self)@, event),
            taken.diagnostics@ == diagnostics_of(config@, old(self)@, event),
    {
        let mut diagnostics: Vec<Diagnostic> = Vec::new();
        match event {
            AcceptEvent::Failure { reason } => {
                diagnostics.push(Diagnostic::AcceptFailed { reason });
                AcceptStep { dispatch: Dispatch::Idle, diagnostics }
            },
            AcceptEvent::Connection { source } => {
                self.accepted = self.accepted + 1;
                let session = self.accepted;
                let admission = decide_admission(config.allowlist(), &source);
                diagnostics.push(Diagnostic::ConnectionAccepted { session, source });
                diagnostics.push(Diagnostic::AdmissionDecided { session, source, admission });
                let dispatch = match admission {
                    Admission::Admit { peer } => Dispatch::Forward {
                        session,
                        peer,
                        destination: config.destination(),
                    },
                    Admission::Reject { cause } => Dispatch::Discard { session, cause },
                };
                AcceptStep { dispatch, diagnostics }
            },
        }
    }
}

/// Session identifiers grow with each accepted connection: of two
/// connections, the one accepted later has the larger identifier, so no
/// identifier is given out twice.
pub proof fn lemma_later_session_has_larger_id(earlier: nat, later: nat)
    requires
        earlier < later < u64::MAX,
    ensures
        next_session(earlier) < next_session(later),
        1 <= next_session(earlier),
{
}

/// What is done with a connection depends on its source and on the
/// configuration alone: what was accepted before it sets its identifier
/// and nothing else.
pub proof fn lemma_dispatch_ignores_history(
    config: ConfigurationView,
    accepted: nat,
    other_accepted: nat,
    source: SocketAddress,
)
    ensures
        ({
            let event = AcceptEvent::Connection { source };
            match dispatch_of(config, accepted, event) {
                Dispatch::Forward { peer, destination, .. } => dispatch_of(
                    config,
                    other_accepted,
                    event,
                ) == (Dispatch::Forward {
                    session: next_session(other_accepted),
                    peer,
                    destination,
                }),
                Dispatch::Discard { cause, .. } => dispatch_of(config, other_accepted, event)
                    == (Dispatch::Discard { session: next_session(other_accepted), cause }),
                Dispatch::Idle => false,
            }
        }),
{
}

/// Every forwarded connection is sent to the configured destination, and
/// only a connection whose source the allowlist holds is forwarded.
pub proof fn lemma_forward_goes_to_configured_destination(
    config: ConfigurationView,
    accepted: nat,
    event: AcceptEvent,
)
    ensures
        dispatch_of(config, accepted, event) matches Dispatch::Forward { peer, destination, .. }
            ==> {
            &&& destination == config.destination
            &&& config.allowlist.contains(peer)
            &&& event matches AcceptEvent::Connection { source }
            &&& source.ipv4_of() == Some(peer)
        },
{
}

} // verus!
