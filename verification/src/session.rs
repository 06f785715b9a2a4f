//! The life of one admitted connection: from the outbound connect to the
//! end of both relay directions.

use vstd::prelude::*;
use crate::address::{Ipv4Address, SocketAddress};
use crate::diagnostic::Diagnostic;
use crate::relay::{relay_report, relay_report_of, RelayDirection, RelayOutcome};

verus! {

/// What the attempt to open the outbound connection came to.
#[derive(Debug, PartialEq, Eq)]
pub enum ConnectOutcome {
    /// The outbound connection is open.
    Connected,
    /// The outbound connection could not be opened, for the error that
    /// `reason` describes.
    Failed { reason: String },
}

/// Where one relay direction of a session stands.
#[derive(Clone, Copy, Debug, PartialEq, Eq, Structural)]
pub enum RelayStatus {
    /// Still copying.
    Running,
    /// Ended at end of stream after copying `bytes` bytes.
    Finished { bytes: u64 },
    /// Ended on an I/O error.
    Failed,
}

impl RelayStatus {
    /// The status of a direction that ended with `outcome`.
    pub open spec fn ended(outcome: RelayOutcome) -> RelayStatus {
        match outcome {
            RelayOutcome::Finished { bytes } => RelayStatus::Finished { bytes },
            RelayOutcome::Failed { .. } => RelayStatus::Failed,
        }
    }
}

/// Where a session stands.
#[derive(Clone, Copy, Debug, PartialEq, Eq, Structural)]
pub enum SessionPhase {
    /// Admitted; the outbound connection has not been opened yet.
    Connecting,
    /// The outbound connection could not be opened. The inbound connection
    /// is discarded and no byte was transferred.
    Abandoned,
    /// The outbound connection is open and both directions were launched.
    /// Each direction carries its own status.
    Relaying { client_to_destination: RelayStatus, destination_to_client: RelayStatus },
}

/// What a [`Session`] holds, as plain values.
pub struct SessionView {
    /// The identifier given when the connection was accepted.
    pub id: u64,
    /// The admitted source of the inbound connection.
    pub peer: Ipv4Address,
    /// The endpoint of the outbound connection.
    pub destination: SocketAddress,
    /// Where the session stands.
    pub phase: SessionPhase,
}

impl SessionView {
    /// The session as it is opened for an admitted connection.
    pub open spec fn opened(id: u64, peer: Ipv4Address, destination: SocketAddress) -> SessionView {
        SessionView { id, peer, destination, phase: SessionPhase::Connecting }
    }

    /// The status of `direction`, if both directions were launched.
    pub open spec fn status(self, direction: RelayDirection) -> Option<RelayStatus> {
        match self.phase {
            SessionPhase::Relaying { client_to_destination, destination_to_client } => Some(
                match direction {
                    RelayDirection::ClientToDestination => client_to_destination,
                    RelayDirection::DestinationToClient => destination_to_client,
                },
            ),
            _ => None,
        }
    }

    /// Whether an outbound connection was opened for this session.
    pub open spec fn outbound_opened(self) -> bool {
        self.phase is Relaying
    }

    /// Whether nothing is left to happen: the connect failed, or both
    /// directions have ended.
    pub open spec fn is_complete(self) -> bool {
        match self.phase {
            SessionPhase::Connecting => false,
            SessionPhase::Abandoned => true,
            SessionPhase::Relaying { client_to_destination, destination_to_client } =>
                client_to_destination !is Running && destination_to_client !is Running,
        }
    }

    /// The session after its connect attempt came to `outcome`: relaying
    /// in both directions when connected, abandoned otherwise. A session
    /// that is not connecting stays as it is.
    pub open spec fn after_connect(self, outcome: ConnectOutcome) -> SessionView {
        if self.phase is Connecting {
            SessionView {
                phase: match outcome {
                    ConnectOutcome::Connected => SessionPhase::Relaying {
                        client_to_destination: RelayStatus::Running,
                        destination_to_client: RelayStatus::Running,
                    },
                    ConnectOutcome::Failed { .. } => SessionPhase::Abandoned,
                },
                ..self
            }
        } else {
            self
        }
    }

    /// The session after `direction` ended with `outcome`: that direction
    /// takes the status of its end, the other one keeps its own. A session
    /// in which `direction` is not running stays as it is.
    pub open spec fn after_relay_end(
        self,
        direction: RelayDirection,
        outcome: RelayOutcome,
    ) -> SessionView {
        match self.phase {
            SessionPhase::Relaying { client_to_destination, destination_to_client } => {
                if self.status(direction) == Some(RelayStatus::Running) {
                    SessionView {
                        phase: match direction {
                            RelayDirection::ClientToDestination => SessionPhase::Relaying {
                                client_to_destination: RelayStatus::ended(outcome),
                                destination_to_client,
                            },
                            RelayDirection::DestinationToClient => SessionPhase::Relaying {
                                client_to_destination,
                                destination_to_client: RelayStatus::ended(outcome),
                            },
                        },
                        ..self
                    }
                } else {
                    self
                }
            },
            _ => self,
        }
    }
}

/// The relay directions to launch after a connect attempt, in launch
/// order: both directions when connected, none otherwise.
pub open spec fn relays_of(outcome: ConnectOutcome) -> Seq<RelayDirection> {
    match outcome {
        ConnectOutcome::Connected => seq![
            RelayDirection::DestinationToClient,
            RelayDirection::ClientToDestination,
        ],
        ConnectOutcome::Failed { .. } => Seq::empty(),
    }
}

/// The diagnostic for the end of a connect attempt.
pub open spec fn connect_report_of(
    id: u64,
    peer: Ipv4Address,
    outcome: ConnectOutcome,
) -> Diagnostic {
    match outcome {
        ConnectOutcome::Connected => Diagnostic::ConnectSucceeded { session: id, peer },
        ConnectOutcome::Failed { reason } => Diagnostic::ConnectFailed {
            session: id,
            peer,
            reason,
        },
    }
}

/// What the forwarder does once the connect attempt has ended. Launching
/// the listed directions is its last act for the connection: it does not
/// wait for either of them.
#[derive(Debug)]
pub struct ForwardPlan {
    /// The relay directions to launch, in this order.
    pub relays: Vec<RelayDirection>,
    /// What to make observable about the connect attempt.
    pub diagnostic: Diagnostic,
}

/// One admitted connection.
///
/// A session is opened when the accept loop forwards a connection, and
/// moves forward only: from connecting to either abandoned or relaying,
/// and within relaying each direction from running to its end.
#[derive(Clone, Copy, Debug, PartialEq, Eq)]
pub struct Session {
    id: u64,
    peer: Ipv4Address,
    destination: SocketAddress,
    phase: SessionPhase,
}

impl View for Session {
    type V = SessionView;

    closed spec fn view(&self) -> SessionView {
        SessionView {
            id: self.id,
            peer: self.peer,
            destination: self.destination,
            phase: self.phase,
        }
    }
}

impl Session {
    /// Opens the session for an admitted connection; the outbound
    /// connection is still to be attempted.
    pub fn open(id: u64, peer: Ipv4Address, destination: SocketAddress) -> (session: Session)
        ensures
            session@ == SessionView::opened(id, peer, destination),
    {
        Session { id, peer, destination, phase: SessionPhase::Connecting }
    }

    /// The identifier given when the connection was accepted.
    pub fn id(&self) -> (id: u64)
        ensures
            id == self@.id,
    {
        self.id
    }

    /// The admitted source of the inbound connection.
    pub fn peer(&self) -> (peer: Ipv4Address)
        ensures
            peer == self@.peer,
    {
        self.peer
    }

    /// The endpoint of the outbound connection.
    pub fn destination(&self) -> (destination: SocketAddress)
        ensures
            destination == self@.destination,
    {
        self.destination
    }

    /// Where the session stands.
    pub fn phase(&self) -> (phase: SessionPhase)
        ensures
            phase == self@.phase,
    {
        self.phase
    }

    /// The status of `direction`; `None` unless both directions were
    /// launched.
    pub fn status(&self, direction: RelayDirection) -> (status: Option<RelayStatus>)
        ensures
            status == self@.status(direction),
    {
        match self.phase {
            SessionPhase::Relaying { client_to_destination, destination_to_client } => Some(
                match direction {
                    RelayDirection::ClientToDestination => client_to_destination,
                    RelayDirection::DestinationToClient => destination_to_client,
                },
            ),
            _ => None,
        }
    }

    /// Whether the outbound connection is still to be attempted.
    pub fn is_connecting(&self) -> (connecting: bool)
        ensures
            connecting == (self@.phase is Connecting),
    {
        match self.phase {
            SessionPhase::Connecting => true,
            _ => false,
        }
    }

    /// Whether `direction` was launched and has not ended.
    pub fn is_running(&self, direction: RelayDirection) -> (running: bool)
        ensures
            running == (self@.status(direction) == Some(RelayStatus::Running)),
    {
        match self.status(direction) {
            Some(RelayStatus::Running) => true,
            _ => false,
        }
    }

    /// Whether nothing is left to happen in this session.
    pub fn is_complete(&self) -> (complete: bool)
        ensures
            complete == self@.is_complete(),
    {
        match self.phase {
            SessionPhase::Connecting => false,
            SessionPhase::Abandoned => true,
            SessionPhase::Relaying { client_to_destination, destination_to_client } => {
                let upstream_running = match client_to_destination {
                    RelayStatus::Running => true,
                    _ => false,
                };
                let downstream_running = match destination_to_client {
                    RelayStatus::Running => true,
                    _ => false,
                };
                !upstream_running && !downstream_running
            },
        }
    }

    /// Records what the connect attempt came to and says what to do next.
    ///
    /// When the outbound connection is open, both relay directions are to
    /// be launched and the session is relaying. When it could not be
    /// opened, the session is abandoned: nothing is launched, nothing is
    /// retried, and no other destination is tried.
    pub fn connect_result(&mut self, outcome: ConnectOutcome) -> (plan: ForwardPlan)
        requires
            old(self)@.phase is Connecting,
        ensures
            final(self)@ == old(self)@.after_connect(outcome),
            plan.relays@ == relays_of(outcome),
            plan.diagnostic == connect_report_of(old(self)@.id, old(self)@.peer, outcome),
    {
        let mut relays: Vec<RelayDirection> = Vec::new();
        match outcome {
            ConnectOutcome::Connected => {
                self.phase = SessionPhase::Relaying {
                    client_to_destination: RelayStatus::Running,
                    destination_to_client: RelayStatus::Running,
                };
                relays.push(RelayDirection::DestinationToClient);
                relays.push(RelayDirection::ClientToDestination);
                ForwardPlan {
                    relays,
                    diagnostic: Diagnostic::ConnectSucceeded { session: self.id, peer: self.peer },
                }
            },
            ConnectOutcome::Failed { reason } => {
                self.phase = SessionPhase::Abandoned;
                ForwardPlan {
                    relays,
                    diagnostic: Diagnostic::ConnectFailed {
                        session: self.id,
                        peer: self.peer,
                        reason,
                    },
                }
            },
        }
    }

    /// Records the end of `direction` and reports it.
    ///
    /// Only the status of `direction` changes; the opposite direction goes
    /// on, or stays ended, as it was.
    pub fn relay_ended(&mut self, direction: RelayDirection, outcome: RelayOutcome) -> (report:
        Diagnostic)
        requires
            old(self)@.status(direction) == Some(RelayStatus::Running),
        ensures
            final(self)@ == old(self)@.after_relay_end(direction, outcome),
            report == relay_report_of(old(self)@.id, direction, outcome),
    {
        let ended = match outcome {
            RelayOutcome::Finished { bytes } => RelayStatus::Finished { bytes },
            RelayOutcome::Failed { .. } => RelayStatus::Failed,
        };
        match self.phase {
            SessionPhase::Relaying { client_to_destination, destination_to_client } => {
                self.phase = match direction {
                    RelayDirection::ClientToDestination => SessionPhase::Relaying {
                        client_to_destination: ended,
                        destination_to_client,
                    },
                    RelayDirection::DestinationToClient => SessionPhase::Relaying {
                        client_to_destination,
                        destination_to_client: ended,
                    },
                };
            },
            _ => {},
        }
        relay_report(self.id, direction, outcome)
    }
}

/// When a connect attempt fails, the session is abandoned: no outbound
/// connection was opened, no relay direction is launched, and nothing is
/// left to happen.
pub proof fn lemma_failed_connect_abandons(session: SessionView, reason: String)
    requires
        session.phase is Connecting,
    ensures
        session.after_connect(ConnectOutcome::Failed { reason }).phase is Abandoned,
        !session.after_connect(ConnectOutcome::Failed { reason }).outbound_opened(),
        session.after_connect(ConnectOutcome::Failed { reason }).is_complete(),
        relays_of(ConnectOutcome::Failed { reason }).len() == 0,
{
}

/// When a connect attempt succeeds, exactly two relay directions are
/// launched, one for each direction, and both are running.
pub proof fn lemma_connected_launches_both(session: SessionView, direction: RelayDirection)
    requires
        session.phase is Connecting,
    ensures
        session.after_connect(ConnectOutcome::Connected).outbound_opened(),
        session.after_connect(ConnectOutcome::Connected).status(direction) == Some(
            RelayStatus::Running,
        ),
        relays_of(ConnectOutcome::Connected).len() == 2,
        relays_of(ConnectOutcome::Connected)[0] != relays_of(ConnectOutcome::Connected)[1],
        relays_of(ConnectOutcome::Connected).contains(direction),
{
    let relays = relays_of(ConnectOutcome::Connected);
    assert(relays[0] == RelayDirection::DestinationToClient);
    assert(relays[1] == RelayDirection::ClientToDestination);
}

/// The end of one direction leaves the opposite direction as it was,
/// running or ended, and changes nothing else of the session.
pub proof fn lemma_relay_end_spares_opposite(
    session: SessionView,
    direction: RelayDirection,
    outcome: RelayOutcome,
)
    ensures
        session.after_relay_end(direction, outcome).status(direction.opposite())
            == session.status(direction.opposite()),
        session.after_relay_end(direction, outcome).id == session.id,
        session.after_relay_end(direction, outcome).peer == session.peer,
        session.after_relay_end(direction, outcome).destination == session.destination,
{
}

/// The two directions of a session end independently: whichever ends
/// first, the session comes to the same state.
pub proof fn lemma_relay_ends_commute(
    session: SessionView,
    direction: RelayDirection,
    outcome: RelayOutcome,
    opposite_outcome: RelayOutcome,
)
    ensures
        session.after_relay_end(direction, outcome).after_relay_end(
            direction.opposite(),
            opposite_outcome,
        ) == session.after_relay_end(direction.opposite(), opposite_outcome).after_relay_end(
            direction,
            outcome,
        ),
{
}

/// A relaying session is complete exactly when neither direction is
/// running; with one direction ended and the other running it is not.
pub proof fn lemma_complete_iff_both_ended(session: SessionView)
    requires
        session.phase is Relaying,
    ensures
        session.is_complete() <==> (session.status(RelayDirection::ClientToDestination) != Some(
            RelayStatus::Running,
        ) && session.status(RelayDirection::DestinationToClient) != Some(RelayStatus::Running)),
{
}

/// A session moves forward only: once its connect attempt has ended, a
/// further connect outcome changes nothing, and once a direction has
/// ended, a further end of that direction changes nothing.
pub proof fn lemma_session_moves_forward_only(
    session: SessionView,
    connect: ConnectOutcome,
    direction: RelayDirection,
    outcome: RelayOutcome,
)
    ensures
        !(session.phase is Connecting) ==> session.after_connect(connect) == session,
        session.status(direction) != Some(RelayStatus::Running) ==> session.after_relay_end(
            direction,
            outcome,
        ) == session,
{
}

} // verus!
