use tcp_forwarder::address::{Ipv4Address, SocketAddress};
use tcp_forwarder::diagnostic::Diagnostic;
use tcp_forwarder::relay::{relay_report, RelayDirection, RelayOutcome};
use tcp_forwarder::session::{ConnectOutcome, RelayStatus, Session, SessionPhase};

fn peer() -> Ipv4Address {
    Ipv4Address::new(198, 51, 100, 1)
}

fn destination() -> SocketAddress {
    SocketAddress::V4 { ip: Ipv4Address::new(203, 0, 113, 5), port: 8443 }
}

fn refused() -> ConnectOutcome {
    ConnectOutcome::Failed { reason: String::from("Connection refused (os error 111)") }
}

fn reset() -> RelayOutcome {
    RelayOutcome::Failed { reason: String::from("Connection reset by peer (os error 104)") }
}

#[test]
fn opened_session_is_connecting() {
    let session = Session::open(12, peer(), destination());
    assert_eq!(session.id(), 12);
    assert_eq!(session.peer(), peer());
    assert_eq!(session.destination(), destination());
    assert_eq!(session.phase(), SessionPhase::Connecting);
    assert!(session.is_connecting());
    assert!(!session.is_complete());
    assert_eq!(session.status(RelayDirection::ClientToDestination), None);
    assert_eq!(session.status(RelayDirection::DestinationToClient), None);
    assert!(!session.is_running(RelayDirection::ClientToDestination));
    assert!(!session.is_running(RelayDirection::DestinationToClient));
}

#[test]
fn connected_session_launches_both_directions() {
    let mut session = Session::open(3, peer(), destination());
    let plan = session.connect_result(ConnectOutcome::Connected);
    assert_eq!(
        plan.relays,
        vec![RelayDirection::DestinationToClient, RelayDirection::ClientToDestination]
    );
    assert_eq!(plan.diagnostic, Diagnostic::ConnectSucceeded { session: 3, peer: peer() });
    assert_eq!(
        session.phase(),
        SessionPhase::Relaying {
            client_to_destination: RelayStatus::Running,
            destination_to_client: RelayStatus::Running,
        }
    );
    assert!(!session.is_connecting());
    assert!(session.is_running(RelayDirection::ClientToDestination));
    assert!(session.is_running(RelayDirection::DestinationToClient));
    assert!(!session.is_complete());
    assert_eq!(session.id(), 3);
    assert_eq!(session.destination(), destination());
}

#[test]
fn failed_connect_abandons_the_session() {
    let mut session = Session::open(4, peer(), destination());
    let plan = session.connect_result(refused());
    assert!(plan.relays.is_empty());
    assert_eq!(
        plan.diagnostic,
        Diagnostic::ConnectFailed {
            session: 4,
            peer: peer(),
            reason: String::from("Connection refused (os error 111)"),
        }
    );
    assert_eq!(session.phase(), SessionPhase::Abandoned);
    assert!(session.is_complete());
    assert!(!session.is_connecting());
    assert_eq!(session.status(RelayDirection::ClientToDestination), None);
    assert_eq!(session.status(RelayDirection::DestinationToClient), None);
}

#[test]
fn relay_end_reports_the_byte_count() {
    let mut session = Session::open(5, peer(), destination());
    session.connect_result(ConnectOutcome::Connected);
    let report = session
        .relay_ended(RelayDirection::ClientToDestination, RelayOutcome::Finished { bytes: 4 });
    assert_eq!(
        report,
        Diagnostic::RelayFinished {
            session: 5,
            direction: RelayDirection::ClientToDestination,
            bytes: 4,
        }
    );
    assert_eq!(
        session.status(RelayDirection::ClientToDestination),
        Some(RelayStatus::Finished { bytes: 4 })
    );
}

#[test]
fn relay_failure_is_reported_and_stays_with_its_direction() {
    let mut session = Session::open(6, peer(), destination());
    session.connect_result(ConnectOutcome::Connected);
    let report = session.relay_ended(RelayDirection::DestinationToClient, reset());
    assert_eq!(
        report,
        Diagnostic::RelayFailed {
            session: 6,
            direction: RelayDirection::DestinationToClient,
            reason: String::from("Connection reset by peer (os error 104)"),
        }
    );
    assert_eq!(session.status(RelayDirection::DestinationToClient), Some(RelayStatus::Failed));
    assert_eq!(session.status(RelayDirection::ClientToDestination), Some(RelayStatus::Running));
    assert!(session.is_running(RelayDirection::ClientToDestination));
    assert!(!session.is_complete());
}

#[test]
fn session_completes_when_both_directions_have_ended() {
    let mut session = Session::open(7, peer(), destination());
    session.connect_result(ConnectOutcome::Connected);
    session.relay_ended(RelayDirection::DestinationToClient, RelayOutcome::Finished { bytes: 0 });
    assert!(!session.is_complete());
    session.relay_ended(RelayDirection::ClientToDestination, reset());
    assert!(session.is_complete());
    assert_eq!(
        session.phase(),
        SessionPhase::Relaying {
            client_to_destination: RelayStatus::Failed,
            destination_to_client: RelayStatus::Finished { bytes: 0 },
        }
    );
}

#[test]
fn order_of_the_two_ends_does_not_matter() {
    let up = || RelayOutcome::Finished { bytes: 10 };
    let down = || RelayOutcome::Finished { bytes: 7_000_000_000 };

    let mut one = Session::open(8, peer(), destination());
    one.connect_result(ConnectOutcome::Connected);
    one.relay_ended(RelayDirection::ClientToDestination, up());
    one.relay_ended(RelayDirection::DestinationToClient, down());

    let mut other = Session::open(8, peer(), destination());
    other.connect_result(ConnectOutcome::Connected);
    other.relay_ended(RelayDirection::DestinationToClient, down());
    other.relay_ended(RelayDirection::ClientToDestination, up());

    assert_eq!(one, other);
    assert_eq!(
        one.phase(),
        SessionPhase::Relaying {
            client_to_destination: RelayStatus::Finished { bytes: 10 },
            destination_to_client: RelayStatus::Finished { bytes: 7_000_000_000 },
        }
    );
}

#[test]
fn relay_report_for_each_outcome() {
    assert_eq!(
        relay_report(
            9,
            RelayDirection::DestinationToClient,
            RelayOutcome::Finished { bytes: u64::MAX }
        ),
        Diagnostic::RelayFinished {
            session: 9,
            direction: RelayDirection::DestinationToClient,
            bytes: u64::MAX,
        }
    );
    assert_eq!(
        relay_report(9, RelayDirection::ClientToDestination, RelayOutcome::Finished { bytes: 0 }),
        Diagnostic::RelayFinished {
            session: 9,
            direction: RelayDirection::ClientToDestination,
            bytes: 0,
        }
    );
    assert_eq!(
        relay_report(9, RelayDirection::ClientToDestination, reset()),
        Diagnostic::RelayFailed {
            session: 9,
            direction: RelayDirection::ClientToDestination,
            reason: String::from("Connection reset by peer (os error 104)"),
        }
    );
}
