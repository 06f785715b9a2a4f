use tcp_forwarder::accept::{AcceptEvent, AcceptLoop, BindOutcome, Dispatch};
use tcp_forwarder::address::{Ipv4Address, Ipv6Address, SocketAddress};
use tcp_forwarder::allowlist::Allowlist;
use tcp_forwarder::config::Configuration;
use tcp_forwarder::diagnostic::Diagnostic;
use tcp_forwarder::filter::{Admission, Rejection};
use tcp_forwarder::session::SessionPhase;

fn destination() -> SocketAddress {
    SocketAddress::V4 { ip: Ipv4Address::new(203, 0, 113, 5), port: 8443 }
}

fn config_allowing(entries: Vec<Ipv4Address>) -> Configuration {
    Configuration::new(String::from("0.0.0.0:9000"), destination(), Allowlist::new(entries))
}

fn started() -> AcceptLoop {
    AcceptLoop::start(BindOutcome::Bound).unwrap()
}

fn from_v4(a: u8, b: u8, c: u8, d: u8, port: u16) -> AcceptEvent {
    AcceptEvent::Connection { source: SocketAddress::V4 { ip: Ipv4Address::new(a, b, c, d), port } }
}

#[test]
fn admitted_connection_is_forwarded() {
    let config = config_allowing(vec![Ipv4Address::new(198, 51, 100, 1)]);
    let mut accept = started();
    let source = SocketAddress::V4 { ip: Ipv4Address::new(198, 51, 100, 1), port: 50123 };
    let taken = accept.step(&config, AcceptEvent::Connection { source });
    assert_eq!(
        taken.dispatch,
        Dispatch::Forward {
            session: 1,
            peer: Ipv4Address::new(198, 51, 100, 1),
            destination: destination(),
        }
    );
    assert_eq!(
        taken.diagnostics,
        vec![
            Diagnostic::ConnectionAccepted { session: 1, source },
            Diagnostic::AdmissionDecided {
                session: 1,
                source,
                admission: Admission::Admit { peer: Ipv4Address::new(198, 51, 100, 1) },
            },
        ]
    );
    assert_eq!(accept.accepted(), 1);
}

#[test]
fn unlisted_connection_is_discarded() {
    let config = config_allowing(vec![Ipv4Address::new(198, 51, 100, 1)]);
    let mut accept = started();
    let source = SocketAddress::V4 { ip: Ipv4Address::new(198, 51, 100, 2), port: 50123 };
    let taken = accept.step(&config, AcceptEvent::Connection { source });
    assert_eq!(taken.dispatch, Dispatch::Discard { session: 1, cause: Rejection::NotAllowed });
    assert_eq!(
        taken.diagnostics,
        vec![
            Diagnostic::ConnectionAccepted { session: 1, source },
            Diagnostic::AdmissionDecided {
                session: 1,
                source,
                admission: Admission::Reject { cause: Rejection::NotAllowed },
            },
        ]
    );
    assert_eq!(accept.accepted(), 1);
}

#[test]
fn ipv6_connection_is_discarded_as_unsupported() {
    let config = config_allowing(vec![Ipv4Address::new(0, 0, 0, 1)]);
    let mut accept = started();
    let source =
        SocketAddress::V6 { ip: Ipv6Address { bits: 1 }, port: 50123, flowinfo: 0, scope_id: 0 };
    let taken = accept.step(&config, AcceptEvent::Connection { source });
    assert_eq!(
        taken.dispatch,
        Dispatch::Discard { session: 1, cause: Rejection::UnsupportedFamily }
    );
    assert_eq!(
        taken.diagnostics,
        vec![
            Diagnostic::ConnectionAccepted { session: 1, source },
            Diagnostic::AdmissionDecided {
                session: 1,
                source,
                admission: Admission::Reject { cause: Rejection::UnsupportedFamily },
            },
        ]
    );
}

fn failure(reason: &str) -> AcceptEvent {
    AcceptEvent::Failure { reason: String::from(reason) }
}

#[test]
fn accept_failure_is_reported_and_not_counted() {
    let config = config_allowing(vec![Ipv4Address::new(198, 51, 100, 1)]);
    let mut accept = started();
    let taken = accept.step(&config, failure("Too many open files (os error 24)"));
    assert_eq!(taken.dispatch, Dispatch::Idle);
    assert_eq!(
        taken.diagnostics,
        vec![Diagnostic::AcceptFailed {
            reason: String::from("Too many open files (os error 24)")
        }]
    );
    assert_eq!(accept.accepted(), 0);
    // The loop goes on: the next connection is the first session.
    let taken = accept.step(&config, from_v4(198, 51, 100, 1, 1000));
    assert!(matches!(taken.dispatch, Dispatch::Forward { session: 1, .. }));
    assert_eq!(accept.accepted(), 1);
}

#[test]
fn session_identifiers_grow_by_one_per_accepted_connection() {
    let config = config_allowing(vec![Ipv4Address::new(198, 51, 100, 1)]);
    let mut accept = started();
    let events = vec![
        from_v4(198, 51, 100, 1, 1000),
        from_v4(198, 51, 100, 9, 1001),
        failure("connection aborted"),
        from_v4(198, 51, 100, 1, 1002),
        failure("connection aborted"),
        failure("connection reset"),
        from_v4(10, 0, 0, 1, 1003),
    ];
    let mut sessions: Vec<u64> = Vec::new();
    for event in events {
        match accept.step(&config, event).dispatch {
            Dispatch::Forward { session, .. } => sessions.push(session),
            Dispatch::Discard { session, .. } => sessions.push(session),
            Dispatch::Idle => {}
        }
    }
    assert_eq!(sessions, vec![1, 2, 3, 4]);
    assert_eq!(accept.accepted(), 4);
    assert!(accept.has_capacity());
}

#[test]
fn every_forward_goes_to_the_same_destination() {
    let config = config_allowing(vec![
        Ipv4Address::new(198, 51, 100, 1),
        Ipv4Address::new(198, 51, 100, 2),
    ]);
    let mut accept = started();
    let mut forwarded = 0;
    for round in 0..50u16 {
        let last: u8 = if round % 2 == 0 { 1 } else { 2 };
        let taken = accept.step(&config, from_v4(198, 51, 100, last, 2000 + round));
        match taken.dispatch {
            Dispatch::Forward { destination: d, peer, .. } => {
                assert_eq!(d, destination());
                assert_eq!(d, config.destination());
                assert_eq!(peer, Ipv4Address::new(198, 51, 100, last));
                forwarded += 1;
            }
            other => panic!("expected a forward, got {:?}", other),
        }
    }
    assert_eq!(forwarded, 50);
}

#[test]
fn decision_does_not_depend_on_what_came_before() {
    let config = config_allowing(vec![Ipv4Address::new(198, 51, 100, 1)]);
    let mut fresh = started();
    let mut busy = started();
    for _ in 0..7 {
        busy.step(&config, from_v4(198, 51, 100, 2, 1000));
        busy.step(&config, failure("connection aborted"));
    }
    let on_fresh = fresh.step(&config, from_v4(198, 51, 100, 1, 1000)).dispatch;
    let on_busy = busy.step(&config, from_v4(198, 51, 100, 1, 1000)).dispatch;
    assert_eq!(
        on_fresh,
        Dispatch::Forward {
            session: 1,
            peer: Ipv4Address::new(198, 51, 100, 1),
            destination: destination(),
        }
    );
    assert_eq!(
        on_busy,
        Dispatch::Forward {
            session: 8,
            peer: Ipv4Address::new(198, 51, 100, 1),
            destination: destination(),
        }
    );
}

#[test]
fn only_a_forward_opens_a_session() {
    let forward = Dispatch::Forward {
        session: 9,
        peer: Ipv4Address::new(198, 51, 100, 1),
        destination: destination(),
    };
    match forward.open_session() {
        Some(session) => {
            assert_eq!(session.id(), 9);
            assert_eq!(session.peer(), Ipv4Address::new(198, 51, 100, 1));
            assert_eq!(session.destination(), destination());
            assert_eq!(session.phase(), SessionPhase::Connecting);
        }
        None => panic!("expected a session"),
    }
    assert_eq!(
        Dispatch::Discard { session: 9, cause: Rejection::NotAllowed }.open_session(),
        None
    );
    assert_eq!(
        Dispatch::Discard { session: 9, cause: Rejection::UnsupportedFamily }.open_session(),
        None
    );
    assert_eq!(Dispatch::Idle.open_session(), None);
}
