//! Startup decisions and the configuration they produce.
//!
//! Everything here is decided once, before the first connection is
//! accepted. The resulting [`Configuration`] never changes afterwards.

use vstd::prelude::*;
use crate::address::{Ipv4Address, SocketAddress};
use crate::allowlist::Allowlist;

verus! {

/// A condition that stops the proxy before it serves any traffic.
#[derive(Debug, PartialEq, Eq)]
pub enum StartupError {
    /// No bind address was given.
    MissingBindAddress,
    /// No forward address was given.
    MissingForwardAddress,
    /// The listening socket could not be bound, for the error that
    /// `reason` describes.
    BindFailed { reason: String },
    /// Looking up the forward address failed with the error that `reason`
    /// describes.
    ResolveFailed { reason: String },
    /// The forward address resolved to no endpoint at all.
    NoDestination,
}

impl StartupError {
    /// The text that describes this error to the operator: a fixed
    /// sentence for what was missing, and the description of the I/O
    /// error where there was one.
    pub open spec fn message_of(self) -> Seq<char> {
        match self {
            StartupError::MissingBindAddress => "Error, --bind-addr not specified"@,
            StartupError::MissingForwardAddress => "Error, --fwd-addr not specified"@,
            StartupError::BindFailed { reason } => reason@,
            StartupError::ResolveFailed { reason } => reason@,
            StartupError::NoDestination => "Error, --fwd-addr resolves to no address"@,
        }
    }

    /// The text that describes this error to the operator.
    pub fn message(&self) -> (text: String)
        ensures
            text@ == self.message_of(),
    {
        match self {
            StartupError::MissingBindAddress => "Error, --bind-addr not specified".to_owned(),
            StartupError::MissingForwardAddress => "Error, --fwd-addr not specified".to_owned(),
            StartupError::BindFailed { reason } => reason.clone(),
            StartupError::ResolveFailed { reason } => reason.clone(),
            StartupError::NoDestination => "Error, --fwd-addr resolves to no address".to_owned(),
        }
    }
}

/// What the two address options amount to: both addresses, or the error
/// for the first one that is missing, the bind address being looked at
/// first.
pub open spec fn addresses_of(bind_addr: Option<String>, fwd_addr: Option<String>) -> Result<
    (String, String),
    StartupError,
> {
    match (bind_addr, fwd_addr) {
        (None, _) => Err(StartupError::MissingBindAddress),
        (Some(_), None) => Err(StartupError::MissingForwardAddress),
        (Some(bind), Some(fwd)) => Ok((bind, fwd)),
    }
}

/// Checks that both required addresses were given and hands them back.
///
/// The bind address is looked at first: when both are missing, the error
/// names the bind address.
pub fn required_addresses(bind_addr: Option<String>, fwd_addr: Option<String>) -> (given: Result<
    (String, String),
    StartupError,
>)
    ensures
        given == addresses_of(bind_addr, fwd_addr),
{
    match bind_addr {
        None => Err(StartupError::MissingBindAddress),
        Some(bind) => match fwd_addr {
            None => Err(StartupError::MissingForwardAddress),
            Some(fwd) => Ok((bind, fwd)),
        },
    }
}

/// What the one lookup of the forward address came to.
#[derive(Debug, PartialEq, Eq)]
pub enum Resolution {
    /// The lookup returned `candidates`, in the resolver's order.
    Resolved { candidates: Vec<SocketAddress> },
    /// The lookup failed with the error that `reason` describes.
    Failed { reason: String },
}

/// The destination that a lookup leads to: the first endpoint that it
/// returned. A failed lookup, and one that returned nothing, lead to no
/// destination.
pub open spec fn destination_of(resolution: Resolution) -> Result<SocketAddress, StartupError> {
    match resolution {
        Resolution::Failed { reason } => Err(StartupError::ResolveFailed { reason }),
        Resolution::Resolved { candidates } => if candidates@.len() == 0 {
            Err(StartupError::NoDestination)
        } else {
            Ok(candidates@[0])
        },
    }
}

/// Selects the destination from what the lookup of the forward address
/// came to. Of several endpoints the first is taken and the others are
/// never looked at; the choice is made once and is never revised.
pub fn select_destination(resolution: Resolution) -> (chosen: Result<SocketAddress, StartupError>)
    ensures
        chosen == destination_of(resolution),
{
    match resolution {
        Resolution::Failed { reason } => Err(StartupError::ResolveFailed { reason }),
        Resolution::Resolved { candidates } => {
            if candidates.len() == 0 {
                Err(StartupError::NoDestination)
            } else {
                Ok(candidates[0])
            }
        },
    }
}

/// What a [`Configuration`] holds, as mathematical values.
pub struct ConfigurationView {
    /// The address the listening socket is bound to, as `host:port` text.
    pub bind_addr: Seq<char>,
    /// The one endpoint that every admitted connection is forwarded to.
    pub destination: SocketAddress,
    /// The IPv4 sources whose connections are forwarded.
    pub allowlist: Set<Ipv4Address>,
}

/// The values that are fixed for the whole run of the proxy.
///
/// A configuration is built once at startup and offers no way to change
/// it: every connection is decided against the same allowlist and
/// forwarded to the same destination.
#[derive(Debug)]
pub struct Configuration {
    bind_addr: String,
    destination: SocketAddress,
    allowlist: Allowlist,
}

impl View for Configuration {
    type V = ConfigurationView;

    closed spec fn view(&self) -> ConfigurationView {
        ConfigurationView {
            bind_addr: self.bind_addr@,
            destination: self.destination,
            allowlist: self.allowlist@,
        }
    }
}

impl Configuration {
    /// The configuration with the given bind address, destination and
    /// allowlist.
    pub fn new(bind_addr: String, destination: SocketAddress, allowlist: Allowlist) -> (config:
        Configuration)
        ensures
            config@ == (ConfigurationView {
                bind_addr: bind_addr@,
                destination,
                allowlist: allowlist@,
            }),
    {
        Configuration { bind_addr, destination, allowlist }
    }

    /// The address the listening socket is bound to.
    pub fn bind_addr(&self) -> (addr: &str)
        ensures
            addr@ == self@.bind_addr,
    {
        self.bind_addr.as_str()
    }

    /// The endpoint that admitted connections are forwarded to.
    pub fn destination(&self) -> (destination: SocketAddress)
        ensures
            destination == self@.destination,
    {
        self.destination
    }

    /// The allowlist that sources are checked against.
    pub fn allowlist(&self) -> (allowlist: &Allowlist)
        ensures
            allowlist@ == self@.allowlist,
    {
        &self.allowlist
    }
}

} // verus!
