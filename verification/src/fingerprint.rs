//! The client fingerprint: the address and the User-Agent a request came
//! with.

use vstd::prelude::*;
use vstd::string::StringExecFns;

verus! {

/// An IPv4 address by its four octets, or an IPv6 address by its eight
/// segments. Two addresses are equal when they are of one family and agree
/// in every part; an IPv4 address never equals an IPv6 one.
#[derive(Clone, Copy, Debug, PartialEq, Eq, Structural)]
pub enum IpAddress {
    V4(u8, u8, u8, u8),
    V6(u16, u16, u16, u16, u16, u16, u16, u16),
}

impl IpAddress {
    /// `0.0.0.0`, which stands in for a peer address that is missing or
    /// cannot be read.
    pub open spec fn spec_unspecified() -> IpAddress {
        IpAddress::V4(0, 0, 0, 0)
    }

    #[verifier::when_used_as_spec(spec_unspecified)]
    pub fn unspecified() -> (ip: IpAddress)
        ensures
            ip == IpAddress::V4(0, 0, 0, 0),
    {
        IpAddress::V4(0, 0, 0, 0)
    }
}

/// What a session is pinned to.
#[derive(Debug)]
pub struct Fingerprint {
    pub ip: IpAddress,
    pub user_agent: String,
}

/// The mathematical value of a `Fingerprint`.
pub struct FingerprintView {
    pub ip: IpAddress,
    pub user_agent: Seq<char>,
}

impl View for Fingerprint {
    type V = FingerprintView;

    open spec fn view(&self) -> FingerprintView {
        FingerprintView { ip: self.ip, user_agent: self.user_agent@ }
    }
}

/// What the transport layer saw of one request.
#[derive(Debug)]
pub struct RequestFacts {
    /// The peer's address, where the connection gave one that parses.
    pub peer_ip: Option<IpAddress>,
    /// The `User-Agent` header, where the request had a readable one.
    pub user_agent: Option<String>,
    /// The `X-Simulated-IP` header, where present and a valid address.
    pub simulated_ip: Option<IpAddress>,
    /// The `X-Simulated-User-Agent` header, where present and readable.
    pub simulated_user_agent: Option<String>,
}

/// The mathematical value of `RequestFacts`.
pub struct RequestFactsView {
    pub peer_ip: Option<IpAddress>,
    pub user_agent: Option<Seq<char>>,
    pub simulated_ip: Option<IpAddress>,
    pub simulated_user_agent: Option<Seq<char>>,
}

impl View for RequestFacts {
    type V = RequestFactsView;

    open spec fn view(&self) -> RequestFactsView {
        RequestFactsView {
            peer_ip: self.peer_ip,
            user_agent: match self.user_agent {
                Some(s) => Some(s@),
                None => None,
            },
            simulated_ip: self.simulated_ip,
            simulated_user_agent: match self.simulated_user_agent {
                Some(s) => Some(s@),
                None => None,
            },
        }
    }
}

/// The User-Agent recorded for a request that names none.
pub open spec fn unknown_agent() -> Seq<char> {
    "unknown"@
}

/// The fingerprint a request counts as coming from.
///
/// The address is the peer's, or `0.0.0.0` without one; the agent is the
/// `User-Agent` header, or `"unknown"` without one. The simulation headers
/// replace either part only where `allow_simulated` is set.
pub open spec fn fingerprint_of(facts: RequestFactsView, allow_simulated: bool) -> FingerprintView {
    FingerprintView {
        ip: if allow_simulated && facts.simulated_ip.is_some() {
            facts.simulated_ip.unwrap()
        } else if facts.peer_ip.is_some() {
            facts.peer_ip.unwrap()
        } else {
            IpAddress::spec_unspecified()
        },
        user_agent: if allow_simulated && facts.simulated_user_agent.is_some() {
            facts.simulated_user_agent.unwrap()
        } else if facts.user_agent.is_some() {
            facts.user_agent.unwrap()
        } else {
            unknown_agent()
        },
    }
}

/// Derives the fingerprint of a request.
///
/// `allow_simulated` opens the override by the simulation headers. It is
/// meant for test set-ups only: with it set, any caller chooses its own
/// fingerprint, and pinning detects nothing.
pub fn derive_fingerprint(facts: RequestFacts, allow_simulated: bool) -> (f: Fingerprint)
    ensures
        f@ == fingerprint_of(facts@, allow_simulated),
{
    let RequestFacts { peer_ip, user_agent, simulated_ip, simulated_user_agent } = facts;
    let transport_ip = match peer_ip {
        Some(ip) => ip,
        None => IpAddress::unspecified(),
    };
    let transport_agent = match user_agent {
        Some(agent) => agent,
        None => String::from_str("unknown"),
    };
    let ip = match simulated_ip {
        Some(ip) => if allow_simulated {
            ip
        } else {
            transport_ip
        },
        None => transport_ip,
    };
    let agent = match simulated_user_agent {
        Some(agent) => if allow_simulated {
            agent
        } else {
            transport_agent
        },
        None => transport_agent,
    };
    Fingerprint { ip, user_agent: agent }
}

/// With the override closed, the simulation headers change nothing.
pub proof fn lemma_closed_override_ignores_simulation(
    facts: RequestFactsView,
    other_ip: Option<IpAddress>,
    other_agent: Option<Seq<char>>,
)
    ensures
        fingerprint_of(facts, false) == fingerprint_of(
            RequestFactsView { simulated_ip: other_ip, simulated_user_agent: other_agent, ..facts },
            false,
        ),
{
}

} // verus!
