//! The endpoint: one identity bound to one transport-provider
//! instance.
//!
//! Binding itself is the provider's asynchronous work; this module owns
//! what the endpoint decides: how supplied key material and relay
//! hints become a bind configuration, and how the lifecycle — live
//! until closed, terminally closed once — governs connecting and
//! accepting.

use vstd::prelude::*;

use crate::errors::PvError;
use crate::identity::{Identity, SECRET_KEY_LEN};
use crate::ticket::{decode_ticket, ticket_remote_id, TicketInfo};

verus! {

/// Whether one relay URL text parses: a fixed function of the text
/// alone, decided by the provider's URL grammar.
pub uninterp spec fn relay_url_ok(s: Seq<char>) -> bool;

/// Which relay servers a bind will use: the provider's defaults, or
/// exactly the custom list the caller supplied.
pub enum RelayPlan {
    /// No relay URLs were supplied: the provider's default relays.
    DefaultRelays,
    /// A non-empty list of relay URLs, each one well-formed.
    CustomRelays(Vec<String>),
}

/// Everything a bind needs that this core decides: the identity to
/// bind and the relay plan.
pub struct EndpointSetup {
    /// The identity the endpoint will be bound to.
    pub identity: Identity,
    /// The relay servers the provider is to use.
    pub relay: RelayPlan,
}

/// Whether optionally supplied key bytes are acceptable: absent, or
/// exactly 32 of them.
pub open spec fn key_bytes_ok(key_bytes: Option<Vec<u8>>) -> bool {
    key_bytes matches Some(b) ==> b@.len() == SECRET_KEY_LEN
}

/// Whether every supplied relay URL parses. An absent or empty list
/// holds no text to parse and selects the default relays instead.
pub open spec fn relay_urls_ok(relay_urls: Option<Vec<String>>) -> bool {
    match relay_urls {
        Some(us) => forall|j: int| 0 <= j < us@.len() ==> #[trigger] relay_url_ok(us@[j]@),
        None => true,
    }
}

/// Turns the caller's raw inputs into a bind configuration: key bytes
/// must number exactly 32 when given (`InvalidKeyLength` otherwise,
/// checked first), and every supplied relay URL must parse (a bad one
/// fails the bind before it starts, as `BindFailed`). A missing or
/// empty URL list selects the provider's default relays.
pub fn prepare_endpoint(key_bytes: Option<Vec<u8>>, relay_urls: Option<Vec<String>>) -> (r: Result<
    EndpointSetup,
    PvError,
>)
    ensures
        r is Ok <==> key_bytes_ok(key_bytes) && relay_urls_ok(relay_urls),
        !key_bytes_ok(key_bytes) ==> r == Err::<EndpointSetup, PvError>(PvError::InvalidKeyLength),
        key_bytes_ok(key_bytes) && !relay_urls_ok(relay_urls) ==> r == Err::<EndpointSetup, PvError>(
            PvError::BindFailed,
        ),
        r matches Ok(setup) ==> {
            &&& setup.identity.wf()
            &&& (key_bytes matches Some(b) ==> setup.identity@ == b@)
            &&& match relay_urls {
                None => setup.relay is DefaultRelays,
                Some(us) => if us@.len() == 0 {
                    setup.relay is DefaultRelays
                } else {
                    setup.relay matches RelayPlan::CustomRelays(vs) && vs@ == us@
                },
            }
        },
{
    let identity = match Identity::create(key_bytes) {
        Ok(id) => id,
        Err(e) => {
            return Err(e);
        },
    };
    let urls_parse: bool = match &relay_urls {
        None => true,
        Some(us) => all_relay_urls_parse(us),
    };
    if !urls_parse {
        return Err(PvError::BindFailed);
    }
    let relay = match relay_urls {
        None => RelayPlan::DefaultRelays,
        Some(us) => {
            if us.len() == 0 {
                RelayPlan::DefaultRelays
            } else {
                RelayPlan::CustomRelays(us)
            }
        },
    };
    Ok(EndpointSetup { identity, relay })
}

/// Whether every URL text in the list parses as a relay URL.
fn all_relay_urls_parse(us: &Vec<String>) -> (r: bool)
    ensures
        r == (forall|j: int| 0 <= j < us@.len() ==> #[trigger] relay_url_ok(us@[j]@)),
{
    let mut i: usize = 0;
    while i < us.len()
        invariant
            i <= us@.len(),
            forall|j: int| 0 <= j < i ==> #[trigger] relay_url_ok(us@[j]@),
        decreases us@.len() - i,
    {
        if !relay_url_parses(us[i].as_str()) {
            proof {
                assert(!relay_url_ok(us@[i as int]@));
            }
            return false;
        }
        i = i + 1;
    }
    true
}

/// The endpoint's lifecycle: live from a successful bind until it is
/// closed, and closed terminally. Closing is idempotent and is never
/// an error; every operation on a closed endpoint is refused as
/// `EndpointClosed`.
pub struct EndpointLifecycle {
    closed: bool,
}

impl EndpointLifecycle {
    /// Whether the endpoint has been closed.
    pub closed spec fn is_closed(&self) -> bool {
        self.closed
    }

    /// A freshly bound endpoint is live.
    pub fn new() -> (r: EndpointLifecycle)
        ensures
            !r.is_closed(),
    {
        EndpointLifecycle { closed: false }
    }

    /// Closes the endpoint: terminal and idempotent, an error never.
    /// Established connections are deliberately left untouched, so
    /// in-flight transfers survive endpoint teardown.
    pub fn close(&mut self)
        ensures
            final (self).is_closed(),
    {
        self.closed = true;
    }

    /// Whether operations are still served.
    pub fn is_live(&self) -> (r: bool)
        ensures
            r == !self.is_closed(),
    {
        !self.closed
    }

    /// Admits an operation only while the endpoint is live:
    /// `EndpointClosed` once the endpoint is closed, and only then.
    pub fn guard(&self) -> (r: Result<(), PvError>)
        ensures
            r is Ok <==> !self.is_closed(),
            self.is_closed() ==> r == Err::<(), PvError>(PvError::EndpointClosed),
    {
        if self.closed {
            Err(PvError::EndpointClosed)
        } else {
            Ok(())
        }
    }
}

/// What the provider's accept loop handed back, after the transport's
/// own waiting: an inbound session presenting the dialer's public
/// identifier, a failed inbound handshake, or the provider reporting
/// the endpoint closed.
pub enum AcceptEvent {
    /// A dialer completed the handshake, presenting this identifier.
    Inbound(String),
    /// An inbound handshake began and failed.
    HandshakeFailed,
    /// The provider's accept ended because the endpoint closed.
    ProviderClosed,
}

/// Decides one pending accept: a closed endpoint resolves it as
/// `EndpointClosed` rather than leaving it hanging, whatever the
/// event; while live, an inbound session yields the dialer's verified
/// identifier and a failed handshake is `ConnectFailed`.
pub fn accept_decision(lc: &EndpointLifecycle, ev: AcceptEvent) -> (r: Result<String, PvError>)
    ensures
        lc.is_closed() ==> r == Err::<String, PvError>(PvError::EndpointClosed),
        !lc.is_closed() ==> match ev {
            AcceptEvent::Inbound(id) => r == Ok::<String, PvError>(id),
            AcceptEvent::HandshakeFailed => r == Err::<String, PvError>(PvError::ConnectFailed),
            AcceptEvent::ProviderClosed => r == Err::<String, PvError>(PvError::EndpointClosed),
        },
{
    if !lc.is_live() {
        return Err(PvError::EndpointClosed);
    }
    match ev {
        AcceptEvent::Inbound(id) => Ok(id),
        AcceptEvent::HandshakeFailed => Err(PvError::ConnectFailed),
        AcceptEvent::ProviderClosed => Err(PvError::EndpointClosed),
    }
}

/// Decides a connect request up to the dial: refused as
/// `EndpointClosed` on a closed endpoint, as `InvalidTicket` on a
/// ticket that does not decode; otherwise the remote identifier the
/// dial must be made to. Decoding alters no endpoint state.
pub fn connect_decision(lc: &EndpointLifecycle, ticket: &str) -> (r: Result<TicketInfo, PvError>)
    ensures
        lc.is_closed() ==> r == Err::<TicketInfo, PvError>(PvError::EndpointClosed),
        !lc.is_closed() ==> match r {
            Ok(info) => ticket_remote_id(ticket@) matches Some(id) && info.remote_id@ == id,
            Err(e) => e == PvError::InvalidTicket && ticket_remote_id(ticket@) is None,
        },
{
    if !lc.is_live() {
        return Err(PvError::EndpointClosed);
    }
    decode_ticket(ticket)
}

/// Relies on `iroh::RelayUrl`'s `FromStr`: whether a relay URL text
/// parses depends on the text alone.
#[verifier::external_body]
fn relay_url_parses(s: &str) -> (r: bool)
    ensures
        r == relay_url_ok(s@),
{
    s.parse::<iroh::RelayUrl>().is_ok()
}

} // verus!
