//! The ticket codec: the transportable text form of a node's
//! reachability descriptor.
//!
//! A ticket is the provider's address descriptor — the public
//! identifier plus reachability hints — serialized as text. Decoding
//! recovers exactly one public identifier or fails as `InvalidTicket`;
//! unknown optional fields in the text are ignored, never refused, so
//! the format can grow.

use vstd::prelude::*;

use crate::errors::PvError;

verus! {

/// The provider's reachability descriptor: the dialing information a
/// ticket carries. Opaque here; the provider builds and consumes it.
#[verifier::external_type_specification]
#[verifier::external_body]
pub struct ExEndpointAddr(iroh::EndpointAddr);

/// The public identifier named by a ticket text, when the text has the
/// expected serialization shape: a fixed function of the text alone.
pub uninterp spec fn ticket_remote_id(s: Seq<char>) -> Option<Seq<char>>;

/// The public identifier a reachability descriptor carries, in its
/// textual form.
pub uninterp spec fn descriptor_id(a: iroh::EndpointAddr) -> Seq<char>;

/// What decoding yields from a valid ticket.
pub struct TicketInfo {
    /// The remote node's public identifier, as its textual form.
    pub remote_id: String,
}

/// Decodes a ticket text into the remote descriptor's identifier, or
/// refuses text without the expected serialization shape as
/// `InvalidTicket`. Decoding has no effect on any endpoint.
pub fn decode_ticket(s: &str) -> (r: Result<TicketInfo, PvError>)
    ensures
        match r {
            Ok(info) => ticket_remote_id(s@) matches Some(id) && info.remote_id@ == id,
            Err(e) => e == PvError::InvalidTicket && ticket_remote_id(s@) is None,
        },
{
    match parse_ticket(s) {
        Some(remote_id) => Ok(TicketInfo { remote_id }),
        None => Err(PvError::InvalidTicket),
    }
}

/// Serializes the local descriptor into a ticket text that a remote
/// peer can decode. Encoding always succeeds, and the produced ticket
/// decodes to exactly this descriptor's public identifier: a ticket
/// names one identifier, the one of the descriptor it was made from.
pub fn ticket_for_descriptor(addr: &iroh::EndpointAddr) -> (r: String)
    ensures
        ticket_remote_id(r@) == Some(descriptor_id(*addr)),
{
    encode_ticket(addr)
}

/// Relies on `serde_json::from_str` for `iroh::EndpointAddr` and on the
/// identifier's display form: whether a ticket text parses, and the
/// identifier it names, depend on the text alone. Unknown fields are
/// ignored by the descriptor's derived deserializer.
#[verifier::external_body]
fn parse_ticket(s: &str) -> (r: Option<String>)
    ensures
        r is Some <==> ticket_remote_id(s@) is Some,
        r matches Some(id) ==> ticket_remote_id(s@) matches Some(t) && id@ == t,
{
    match serde_json::from_str::<iroh::EndpointAddr>(s) {
        Ok(addr) => Some(addr.id.to_string()),
        Err(_) => None,
    }
}

/// Relies on `serde_json::to_string` for `iroh::EndpointAddr`: writing
/// the derived serialization of this plain struct to a byte buffer
/// cannot fail, the derived deserializer reads back the shape the
/// serializer writes, and the identifier survives the round trip
/// through its hex display form.
#[verifier::external_body]
fn encode_ticket(addr: &iroh::EndpointAddr) -> (r: String)
    ensures
        ticket_remote_id(r@) == Some(descriptor_id(*addr)),
{
    serde_json::to_string(addr).expect("serializing an address descriptor to a buffer cannot fail")
}

} // verus!
