//! The client's address resolution and send-size check.

use vstd::prelude::*;

use crate::endpoint::Endpoint;
use crate::endpoint::parse_socket_v4;
use crate::endpoint::parsed_socket_v4;

verus! {

/// Why a client operation failed: a destination address the address grammar
/// refuses, or a transport error from the OS.
#[derive(Clone, Copy, Debug, PartialEq, Eq, Structural)]
pub enum ClientError {
    /// the destination address did not parse
    AddrParse,
    /// the OS reported the error number `errno`
    Os { errno: i32 },
}

/// Turns a textual `a.b.c.d:port` destination into an endpoint: exactly the
/// addresses the textual grammar accepts resolve, a malformed address is
/// rejected before any socket operation is attempted, and the canonical text
/// of any endpoint resolves back to that endpoint.
pub fn resolve_peer(addr: &str) -> (r: Result<Endpoint, ClientError>)
    ensures
        match parsed_socket_v4(addr@) {
            Some(t) => r == Ok::<Endpoint, ClientError>(
                Endpoint { a: t.0, b: t.1, c: t.2, d: t.3, port: t.4 },
            ),
            None => r == Err::<Endpoint, ClientError>(ClientError::AddrParse),
        },
        forall|e: Endpoint| addr@ == e.spec_text() ==> r == Ok::<Endpoint, ClientError>(e),
{
    match parse_socket_v4(addr) {
        Some(ep) => Ok(ep),
        None => Err(ClientError::AddrParse),
    }
}

/// Whether the kernel accepted the whole message: in the protocol's message
/// mode a send either takes the entire payload or fails, so a sent count
/// unequal to the payload length is a logical inconsistency the caller must
/// treat as a bug signal.
pub fn send_complete(requested_len: usize, sent: usize) -> (ok: bool)
    ensures
        ok == (sent == requested_len),
{
    sent == requested_len
}

} // verus!
