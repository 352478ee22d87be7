//! The pure parts of the QUIC transport: roles, states, the pre-shared key
//! derived from the X25519 exchange, and connection ids.
use vstd::prelude::*;

use crate::primitives::{hkdf_sha256, hkdf_sha256_32};
use vstd::string::StringSliceAdditionalSpecFns;

verus! {

/// Length of the derived PSK in bytes.
pub const PSK_LEN: usize = 32;

/// Maximum idle timeout in milliseconds.
pub const MAX_IDLE_TIMEOUT_MS: u64 = 30000;

/// Keepalive interval in milliseconds (less than the idle timeout).
pub const KEEPALIVE_INTERVAL_MS: u64 = 15000;

/// Initial max data (connection-level flow control).
pub const INITIAL_MAX_DATA: u64 = 10000000;

/// Initial max stream data (per-stream flow control).
pub const INITIAL_MAX_STREAM_DATA: u64 = 1000000;

/// Maximum concurrent bidirectional streams.
pub const INITIAL_MAX_STREAMS_BIDI: u64 = 100;

/// Maximum UDP packet size for QUIC.
pub const MAX_DATAGRAM_SIZE: usize = 1350;

/// Role in the QUIC handshake.
#[derive(Debug, Clone, Copy, PartialEq, Eq, Structural)]
pub enum QuicRole {
    /// Client initiates the connection (caller).
    Client,
    /// Server accepts the connection (answerer).
    Server,
}

/// QUIC connection state.
#[derive(Debug, Clone, Copy, PartialEq, Eq, Structural)]
pub enum QuicState {
    /// QUIC handshake in progress.
    Handshaking,
    /// Connection established, ready for streams.
    Established,
    /// Connection is closing.
    Closing,
    /// Connection is closed.
    Closed,
}

/// The state of a connection from what the QUIC library reports.
pub fn quic_state(is_closed: bool, is_draining: bool, is_established: bool) -> (r: QuicState)
    ensures
        r == (if is_closed {
            QuicState::Closed
        } else if is_draining {
            QuicState::Closing
        } else if is_established {
            QuicState::Established
        } else {
            QuicState::Handshaking
        }),
{
    if is_closed {
        QuicState::Closed
    } else if is_draining {
        QuicState::Closing
    } else if is_established {
        QuicState::Established
    } else {
        QuicState::Handshaking
    }
}

/// The PSK that two peers derive from their X25519 shared secret.
pub open spec fn psk_of(shared_secret: Seq<u8>) -> Seq<u8> {
    hkdf_sha256("wispers-connect-quic-v1".spec_bytes(), shared_secret, "tls13-psk".spec_bytes())
}

/// Derive a TLS 1.3 Pre-Shared Key from an X25519 shared secret, with
/// HKDF-SHA256 under a domain-specific salt and info string.
pub fn derive_psk(shared_secret: &[u8; 32]) -> (r: [u8; 32])
    ensures
        r@ == psk_of(shared_secret@),
{
    hkdf_sha256_32(
        "wispers-connect-quic-v1".as_bytes(),
        shared_secret.as_slice(),
        "tls13-psk".as_bytes(),
    )
}

/// PSK identity used in the TLS 1.3 handshake (both peers use it).
pub fn psk_identity() -> (r: &'static [u8])
    ensures
        r@ == "wispers-connect-v1".spec_bytes(),
{
    "wispers-connect-v1".as_bytes()
}

/// ALPN protocol identifier for QUIC connections.
pub fn alpn() -> (r: &'static [u8])
    ensures
        r@ == "wispers-connect".spec_bytes(),
{
    "wispers-connect".as_bytes()
}

/// What the client's PSK callback writes: the identity, NUL-terminated, and
/// the key, when both buffers are large enough; `None` otherwise.
pub fn psk_client_fill(identity_capacity: usize, psk_capacity: usize, psk: &[u8; 32]) -> (r: Option<(Vec<u8>, Vec<u8>)>)
    ensures
        identity_capacity < "wispers-connect-v1".spec_bytes().len() + 1 || psk_capacity < PSK_LEN
            ==> r is None,
        !(identity_capacity < "wispers-connect-v1".spec_bytes().len() + 1 || psk_capacity
            < PSK_LEN) ==> (r matches Some((id, key)) && id@ == "wispers-connect-v1".spec_bytes()
            + seq![0u8] && key@ == psk@),
{
    let id = psk_identity();
    if identity_capacity <= id.len() {
        return None;
    }
    if psk_capacity < PSK_LEN {
        return None;
    }
    let mut identity: Vec<u8> = Vec::new();
    identity.extend_from_slice(id);
    identity.push(0u8);
    let mut key: Vec<u8> = Vec::new();
    key.extend_from_slice(psk.as_slice());
    assert(identity@ =~= "wispers-connect-v1".spec_bytes() + seq![0u8]);
    assert(key@ =~= psk@);
    Some((identity, key))
}

/// What the server's PSK callback writes: the key, when the client named
/// our identity and the buffer is large enough; `None` otherwise.
pub fn psk_server_fill(identity: Option<&[u8]>, psk_capacity: usize, psk: &[u8; 32]) -> (r: Option<
    Vec<u8>,
>)
    ensures
        match identity {
            Some(id) => id@ == "wispers-connect-v1".spec_bytes() && psk_capacity >= PSK_LEN,
            None => false,
        } ==> (r matches Some(key) && key@ == psk@),
        !match identity {
            Some(id) => id@ == "wispers-connect-v1".spec_bytes() && psk_capacity >= PSK_LEN,
            None => false,
        } ==> r is None,
{
    let expected = psk_identity();
    let id = match identity {
        Some(id) => id,
        None => {
            return None;
        },
    };
    if id.len() != expected.len() {
        return None;
    }
    let mut i: usize = 0;
    while i < id.len()
        invariant
            identity == Some(id),
            id@.len() == expected@.len(),
            expected@ == "wispers-connect-v1".spec_bytes(),
            i <= id@.len(),
            forall|j: int| 0 <= j < i ==> id@[j] == expected@[j],
        decreases id@.len() - i,
    {
        if id[i] != expected[i] {
            assert(id@[i as int] != expected@[i as int]);
            return None;
        }
        i = i + 1;
    }
    assert(id@ =~= expected@);
    if psk_capacity < PSK_LEN {
        return None;
    }
    let mut key: Vec<u8> = Vec::new();
    key.extend_from_slice(psk.as_slice());
    assert(key@ =~= psk@);
    Some(key)
}

/// The first bidirectional stream id of a role: client-initiated streams
/// are 0, 4, 8, ..., server-initiated ones 1, 5, 9, ....
pub open spec fn stream_base(role: QuicRole) -> u64 {
    match role {
        QuicRole::Client => 0,
        QuicRole::Server => 1,
    }
}

/// The first bidirectional stream id of a role.
pub fn role_stream_base(role: QuicRole) -> (r: u64)
    ensures
        r == stream_base(role),
{
    match role {
        QuicRole::Client => 0,
        QuicRole::Server => 1,
    }
}

/// The highest stream id that is tried.
pub open spec fn max_stream_candidate() -> int {
    4 * INITIAL_MAX_STREAMS_BIDI
}

/// The first id among `from`, `from + 4`, ... up to the highest one tried
/// that this side has not opened yet.
pub open spec fn first_unopened(opened: Seq<u64>, from: int) -> Option<u64>
    decreases max_stream_candidate() + 5 - from,
{
    if from < 0 || from > max_stream_candidate() {
        None
    } else if !opened.contains(from as u64) {
        Some(from as u64)
    } else {
        first_unopened(opened, from + 4)
    }
}

/// The next stream id to try when opening a stream: the first id from
/// `from` on, in steps of four, that is not among the `opened` ones, or
/// `None` when the ids run out. (The caller asks the QUIC library whether
/// the peer already uses it, and if so tries again from four further.)
pub fn next_stream_candidate(opened: &[u64], from: u64) -> (r: Option<u64>)
    ensures
        r == first_unopened(opened@, from as int),
{
    let mut c: u64 = from;
    while c <= 4 * INITIAL_MAX_STREAMS_BIDI
        invariant
            from <= c,
            first_unopened(opened@, from as int) == first_unopened(opened@, c as int),
        decreases 4 * INITIAL_MAX_STREAMS_BIDI + 5 - c,
    {
        let mut found = false;
        let mut i: usize = 0;
        while i < opened.len()
            invariant
                i <= opened@.len(),
                found <==> exists|j: int| 0 <= j < i && opened@[j] == c,
            decreases opened@.len() - i,
        {
            if opened[i] == c {
                found = true;
            }
            i = i + 1;
        }
        if !found {
            proof {
                assert(!opened@.contains(c));
            }
            return Some(c);
        }
        proof {
            assert(opened@.contains(c));
        }
        c = c + 4;
    }
    None
}

/// The big-endian bytes of a 64-bit integer.
pub open spec fn be_bytes_i64(n: i64) -> Seq<u8> {
    let u = n as u64;
    seq![
        ((u / 72057594037927936) % 256) as u8,
        ((u / 281474976710656) % 256) as u8,
        ((u / 1099511627776) % 256) as u8,
        ((u / 4294967296) % 256) as u8,
        ((u / 16777216) % 256) as u8,
        ((u / 65536) % 256) as u8,
        ((u / 256) % 256) as u8,
        (u % 256) as u8,
    ]
}

/// The QUIC connection id of a connection: the id's big-endian bytes.
pub fn conn_id_bytes(id: i64) -> (r: Vec<u8>)
    ensures
        r@ == be_bytes_i64(id),
{
    let u = id as u64;
    let mut r: Vec<u8> = Vec::new();
    r.push(((u / 72057594037927936) % 256) as u8);
    r.push(((u / 281474976710656) % 256) as u8);
    r.push(((u / 1099511627776) % 256) as u8);
    r.push(((u / 4294967296) % 256) as u8);
    r.push(((u / 16777216) % 256) as u8);
    r.push(((u / 65536) % 256) as u8);
    r.push(((u / 256) % 256) as u8);
    r.push((u % 256) as u8);
    assert(r@ =~= be_bytes_i64(id));
    r
}

} // verus!
