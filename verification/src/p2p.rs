//! Peer-to-peer connection states and errors.
use vstd::prelude::*;

use crate::errors::HubError;
use vstd::string::StringSliceAdditionalSpecFns;

verus! {

/// Connection state for a P2P connection.
#[derive(Debug, Clone, Copy, PartialEq, Eq, Structural)]
pub enum ConnectionState {
    /// ICE is gathering candidates.
    Gathering,
    /// ICE is connecting to the peer.
    Connecting,
    /// Connection is established and ready for data.
    Connected,
    /// Connection has been disconnected.
    Disconnected,
    /// Connection failed (ICE failure or other error).
    Failed,
}

/// The state that the ICE agent reports.
#[derive(Debug, Clone, Copy, PartialEq, Eq, Structural)]
pub enum IceState {
    Disconnected,
    Gathering,
    Connecting,
    Connected,
    Completed,
    Failed,
    /// A state code that the agent does not name.
    Unknown(i32),
}

impl ConnectionState {
    /// The connection state of an ICE state.
    pub fn from_ice_state(ice_state: IceState) -> (r: Self)
        ensures
            r == (match ice_state {
                IceState::Disconnected => ConnectionState::Disconnected,
                IceState::Gathering => ConnectionState::Gathering,
                IceState::Connecting => ConnectionState::Connecting,
                IceState::Connected | IceState::Completed => ConnectionState::Connected,
                IceState::Failed | IceState::Unknown(_) => ConnectionState::Failed,
            }),
    {
        match ice_state {
            IceState::Disconnected => ConnectionState::Disconnected,
            IceState::Gathering => ConnectionState::Gathering,
            IceState::Connecting => ConnectionState::Connecting,
            IceState::Connected | IceState::Completed => ConnectionState::Connected,
            IceState::Failed | IceState::Unknown(_) => ConnectionState::Failed,
        }
    }

    /// Returns true if the connection is established and ready for data.
    pub fn is_connected(self) -> (r: bool)
        ensures
            r == (self == ConnectionState::Connected),
    {
        match self {
            ConnectionState::Connected => true,
            _ => false,
        }
    }

    /// Returns true if the connection is disconnected or failed.
    pub fn is_disconnected(self) -> (r: bool)
        ensures
            r == (self == ConnectionState::Disconnected || self == ConnectionState::Failed),
    {
        match self {
            ConnectionState::Disconnected | ConnectionState::Failed => true,
            _ => false,
        }
    }
}

/// The little-endian bytes of a 32-bit integer.
pub open spec fn le_bytes_i32(n: i32) -> Seq<u8> {
    let u = n as u32;
    seq![
        (u % 256) as u8,
        ((u / 256) % 256) as u8,
        ((u / 65536) % 256) as u8,
        ((u / 16777216) % 256) as u8,
    ]
}

/// The little-endian bytes of a 64-bit integer.
pub open spec fn le_bytes_i64(n: i64) -> Seq<u8> {
    let u = n as u64;
    seq![
        (u % 256) as u8,
        ((u / 256) % 256) as u8,
        ((u / 65536) % 256) as u8,
        ((u / 16777216) % 256) as u8,
        ((u / 4294967296) % 256) as u8,
        ((u / 1099511627776) % 256) as u8,
        ((u / 281474976710656) % 256) as u8,
        ((u / 72057594037927936) % 256) as u8,
    ]
}

/// What the caller of a connection signs: the answerer's node number
/// (little-endian), the caller's X25519 public key, and the caller's SDP.
pub open spec fn caller_signed_message(
    answerer_node_number: i32,
    caller_x25519_public_key: Seq<u8>,
    caller_sdp: Seq<u8>,
) -> Seq<u8> {
    le_bytes_i32(answerer_node_number) + caller_x25519_public_key + caller_sdp
}

/// What the answerer of a connection signs: the connection id
/// (little-endian), the answerer's X25519 public key, and its SDP.
pub open spec fn answerer_signed_message(
    connection_id: i64,
    answerer_x25519_public_key: Seq<u8>,
    answerer_sdp: Seq<u8>,
) -> Seq<u8> {
    le_bytes_i64(connection_id) + answerer_x25519_public_key + answerer_sdp
}

/// The caller's signed message.
pub fn caller_message(answerer_node_number: i32, caller_x25519_public_key: &[u8], caller_sdp: &str) -> (r: Vec<u8>)
    ensures
        r@ == caller_signed_message(
            answerer_node_number,
            caller_x25519_public_key@,
            caller_sdp.spec_bytes(),
        ),
{
    let u = answerer_node_number as u32;
    let mut r: Vec<u8> = Vec::new();
    r.push((u % 256) as u8);
    r.push(((u / 256) % 256) as u8);
    r.push(((u / 65536) % 256) as u8);
    r.push(((u / 16777216) % 256) as u8);
    let ghost head = r@;
    r.extend_from_slice(caller_x25519_public_key);
    let sdp = caller_sdp.as_bytes();
    r.extend_from_slice(sdp);
    assert(head =~= le_bytes_i32(answerer_node_number));
    assert(r@ =~= caller_signed_message(
        answerer_node_number,
        caller_x25519_public_key@,
        caller_sdp.spec_bytes(),
    ));
    r
}

/// The answerer's signed message.
pub fn answerer_message(connection_id: i64, answerer_x25519_public_key: &[u8], answerer_sdp: &str) -> (r: Vec<u8>)
    ensures
        r@ == answerer_signed_message(
            connection_id,
            answerer_x25519_public_key@,
            answerer_sdp.spec_bytes(),
        ),
{
    let u = connection_id as u64;
    let mut r: Vec<u8> = Vec::new();
    r.push((u % 256) as u8);
    r.push(((u / 256) % 256) as u8);
    r.push(((u / 65536) % 256) as u8);
    r.push(((u / 16777216) % 256) as u8);
    r.push(((u / 4294967296) % 256) as u8);
    r.push(((u / 1099511627776) % 256) as u8);
    r.push(((u / 281474976710656) % 256) as u8);
    r.push(((u / 72057594037927936) % 256) as u8);
    let ghost head = r@;
    r.extend_from_slice(answerer_x25519_public_key);
    let sdp = answerer_sdp.as_bytes();
    r.extend_from_slice(sdp);
    assert(head =~= le_bytes_i64(connection_id));
    assert(r@ =~= answerer_signed_message(
        connection_id,
        answerer_x25519_public_key@,
        answerer_sdp.spec_bytes(),
    ));
    r
}

/// Error type for P2P connection operations.
#[derive(Debug)]
pub enum P2pError {
    Hub(HubError),
    Ice(String),
    Encryption(String),
    PeerRejected(String),
    SignatureVerificationFailed,
    Disconnected,
    NotActivated,
}

/// Whether data may be sent or received in a connection state: a
/// disconnected or failed connection refuses with `Disconnected`.
pub fn check_open(state: ConnectionState) -> (r: Result<(), P2pError>)
    ensures
        r is Ok <==> !(state == ConnectionState::Disconnected || state
            == ConnectionState::Failed),
        r matches Err(e) ==> e is Disconnected,
{
    if state.is_disconnected() {
        return Err(P2pError::Disconnected);
    }
    Ok(())
}

} // verus!
