//! Node states, errors and the status codes shared with foreign callers.
use vstd::prelude::*;

use crate::crypto::PairingCodeError;
use crate::roster::RosterVerificationError;

verus! {

/// The state a node is currently in (state machine state, not persisted state).
#[derive(Debug, Clone, Copy, PartialEq, Eq, Structural)]
pub enum NodeState {
    /// Node needs to register with the hub.
    Pending,
    /// Node is registered but not yet activated.
    Registered,
    /// Node is activated and ready for P2P connections.
    Activated,
}

/// The display name of a node state.
pub open spec fn node_state_name(s: NodeState) -> Seq<char> {
    match s {
        NodeState::Pending => "Pending"@,
        NodeState::Registered => "Registered"@,
        NodeState::Activated => "Activated"@,
    }
}

impl NodeState {
    /// The state's display name.
    pub fn name(&self) -> (r: &'static str)
        ensures
            r@ == node_state_name(*self),
    {
        match self {
            NodeState::Pending => "Pending",
            NodeState::Registered => "Registered",
            NodeState::Activated => "Activated",
        }
    }
}

/// Status codes shared across the FFI boundary.
#[derive(Debug, Clone, Copy, PartialEq, Eq, Structural)]
pub enum WispersStatus {
    Success,
    NullPointer,
    InvalidUtf8,
    StoreError,
    AlreadyRegistered,
    NotRegistered,
    UnexpectedStage,
    NotFound,
    BufferTooSmall,
    MissingCallback,
    InvalidPairingCode,
    ActivationFailed,
    HubError,
    ConnectionFailed,
    Timeout,
    InvalidState,
    Unauthenticated,
}

/// The numeric code of a status, as foreign callers see it.
pub open spec fn status_code(s: WispersStatus) -> i32 {
    match s {
        WispersStatus::Success => 0,
        WispersStatus::NullPointer => 1,
        WispersStatus::InvalidUtf8 => 2,
        WispersStatus::StoreError => 3,
        WispersStatus::AlreadyRegistered => 4,
        WispersStatus::NotRegistered => 5,
        WispersStatus::UnexpectedStage => 6,
        WispersStatus::NotFound => 7,
        WispersStatus::BufferTooSmall => 8,
        WispersStatus::MissingCallback => 9,
        WispersStatus::InvalidPairingCode => 10,
        WispersStatus::ActivationFailed => 11,
        WispersStatus::HubError => 12,
        WispersStatus::ConnectionFailed => 13,
        WispersStatus::Timeout => 14,
        WispersStatus::InvalidState => 15,
        WispersStatus::Unauthenticated => 16,
    }
}

impl WispersStatus {
    /// The numeric code of this status.
    pub fn code(&self) -> (r: i32)
        ensures
            r == status_code(*self),
    {
        match self {
            WispersStatus::Success => 0,
            WispersStatus::NullPointer => 1,
            WispersStatus::InvalidUtf8 => 2,
            WispersStatus::StoreError => 3,
            WispersStatus::AlreadyRegistered => 4,
            WispersStatus::NotRegistered => 5,
            WispersStatus::UnexpectedStage => 6,
            WispersStatus::NotFound => 7,
            WispersStatus::BufferTooSmall => 8,
            WispersStatus::MissingCallback => 9,
            WispersStatus::InvalidPairingCode => 10,
            WispersStatus::ActivationFailed => 11,
            WispersStatus::HubError => 12,
            WispersStatus::ConnectionFailed => 13,
            WispersStatus::Timeout => 14,
            WispersStatus::InvalidState => 15,
            WispersStatus::Unauthenticated => 16,
        }
    }
}

/// Node state stage indicator for FFI.
#[derive(Debug, Clone, Copy, PartialEq, Eq, Structural)]
pub enum WispersStage {
    /// Node needs to register with the hub.
    Pending,
    /// Node is registered but not yet activated.
    Registered,
    /// Node is activated and ready for P2P connections.
    Activated,
}

/// Node state indicator for FFI.
#[derive(Debug, Clone, Copy, PartialEq, Eq, Structural)]
pub enum WispersNodeState {
    /// Node needs to register with the hub.
    Pending,
    /// Node is registered but not yet activated.
    Registered,
    /// Node is activated and ready for P2P connections.
    Activated,
}

/// The FFI node state of a node state.
pub fn node_state_to_ffi(state: NodeState) -> (r: WispersNodeState)
    ensures
        r == (match state {
            NodeState::Pending => WispersNodeState::Pending,
            NodeState::Registered => WispersNodeState::Registered,
            NodeState::Activated => WispersNodeState::Activated,
        }),
{
    match state {
        NodeState::Pending => WispersNodeState::Pending,
        NodeState::Registered => WispersNodeState::Registered,
        NodeState::Activated => WispersNodeState::Activated,
    }
}

/// Errors of a node state store.
#[derive(Debug, Clone)]
pub enum StorageError {
    /// A host callback is missing (named).
    MissingCallback(&'static str),
    /// A host callback returned a status other than success.
    ForeignStatus(WispersStatus),
    /// The registration could not be encoded.
    RegistrationEncode,
    /// The stored registration could not be decoded.
    RegistrationDecode,
    /// The in-memory store's lock was poisoned.
    Poisoned,
}

/// The status code of a gRPC failure.
#[derive(Debug, Clone, Copy, PartialEq, Eq, Structural)]
pub enum RpcCode {
    Success,
    Cancelled,
    Unknown,
    InvalidArgument,
    DeadlineExceeded,
    NotFound,
    AlreadyExists,
    PermissionDenied,
    ResourceExhausted,
    FailedPrecondition,
    Aborted,
    OutOfRange,
    Unimplemented,
    Internal,
    Unavailable,
    DataLoss,
    Unauthenticated,
}

/// Error type for hub operations.
#[derive(Debug)]
pub enum HubError {
    /// The hub address is not a valid URI.
    InvalidUri(String),
    /// The connection to the hub failed.
    Connection(String),
    /// A call to the hub failed with a gRPC status.
    Rpc { code: RpcCode, message: String },
    /// A metadata value could not be encoded.
    Metadata(String),
    /// The roster that the hub gave does not verify.
    RosterVerification(RosterVerificationError),
}

/// Whether a hub error is a gRPC failure with this code.
pub open spec fn hub_error_has_code(e: HubError, code: RpcCode) -> bool {
    match e {
        HubError::Rpc { code: c, .. } => c == code,
        _ => false,
    }
}

impl HubError {
    pub fn is_unauthenticated(&self) -> (r: bool)
        ensures
            r == hub_error_has_code(*self, RpcCode::Unauthenticated),
    {
        match self {
            HubError::Rpc { code, .. } => *code == RpcCode::Unauthenticated,
            _ => false,
        }
    }

    pub fn is_not_found(&self) -> (r: bool)
        ensures
            r == hub_error_has_code(*self, RpcCode::NotFound),
    {
        match self {
            HubError::Rpc { code, .. } => *code == RpcCode::NotFound,
            _ => false,
        }
    }

    pub fn is_peer_rejected(&self) -> (r: bool)
        ensures
            r == hub_error_has_code(*self, RpcCode::FailedPrecondition),
    {
        match self {
            HubError::Rpc { code, .. } => *code == RpcCode::FailedPrecondition,
            _ => false,
        }
    }

    pub fn is_peer_unavailable(&self) -> (r: bool)
        ensures
            r == hub_error_has_code(*self, RpcCode::Unavailable),
    {
        match self {
            HubError::Rpc { code, .. } => *code == RpcCode::Unavailable,
            _ => false,
        }
    }
}

/// Errors of node operations.
#[derive(Debug)]
pub enum NodeStateError {
    Store(StorageError),
    Hub(HubError),
    AlreadyRegistered,
    NotRegistered,
    InvalidPairingCode(PairingCodeError),
    MacVerificationFailed,
    MissingEndorserResponse,
    RosterVerificationFailed(RosterVerificationError),
    /// Operation requires a different node state than the current one.
    InvalidState { current: NodeState, required: &'static str },
}

impl NodeStateError {
    pub fn store(error: StorageError) -> (r: Self)
        ensures
            r == NodeStateError::Store(error),
    {
        NodeStateError::Store(error)
    }

    pub fn hub(error: HubError) -> (r: Self)
        ensures
            r == NodeStateError::Hub(error),
    {
        NodeStateError::Hub(error)
    }

    pub fn is_unauthenticated(&self) -> (r: bool)
        ensures
            r == (match *self {
                NodeStateError::Hub(e) => hub_error_has_code(e, RpcCode::Unauthenticated),
                _ => false,
            }),
    {
        match self {
            NodeStateError::Hub(e) => e.is_unauthenticated(),
            _ => false,
        }
    }
}

/// The status that a node error is reported as to foreign callers.
pub open spec fn status_of_error(e: NodeStateError) -> WispersStatus {
    match e {
        NodeStateError::Store(s) => match s {
            StorageError::ForeignStatus(status) => status,
            StorageError::MissingCallback(_) => WispersStatus::MissingCallback,
            _ => WispersStatus::StoreError,
        },
        NodeStateError::Hub(_) => WispersStatus::HubError,
        NodeStateError::AlreadyRegistered => WispersStatus::AlreadyRegistered,
        NodeStateError::NotRegistered => WispersStatus::NotRegistered,
        NodeStateError::InvalidPairingCode(_) => WispersStatus::InvalidPairingCode,
        NodeStateError::MacVerificationFailed => WispersStatus::ActivationFailed,
        NodeStateError::MissingEndorserResponse => WispersStatus::ActivationFailed,
        NodeStateError::RosterVerificationFailed(_) => WispersStatus::ActivationFailed,
        NodeStateError::InvalidState { .. } => WispersStatus::InvalidState,
    }
}

impl WispersStatus {
    /// The status that a node error is reported as.
    pub fn from_error(value: &NodeStateError) -> (r: Self)
        ensures
            r == status_of_error(*value),
    {
        match value {
            NodeStateError::Store(e) => match e {
                StorageError::ForeignStatus(status) => *status,
                StorageError::MissingCallback(_) => WispersStatus::MissingCallback,
                _ => WispersStatus::StoreError,
            },
            NodeStateError::Hub(_) => WispersStatus::HubError,
            NodeStateError::AlreadyRegistered => WispersStatus::AlreadyRegistered,
            NodeStateError::NotRegistered => WispersStatus::NotRegistered,
            NodeStateError::InvalidPairingCode(_) => WispersStatus::InvalidPairingCode,
            NodeStateError::MacVerificationFailed => WispersStatus::ActivationFailed,
            NodeStateError::MissingEndorserResponse => WispersStatus::ActivationFailed,
            NodeStateError::RosterVerificationFailed(_) => WispersStatus::ActivationFailed,
            NodeStateError::InvalidState { .. } => WispersStatus::InvalidState,
        }
    }
}

} // verus!
