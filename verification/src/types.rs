//! Node identity and registration data.
use vstd::prelude::*;

use crate::primitives::random_bytes;

verus! {

pub const ROOT_KEY_LEN: usize = 32;

/// Secret root key material for a node.
pub struct RootKey {
    bytes: [u8; 32],
}

impl View for RootKey {
    type V = Seq<u8>;

    /// The key bytes.
    closed spec fn view(&self) -> Seq<u8> {
        self.bytes@
    }
}

impl RootKey {
    /// A fresh random root key.
    pub fn generate() -> (r: Self)
        ensures
            r@.len() == ROOT_KEY_LEN,
    {
        let random = random_bytes(ROOT_KEY_LEN);
        let mut bytes = [0u8; 32];
        let mut i: usize = 0;
        while i < ROOT_KEY_LEN
            invariant
                random@.len() == ROOT_KEY_LEN,
                bytes@.len() == ROOT_KEY_LEN,
                i <= ROOT_KEY_LEN,
            decreases ROOT_KEY_LEN - i,
        {
            bytes[i] = random[i];
            i = i + 1;
        }
        RootKey { bytes }
    }

    /// The key's debug text, which never shows the key.
    pub fn redacted_text(&self) -> (r: &'static str)
        ensures
            r@ == "RootKey([redacted; 32])"@,
    {
        "RootKey([redacted; 32])"
    }

    pub fn from_bytes(bytes: [u8; 32]) -> (r: Self)
        ensures
            r@ == bytes@,
    {
        RootKey { bytes }
    }

    pub fn as_bytes(&self) -> (r: &[u8; 32])
        ensures
            r@ == self@,
            r@.len() == ROOT_KEY_LEN,
    {
        &self.bytes
    }

    /// A copy of this key.
    pub fn duplicate(&self) -> (r: Self)
        ensures
            r@ == self@,
    {
        RootKey { bytes: self.bytes }
    }
}

/// Authentication token for node-to-hub communication.
#[derive(Clone, PartialEq, Eq)]
pub struct AuthToken {
    value: String,
}

impl View for AuthToken {
    type V = Seq<char>;

    closed spec fn view(&self) -> Seq<char> {
        self.value@
    }
}

impl AuthToken {
    /// The token's debug text, which never shows the token.
    pub fn redacted_text(&self) -> (r: &'static str)
        ensures
            r@ == "AuthToken([redacted])"@,
    {
        "AuthToken([redacted])"
    }

    pub fn new(value: &str) -> (r: Self)
        ensures
            r@ == value@,
    {
        AuthToken { value: String::from_str(value) }
    }

    pub fn as_str(&self) -> (r: &str)
        ensures
            r@ == self@,
    {
        self.value.as_str()
    }

    /// A copy of this token.
    pub fn duplicate(&self) -> (r: Self)
        ensures
            r@ == self@,
    {
        AuthToken { value: self.value.clone() }
    }
}

/// Identifier describing which connectivity group the node belongs to.
#[derive(Debug, Clone, PartialEq, Eq, Hash)]
pub struct ConnectivityGroupId {
    value: String,
}

impl View for ConnectivityGroupId {
    type V = Seq<char>;

    closed spec fn view(&self) -> Seq<char> {
        self.value@
    }
}

impl ConnectivityGroupId {
    pub fn new(value: &str) -> (r: Self)
        ensures
            r@ == value@,
    {
        ConnectivityGroupId { value: String::from_str(value) }
    }

    /// The identifier's text.
    pub fn as_str(&self) -> (r: &str)
        ensures
            r@ == self@,
    {
        self.value.as_str()
    }

    /// A copy of this identifier.
    pub fn duplicate(&self) -> (r: Self)
        ensures
            r@ == self@,
    {
        ConnectivityGroupId { value: self.value.clone() }
    }
}

/// The model of a registration.
pub struct SpecRegistration {
    pub connectivity_group_id: Seq<char>,
    pub node_number: i32,
    pub auth_token: Option<Seq<char>>,
}

/// Connectivity metadata produced after remote registration.
#[derive(Clone, PartialEq, Eq)]
pub struct NodeRegistration {
    pub connectivity_group_id: ConnectivityGroupId,
    pub node_number: i32,
    auth_token: Option<AuthToken>,
}

impl View for NodeRegistration {
    type V = SpecRegistration;

    closed spec fn view(&self) -> SpecRegistration {
        SpecRegistration {
            connectivity_group_id: self.connectivity_group_id@,
            node_number: self.node_number,
            auth_token: match self.auth_token {
                Some(t) => Some(t@),
                None => None,
            },
        }
    }
}

impl NodeRegistration {
    pub fn new(
        connectivity_group_id: ConnectivityGroupId,
        node_number: i32,
        auth_token: AuthToken,
    ) -> (r: Self)
        ensures
            r@ == (SpecRegistration {
                connectivity_group_id: connectivity_group_id@,
                node_number,
                auth_token: Some(auth_token@),
            }),
    {
        NodeRegistration { connectivity_group_id, node_number, auth_token: Some(auth_token) }
    }

    pub fn auth_token(&self) -> (r: Option<&AuthToken>)
        ensures
            match r {
                Some(t) => self@.auth_token == Some(t@),
                None => self@.auth_token is None,
            },
    {
        match &self.auth_token {
            Some(t) => Some(t),
            None => None,
        }
    }

    /// The node number (the model's field, for callers outside this module).
    pub fn number(&self) -> (r: i32)
        ensures
            r == self@.node_number,
    {
        self.node_number
    }

    /// The connectivity group (the model's field, for callers outside this
    /// module).
    pub fn group_id(&self) -> (r: &ConnectivityGroupId)
        ensures
            r@ == self@.connectivity_group_id,
    {
        &self.connectivity_group_id
    }

    /// A copy of this registration.
    pub fn duplicate(&self) -> (r: Self)
        ensures
            r@ == self@,
    {
        NodeRegistration {
            connectivity_group_id: self.connectivity_group_id.duplicate(),
            node_number: self.node_number,
            auth_token: match &self.auth_token {
                Some(t) => Some(t.duplicate()),
                None => None,
            },
        }
    }
}

/// Information about a node in the connectivity group.
///
/// This combines data from the hub (registration) and roster (activation status).
#[derive(Clone, Debug, PartialEq, Eq)]
pub struct NodeInfo {
    /// The node's number within the connectivity group.
    pub node_number: i32,
    /// The node's display name (may be empty).
    pub name: String,
    /// Whether this is the current node (self).
    pub is_self: bool,
    /// Whether the node is activated (in the roster and not revoked).
    /// None if we don't have roster access (not activated ourselves).
    pub is_activated: Option<bool>,
    /// Unix timestamp in milliseconds when the node was last seen.
    pub last_seen_at_millis: i64,
    /// Whether the node currently has an active connection to the hub.
    pub is_online: bool,
}

/// The model of the persisted node state.
pub struct SpecPersisted {
    pub root_key: Seq<u8>,
    pub registration: Option<SpecRegistration>,
}

/// Snapshot of all persisted node state.
pub struct PersistedNodeState {
    root_key: RootKey,
    registration: Option<NodeRegistration>,
}

impl View for PersistedNodeState {
    type V = SpecPersisted;

    closed spec fn view(&self) -> SpecPersisted {
        SpecPersisted {
            root_key: self.root_key@,
            registration: match self.registration {
                Some(r) => Some(r@),
                None => None,
            },
        }
    }
}

impl PersistedNodeState {
    /// Creates a new node state with a freshly generated root key.
    pub fn new() -> (r: Self)
        ensures
            r@.registration is None,
            r@.root_key.len() == ROOT_KEY_LEN,
    {
        PersistedNodeState { root_key: RootKey::generate(), registration: None }
    }

    /// A node state rebuilt from stored parts.
    pub fn from_stored(root_key: [u8; 32], registration: Option<NodeRegistration>) -> (r: Self)
        ensures
            r@.root_key == root_key@,
            r@.registration == (match registration {
                Some(reg) => Some(reg@),
                None => None,
            }),
    {
        PersistedNodeState { root_key: RootKey::from_bytes(root_key), registration }
    }

    pub fn is_registered(&self) -> (r: bool)
        ensures
            r == self@.registration is Some,
    {
        self.registration.is_some()
    }

    pub fn set_registration(&mut self, registration: NodeRegistration)
        ensures
            final(self)@ == (SpecPersisted {
                root_key: old(self)@.root_key,
                registration: Some(registration@),
            }),
    {
        self.registration = Some(registration);
    }

    /// The root key.
    pub fn root_key(&self) -> (r: &RootKey)
        ensures
            r@ == self@.root_key,
    {
        &self.root_key
    }

    /// The root key's bytes.
    pub fn root_key_bytes(&self) -> (r: &[u8; 32])
        ensures
            r@ == self@.root_key,
    {
        self.root_key.as_bytes()
    }

    /// The registration, if any.
    pub fn registration(&self) -> (r: Option<&NodeRegistration>)
        ensures
            match r {
                Some(reg) => self@.registration == Some(reg@),
                None => self@.registration is None,
            },
    {
        match &self.registration {
            Some(reg) => Some(reg),
            None => None,
        }
    }

    /// A copy of this state.
    pub fn duplicate(&self) -> (r: Self)
        ensures
            r@ == self@,
    {
        PersistedNodeState {
            root_key: self.root_key.duplicate(),
            registration: match &self.registration {
                Some(reg) => Some(reg.duplicate()),
                None => None,
            },
        }
    }
}

impl Default for PersistedNodeState {
    fn default() -> (r: Self)
        ensures
            r@.registration is None,
            r@.root_key.len() == ROOT_KEY_LEN,
    {
        Self::new()
    }
}

} // verus!
