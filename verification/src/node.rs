//! Node state storage and the node's state machine.
//!
//! A node is Pending (not registered), Registered (registered, not in the
//! roster) or Activated (in a roster it has verified). Operations check the
//! state and refuse with `InvalidState`. Where an operation talks to the
//! hub, the steps before and after each exchange are separate functions
//! here; the caller carries the messages.
use vstd::prelude::*;

use crate::crypto::{
    pairing_code_fields, pairing_mac, pairing_mac_valid, signing_seed, spki_signature_valid,
    verify_signature_spki, x25519_secret, PairingCode, PairingSecret, SigningKeyPair,
    X25519KeyPair,
};
use crate::base36::be_value;
use crate::errors::{NodeState, NodeStateError, StorageError};
use crate::p2p::{
    answerer_message, answerer_signed_message, caller_message, caller_signed_message, P2pError,
};
use crate::primitives::{
    ed25519_public_key, ed25519_sign, spki_encode, x25519_public_key, x25519_shared_secret,
};
use crate::text::{concat_text, find_char, index_of, owned, push_char, url_encode, url_encoded};
use crate::proto::{
    copy_bytes, spec_encode_activation_payload, spec_encode_pair_payload,
    spec_encode_revocation_payload, PairNodesMessage, PairPayload, RevocationPayload, Roster,
    SpecPairNodesMessage, SpecPairPayload, SpecRoster,
};
use crate::roster::{
    activation_payload_for, activation_roster, bootstrap_roster, build_activation_payload,
    compute_roster_hash, create_activation_roster, create_bootstrap_roster,
    create_revocation_roster, first_index, nodes_view, revocation_payload_for, revocation_roster,
    verify_roster, verify_roster_result,
};
use crate::types::{
    ConnectivityGroupId, NodeInfo, NodeRegistration, PersistedNodeState, SpecPersisted,
    SpecRegistration,
};
use vstd::string::StringSliceAdditionalSpecFns;

verus! {

/// Default hub address for production use.
pub open spec fn default_hub_addr() -> Seq<char> {
    "https://hub.connect.wispers.dev"@
}

//-- Storage -----------------------------------------------------------------

/// Storage of a node's persisted state. Hosts implement it.
pub trait NodeStateStore {
    /// What the store holds.
    spec fn stored(&self) -> Option<SpecPersisted>;

    fn load(&self) -> (r: Result<Option<PersistedNodeState>, StorageError>)
        ensures
            r matches Ok(s) ==> match s {
                Some(p) => self.stored() == Some(p@),
                None => self.stored() is None,
            },
    ;

    fn save(&mut self, state: &PersistedNodeState) -> (r: Result<(), StorageError>)
        ensures
            r is Ok ==> final(self).stored() == Some(state@),
    ;

    fn delete(&mut self) -> (r: Result<(), StorageError>)
        ensures
            r is Ok ==> final(self).stored() is None,
    ;
}

/// Simple, non-persistent store useful for testing and sketches.
pub struct InMemoryNodeStateStore {
    state: Option<PersistedNodeState>,
}

impl InMemoryNodeStateStore {
    pub fn new() -> (r: Self)
        ensures
            r.stored() is None,
    {
        InMemoryNodeStateStore { state: None }
    }
}

impl NodeStateStore for InMemoryNodeStateStore {
    closed spec fn stored(&self) -> Option<SpecPersisted> {
        match self.state {
            Some(p) => Some(p@),
            None => None,
        }
    }

    fn load(&self) -> (r: Result<Option<PersistedNodeState>, StorageError>)
        ensures
            r is Ok,
    {
        match &self.state {
            Some(p) => Ok(Some(p.duplicate())),
            None => Ok(None),
        }
    }

    fn save(&mut self, state: &PersistedNodeState) -> (r: Result<(), StorageError>)
        ensures
            r is Ok,
    {
        self.state = Some(state.duplicate());
        Ok(())
    }

    fn delete(&mut self) -> (r: Result<(), StorageError>)
        ensures
            r is Ok,
    {
        self.state = None;
        Ok(())
    }
}

/// Errors that can arise from the in-memory store (primarily poisoning).
#[derive(Debug, Clone, Copy, PartialEq, Eq, Structural)]
pub enum InMemoryStoreError {
    Poisoned,
}

//-- The node ----------------------------------------------------------------

/// The model of a node.
pub struct SpecNode {
    pub persisted: SpecPersisted,
    pub roster: Option<SpecRoster>,
}

/// The state of a node model.
pub open spec fn node_state_of(n: SpecNode) -> NodeState {
    if n.roster is Some {
        NodeState::Activated
    } else if n.persisted.registration is Some {
        NodeState::Registered
    } else {
        NodeState::Pending
    }
}

/// A node that can be in any state (Pending, Registered, Activated).
///
/// A node keeps no hub address of its own: it reads the one its storage
/// holds, so that overriding it there reaches every node.
pub struct Node {
    persisted: PersistedNodeState,
    signing_key: SigningKeyPair,
    encryption_key: X25519KeyPair,
    roster: Option<Roster>,
}

impl View for Node {
    type V = SpecNode;

    closed spec fn view(&self) -> SpecNode {
        SpecNode {
            persisted: self.persisted@,
            roster: match self.roster {
                Some(r) => Some(r@),
                None => None,
            },
        }
    }
}

/// The node number of a registered node model.
pub open spec fn my_number(n: SpecNode) -> i32 {
    n.persisted.registration->0.node_number
}

/// The SPKI document of a node model's signing key.
pub open spec fn my_spki(n: SpecNode) -> Seq<u8> {
    spki_encode(ed25519_public_key(signing_seed(n.persisted.root_key)))
}

impl Node {
    #[verifier::type_invariant]
    closed spec fn keys_match(self) -> bool {
        &&& self.signing_key@ == signing_seed(self.persisted@.root_key)
        &&& self.encryption_key@ == x25519_secret(self.persisted@.root_key)
        &&& self.roster is Some ==> self.persisted@.registration is Some
        &&& self.persisted@.root_key.len() == 32
    }

    /// Create a new pending node from initial state.
    pub fn new_pending(persisted: PersistedNodeState) -> (r: Self)
        ensures
            r@ == (SpecNode { persisted: persisted@, roster: None }),
    {
        let signing_key = SigningKeyPair::derive_from_root_key(persisted.root_key_bytes());
        let encryption_key = X25519KeyPair::derive_from_root_key(persisted.root_key_bytes());
        Node { persisted, signing_key, encryption_key, roster: None }
    }

    /// Create a registered node (has registration but no roster).
    pub fn new_registered(persisted: PersistedNodeState) -> (r: Result<
        Self,
        NodeStateError,
    >)
        ensures
            persisted@.registration is None ==> (r matches Err(e) && e is NotRegistered),
            persisted@.registration is Some ==> (r matches Ok(n) && n@ == (SpecNode {
                persisted: persisted@,
                roster: None,
            })),
    {
        if !persisted.is_registered() {
            return Err(NodeStateError::NotRegistered);
        }
        Ok(Self::new_pending(persisted))
    }

    /// Create an activated node (has registration and roster).
    pub fn new_activated(persisted: PersistedNodeState, roster: Roster) -> (r: Self)
        requires
            persisted@.registration is Some,
        ensures
            r@ == (SpecNode { persisted: persisted@, roster: Some(roster@) }),
    {
        let signing_key = SigningKeyPair::derive_from_root_key(persisted.root_key_bytes());
        let encryption_key = X25519KeyPair::derive_from_root_key(persisted.root_key_bytes());
        Node { persisted, signing_key, encryption_key, roster: Some(roster) }
    }

    /// Create an activated node with explicit configuration (for tests).
    pub fn new_activated_for_test(
        root_key: [u8; 32],
        roster: Roster,
        registration: NodeRegistration,
    ) -> (r: Self)
        ensures
            r@.persisted.root_key == root_key@,
            r@.persisted.registration == Some(registration@),
            r@.roster == Some(roster@),
    {
        let persisted = PersistedNodeState::from_stored(root_key, Some(registration));
        Self::new_activated(persisted, roster)
    }

    /// Get the current state of this node.
    pub fn state(&self) -> (r: NodeState)
        ensures
            r == node_state_of(self@),
    {
        if self.roster.is_some() {
            NodeState::Activated
        } else if self.persisted.is_registered() {
            NodeState::Registered
        } else {
            NodeState::Pending
        }
    }

    /// The hub address this node talks to: the one its storage holds now.
    pub fn hub_addr<S: NodeStateStore>(&self, storage: &NodeStorage<S>) -> (r: String)
        ensures
            r@ == storage.hub(),
    {
        storage.hub_addr()
    }

    /// Check if node is registered (has registration info).
    pub fn is_registered(&self) -> (r: bool)
        ensures
            r == self@.persisted.registration is Some,
    {
        self.persisted.is_registered()
    }

    /// Get the registration info. Returns None if not registered.
    pub fn registration(&self) -> (r: Option<&NodeRegistration>)
        ensures
            match r {
                Some(reg) => self@.persisted.registration == Some(reg@),
                None => self@.persisted.registration is None,
            },
    {
        self.persisted.registration()
    }

    /// Get the node's number. Returns None if not registered.
    pub fn node_number(&self) -> (r: Option<i32>)
        ensures
            match self@.persisted.registration {
                Some(reg) => r == Some(reg.node_number),
                None => r is None,
            },
    {
        match self.persisted.registration() {
            Some(reg) => Some(reg.number()),
            None => None,
        }
    }

    /// Get the connectivity group ID. Returns None if not registered.
    pub fn connectivity_group_id(&self) -> (r: Option<&ConnectivityGroupId>)
        ensures
            match self@.persisted.registration {
                Some(reg) => r matches Some(g) && g@ == reg.connectivity_group_id,
                None => r is None,
            },
    {
        match self.persisted.registration() {
            Some(reg) => Some(reg.group_id()),
            None => None,
        }
    }

    /// Get the root key bytes.
    pub fn root_key_bytes(&self) -> (r: &[u8; 32])
        ensures
            r@ == self@.persisted.root_key,
    {
        self.persisted.root_key_bytes()
    }

    /// The verified roster, for an activated node.
    pub fn roster(&self) -> (r: Option<&Roster>)
        ensures
            match self@.roster {
                Some(x) => r matches Some(y) && y@ == x,
                None => r is None,
            },
    {
        match &self.roster {
            Some(x) => Some(x),
            None => None,
        }
    }

    /// Get the signing key.
    pub fn signing_key(&self) -> (r: &SigningKeyPair)
        ensures
            r@ == signing_seed(self@.persisted.root_key),
    {
        proof {
            use_type_invariant(self);
        }
        &self.signing_key
    }

    /// Get the encryption key (X25519).
    pub fn encryption_key(&self) -> (r: &X25519KeyPair)
        ensures
            r@ == x25519_secret(self@.persisted.root_key),
    {
        proof {
            use_type_invariant(self);
        }
        &self.encryption_key
    }

    //-- State checks ----------------------------------------------------------

    /// Succeeds in the Pending state.
    pub fn require_pending(&self) -> (r: Result<(), NodeStateError>)
        ensures
            node_state_of(self@) == NodeState::Pending ==> r is Ok,
            node_state_of(self@) != NodeState::Pending ==> (r matches Err(
                NodeStateError::InvalidState { current, required },
            ) && current == node_state_of(self@) && required@ == "Pending"@),
    {
        let state = self.state();
        if state != NodeState::Pending {
            return Err(NodeStateError::InvalidState { current: state, required: "Pending" });
        }
        Ok(())
    }

    /// The registration, in the Registered state.
    pub fn require_registered(&self) -> (r: Result<&NodeRegistration, NodeStateError>)
        ensures
            node_state_of(self@) == NodeState::Registered ==> (r matches Ok(reg)
                && self@.persisted.registration == Some(reg@)),
            node_state_of(self@) != NodeState::Registered ==> (r matches Err(
                NodeStateError::InvalidState { current, required },
            ) && current == node_state_of(self@) && required@ == "Registered"@),
    {
        let state = self.state();
        if state != NodeState::Registered {
            return Err(NodeStateError::InvalidState { current: state, required: "Registered" });
        }
        match self.persisted.registration() {
            Some(reg) => Ok(reg),
            None => {
                assert(false);
                Err(NodeStateError::NotRegistered)
            },
        }
    }

    /// The registration, in the Registered or Activated state.
    pub fn require_at_least_registered(&self) -> (r: Result<&NodeRegistration, NodeStateError>)
        ensures
            node_state_of(self@) != NodeState::Pending ==> (r matches Ok(reg)
                && self@.persisted.registration == Some(reg@)),
            node_state_of(self@) == NodeState::Pending ==> (r matches Err(
                NodeStateError::InvalidState { current, required },
            ) && current == NodeState::Pending && required@ == "Registered or Activated"@),
    {
        proof {
            use_type_invariant(self);
        }
        match self.state() {
            NodeState::Pending => Err(
                NodeStateError::InvalidState {
                    current: NodeState::Pending,
                    required: "Registered or Activated",
                },
            ),
            _ => match self.persisted.registration() {
                Some(reg) => Ok(reg),
                None => {
                    assert(false);
                    Err(NodeStateError::NotRegistered)
                },
            },
        }
    }

    /// Succeeds in the Activated state.
    pub fn require_activated(&self) -> (r: Result<(), NodeStateError>)
        ensures
            node_state_of(self@) == NodeState::Activated ==> r is Ok,
            node_state_of(self@) != NodeState::Activated ==> (r matches Err(
                NodeStateError::InvalidState { current, required },
            ) && current == node_state_of(self@) && required@ == "Activated"@),
    {
        let state = self.state();
        if state != NodeState::Activated {
            return Err(NodeStateError::InvalidState { current: state, required: "Activated" });
        }
        Ok(())
    }
}


//-- Operations --------------------------------------------------------------

/// A node as the hub lists it.
#[derive(Debug)]
pub struct HubNode {
    pub node_number: i32,
    pub name: String,
    pub metadata: String,
    pub last_seen_at_millis: i64,
    pub is_online: bool,
}

/// Whether the roster has a node numbered `n` that is not revoked.
pub open spec fn active_in(nodes: Seq<crate::proto::SpecRosterNode>, n: i32) -> bool {
    exists|j: int| 0 <= j < nodes.len() && nodes[j].node_number == n && !nodes[j].revoked
}

/// Whether the roster lists node `n` (revoked or not).
pub open spec fn listed_in(nodes: Seq<crate::proto::SpecRosterNode>, n: i32) -> bool {
    exists|j: int| 0 <= j < nodes.len() && nodes[j].node_number == n
}

/// What the node list says of one hub node.
pub open spec fn node_info_matches(info: NodeInfo, h: HubNode, me: i32, roster: Option<SpecRoster>) -> bool {
    &&& info.node_number == h.node_number
    &&& info.name@ == h.name@
    &&& info.is_self == (h.node_number == me)
    &&& info.is_activated == (match roster {
        Some(r) => Some(active_in(r.nodes, h.node_number)),
        None => None,
    })
    &&& info.last_seen_at_millis == h.last_seen_at_millis
    &&& info.is_online == h.is_online
}

/// Whether a roster has an active node numbered `n`.
pub fn roster_has_active(roster: &Roster, n: i32) -> (r: bool)
    ensures
        r == active_in(roster@.nodes, n),
{
    let mut i: usize = 0;
    while i < roster.nodes.len()
        invariant
            i <= roster.nodes@.len(),
            forall|j: int|
                0 <= j < i ==> !(roster@.nodes[j].node_number == n && !roster@.nodes[j].revoked),
        decreases roster.nodes@.len() - i,
    {
        if roster.nodes[i].node_number == n && !roster.nodes[i].revoked {
            assert(roster@.nodes[i as int] == roster.nodes@[i as int]@);
            return true;
        }
        i = i + 1;
    }
    false
}

/// Whether a roster lists a node numbered `n`.
pub fn roster_lists(roster: &Roster, n: i32) -> (r: bool)
    ensures
        r == listed_in(roster@.nodes, n),
{
    let mut i: usize = 0;
    while i < roster.nodes.len()
        invariant
            i <= roster.nodes@.len(),
            forall|j: int| 0 <= j < i ==> roster@.nodes[j].node_number != n,
        decreases roster.nodes@.len() - i,
    {
        if roster.nodes[i].node_number == n {
            assert(roster@.nodes[i as int] == roster.nodes@[i as int]@);
            return true;
        }
        i = i + 1;
    }
    false
}

/// The node list marks a hub node as activated exactly when the node's own
/// verified roster gives that node a key: whenever the roster verifies from
/// this node's side, `is_activated` is whether the verified key map holds
/// the node. And whatever the roster, a node whose every roster entry is
/// revoked (or that has none) is listed as not activated.
pub proof fn law_node_list_activation(
    info: NodeInfo,
    h: HubNode,
    me: i32,
    r: SpecRoster,
    my_spki: Seq<u8>,
)
    requires
        node_info_matches(info, h, me, Some(r)),
    ensures
        (forall|j: int|
            0 <= j < r.nodes.len() && #[trigger] r.nodes[j].node_number == h.node_number
                ==> r.nodes[j].revoked) ==> info.is_activated == Some(false),
        verify_roster_result(r, me, my_spki) is Ok ==> info.is_activated == Some(
            verify_roster_result(r, me, my_spki)->Ok_0.contains_key(h.node_number),
        ),
{
    if verify_roster_result(r, me, my_spki) is Ok {
        crate::roster_laws::lemma_verified(r, me, my_spki);
        crate::roster_laws::lemma_decode_keys_ok(r.nodes);
        let keys = crate::roster::decode_keys(r.nodes)->Ok_0;
        if active_in(r.nodes, h.node_number) {
            let j = choose|j: int|
                0 <= j < r.nodes.len() && r.nodes[j].node_number == h.node_number
                    && !r.nodes[j].revoked;
            assert(crate::roster_laws::has_number(r.nodes, h.node_number));
            assert(keys.contains_key(h.node_number));
        }
    }
}

/// A roster that verifies from a node's side lists that node, at whatever
/// index; and a roster with an entry numbered `n` at any index lists `n`.
/// So restoring a registered node whose roster verifies from its side
/// always gives an Activated node.
pub proof fn law_verified_roster_lists_verifier(r: SpecRoster, me: i32, my_spki: Seq<u8>, j: int)
    ensures
        verify_roster_result(r, me, my_spki) is Ok ==> listed_in(r.nodes, me),
        0 <= j < r.nodes.len() ==> listed_in(r.nodes, r.nodes[j].node_number),
{
    if verify_roster_result(r, me, my_spki) is Ok {
        crate::roster_laws::lemma_verified(r, me, my_spki);
        let i = first_index(r.nodes, me)->0;
        crate::roster::lemma_first_index_matches(r.nodes, me);
        assert(r.nodes[i].node_number == me);
    }
    if 0 <= j < r.nodes.len() {
        assert(r.nodes[j].node_number == r.nodes[j].node_number);
    }
}

/// A pairing request goes from the node to the endorser that the pairing
/// code names, carrying the node's key and nonce; the endorser's reply,
/// built from it, goes back to the node and echoes that nonce.
pub proof fn law_pairing_request_addressed_to_endorser(
    n: SpecNode,
    endorser: i32,
    nonce: Seq<u8>,
    s: crate::serving::SpecServing,
    endorser_nonce: Seq<u8>,
)
    ensures
        pair_request_payload(n, endorser, nonce).sender_node_number == my_number(n),
        pair_request_payload(n, endorser, nonce).receiver_node_number == endorser,
        pair_request_payload(n, endorser, nonce).public_key_spki == spki_encode(
            ed25519_public_key(signing_seed(n.persisted.root_key)),
        ),
        pair_request_payload(n, endorser, nonce).nonce == nonce,
        crate::serving::pair_reply_payload(
            s,
            pair_request_payload(n, endorser, nonce),
            endorser_nonce,
        ).receiver_node_number == my_number(n),
        crate::serving::pair_reply_payload(
            s,
            pair_request_payload(n, endorser, nonce),
            endorser_nonce,
        ).reply_nonce == nonce,
{
}

/// The pairing payload that a node sends to its endorser.
pub open spec fn pair_request_payload(n: SpecNode, endorser: i32, nonce: Seq<u8>) -> SpecPairPayload {
    SpecPairPayload {
        sender_node_number: my_number(n),
        receiver_node_number: endorser,
        public_key_spki: my_spki(n),
        nonce,
        reply_nonce: seq![],
    }
}

/// A pairing request in flight: the message for the endorser and what its
/// reply is checked against.
pub struct PairingRequest {
    pub node_number: i32,
    pub endorser_node_number: i32,
    pub secret: PairingSecret,
    pub nonce: Vec<u8>,
    pub message: PairNodesMessage,
}

/// What the endorser's checked reply gives.
pub struct EndorserReply {
    pub endorser_nonce: Vec<u8>,
    pub endorser_public_key_spki: Vec<u8>,
}

impl PairingRequest {
    /// Check the endorser's reply: its MAC under the pairing secret, that it
    /// is addressed to this node, and that it answers this request's nonce.
    pub fn accept_response(&self, response: PairNodesMessage) -> (r: Result<
        EndorserReply,
        NodeStateError,
    >)
        ensures
            match response@.payload {
                None => r matches Err(e) && e is MissingEndorserResponse,
                Some(p) => if !pairing_mac_valid(
                    self.secret@,
                    spec_encode_pair_payload(p),
                    response@.mac,
                ) {
                    r matches Err(e) && e is MacVerificationFailed
                } else if p.receiver_node_number != self.node_number {
                    r matches Err(e) && e is MissingEndorserResponse
                } else if p.reply_nonce != self.nonce@ {
                    r matches Err(e) && e is MacVerificationFailed
                } else {
                    r matches Ok(reply) && reply.endorser_nonce@ == p.nonce
                        && reply.endorser_public_key_spki@ == p.public_key_spki
                },
            },
    {
        let payload = match response.payload {
            Some(p) => p,
            None => {
                return Err(NodeStateError::MissingEndorserResponse);
            },
        };
        let payload_bytes = payload.encode_to_vec();
        if !self.secret.verify_mac(payload_bytes.as_slice(), response.mac.as_slice()) {
            return Err(NodeStateError::MacVerificationFailed);
        }
        if payload.receiver_node_number != self.node_number {
            return Err(NodeStateError::MissingEndorserResponse);
        }
        if !bytes_eq(payload.reply_nonce.as_slice(), self.nonce.as_slice()) {
            return Err(NodeStateError::MacVerificationFailed);
        }
        Ok(EndorserReply {
            endorser_nonce: payload.nonce,
            endorser_public_key_spki: payload.public_key_spki,
        })
    }
}

/// Byte-wise equality.
pub fn bytes_eq(a: &[u8], b: &[u8]) -> (r: bool)
    ensures
        r == (a@ == b@),
{
    if a.len() != b.len() {
        return false;
    }
    let mut i: usize = 0;
    while i < a.len()
        invariant
            a@.len() == b@.len(),
            i <= a@.len(),
            forall|j: int| 0 <= j < i ==> a@[j] == b@[j],
        decreases a@.len() - i,
    {
        if a[i] != b[i] {
            return false;
        }
        i = i + 1;
    }
    assert(a@ =~= b@);
    true
}

/// The signature of the new node over the activation payload.
pub open spec fn new_node_activation_signature(
    n: SpecNode,
    current: SpecRoster,
    endorser: i32,
    new_node: i32,
    nonce: Seq<u8>,
    endorser_nonce: Seq<u8>,
) -> Seq<u8> {
    ed25519_sign(
        signing_seed(n.persisted.root_key),
        spec_encode_activation_payload(
            activation_payload_for(current, endorser, new_node, nonce, endorser_nonce),
        ),
    )
}

/// The new node's own signed roster: on an empty roster (version 0) the
/// bootstrap roster with the endorser, else the roster with the new node
/// added. The endorser's signature is left empty.
pub open spec fn proposed_roster(
    n: SpecNode,
    current: SpecRoster,
    endorser: i32,
    endorser_spki: Seq<u8>,
    new_node: i32,
    nonce: Seq<u8>,
    endorser_nonce: Seq<u8>,
) -> SpecRoster {
    let sig = new_node_activation_signature(n, current, endorser, new_node, nonce, endorser_nonce);
    if current.version == 0 {
        bootstrap_roster(
            endorser,
            endorser_spki,
            new_node,
            my_spki(n),
            nonce,
            endorser_nonce,
            sig,
            seq![],
        )
    } else {
        activation_roster(current, endorser, new_node, my_spki(n), nonce, endorser_nonce, sig, seq![])
    }
}

/// The self-revocation that an activated node's logout submits.
pub open spec fn self_revocation(n: SpecNode) -> SpecRoster {
    let roster = n.roster->0;
    let me = my_number(n);
    revocation_roster(
        roster,
        me,
        me,
        ed25519_sign(
            signing_seed(n.persisted.root_key),
            spec_encode_revocation_payload(revocation_payload_for(roster, me, me)),
        ),
    )
}

/// What logging out takes, by state.
pub enum LogoutPlan {
    /// Pending: delete the local state.
    DeleteLocal,
    /// Registered: deregister from the hub, then delete the local state.
    Deregister,
    /// Activated: submit the self-revocation, deregister, delete.
    RevokeAndDeregister(Roster),
}

/// Where a logout stands: the step to take next.
#[derive(Debug, Clone, Copy, PartialEq, Eq, Structural)]
pub enum LogoutStage {
    /// Submit the self-revocation roster to the hub.
    Revoking,
    /// Deregister the node from the hub.
    Deregistering,
    /// Delete the local state.
    Deleting,
    /// Logged out.
    Finished,
}

/// The first step of a logout plan.
pub fn logout_first_stage(plan: &LogoutPlan) -> (r: LogoutStage)
    ensures
        plan is RevokeAndDeregister ==> r == LogoutStage::Revoking,
        plan is Deregister ==> r == LogoutStage::Deregistering,
        plan is DeleteLocal ==> r == LogoutStage::Deleting,
{
    match plan {
        LogoutPlan::RevokeAndDeregister(_) => LogoutStage::Revoking,
        LogoutPlan::Deregister => LogoutStage::Deregistering,
        LogoutPlan::DeleteLocal => LogoutStage::Deleting,
    }
}

/// The next step of a logout once the current one's outcome is known:
/// revoke, then deregister, then delete the local state. A failed step
/// ends the logout with its error, so a failed hub step leaves the local
/// state in place.
pub fn logout_step(stage: LogoutStage, outcome: Result<(), NodeStateError>) -> (r: Result<
    LogoutStage,
    NodeStateError,
>)
    ensures
        outcome matches Err(e) ==> r == Err::<LogoutStage, NodeStateError>(e),
        outcome is Ok ==> r == Ok::<LogoutStage, NodeStateError>(
            match stage {
                LogoutStage::Revoking => LogoutStage::Deregistering,
                LogoutStage::Deregistering => LogoutStage::Deleting,
                _ => LogoutStage::Finished,
            },
        ),
{
    match outcome {
        Err(e) => Err(e),
        Ok(()) => Ok(
            match stage {
                LogoutStage::Revoking => LogoutStage::Deregistering,
                LogoutStage::Deregistering => LogoutStage::Deleting,
                _ => LogoutStage::Finished,
            },
        ),
    }
}

/// What a caller sends to open a connection: its X25519 public key and its
/// signature over the answerer's number, that key and its SDP.
pub struct ConnectionOffer {
    pub caller_x25519_public_key: Vec<u8>,
    pub signature: Vec<u8>,
}

impl Node {
    /// Complete registration with provided credentials, and persist it.
    ///
    /// Requires: Pending state.
    pub fn complete_registration<S: NodeStateStore>(
        &mut self,
        registration: NodeRegistration,
        store: &mut S,
    ) -> (r: Result<(), NodeStateError>)
        ensures
            node_state_of(old(self)@) != NodeState::Pending ==> (r matches Err(
                NodeStateError::InvalidState { current, required },
            ) && current == node_state_of(old(self)@) && required@ == "Pending"@
                && final(self)@ == old(self)@ && final(store).stored() == old(store).stored()),
            node_state_of(old(self)@) == NodeState::Pending ==> final(self)@ == (SpecNode {
                persisted: SpecPersisted {
                    root_key: old(self)@.persisted.root_key,
                    registration: Some(registration@),
                },
                ..old(self)@
            }),
            node_state_of(old(self)@) == NodeState::Pending && r is Ok ==> final(store).stored()
                == Some(final(self)@.persisted),
            node_state_of(old(self)@) == NodeState::Pending ==> (r is Ok || (r matches Err(e)
                && e is Store)),
    {
        proof {
            use_type_invariant(&*self);
        }
        self.require_pending()?;
        if self.persisted.is_registered() {
            return Err(NodeStateError::AlreadyRegistered);
        }
        let mut persisted = self.persisted.duplicate();
        persisted.set_registration(registration);
        self.persisted = persisted;
        match store.save(&self.persisted) {
            Ok(()) => Ok(()),
            Err(e) => Err(NodeStateError::store(e)),
        }
    }

    /// The node list: the hub's nodes, each marked whether it is this node
    /// and, when this node holds a roster, whether the roster has it active.
    ///
    /// Requires: Registered or Activated state.
    pub fn node_infos(&self, hub_nodes: Vec<HubNode>) -> (r: Result<Vec<NodeInfo>, NodeStateError>)
        ensures
            node_state_of(self@) == NodeState::Pending ==> (r matches Err(
                NodeStateError::InvalidState { current, required },
            ) && current == NodeState::Pending && required@ == "Registered or Activated"@),
            node_state_of(self@) != NodeState::Pending ==> (r matches Ok(v) && v.len()
                == hub_nodes.len() && forall|i: int|
                0 <= i < v.len() ==> node_info_matches(
                    #[trigger] v[i],
                    hub_nodes[i],
                    my_number(self@),
                    self@.roster,
                )),
    {
        let registration = self.require_at_least_registered()?;
        let me = registration.number();
        let mut out: Vec<NodeInfo> = Vec::new();
        let mut i: usize = 0;
        while i < hub_nodes.len()
            invariant
                me == my_number(self@),
                i <= hub_nodes@.len(),
                out@.len() == i,
                forall|j: int|
                    0 <= j < i ==> node_info_matches(
                        #[trigger] out@[j],
                        hub_nodes@[j],
                        me,
                        self@.roster,
                    ),
            decreases hub_nodes@.len() - i,
        {
            let h = &hub_nodes[i];
            let is_activated = match &self.roster {
                Some(r) => Some(roster_has_active(r, h.node_number)),
                None => None,
            };
            out.push(
                NodeInfo {
                    node_number: h.node_number,
                    name: h.name.clone(),
                    is_self: h.node_number == me,
                    is_activated,
                    last_seen_at_millis: h.last_seen_at_millis,
                    is_online: h.is_online,
                },
            );
            i = i + 1;
        }
        Ok(out)
    }

    /// First step of activation: parse the pairing code and build the
    /// pairing message for the endorser, MACed with the pairing secret.
    ///
    /// Requires: Registered state.
    pub fn begin_activation(&self, pairing_code: &str, nonce: Vec<u8>) -> (r: Result<
        PairingRequest,
        NodeStateError,
    >)
        ensures
            node_state_of(self@) != NodeState::Registered ==> (r matches Err(
                NodeStateError::InvalidState { current, required },
            ) && current == node_state_of(self@) && required@ == "Registered"@),
            node_state_of(self@) == NodeState::Registered ==> match pairing_code_fields(
                pairing_code@,
            ) {
                Err(e) => r matches Err(NodeStateError::InvalidPairingCode(x)) && x == e,
                Ok((endorser, v)) => r matches Ok(req) && req.node_number == my_number(self@)
                    && req.endorser_node_number == endorser && req.secret@.len() == 7
                    && be_value(req.secret@) == v && req.nonce@ == nonce@ && req.message@ == (
                SpecPairNodesMessage {
                    payload: Some(pair_request_payload(self@, endorser, nonce@)),
                    mac: pairing_mac(
                        req.secret@,
                        spec_encode_pair_payload(pair_request_payload(self@, endorser, nonce@)),
                    ),
                }),
            },
    {
        let registration = self.require_registered()?;
        let me = registration.number();
        let code = match PairingCode::parse(pairing_code) {
            Ok(c) => c,
            Err(e) => {
                return Err(NodeStateError::InvalidPairingCode(e));
            },
        };
        let endorser = code.node_number;
        let payload = PairPayload {
            sender_node_number: me,
            receiver_node_number: endorser,
            public_key_spki: self.signing_key().public_key_spki(),
            nonce: copy_bytes(nonce.as_slice()),
            reply_nonce: Vec::new(),
        };
        assert(payload@ == pair_request_payload(self@, endorser, nonce@));
        let payload_bytes = payload.encode_to_vec();
        let mac = code.secret.compute_mac(payload_bytes.as_slice());
        let message = PairNodesMessage { payload: Some(payload), mac };
        Ok(PairingRequest {
            node_number: me,
            endorser_node_number: endorser,
            secret: code.secret,
            nonce,
            message,
        })
    }

    /// Second step of activation: with the endorser's reply and the current
    /// roster, check the roster from the endorser's side (unless it is
    /// empty), sign the activation payload and build the new roster.
    pub fn propose_roster(
        &self,
        request: &PairingRequest,
        reply: &EndorserReply,
        current_roster: &Roster,
    ) -> (r: Result<Roster, NodeStateError>)
        requires
            current_roster.version < i64::MAX,
        ensures
            current_roster.version > 0 && verify_roster_result(
                current_roster@,
                request.endorser_node_number,
                reply.endorser_public_key_spki@,
            ) is Err ==> (r matches Err(NodeStateError::RosterVerificationFailed(e)) && Err::<
                Map<i32, Seq<u8>>,
                crate::roster::SpecRosterError,
            >(e@) == verify_roster_result(
                current_roster@,
                request.endorser_node_number,
                reply.endorser_public_key_spki@,
            )),
            !(current_roster.version > 0 && verify_roster_result(
                current_roster@,
                request.endorser_node_number,
                reply.endorser_public_key_spki@,
            ) is Err) ==> (r matches Ok(roster) && roster@ == proposed_roster(
                self@,
                current_roster@,
                request.endorser_node_number,
                reply.endorser_public_key_spki@,
                request.node_number,
                request.nonce@,
                reply.endorser_nonce@,
            )),
    {
        let endorser = request.endorser_node_number;
        if current_roster.version > 0 {
            match verify_roster(
                current_roster,
                endorser,
                reply.endorser_public_key_spki.as_slice(),
            ) {
                Ok(_) => {},
                Err(e) => {
                    return Err(NodeStateError::RosterVerificationFailed(e));
                },
            }
        }
        let payload = build_activation_payload(
            current_roster,
            endorser,
            request.node_number,
            copy_bytes(request.nonce.as_slice()),
            copy_bytes(reply.endorser_nonce.as_slice()),
        );
        let payload_bytes = payload.encode_to_vec();
        let signing_key = self.signing_key();
        let signature = signing_key.sign(payload_bytes.as_slice());
        let my_spki = signing_key.public_key_spki();
        if current_roster.version == 0 {
            Ok(create_bootstrap_roster(
                endorser,
                reply.endorser_public_key_spki.as_slice(),
                request.node_number,
                my_spki.as_slice(),
                payload.new_node_nonce,
                payload.endorser_nonce,
                signature,
            ))
        } else {
            Ok(create_activation_roster(
                current_roster,
                endorser,
                request.node_number,
                my_spki.as_slice(),
                payload.new_node_nonce,
                payload.endorser_nonce,
                signature,
            ))
        }
    }

    /// Last step of activation: verify the cosigned roster from this node's
    /// side and hold it.
    ///
    /// Requires: Registered state. Transitions to: Activated state.
    pub fn finish_activation(&mut self, cosigned_roster: Roster) -> (r: Result<(), NodeStateError>)
        ensures
            node_state_of(old(self)@) != NodeState::Registered ==> (r matches Err(
                NodeStateError::InvalidState { current, required },
            ) && current == node_state_of(old(self)@) && required@ == "Registered"@
                && final(self)@ == old(self)@),
            node_state_of(old(self)@) == NodeState::Registered ==> match verify_roster_result(
                cosigned_roster@,
                my_number(old(self)@),
                my_spki(old(self)@),
            ) {
                Err(e) => r matches Err(NodeStateError::RosterVerificationFailed(x)) && x@ == e
                    && final(self)@ == old(self)@,
                Ok(_) => r is Ok && final(self)@ == (SpecNode {
                    roster: Some(cosigned_roster@),
                    ..old(self)@
                }),
            },
    {
        proof {
            use_type_invariant(&*self);
        }
        let me = self.require_registered()?.number();
        let my_spki = self.signing_key().public_key_spki();
        match verify_roster(&cosigned_roster, me, my_spki.as_slice()) {
            Ok(_) => {},
            Err(e) => {
                return Err(NodeStateError::RosterVerificationFailed(e));
            },
        }
        self.roster = Some(cosigned_roster);
        Ok(())
    }

    /// First step of a connection: the caller's offer to `peer_node_number`,
    /// with the public key of `ephemeral`, a fresh X25519 keypair drawn for
    /// this connection alone.
    ///
    /// Requires: Activated state.
    pub fn connection_offer(
        &self,
        peer_node_number: i32,
        caller_sdp: &str,
        ephemeral: &X25519KeyPair,
    ) -> (r: Result<
        ConnectionOffer,
        P2pError,
    >)
        ensures
            node_state_of(self@) != NodeState::Activated ==> (r matches Err(e) && e is NotActivated),
            node_state_of(self@) == NodeState::Activated ==> (r matches Ok(offer)
                && offer.caller_x25519_public_key@ == x25519_public_key(ephemeral@)
                && offer.signature@ == ed25519_sign(
                signing_seed(self@.persisted.root_key),
                caller_signed_message(
                    peer_node_number,
                    offer.caller_x25519_public_key@,
                    caller_sdp.spec_bytes(),
                ),
            )),
    {
        if self.state() != NodeState::Activated {
            return Err(P2pError::NotActivated);
        }
        let public_key = ephemeral.public_key();
        let message = caller_message(peer_node_number, public_key.as_slice(), caller_sdp);
        let signature = self.signing_key().sign(message.as_slice());
        Ok(ConnectionOffer {
            caller_x25519_public_key: copy_bytes(public_key.as_slice()),
            signature,
        })
    }

    /// Last step of a connection: check the answerer's signature against
    /// the key that this node's roster holds for it, and derive the shared
    /// secret from the connection's ephemeral keypair (the one offered).
    ///
    /// Requires: Activated state.
    pub fn accept_connection_response(
        &self,
        peer_node_number: i32,
        connection_id: i64,
        answerer_x25519_public_key: &[u8],
        answerer_sdp: &str,
        signature: &[u8],
        ephemeral: &X25519KeyPair,
    ) -> (r: Result<[u8; 32], P2pError>)
        ensures
            node_state_of(self@) != NodeState::Activated ==> (r matches Err(e) && e is NotActivated),
            node_state_of(self@) == NodeState::Activated ==> ({
                let nodes = self@.roster->0.nodes;
                let ok = first_index(nodes, peer_node_number) matches Some(i)
                    && spki_signature_valid(
                    nodes[i].public_key_spki,
                    answerer_signed_message(
                        connection_id,
                        answerer_x25519_public_key@,
                        answerer_sdp.spec_bytes(),
                    ),
                    signature@,
                ) && answerer_x25519_public_key@.len() == 32;
                &&& !ok ==> (r matches Err(e) && e is SignatureVerificationFailed)
                &&& ok ==> (r matches Ok(secret) && secret@ == x25519_shared_secret(
                    ephemeral@,
                    answerer_x25519_public_key@,
                ) && (forall|answerer_secret: Seq<u8>|
                    answerer_secret.len() == 32 && answerer_x25519_public_key@
                        == #[trigger] x25519_public_key(answerer_secret) ==> secret@
                        == x25519_shared_secret(answerer_secret, x25519_public_key(ephemeral@))))
                &&& r is Ok ==> signature@.len() == 64
            }),
    {
        if self.state() != NodeState::Activated {
            return Err(P2pError::NotActivated);
        }
        let roster = match &self.roster {
            Some(r) => r,
            None => {
                return Err(P2pError::NotActivated);
            },
        };
        let idx = match crate::roster::find_node_index(&roster.nodes, peer_node_number) {
            Some(i) => i,
            None => {
                return Err(P2pError::SignatureVerificationFailed);
            },
        };
        proof {
            crate::roster::lemma_first_index_matches(roster@.nodes, peer_node_number);
            assert(roster@.nodes[idx as int] == roster.nodes@[idx as int]@);
        }
        let message = answerer_message(connection_id, answerer_x25519_public_key, answerer_sdp);
        if !verify_signature_spki(
            roster.nodes[idx].public_key_spki.as_slice(),
            message.as_slice(),
            signature,
        ) {
            return Err(P2pError::SignatureVerificationFailed);
        }
        if answerer_x25519_public_key.len() != 32 {
            return Err(P2pError::SignatureVerificationFailed);
        }
        let mut peer = [0u8; 32];
        let mut i: usize = 0;
        while i < 32
            invariant
                answerer_x25519_public_key@.len() == 32,
                peer@.len() == 32,
                i <= 32,
                forall|j: int| 0 <= j < i ==> peer@[j] == answerer_x25519_public_key@[j],
            decreases 32 - i,
        {
            peer[i] = answerer_x25519_public_key[i];
            i = i + 1;
        }
        assert(peer@ =~= answerer_x25519_public_key@);
        Ok(ephemeral.diffie_hellman(&peer))
    }

    /// What logging out takes in this node's state.
    pub fn logout_plan(&self) -> (r: LogoutPlan)
        requires
            self@.roster matches Some(x) ==> x.version < i64::MAX,
        ensures
            node_state_of(self@) == NodeState::Pending ==> r is DeleteLocal,
            node_state_of(self@) == NodeState::Registered ==> r is Deregister,
            node_state_of(self@) == NodeState::Activated ==> (r matches LogoutPlan::RevokeAndDeregister(
                roster,
            ) && roster@ == self_revocation(self@)),
    {
        proof {
            use_type_invariant(self);
        }
        match self.state() {
            NodeState::Pending => LogoutPlan::DeleteLocal,
            NodeState::Registered => LogoutPlan::Deregister,
            NodeState::Activated => {
                let me = match self.persisted.registration() {
                    Some(reg) => reg.number(),
                    None => {
                        assert(false);
                        0
                    },
                };
                let roster = match &self.roster {
                    Some(x) => x,
                    None => {
                        assert(false);
                        return LogoutPlan::DeleteLocal;
                    },
                };
                let payload = RevocationPayload {
                    base_version: roster.version,
                    base_version_hash: compute_roster_hash(roster),
                    new_version: roster.version + 1,
                    revoked_node_number: me,
                    revoker_node_number: me,
                };
                let signature = self.signing_key().sign(payload.encode_to_vec().as_slice());
                LogoutPlan::RevokeAndDeregister(create_revocation_roster(roster, me, me, signature))
            },
        }
    }
}

//-- Node storage ------------------------------------------------------------

/// Where restoring a node stands after the local state is read.
pub enum RestoreStep {
    /// The node is ready (Pending).
    Ready(Node),
    /// The node is registered: whether it is activated depends on the
    /// roster, which the hub holds.
    NeedsRoster(PersistedNodeState),
}

/// The model of a state loaded from a store.
pub open spec fn loaded_view(loaded: Option<PersistedNodeState>) -> Option<SpecPersisted> {
    match loaded {
        Some(s) => Some(s@),
        None => None,
    }
}

/// The registration in a loaded state, if any.
pub open spec fn registration_in(loaded: Option<SpecPersisted>) -> Option<SpecRegistration> {
    match loaded {
        Some(s) => s.registration,
        None => None,
    }
}

/// The registration in the state loaded from a store: none when nothing
/// is stored or the stored node is not registered.
pub fn registration_of(loaded: Option<PersistedNodeState>) -> (r: Option<NodeRegistration>)
    ensures
        match r {
            Some(reg) => registration_in(loaded_view(loaded)) == Some(reg@),
            None => registration_in(loaded_view(loaded)) is None,
        },
{
    match loaded {
        Some(s) => match s.registration() {
            Some(reg) => Some(reg.duplicate()),
            None => None,
        },
        None => None,
    }
}

/// What restoring does with the state loaded from the store.
pub enum RestoreDecision {
    /// Nothing is stored: make a fresh state, save it, give a Pending node.
    Initialize,
    /// An unregistered state: a Pending node of it.
    Pending(PersistedNodeState),
    /// A registered state: the roster tells Registered from Activated.
    NeedsRoster(PersistedNodeState),
}

/// Decide how to restore a node from the state loaded from the store.
pub fn restore_decision(loaded: Option<PersistedNodeState>) -> (r: RestoreDecision)
    ensures
        loaded is None ==> r is Initialize,
        loaded matches Some(s) ==> (s@.registration is None ==> (r matches RestoreDecision::Pending(
            p,
        ) && p@ == s@)),
        loaded matches Some(s) ==> (s@.registration is Some ==> (
        r matches RestoreDecision::NeedsRoster(p) && p@ == s@)),
{
    match loaded {
        None => RestoreDecision::Initialize,
        Some(state) => {
            if state.is_registered() {
                RestoreDecision::NeedsRoster(state)
            } else {
                RestoreDecision::Pending(state)
            }
        },
    }
}

/// High-level storage handle that drives state initialization and persistence.
pub struct NodeStorage<S> {
    store: S,
    hub_addr: String,
}

impl<S: NodeStateStore> NodeStorage<S> {
    /// What the store holds.
    pub closed spec fn stored(&self) -> Option<SpecPersisted> {
        self.store.stored()
    }

    /// The hub address, the one place where nodes read it.
    pub closed spec fn hub(&self) -> Seq<char> {
        self.hub_addr@
    }

    pub fn new(store: S) -> (r: Self)
        ensures
            r.stored() == store.stored(),
            r.hub() == default_hub_addr(),
    {
        NodeStorage { store, hub_addr: String::from_str("https://hub.connect.wispers.dev") }
    }

    /// Override the hub address (for testing): every node, made before or
    /// after, reads the new one.
    pub fn override_hub_addr(&mut self, addr: &str)
        ensures
            final(self).hub() == addr@,
            final(self).stored() == old(self).stored(),
    {
        self.hub_addr = String::from_str(addr);
    }

    /// The hub address.
    pub fn hub_addr(&self) -> (r: String)
        ensures
            r@ == self.hub(),
    {
        self.hub_addr.clone()
    }

    /// Read just the registration from local storage (no hub contact).
    ///
    /// Returns `None` if not registered. A failing store gives its error;
    /// a load that succeeds gives the registration it holds.
    pub fn read_registration(&self) -> (r: Result<Option<NodeRegistration>, NodeStateError>)
        ensures
            r matches Ok(x) ==> match x {
                Some(reg) => registration_in(self.stored()) == Some(reg@),
                None => registration_in(self.stored()) is None,
            },
            r matches Err(e) ==> e is Store,
    {
        match self.store.load() {
            Ok(loaded) => Ok(registration_of(loaded)),
            Err(e) => Err(NodeStateError::store(e)),
        }
    }

    /// Initialize or restore node state from local storage, as
    /// `restore_decision` decides on what the store holds: nothing stored
    /// gives a fresh state, saved, and a Pending node; an unregistered
    /// state a Pending node; a registered one needs the roster to tell
    /// Registered from Activated. A failing store gives its error.
    pub fn restore_or_init_local(&mut self) -> (r: Result<RestoreStep, NodeStateError>)
        ensures
            r matches Err(e) ==> e is Store,
            final(self).hub() == old(self).hub(),
            r is Ok ==> match old(self).stored() {
                None => r matches Ok(RestoreStep::Ready(n)) && n@.roster is None
                    && n@.persisted.registration is None && n@.persisted.root_key.len() == 32
                    && final(self).stored() == Some(n@.persisted),
                Some(p) => if p.registration is None {
                    r matches Ok(RestoreStep::Ready(n)) && n@ == (SpecNode {
                        persisted: p,
                        roster: None,
                    }) && final(self).stored() == old(self).stored()
                } else {
                    r matches Ok(RestoreStep::NeedsRoster(s)) && s@ == p && final(self).stored()
                        == old(self).stored()
                },
            },
            old(self).stored() is Some ==> final(self).stored() == old(self).stored(),
    {
        let loaded = match self.store.load() {
            Ok(s) => s,
            Err(e) => {
                return Err(NodeStateError::store(e));
            },
        };
        match restore_decision(loaded) {
            RestoreDecision::Initialize => {
                let state = PersistedNodeState::new();
                match self.store.save(&state) {
                    Ok(()) => {},
                    Err(e) => {
                        return Err(NodeStateError::store(e));
                    },
                }
                Ok(RestoreStep::Ready(Node::new_pending(state)))
            },
            RestoreDecision::Pending(state) => Ok(RestoreStep::Ready(Node::new_pending(state))),
            RestoreDecision::NeedsRoster(state) => Ok(RestoreStep::NeedsRoster(state)),
        }
    }

    /// Finish restoring a registered node with the roster the hub holds: if
    /// the roster lists the node, it must verify from the node's side and
    /// the node is Activated; else the node is Registered.
    pub fn restore_with_roster(&self, state: PersistedNodeState, roster: Roster) -> (r: Result<
        Node,
        NodeStateError,
    >)
        requires
            state@.registration is Some,
        ensures
            ({
                let me = state@.registration->0.node_number;
                let spki = spki_encode(ed25519_public_key(signing_seed(state@.root_key)));
                if !listed_in(roster@.nodes, me) {
                    r matches Ok(n) && n@ == (SpecNode {
                        persisted: state@,
                        roster: None,
                    })
                } else {
                    match verify_roster_result(roster@, me, spki) {
                        Err(e) => r matches Err(NodeStateError::RosterVerificationFailed(x))
                            && x@ == e,
                        Ok(_) => r matches Ok(n) && n@ == (SpecNode {
                            persisted: state@,
                            roster: Some(roster@),
                        }),
                    }
                }
            }),
    {
        let me = match state.registration() {
            Some(reg) => reg.number(),
            None => {
                return Err(NodeStateError::NotRegistered);
            },
        };
        if roster_lists(&roster, me) {
            let signing_key = SigningKeyPair::derive_from_root_key(state.root_key_bytes());
            let spki = signing_key.public_key_spki();
            match verify_roster(&roster, me, spki.as_slice()) {
                Ok(_) => {},
                Err(e) => {
                    return Err(NodeStateError::RosterVerificationFailed(e));
                },
            }
            Ok(Node::new_activated(state, roster))
        } else {
            Node::new_registered(state)
        }
    }

    /// Complete a node's registration and persist it in this storage.
    pub fn complete_registration(&mut self, node: &mut Node, registration: NodeRegistration) -> (r: Result<
        (),
        NodeStateError,
    >)
        ensures
            node_state_of(old(node)@) != NodeState::Pending ==> (r matches Err(
                NodeStateError::InvalidState { current, required },
            ) && current == node_state_of(old(node)@) && required@ == "Pending"@
                && final(node)@ == old(node)@ && final(self).stored() == old(self).stored()),
            node_state_of(old(node)@) == NodeState::Pending ==> final(node)@ == (SpecNode {
                persisted: SpecPersisted {
                    root_key: old(node)@.persisted.root_key,
                    registration: Some(registration@),
                },
                ..old(node)@
            }),
            node_state_of(old(node)@) == NodeState::Pending && r is Ok ==> final(self).stored()
                == Some(final(node)@.persisted),
            final(self).hub() == old(self).hub(),
    {
        node.complete_registration(registration, &mut self.store)
    }

    /// Delete the local state (the last step of logging out).
    pub fn delete_state(&mut self) -> (r: Result<(), NodeStateError>)
        ensures
            r is Ok ==> final(self).stored() is None,
            r matches Err(e) ==> e is Store,
            final(self).hub() == old(self).hub(),
    {
        match self.store.delete() {
            Ok(()) => Ok(()),
            Err(e) => Err(NodeStateError::store(e)),
        }
    }

    /// Load the persisted state as the store holds it.
    pub fn load_state(&self) -> (r: Result<Option<PersistedNodeState>, NodeStateError>)
        ensures
            r matches Ok(s) ==> match s {
                Some(p) => self.stored() == Some(p@),
                None => self.stored() is None,
            },
            r matches Err(e) ==> e is Store,
    {
        match self.store.load() {
            Ok(s) => Ok(s),
            Err(e) => Err(NodeStateError::store(e)),
        }
    }
}

/// The URL at which a pending node is registered: the base URL with the
/// app and profile namespaces, URL-encoded, as query parameters (joined
/// with `&` when the base URL has a query already).
pub open spec fn registration_url_text(base: Seq<char>, app: Seq<char>, profile: Seq<char>) -> Seq<
    char,
> {
    let sep = if index_of(base, '?') is Some {
        '&'
    } else {
        '?'
    };
    base.push(sep) + "app_namespace="@ + url_encoded(app) + "&profile_namespace="@ + url_encoded(
        profile,
    )
}

/// The registration URL of a pending node.
pub fn registration_url(base_url: &str, app_namespace: &str, profile_namespace: &str) -> (r:
    String)
    ensures
        r@ == registration_url_text(base_url@, app_namespace@, profile_namespace@),
{
    let sep = match find_char(base_url, '?') {
        Some(_) => '&',
        None => '?',
    };
    let mut url = owned(base_url);
    push_char(&mut url, sep);
    let url = concat_text(url.as_str(), "app_namespace=");
    let app = url_encode(app_namespace);
    let url = concat_text(url.as_str(), app.as_str());
    let url = concat_text(url.as_str(), "&profile_namespace=");
    let profile = url_encode(profile_namespace);
    let url = concat_text(url.as_str(), profile.as_str());
    url
}

} // verus!
