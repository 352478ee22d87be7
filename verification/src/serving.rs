//! The decisions of a serving session: endorsing new nodes and answering
//! connection requests.
//!
//! A serving node endorses one new node at a time. It hands out a pairing
//! code; the new node's pairing message must carry a MAC under that code's
//! secret; the node replies with its own nonce and key; then it cosigns the
//! new roster only if that roster adds exactly the node it paired with, on
//! top of the roster whose hash the activation names, with both nonces.
use vstd::prelude::*;

use crate::crypto::{
    pairing_mac, pairing_mac_valid, signing_seed, PairingCode, PairingSecret, SigningKeyPair,
    X25519KeyPair,
};
use crate::errors::HubError;
use crate::p2p::{answerer_message, answerer_signed_message, caller_message, caller_signed_message};
use crate::primitives::{
    ed25519_key_from_spki, ed25519_public_key, ed25519_sign, ed25519_verify,
    ed25519_verify_signature, sha256, sha256_digest, spki_decode, spki_encode,
    x25519_public_key, x25519_shared_secret,
};
use crate::proto::{
    copy_bytes, spec_encode_activation_payload, spec_encode_pair_payload, spec_encode_roster,
    ActivationPayload, AddendumKind, PairNodesMessage, PairPayload, Roster, SpecActivationPayload,
    SpecAddendumKind, SpecPairNodesMessage, SpecPairPayload, SpecRoster, SpecRosterNode,
};
use crate::roster_laws::{has_number, lemma_without_absent};
use crate::roster::{
    activation_payload_for, activation_roster, roster_hash, first_index, lemma_first_index_matches, nodes_view, verify_roster, verify_roster_result,
    without_number,
};
use crate::types::ConnectivityGroupId;
use vstd::string::StringSliceAdditionalSpecFns;

verus! {

/// Error type for serving operations.
#[derive(Debug)]
pub enum ServingError {
    Hub(HubError),
    SessionShutdown,
    PairingSessionActive,
}

/// Status of an active endorsing session.
#[derive(Debug, Clone, Copy, PartialEq, Eq, Structural)]
pub enum EndorsingStatus {
    /// Waiting for a PairNodesMessage from the new node.
    AwaitingPairNode,
    /// Received pairing, waiting for RosterCosignRequest.
    AwaitingCosign { new_node_number: i32 },
}

/// Information about the current serving session status.
#[derive(Debug)]
pub struct StatusInfo {
    pub connected: bool,
    pub connectivity_group_id: ConnectivityGroupId,
    pub node_number: i32,
    /// Current endorsing state, if any.
    pub endorsing: Option<EndorsingStatus>,
}

/// A pending endorsement: the node paired with, and both nonces.
pub struct PendingEndorsement {
    pub new_node_number: i32,
    pub new_node_pubkey: Vec<u8>,
    pub new_node_nonce: Vec<u8>,
    pub our_nonce: Vec<u8>,
}

/// The model of a pending endorsement.
pub struct SpecPending {
    pub new_node_number: i32,
    pub new_node_pubkey: Seq<u8>,
    pub new_node_nonce: Seq<u8>,
    pub our_nonce: Seq<u8>,
}

impl View for PendingEndorsement {
    type V = SpecPending;

    open spec fn view(&self) -> SpecPending {
        SpecPending {
            new_node_number: self.new_node_number,
            new_node_pubkey: self.new_node_pubkey@,
            new_node_nonce: self.new_node_nonce@,
            our_nonce: self.our_nonce@,
        }
    }
}

/// A hub request to cosign a roster that activates a new node.
pub struct RosterCosignRequest {
    pub new_node_number: i64,
    pub new_roster: Option<Roster>,
}

/// What the session answers a hub request with.
#[derive(Debug)]
pub enum HubReply {
    /// Nothing is sent.
    Nothing,
    /// An error response with this text.
    Error(&'static str),
    /// The pairing reply.
    Pair(PairNodesMessage),
    /// The endorser's signature of the activation.
    Cosign(Vec<u8>),
}

/// Whether a reply is the error with this text.
pub open spec fn is_error_reply(r: HubReply, text: Seq<char>) -> bool {
    r matches HubReply::Error(t) && t@ == text
}

/// The model of the session's endorsing state.
pub struct SpecServing {
    pub node_number: i32,
    pub signing_seed: Seq<u8>,
    pub pairing_secret: Option<Seq<u8>>,
    pub pending: Option<SpecPending>,
    pub next_connection_id: i64,
}

/// The state that a serving session decides on.
pub struct ServingState {
    signing_key: SigningKeyPair,
    connectivity_group_id: ConnectivityGroupId,
    node_number: i32,
    pairing_secret: Option<PairingSecret>,
    pending_endorsement: Option<PendingEndorsement>,
    x25519_key: Option<X25519KeyPair>,
    connection_id_counter: i64,
}

impl View for ServingState {
    type V = SpecServing;

    closed spec fn view(&self) -> SpecServing {
        SpecServing {
            node_number: self.node_number,
            signing_seed: self.signing_key@,
            pairing_secret: match self.pairing_secret {
                Some(s) => Some(s@),
                None => None,
            },
            pending: match self.pending_endorsement {
                Some(p) => Some(p@),
                None => None,
            },
            next_connection_id: self.connection_id_counter,
        }
    }
}

/// The endorsing status of a session model.
pub open spec fn endorsing_of(s: SpecServing) -> Option<EndorsingStatus> {
    match s.pending {
        Some(p) => Some(EndorsingStatus::AwaitingCosign { new_node_number: p.new_node_number }),
        None => if s.pairing_secret is Some {
            Some(EndorsingStatus::AwaitingPairNode)
        } else {
            None
        },
    }
}

/// The reply payload of the endorser to a pairing message.
pub open spec fn pair_reply_payload(s: SpecServing, p: SpecPairPayload, our_nonce: Seq<u8>) -> SpecPairPayload {
    SpecPairPayload {
        sender_node_number: s.node_number,
        receiver_node_number: p.sender_node_number,
        public_key_spki: spki_encode(ed25519_public_key(s.signing_seed)),
        nonce: our_nonce,
        reply_nonce: p.nonce,
    }
}

/// The base roster that an activation on `r` was made on: the new roster
/// without the new node (without every node, for a bootstrap) and without
/// its last addendum, at the base version.
pub open spec fn cosign_base(r: SpecRoster, base_version: i64, new_node: i32) -> SpecRoster {
    SpecRoster {
        version: base_version,
        nodes: if base_version == 0 {
            seq![]
        } else {
            without_number(r.nodes, new_node)
        },
        addenda: if r.addenda.len() > 0 {
            r.addenda.drop_last()
        } else {
            r.addenda
        },
    }
}

/// Whether an activation's base hash is the hash of the roster it was made on.
pub open spec fn base_version_hash_valid(r: SpecRoster, p: SpecActivationPayload, new_node: i32) -> bool {
    sha256(spec_encode_roster(cosign_base(r, p.base_version, new_node))) == p.base_version_hash
}

/// The activation of the last addendum of a roster, if it is one.
pub open spec fn last_activation(r: SpecRoster) -> Option<crate::proto::SpecActivation> {
    if r.addenda.len() > 0 {
        match r.addenda.last().kind {
            Some(SpecAddendumKind::Activation(a)) => Some(a),
            _ => None,
        }
    } else {
        None
    }
}

/// The answer to a cosign request: the error text, or the payload to sign.
pub open spec fn cosign_decision(
    s: SpecServing,
    new_node_number: i64,
    roster: Option<SpecRoster>,
) -> Result<SpecActivationPayload, Seq<char>> {
    match s.pending {
        None => Err("no pending endorsement"@),
        Some(pending) => if new_node_number as i32 != pending.new_node_number {
            Err("wrong node number"@)
        } else {
            match roster {
                None => Err("missing roster"@),
                Some(r) => match last_activation(r) {
                    None => Err("no activation addendum"@),
                    Some(act) => match act.payload {
                        None => Err("activation missing payload"@),
                        Some(p) => if !base_version_hash_valid(r, p, pending.new_node_number) {
                            Err("base version hash mismatch"@)
                        } else if p.new_node_nonce != pending.new_node_nonce {
                            Err("new node nonce mismatch"@)
                        } else if p.endorser_nonce != pending.our_nonce {
                            Err("endorser nonce mismatch"@)
                        } else if p.endorser_node_number != s.node_number {
                            Err("wrong endorser node number"@)
                        } else {
                            match first_index(r.nodes, pending.new_node_number) {
                                None => Err("new node not in roster"@),
                                Some(i) => if r.nodes[i].public_key_spki
                                    != pending.new_node_pubkey {
                                    Err("public key mismatch"@)
                                } else {
                                    Ok(p)
                                },
                            }
                        },
                    },
                },
            }
        },
    }
}

/// What a connection request is refused with before the roster is fetched.
pub open spec fn connection_precheck(p2p_enabled: bool, caller_key: Seq<u8>) -> Option<Seq<char>> {
    if !p2p_enabled {
        Some("P2P connections not available"@)
    } else if caller_key.len() != 32 {
        Some("invalid X25519 public key"@)
    } else {
        None
    }
}

/// What a connection request is refused with once the roster is in hand,
/// before a connection id is taken.
pub open spec fn connection_check(
    s: SpecServing,
    verifier_spki: Seq<u8>,
    roster: SpecRoster,
    caller: i32,
    message: Seq<u8>,
    signature: Seq<u8>,
) -> Option<Seq<char>> {
    if verify_roster_result(roster, s.node_number, verifier_spki) is Err {
        Some("internal error"@)
    } else {
        match first_index(roster.nodes, caller) {
            None => Some("caller not in roster"@),
            Some(i) => match spki_decode(roster.nodes[i].public_key_spki) {
                None => Some("invalid caller public key"@),
                Some(key) => if signature.len() != 64 {
                    Some("invalid signature"@)
                } else if !ed25519_verify(key, message, signature) {
                    Some("signature verification failed"@)
                } else {
                    None
                },
            },
        }
    }
}

/// The base that an endorser rebuilds from an activation roster is the
/// roster the activation was built on: for every base at version 1 or
/// more that does not yet list the new node, taking the new node out of
/// the activation roster and dropping its last addendum gives back the
/// base, so the activation payload, which carries the base's hash, passes
/// the base-hash check.
pub proof fn law_cosign_base_rebuilds_base(
    base: SpecRoster,
    endorser: i32,
    new_node: i32,
    new_node_spki: Seq<u8>,
    new_node_nonce: Seq<u8>,
    endorser_nonce: Seq<u8>,
    new_node_signature: Seq<u8>,
    endorser_signature: Seq<u8>,
)
    requires
        1 <= base.version < i64::MAX,
        base.addenda.len() == base.version,
        !has_number(base.nodes, new_node),
    ensures
        cosign_base(
            activation_roster(
                base,
                endorser,
                new_node,
                new_node_spki,
                new_node_nonce,
                endorser_nonce,
                new_node_signature,
                endorser_signature,
            ),
            base.version,
            new_node,
        ) == base,
        base_version_hash_valid(
            activation_roster(
                base,
                endorser,
                new_node,
                new_node_spki,
                new_node_nonce,
                endorser_nonce,
                new_node_signature,
                endorser_signature,
            ),
            activation_payload_for(base, endorser, new_node, new_node_nonce, endorser_nonce),
            new_node,
        ),
{
    let r = activation_roster(
        base,
        endorser,
        new_node,
        new_node_spki,
        new_node_nonce,
        endorser_nonce,
        new_node_signature,
        endorser_signature,
    );
    lemma_without_absent(base.nodes, new_node);
    let pushed = base.nodes.push(crate::roster::fresh_node(new_node, new_node_spki));
    assert(pushed.drop_last() =~= base.nodes);
    assert(without_number(pushed, new_node) == without_number(base.nodes, new_node));
    assert(r.addenda.drop_last() =~= base.addenda);
    let c = cosign_base(r, base.version, new_node);
    assert(c.nodes =~= base.nodes);
    assert(c.addenda =~= base.addenda);
    assert(c == base);
}

/// A connection that the session has agreed to answer.
pub struct ConnectionAnswer {
    pub connection_id: i64,
    pub answerer_x25519_public_key: Vec<u8>,
    pub signature: Vec<u8>,
    pub shared_secret: [u8; 32],
}

impl ServingState {
    /// One endorsement at a time: a handed-out secret and a pending
    /// endorsement never coexist.
    #[verifier::type_invariant]
    closed spec fn one_endorsement_at_a_time(self) -> bool {
        !(self.pairing_secret is Some && self.pending_endorsement is Some)
    }

    /// A session's state: no pairing in progress, connection ids from 1.
    /// Connections are answered only with an X25519 key (an activated node).
    pub fn new(
        signing_key: SigningKeyPair,
        connectivity_group_id: ConnectivityGroupId,
        node_number: i32,
        x25519_key: Option<X25519KeyPair>,
    ) -> (r: Self)
        ensures
            r@ == (SpecServing {
                node_number,
                signing_seed: signing_key@,
                pairing_secret: None,
                pending: None,
                next_connection_id: 1,
            }),
            r.p2p_enabled() == x25519_key is Some,
    {
        ServingState {
            signing_key,
            connectivity_group_id,
            node_number,
            pairing_secret: None,
            pending_endorsement: None,
            x25519_key,
            connection_id_counter: 1,
        }
    }

    /// Whether the session answers connections.
    pub closed spec fn p2p_enabled(&self) -> bool {
        self.x25519_key is Some
    }

    /// The X25519 secret of the session, when it answers connections.
    pub closed spec fn x25519(&self) -> Seq<u8> {
        self.x25519_key->0@
    }

    /// The connectivity group.
    pub closed spec fn group(&self) -> Seq<char> {
        self.connectivity_group_id@
    }

    /// The session status.
    pub fn build_status(&self) -> (r: StatusInfo)
        ensures
            r.connected,
            r.connectivity_group_id@ == self.group(),
            r.node_number == self@.node_number,
            r.endorsing == endorsing_of(self@),
    {
        let endorsing = match &self.pending_endorsement {
            Some(p) => Some(EndorsingStatus::AwaitingCosign { new_node_number: p.new_node_number }),
            None => if self.pairing_secret.is_some() {
                Some(EndorsingStatus::AwaitingPairNode)
            } else {
                None
            },
        };
        StatusInfo {
            connected: true,
            connectivity_group_id: self.connectivity_group_id.duplicate(),
            node_number: self.node_number,
            endorsing,
        }
    }

    /// Start a pairing session with a fresh secret: refused while one is
    /// in progress (a secret handed out or an endorsement pending).
    pub fn handle_generate_pairing_secret(&mut self, secret: PairingSecret) -> (r: Result<
        PairingCode,
        ServingError,
    >)
        ensures
            old(self)@.pairing_secret is Some || old(self)@.pending is Some ==> (r matches Err(e)
                && e is PairingSessionActive && final(self)@ == old(self)@),
            !(old(self)@.pairing_secret is Some || old(self)@.pending is Some) ==> (r matches Ok(
                code,
            ) && code.node_number == old(self)@.node_number && code.secret@ == secret@
                && final(self)@ == (SpecServing {
                pairing_secret: Some(secret@),
                ..old(self)@
            })),
            final(self).p2p_enabled() == old(self).p2p_enabled(),
            final(self).x25519() == old(self).x25519(),
            final(self).group() == old(self).group(),
    {
        proof {
            use_type_invariant(&*self);
        }
        if self.pairing_secret.is_some() || self.pending_endorsement.is_some() {
            return Err(ServingError::PairingSessionActive);
        }
        let code = PairingCode::new(self.node_number, secret.duplicate());
        self.pairing_secret = Some(secret);
        Ok(code)
    }

    /// A pairing message from a new node: with a pairing secret handed out
    /// and a valid MAC, remember the endorsement, reply with our key and
    /// nonce (MACed), and retire the secret.
    pub fn handle_pair_nodes_message(&mut self, msg: PairNodesMessage, our_nonce: Vec<u8>) -> (r:
        HubReply)
        ensures
            final(self).p2p_enabled() == old(self).p2p_enabled(),
            final(self).x25519() == old(self).x25519(),
            final(self).group() == old(self).group(),
            match msg@.payload {
                None => r is Nothing && final(self)@ == old(self)@,
                Some(p) => match old(self)@.pairing_secret {
                    None => is_error_reply(r, "no active pairing session"@) && final(self)@
                        == old(self)@,
                    Some(secret) => if !pairing_mac_valid(
                        secret,
                        spec_encode_pair_payload(p),
                        msg@.mac,
                    ) {
                        is_error_reply(r, "MAC verification failed"@) && final(self)@ == old(
                            self,
                        )@
                    } else {
                        &&& r matches HubReply::Pair(reply) && reply@ == (SpecPairNodesMessage {
                            payload: Some(pair_reply_payload(old(self)@, p, our_nonce@)),
                            mac: pairing_mac(
                                secret,
                                spec_encode_pair_payload(
                                    pair_reply_payload(old(self)@, p, our_nonce@),
                                ),
                            ),
                        })
                        &&& final(self)@ == (SpecServing {
                            pairing_secret: None,
                            pending: Some(
                                SpecPending {
                                    new_node_number: p.sender_node_number,
                                    new_node_pubkey: p.public_key_spki,
                                    new_node_nonce: p.nonce,
                                    our_nonce: our_nonce@,
                                },
                            ),
                            ..old(self)@
                        })
                    },
                },
            },
    {
        proof {
            use_type_invariant(&*self);
        }
        let payload = match msg.payload {
            Some(p) => p,
            None => {
                return HubReply::Nothing;
            },
        };
        let secret = match &self.pairing_secret {
            Some(s) => s.duplicate(),
            None => {
                return HubReply::Error("no active pairing session");
            },
        };
        let payload_bytes = payload.encode_to_vec();
        if !secret.verify_mac(payload_bytes.as_slice(), msg.mac.as_slice()) {
            return HubReply::Error("MAC verification failed");
        }
        self.pairing_secret = None;
        self.pending_endorsement = Some(
            PendingEndorsement {
                new_node_number: payload.sender_node_number,
                new_node_pubkey: copy_bytes(payload.public_key_spki.as_slice()),
                new_node_nonce: copy_bytes(payload.nonce.as_slice()),
                our_nonce: copy_bytes(our_nonce.as_slice()),
            },
        );
        let reply_payload = PairPayload {
            sender_node_number: self.node_number,
            receiver_node_number: payload.sender_node_number,
            public_key_spki: self.signing_key.public_key_spki(),
            nonce: our_nonce,
            reply_nonce: payload.nonce,
        };
        let reply_bytes = reply_payload.encode_to_vec();
        let reply_mac = secret.compute_mac(reply_bytes.as_slice());
        HubReply::Pair(PairNodesMessage { payload: Some(reply_payload), mac: reply_mac })
    }

    /// Verify the base_version_hash in an activation payload: rebuild the
    /// base roster from the new roster and compare its hash.
    pub fn verify_base_version_hash(
        &self,
        new_roster: &Roster,
        activation_payload: &ActivationPayload,
        new_node_number: i32,
    ) -> (r: bool)
        ensures
            r == base_version_hash_valid(new_roster@, activation_payload@, new_node_number),
    {
        let mut base_roster = new_roster.duplicate();
        if activation_payload.base_version == 0 {
            base_roster.nodes = Vec::new();
        } else {
            let kept = crate::roster::nodes_without_public(&new_roster.nodes, new_node_number);
            base_roster.nodes = kept;
        }
        if base_roster.addenda.len() > 0 {
            base_roster.addenda.pop();
        }
        base_roster.version = activation_payload.base_version;
        proof {
            let expect = cosign_base(new_roster@, activation_payload.base_version, new_node_number);
            assert(base_roster@.nodes =~= expect.nodes);
            assert(base_roster@.addenda =~= expect.addenda);
        }
        let encoded = base_roster.encode_to_vec();
        let computed_hash = sha256_digest(encoded.as_slice());
        crate::node::bytes_eq(computed_hash.as_slice(), activation_payload.base_version_hash.as_slice())
    }

    /// A request to cosign the roster that activates the node we paired
    /// with: every check must pass, then we sign the activation payload and
    /// the endorsement ends. A refused request leaves the state as it was.
    pub fn handle_roster_cosign_request(&mut self, req: RosterCosignRequest) -> (r: HubReply)
        ensures
            final(self).p2p_enabled() == old(self).p2p_enabled(),
            final(self).x25519() == old(self).x25519(),
            final(self).group() == old(self).group(),
            match cosign_decision(
                old(self)@,
                req.new_node_number,
                match req.new_roster {
                    Some(x) => Some(x@),
                    None => None,
                },
            ) {
                Err(text) => is_error_reply(r, text) && final(self)@ == old(self)@,
                Ok(p) => r matches HubReply::Cosign(sig) && sig@ == ed25519_sign(
                    old(self)@.signing_seed,
                    spec_encode_activation_payload(p),
                ) && final(self)@ == (SpecServing { pending: None, ..old(self)@ }),
            },
    {
        proof {
            use_type_invariant(&*self);
        }
        let pending = match &self.pending_endorsement {
            Some(p) => p,
            None => {
                return HubReply::Error("no pending endorsement");
            },
        };
        if req.new_node_number as i32 != pending.new_node_number {
            return HubReply::Error("wrong node number");
        }
        let roster = match &req.new_roster {
            Some(r) => r,
            None => {
                return HubReply::Error("missing roster");
            },
        };
        let activation = match roster.addenda.last() {
            Some(a) => match &a.kind {
                Some(AddendumKind::Activation(act)) => act,
                _ => {
                    return HubReply::Error("no activation addendum");
                },
            },
            None => {
                return HubReply::Error("no activation addendum");
            },
        };
        proof {
            assert(roster@.addenda.last() == roster.addenda@.last()@);
        }
        let activation_payload = match &activation.payload {
            Some(p) => p,
            None => {
                return HubReply::Error("activation missing payload");
            },
        };
        if !self.verify_base_version_hash(roster, activation_payload, pending.new_node_number) {
            return HubReply::Error("base version hash mismatch");
        }
        if !crate::node::bytes_eq(
            activation_payload.new_node_nonce.as_slice(),
            pending.new_node_nonce.as_slice(),
        ) {
            return HubReply::Error("new node nonce mismatch");
        }
        if !crate::node::bytes_eq(
            activation_payload.endorser_nonce.as_slice(),
            pending.our_nonce.as_slice(),
        ) {
            return HubReply::Error("endorser nonce mismatch");
        }
        if activation_payload.endorser_node_number != self.node_number {
            return HubReply::Error("wrong endorser node number");
        }
        let idx = match crate::roster::find_node_index(&roster.nodes, pending.new_node_number) {
            Some(i) => i,
            None => {
                return HubReply::Error("new node not in roster");
            },
        };
        proof {
            lemma_first_index_matches(roster@.nodes, pending.new_node_number);
            assert(roster@.nodes[idx as int] == roster.nodes@[idx as int]@);
        }
        if !crate::node::bytes_eq(
            roster.nodes[idx].public_key_spki.as_slice(),
            pending.new_node_pubkey.as_slice(),
        ) {
            return HubReply::Error("public key mismatch");
        }
        let payload_bytes = activation_payload.encode_to_vec();
        let signature = self.signing_key.sign(payload_bytes.as_slice());
        self.pending_endorsement = None;
        HubReply::Cosign(signature)
    }

    /// The checks of a connection request before the roster is fetched:
    /// connections must be enabled and the caller's X25519 key 32 bytes.
    pub fn check_connection_request(&self, caller_x25519_public_key: &[u8]) -> (r: Result<
        [u8; 32],
        &'static str,
    >)
        ensures
            match connection_precheck(self.p2p_enabled(), caller_x25519_public_key@) {
                Some(text) => r matches Err(t) && t@ == text,
                None => r matches Ok(k) && k@ == caller_x25519_public_key@,
            },
    {
        if self.x25519_key.is_none() {
            return Err("P2P connections not available");
        }
        if caller_x25519_public_key.len() != 32 {
            return Err("invalid X25519 public key");
        }
        let mut key = [0u8; 32];
        let mut i: usize = 0;
        while i < 32
            invariant
                caller_x25519_public_key@.len() == 32,
                key@.len() == 32,
                i <= 32,
                forall|j: int| 0 <= j < i ==> key@[j] == caller_x25519_public_key@[j],
            decreases 32 - i,
        {
            key[i] = caller_x25519_public_key[i];
            i = i + 1;
        }
        assert(key@ =~= caller_x25519_public_key@);
        Ok(key)
    }

    /// The checks of a connection request against the roster the hub gave:
    /// the roster must verify from this node's side, and the caller's
    /// signature must verify under the key the roster holds for it. A
    /// connection id is taken before the last check.
    pub fn authorize_connection(
        &mut self,
        roster: &Roster,
        caller_node_number: i32,
        answerer_node_number: i32,
        caller_x25519_public_key: &[u8],
        caller_sdp: &str,
        signature: &[u8],
        has_stun_turn_config: bool,
    ) -> (r: Result<i64, &'static str>)
        requires
            old(self)@.next_connection_id < i64::MAX,
        ensures
            final(self).p2p_enabled() == old(self).p2p_enabled(),
            final(self).x25519() == old(self).x25519(),
            final(self).group() == old(self).group(),
            ({
                let spki = spki_encode(ed25519_public_key(old(self)@.signing_seed));
                let message = caller_signed_message(
                    answerer_node_number,
                    caller_x25519_public_key@,
                    caller_sdp.spec_bytes(),
                );
                let check = connection_check(
                    old(self)@,
                    spki,
                    roster@,
                    caller_node_number,
                    message,
                    signature@,
                );
                &&& check matches Some(text) ==> (r matches Err(t) && t@ == text) && final(self)@
                    == old(self)@
                &&& check is None ==> final(self)@ == (SpecServing {
                    next_connection_id: (old(self)@.next_connection_id + 1) as i64,
                    ..old(self)@
                })
                &&& check is None && has_stun_turn_config ==> r == Ok::<i64, &'static str>(
                    old(self)@.next_connection_id,
                )
                &&& check is None && !has_stun_turn_config ==> (r matches Err(t) && t@
                    == "missing STUN/TURN config"@)
            }),
    {
        proof {
            use_type_invariant(&*self);
        }
        let spki = self.signing_key.public_key_spki();
        match verify_roster(roster, self.node_number, spki.as_slice()) {
            Ok(_) => {},
            Err(_) => {
                return Err("internal error");
            },
        }
        let idx = match crate::roster::find_node_index(&roster.nodes, caller_node_number) {
            Some(i) => i,
            None => {
                return Err("caller not in roster");
            },
        };
        proof {
            lemma_first_index_matches(roster@.nodes, caller_node_number);
            assert(roster@.nodes[idx as int] == roster.nodes@[idx as int]@);
        }
        let key = match ed25519_key_from_spki(roster.nodes[idx].public_key_spki.as_slice()) {
            Ok(k) => k,
            Err(_) => {
                return Err("invalid caller public key");
            },
        };
        let message = caller_message(answerer_node_number, caller_x25519_public_key, caller_sdp);
        if signature.len() != 64 {
            return Err("invalid signature");
        }
        if !ed25519_verify_signature(key.as_slice(), message.as_slice(), signature) {
            return Err("signature verification failed");
        }
        let connection_id = self.connection_id_counter;
        self.connection_id_counter = self.connection_id_counter + 1;
        if !has_stun_turn_config {
            return Err("missing STUN/TURN config");
        }
        Ok(connection_id)
    }

    /// The answer to an authorized connection: the public key of
    /// `ephemeral`, a fresh X25519 keypair drawn for this connection alone,
    /// our signature over the connection id, that key and our SDP, and the
    /// shared secret with the caller. A session without X25519 key (a node
    /// not activated) answers no connection.
    pub fn answer_connection(
        &self,
        connection_id: i64,
        answerer_sdp: &str,
        caller_x25519_public_key: &[u8; 32],
        ephemeral: &X25519KeyPair,
    ) -> (r: Option<ConnectionAnswer>)
        ensures
            !self.p2p_enabled() ==> r is None,
            self.p2p_enabled() ==> (r matches Some(a) && a.connection_id == connection_id
                && a.answerer_x25519_public_key@ == x25519_public_key(ephemeral@)
                && a.signature@ == ed25519_sign(
                self@.signing_seed,
                answerer_signed_message(
                    connection_id,
                    a.answerer_x25519_public_key@,
                    answerer_sdp.spec_bytes(),
                ),
            ) && a.shared_secret@ == x25519_shared_secret(
                ephemeral@,
                caller_x25519_public_key@,
            ) && (forall|caller_secret: Seq<u8>|
                caller_secret.len() == 32 && caller_x25519_public_key@ == #[trigger] x25519_public_key(
                    caller_secret,
                ) ==> a.shared_secret@ == x25519_shared_secret(
                    caller_secret,
                    a.answerer_x25519_public_key@,
                ))),
    {
        if self.x25519_key.is_none() {
            return None;
        }
        let public_key = ephemeral.public_key();
        let message = answerer_message(connection_id, public_key.as_slice(), answerer_sdp);
        let signature = self.signing_key.sign(message.as_slice());
        let shared_secret = ephemeral.diffie_hellman(caller_x25519_public_key);
        Some(ConnectionAnswer {
            connection_id,
            answerer_x25519_public_key: copy_bytes(public_key.as_slice()),
            signature,
            shared_secret,
        })
    }
}

} // verus!
