//! Roster verification and roster builders.
//!
//! A roster at version N carries N addenda. Verification walks the history
//! backwards from the current version to version 1: each activation must be
//! signed by the new node and by an endorser that was active before it,
//! each revocation by a revoker that was active before it, and from version
//! 2 on each change names the SHA-256 of the roster it was made on.
use vstd::prelude::*;

use crate::primitives::{
    ed25519_key_from_spki, ed25519_verify, ed25519_verify_signature, sha256, sha256_digest,
    spki_decode,
};
use crate::proto::{
    copy_addenda, copy_bytes, copy_nodes,
    spec_encode_activation_payload, spec_encode_revocation_payload, spec_encode_roster,
    Activation, ActivationPayload, Addendum, AddendumKind, Revocation, RevocationPayload, Roster,
    RosterNode, SpecActivation, SpecActivationPayload, SpecAddendum, SpecAddendumKind,
    SpecRevocation, SpecRevocationPayload, SpecRoster, SpecRosterNode,
};
use std::collections::HashMap;

verus! {

broadcast use vstd::std_specs::hash::group_hash_axioms;

//-- Errors ------------------------------------------------------------------

/// Errors that can occur during roster verification.
#[derive(Debug, Clone)]
pub enum RosterVerificationError {
    InvalidVersion(i64),
    NodeCountMismatch { version: i64, expected: usize, actual: usize },
    AddendaCountMismatch { version: i64, expected: usize, actual: usize },
    DuplicateNode(i32),
    InvalidPublicKey { node_number: i32, reason: String },
    VerifierNotInRoster(i32),
    VerifierRevoked(i32),
    VerifierKeyMismatch(i32),
    MissingAddendum(usize),
    EmptyAddendum(usize),
    MissingActivationPayload(i64),
    MissingRevocationPayload(i64),
    InvalidNewNodeSignature(i64),
    InvalidEndorserSignature(i64),
    InvalidRevokerSignature(i64),
    NewNodeNotInRoster { version: i64, new_node: i32 },
    NewNodeIsEndorser(i32),
    EndorserNotInPreviousRoster { version: i64, endorser: i32 },
    RevokerNotInPreviousRoster { version: i64, revoker: i32 },
    RevokedNodeNotInRoster { version: i64, revoked: i32 },
    BaseHashMismatch(i64),
    VersionMismatch { expected: i64, actual: i64 },
}

/// The model of an error: the error without the decoder's message text.
pub enum SpecRosterError {
    InvalidVersion(i64),
    NodeCountMismatch { version: i64, expected: usize, actual: usize },
    AddendaCountMismatch { version: i64, expected: usize, actual: usize },
    DuplicateNode(i32),
    InvalidPublicKey { node_number: i32 },
    VerifierNotInRoster(i32),
    VerifierRevoked(i32),
    VerifierKeyMismatch(i32),
    MissingAddendum(usize),
    EmptyAddendum(usize),
    MissingActivationPayload(i64),
    MissingRevocationPayload(i64),
    InvalidNewNodeSignature(i64),
    InvalidEndorserSignature(i64),
    InvalidRevokerSignature(i64),
    NewNodeNotInRoster { version: i64, new_node: i32 },
    NewNodeIsEndorser(i32),
    EndorserNotInPreviousRoster { version: i64, endorser: i32 },
    RevokerNotInPreviousRoster { version: i64, revoker: i32 },
    RevokedNodeNotInRoster { version: i64, revoked: i32 },
    BaseHashMismatch(i64),
    VersionMismatch { expected: i64, actual: i64 },
}

impl View for RosterVerificationError {
    type V = SpecRosterError;

    open spec fn view(&self) -> SpecRosterError {
        match *self {
            RosterVerificationError::InvalidVersion(v) => SpecRosterError::InvalidVersion(v),
            RosterVerificationError::NodeCountMismatch { version, expected, actual } =>
                SpecRosterError::NodeCountMismatch { version, expected, actual },
            RosterVerificationError::AddendaCountMismatch { version, expected, actual } =>
                SpecRosterError::AddendaCountMismatch { version, expected, actual },
            RosterVerificationError::DuplicateNode(n) => SpecRosterError::DuplicateNode(n),
            RosterVerificationError::InvalidPublicKey { node_number, reason: _ } =>
                SpecRosterError::InvalidPublicKey { node_number },
            RosterVerificationError::VerifierNotInRoster(n) => SpecRosterError::VerifierNotInRoster(
                n,
            ),
            RosterVerificationError::VerifierRevoked(n) => SpecRosterError::VerifierRevoked(n),
            RosterVerificationError::VerifierKeyMismatch(n) => SpecRosterError::VerifierKeyMismatch(
                n,
            ),
            RosterVerificationError::MissingAddendum(i) => SpecRosterError::MissingAddendum(i),
            RosterVerificationError::EmptyAddendum(i) => SpecRosterError::EmptyAddendum(i),
            RosterVerificationError::MissingActivationPayload(v) =>
                SpecRosterError::MissingActivationPayload(v),
            RosterVerificationError::MissingRevocationPayload(v) =>
                SpecRosterError::MissingRevocationPayload(v),
            RosterVerificationError::InvalidNewNodeSignature(v) =>
                SpecRosterError::InvalidNewNodeSignature(v),
            RosterVerificationError::InvalidEndorserSignature(v) =>
                SpecRosterError::InvalidEndorserSignature(v),
            RosterVerificationError::InvalidRevokerSignature(v) =>
                SpecRosterError::InvalidRevokerSignature(v),
            RosterVerificationError::NewNodeNotInRoster { version, new_node } =>
                SpecRosterError::NewNodeNotInRoster { version, new_node },
            RosterVerificationError::NewNodeIsEndorser(n) => SpecRosterError::NewNodeIsEndorser(n),
            RosterVerificationError::EndorserNotInPreviousRoster { version, endorser } =>
                SpecRosterError::EndorserNotInPreviousRoster { version, endorser },
            RosterVerificationError::RevokerNotInPreviousRoster { version, revoker } =>
                SpecRosterError::RevokerNotInPreviousRoster { version, revoker },
            RosterVerificationError::RevokedNodeNotInRoster { version, revoked } =>
                SpecRosterError::RevokedNodeNotInRoster { version, revoked },
            RosterVerificationError::BaseHashMismatch(v) => SpecRosterError::BaseHashMismatch(v),
            RosterVerificationError::VersionMismatch { expected, actual } =>
                SpecRosterError::VersionMismatch { expected, actual },
        }
    }
}

//-- The model of verification -----------------------------------------------

/// The structural check: version at least 1 and one addendum per version.
pub open spec fn structure_error(r: SpecRoster) -> Option<SpecRosterError> {
    if r.version < 1 {
        Some(SpecRosterError::InvalidVersion(r.version))
    } else if r.addenda.len() != (r.version as usize) as int {
        Some(
            SpecRosterError::AddendaCountMismatch {
                version: r.version,
                expected: r.version as usize,
                actual: r.addenda.len() as usize,
            },
        )
    } else {
        None
    }
}

/// The public keys of the nodes, by node number: a node number occurring
/// twice, or a key that does not decode, is an error (the first in order).
pub open spec fn decode_keys(nodes: Seq<SpecRosterNode>) -> Result<
    Map<i32, Seq<u8>>,
    SpecRosterError,
>
    decreases nodes.len(),
{
    if nodes.len() == 0 {
        Ok(Map::empty())
    } else {
        match decode_keys(nodes.drop_last()) {
            Err(e) => Err(e),
            Ok(m) => {
                let n = nodes.last();
                if m.contains_key(n.node_number) {
                    Err(SpecRosterError::DuplicateNode(n.node_number))
                } else {
                    match spki_decode(n.public_key_spki) {
                        None => Err(
                            SpecRosterError::InvalidPublicKey { node_number: n.node_number },
                        ),
                        Some(k) => Ok(m.insert(n.node_number, k)),
                    }
                }
            },
        }
    }
}

/// Revocation flags by node number (the last entry of a number wins).
pub open spec fn revoked_flags(nodes: Seq<SpecRosterNode>) -> Map<i32, bool>
    decreases nodes.len(),
{
    if nodes.len() == 0 {
        Map::empty()
    } else {
        revoked_flags(nodes.drop_last()).insert(nodes.last().node_number, nodes.last().revoked)
    }
}

/// The index of the first node with number `n`.
pub open spec fn first_index(nodes: Seq<SpecRosterNode>, n: i32) -> Option<int>
    decreases nodes.len(),
{
    if nodes.len() == 0 {
        None
    } else if nodes[0].node_number == n {
        Some(0)
    } else {
        match first_index(nodes.drop_first(), n) {
            Some(i) => Some(i + 1),
            None => None,
        }
    }
}

/// The nodes without those numbered `n`.
pub open spec fn without_number(nodes: Seq<SpecRosterNode>, n: i32) -> Seq<SpecRosterNode>
    decreases nodes.len(),
{
    if nodes.len() == 0 {
        seq![]
    } else if nodes.last().node_number == n {
        without_number(nodes.drop_last(), n)
    } else {
        without_number(nodes.drop_last(), n).push(nodes.last())
    }
}

/// The nodes with the revocation flag of the first node numbered `n` set
/// to `flag` (unchanged when there is no such node).
pub open spec fn with_flag(nodes: Seq<SpecRosterNode>, n: i32, flag: bool) -> Seq<
    SpecRosterNode,
> {
    match first_index(nodes, n) {
        Some(i) => nodes.update(i, SpecRosterNode { revoked: flag, ..nodes[i] }),
        None => nodes,
    }
}

/// The nodes with the first node numbered `n` marked not revoked.
pub open spec fn unrevoked(nodes: Seq<SpecRosterNode>, n: i32) -> Seq<SpecRosterNode> {
    with_flag(nodes, n, false)
}

/// The nodes as they were before addendum `a` was applied.
pub open spec fn undo_addendum(nodes: Seq<SpecRosterNode>, a: SpecAddendum) -> Seq<
    SpecRosterNode,
> {
    match a.kind {
        Some(SpecAddendumKind::Activation(act)) => match act.payload {
            Some(p) => without_number(nodes, p.new_node_number),
            None => nodes,
        },
        Some(SpecAddendumKind::Revocation(rev)) => match rev.payload {
            Some(p) => unrevoked(nodes, p.revoked_node_number),
            None => nodes,
        },
        None => nodes,
    }
}

/// Undo addenda `hi - 1` down to `lo`, the latest first.
pub open spec fn undo_addenda(
    nodes: Seq<SpecRosterNode>,
    addenda: Seq<SpecAddendum>,
    lo: int,
    hi: int,
) -> Seq<SpecRosterNode>
    decreases hi - lo,
{
    if hi <= lo {
        nodes
    } else {
        undo_addenda(undo_addendum(nodes, addenda[hi - 1]), addenda, lo, hi - 1)
    }
}

/// A sequence cut to its first `k` elements, if it has more.
pub open spec fn truncated<A>(s: Seq<A>, k: int) -> Seq<A> {
    if k < s.len() {
        s.take(k)
    } else {
        s
    }
}

/// The roster at `base_version`, rebuilt from a later roster.
pub open spec fn base_roster_of(r: SpecRoster, base_version: i64) -> SpecRoster {
    let lo = (base_version as usize) as int;
    SpecRoster {
        version: base_version,
        nodes: undo_addenda(r.nodes, r.addenda, lo, r.addenda.len() as int),
        addenda: truncated(r.addenda, lo),
    }
}

/// The hash that identifies a roster version.
pub open spec fn roster_hash(r: SpecRoster) -> Seq<u8> {
    sha256(spec_encode_roster(r))
}

/// Whether `expected` is the hash of the roster at `base_version`.
pub open spec fn base_hash_matches(r: SpecRoster, base_version: i64, expected: Seq<u8>) -> bool {
    roster_hash(base_roster_of(r, base_version)) == expected
}

/// Check of the activation that made version `v` of roster `w`; gives the
/// revocation flags of version `v - 1`.
pub open spec fn check_activation(
    w: SpecRoster,
    act: SpecActivation,
    v: i64,
    keys: Map<i32, Seq<u8>>,
    revoked: Map<i32, bool>,
) -> Result<Map<i32, bool>, SpecRosterError> {
    match act.payload {
        None => Err(SpecRosterError::MissingActivationPayload(v)),
        Some(p) => {
            let bytes = spec_encode_activation_payload(p);
            if p.new_version != v {
                Err(SpecRosterError::VersionMismatch { expected: v, actual: p.new_version })
            } else if !keys.contains_key(p.new_node_number) {
                Err(SpecRosterError::NewNodeNotInRoster { version: v, new_node: p.new_node_number })
            } else if !keys.contains_key(p.endorser_node_number) {
                Err(
                    SpecRosterError::EndorserNotInPreviousRoster {
                        version: v,
                        endorser: p.endorser_node_number,
                    },
                )
            } else if p.new_node_number == p.endorser_node_number {
                Err(SpecRosterError::NewNodeIsEndorser(p.new_node_number))
            } else if v != 1 && !(revoked.contains_key(p.endorser_node_number)
                && !revoked[p.endorser_node_number]) {
                Err(
                    SpecRosterError::EndorserNotInPreviousRoster {
                        version: v,
                        endorser: p.endorser_node_number,
                    },
                )
            } else if !ed25519_verify(keys[p.new_node_number], bytes, act.new_node_signature) {
                Err(SpecRosterError::InvalidNewNodeSignature(v))
            } else if !ed25519_verify(keys[p.endorser_node_number], bytes, act.endorser_signature) {
                Err(SpecRosterError::InvalidEndorserSignature(v))
            } else if v > 1 && !base_hash_matches(w, p.base_version, p.base_version_hash) {
                Err(SpecRosterError::BaseHashMismatch(v))
            } else {
                Ok(revoked.remove(p.new_node_number))
            }
        },
    }
}

/// Check of the revocation that made version `v` of roster `w`.
pub open spec fn check_revocation(
    w: SpecRoster,
    rev: SpecRevocation,
    v: i64,
    keys: Map<i32, Seq<u8>>,
    revoked: Map<i32, bool>,
) -> Result<Map<i32, bool>, SpecRosterError> {
    match rev.payload {
        None => Err(SpecRosterError::MissingRevocationPayload(v)),
        Some(p) => {
            if p.new_version != v {
                Err(SpecRosterError::VersionMismatch { expected: v, actual: p.new_version })
            } else if !keys.contains_key(p.revoker_node_number) {
                Err(
                    SpecRosterError::RevokerNotInPreviousRoster {
                        version: v,
                        revoker: p.revoker_node_number,
                    },
                )
            } else if !(revoked.contains_key(p.revoker_node_number)
                && !revoked[p.revoker_node_number]) {
                Err(
                    SpecRosterError::RevokerNotInPreviousRoster {
                        version: v,
                        revoker: p.revoker_node_number,
                    },
                )
            } else if !revoked.contains_key(p.revoked_node_number) {
                Err(
                    SpecRosterError::RevokedNodeNotInRoster {
                        version: v,
                        revoked: p.revoked_node_number,
                    },
                )
            } else if !ed25519_verify(
                keys[p.revoker_node_number],
                spec_encode_revocation_payload(p),
                rev.revoker_signature,
            ) {
                Err(SpecRosterError::InvalidRevokerSignature(v))
            } else if v > 1 && !base_hash_matches(w, p.base_version, p.base_version_hash) {
                Err(SpecRosterError::BaseHashMismatch(v))
            } else {
                Ok(revoked.insert(p.revoked_node_number, false))
            }
        },
    }
}

/// Roster `w` with its last addendum taken off and its nodes set to `nodes`.
pub open spec fn stepped_back(w: SpecRoster, nodes: Seq<SpecRosterNode>) -> SpecRoster {
    SpecRoster { version: (w.version - 1) as i64, nodes, addenda: w.addenda.drop_last() }
}

/// The chain of trust from version `v` of roster `w` down to version 1:
/// `None` when every step checks, else the first error found.
pub open spec fn chain_error(
    w: SpecRoster,
    v: int,
    keys: Map<i32, Seq<u8>>,
    revoked: Map<i32, bool>,
) -> Option<SpecRosterError>
    decreases v,
{
    if v < 1 {
        None
    } else if w.addenda.len() == 0 {
        Some(SpecRosterError::MissingAddendum((v - 1) as usize))
    } else {
        match w.addenda.last().kind {
            None => Some(SpecRosterError::EmptyAddendum((v - 1) as usize)),
            Some(SpecAddendumKind::Activation(act)) => match check_activation(
                w,
                act,
                v as i64,
                keys,
                revoked,
            ) {
                Err(e) => Some(e),
                Ok(rev2) => chain_error(
                    stepped_back(w, undo_addendum(w.nodes, w.addenda.last())),
                    v - 1,
                    keys,
                    rev2,
                ),
            },
            Some(SpecAddendumKind::Revocation(rv)) => match check_revocation(
                w,
                rv,
                v as i64,
                keys,
                revoked,
            ) {
                Err(e) => Some(e),
                Ok(rev2) => chain_error(
                    stepped_back(w, undo_addendum(w.nodes, w.addenda.last())),
                    v - 1,
                    keys,
                    rev2,
                ),
            },
        }
    }
}

/// The keys of the nodes that are not revoked.
pub open spec fn active_keys(nodes: Seq<SpecRosterNode>, keys: Map<i32, Seq<u8>>) -> Map<
    i32,
    Seq<u8>,
> {
    Map::new(
        |n: i32|
            keys.contains_key(n) && exists|i: int|
                0 <= i < nodes.len() && nodes[i].node_number == n && !nodes[i].revoked,
        |n: i32| keys[n],
    )
}

/// What verifying roster `r` from the perspective of node `verifier`, whose
/// own key is the SPKI document `verifier_spki`, gives: the keys of the
/// active nodes, or the first error.
pub open spec fn verify_roster_result(r: SpecRoster, verifier: i32, verifier_spki: Seq<u8>) -> Result<
    Map<i32, Seq<u8>>,
    SpecRosterError,
> {
    match structure_error(r) {
        Some(e) => Err(e),
        None => match decode_keys(r.nodes) {
            Err(e) => Err(e),
            Ok(keys) => match first_index(r.nodes, verifier) {
                None => Err(SpecRosterError::VerifierNotInRoster(verifier)),
                Some(i) => if r.nodes[i].revoked {
                    Err(SpecRosterError::VerifierRevoked(verifier))
                } else if !keys.contains_key(verifier) {
                    Err(SpecRosterError::VerifierNotInRoster(verifier))
                } else {
                    match spki_decode(verifier_spki) {
                        None => Err(SpecRosterError::InvalidPublicKey { node_number: verifier }),
                        Some(expected) => if keys[verifier] != expected {
                            Err(SpecRosterError::VerifierKeyMismatch(verifier))
                        } else {
                            match chain_error(r, r.version as int, keys, revoked_flags(r.nodes)) {
                                Some(e) => Err(e),
                                None => Ok(active_keys(r.nodes, keys)),
                            }
                        },
                    }
                },
            },
        },
    }
}

/// The view of a key map.
pub open spec fn key_map_view(m: Map<i32, Vec<u8>>) -> Map<i32, Seq<u8>> {
    Map::new(|n: i32| m.contains_key(n), |n: i32| m[n]@)
}


//-- Lemmas on the model -----------------------------------------------------

/// `first_index` finds the first match.
pub proof fn lemma_first_index(nodes: Seq<SpecRosterNode>, n: i32, k: int)
    requires
        0 <= k <= nodes.len(),
        forall|j: int| 0 <= j < k ==> nodes[j].node_number != n,
    ensures
        k < nodes.len() && nodes[k].node_number == n ==> first_index(nodes, n) == Some(k),
        k == nodes.len() ==> first_index(nodes, n) is None,
    decreases k,
{
    if k > 0 {
        lemma_first_index(nodes.drop_first(), n, k - 1);
    }
}

/// `first_index` gives a matching index.
pub proof fn lemma_first_index_matches(nodes: Seq<SpecRosterNode>, n: i32)
    ensures
        match first_index(nodes, n) {
            Some(i) => 0 <= i < nodes.len() && nodes[i].node_number == n && forall|j: int|
                0 <= j < i ==> nodes[j].node_number != n,
            None => forall|j: int| 0 <= j < nodes.len() ==> nodes[j].node_number != n,
        },
    decreases nodes.len(),
{
    if nodes.len() > 0 {
        lemma_first_index_matches(nodes.drop_first(), n);
        if nodes[0].node_number != n {
            match first_index(nodes.drop_first(), n) {
                Some(i) => {
                    assert forall|j: int| 0 <= j < i + 1 implies nodes[j].node_number != n by {
                        if j > 0 {
                            assert(nodes[j] == nodes.drop_first()[j - 1]);
                        }
                    }
                },
                None => {
                    assert forall|j: int| 0 <= j < nodes.len() implies nodes[j].node_number
                        != n by {
                        if j > 0 {
                            assert(nodes[j] == nodes.drop_first()[j - 1]);
                        }
                    }
                },
            }
        }
    }
}

/// An error of `decode_keys` on a prefix is its error on every longer prefix.
pub proof fn lemma_decode_keys_error_persists(nodes: Seq<SpecRosterNode>, k: int, m: int)
    requires
        0 <= k <= m <= nodes.len(),
        decode_keys(nodes.take(k)) is Err,
    ensures
        decode_keys(nodes.take(m)) == decode_keys(nodes.take(k)),
    decreases m - k,
{
    if m > k {
        lemma_decode_keys_error_persists(nodes, k, m - 1);
        assert(nodes.take(m).drop_last() =~= nodes.take(m - 1));
    }
}

//-- Executable verification -------------------------------------------------

/// The views of a list of nodes.
pub open spec fn nodes_view(v: Seq<RosterNode>) -> Seq<SpecRosterNode> {
    v.map_values(|n: RosterNode| n@)
}

fn bytes_equal(a: &[u8], b: &[u8]) -> (r: bool)
    ensures
        r == (a@ == b@),
{
    if a.len() != b.len() {
        return false;
    }
    let mut i: usize = 0;
    while i < a.len()
        invariant
            a@.len() == b@.len(),
            i <= a@.len(),
            forall|j: int| 0 <= j < i ==> a@[j] == b@[j],
        decreases a@.len() - i,
    {
        if a[i] != b[i] {
            return false;
        }
        i = i + 1;
    }
    assert(a@ =~= b@);
    true
}

/// Index of the first node numbered `n`.
pub(crate) fn find_node_index(nodes: &Vec<RosterNode>, n: i32) -> (r: Option<usize>)
    ensures
        match r {
            Some(i) => first_index(nodes_view(nodes@), n) == Some(i as int),
            None => first_index(nodes_view(nodes@), n) is None,
        },
{
    let ghost s = nodes_view(nodes@);
    let mut i: usize = 0;
    while i < nodes.len()
        invariant
            i <= nodes@.len(),
            s == nodes_view(nodes@),
            forall|j: int| 0 <= j < i ==> s[j].node_number != n,
        decreases nodes@.len() - i,
    {
        if nodes[i].node_number == n {
            proof {
                lemma_first_index(s, n, i as int);
            }
            return Some(i);
        }
        i = i + 1;
    }
    proof {
        lemma_first_index(s, n, i as int);
    }
    None
}

/// The nodes not numbered `n` (in order).
fn nodes_without(nodes: &Vec<RosterNode>, n: i32) -> (r: Vec<RosterNode>)
    ensures
        nodes_view(r@) == without_number(nodes_view(nodes@), n),
{
    let ghost s = nodes_view(nodes@);
    let mut r: Vec<RosterNode> = Vec::new();
    let mut i: usize = 0;
    while i < nodes.len()
        invariant
            i <= nodes@.len(),
            s == nodes_view(nodes@),
            nodes_view(r@) == without_number(s.take(i as int), n),
        decreases nodes@.len() - i,
    {
        proof {
            assert(s.take(i + 1).drop_last() =~= s.take(i as int));
        }
        if nodes[i].node_number != n {
            let ghost before = r@;
            r.push(nodes[i].duplicate());
            assert(nodes_view(r@) =~= nodes_view(before).push(s[i as int]));
        }
        i = i + 1;
    }
    assert(s.take(nodes@.len() as int) =~= s);
    r
}

/// The nodes not numbered `n` (in order), for other modules.
pub(crate) fn nodes_without_public(nodes: &Vec<RosterNode>, n: i32) -> (r: Vec<RosterNode>)
    ensures
        nodes_view(r@) == without_number(nodes_view(nodes@), n),
{
    nodes_without(nodes, n)
}

/// Set the revocation flag of the first node numbered `n`.
fn set_first_flag(nodes: &mut Vec<RosterNode>, n: i32, flag: bool)
    ensures
        nodes_view(final(nodes)@) == with_flag(nodes_view(old(nodes)@), n, flag),
{
    let found = find_node_index(nodes, n);
    proof {
        lemma_first_index_matches(nodes_view(nodes@), n);
    }
    match found {
        Some(i) => {
            let node = RosterNode {
                node_number: nodes[i].node_number,
                public_key_spki: copy_bytes(nodes[i].public_key_spki.as_slice()),
                revoked: flag,
            };
            let ghost before = nodes@;
            nodes.set(i, node);
            assert(nodes_view(nodes@) =~= with_flag(nodes_view(before), n, flag));
        },
        None => {},
    }
}

/// Undo one addendum on a list of nodes.
fn undo_on_nodes(nodes: &mut Vec<RosterNode>, addendum: &Addendum)
    ensures
        nodes_view(final(nodes)@) == undo_addendum(nodes_view(old(nodes)@), addendum@),
{
    match &addendum.kind {
        Some(AddendumKind::Activation(activation)) => {
            if let Some(payload) = &activation.payload {
                let kept = nodes_without(nodes, payload.new_node_number);
                *nodes = kept;
            }
        },
        Some(AddendumKind::Revocation(revocation)) => {
            if let Some(payload) = &revocation.payload {
                set_first_flag(nodes, payload.revoked_node_number, false);
            }
        },
        None => {},
    }
}

/// Validate the roster structure (counts match version).
fn verify_roster_structure(roster: &Roster) -> (res: Result<(), RosterVerificationError>)
    ensures
        match structure_error(roster@) {
            Some(e) => res matches Err(err) && err@ == e,
            None => res is Ok,
        },
{
    if roster.version < 1 {
        return Err(RosterVerificationError::InvalidVersion(roster.version));
    }
    let expected_addenda = roster.version as usize;
    if roster.addenda.len() != expected_addenda {
        return Err(
            RosterVerificationError::AddendaCountMismatch {
                version: roster.version,
                expected: expected_addenda,
                actual: roster.addenda.len(),
            },
        );
    }
    Ok(())
}

/// Decode all public keys from the roster.
fn decode_roster_keys(roster: &Roster) -> (res: Result<
    HashMap<i32, Vec<u8>>,
    RosterVerificationError,
>)
    ensures
        match decode_keys(roster@.nodes) {
            Ok(m) => res matches Ok(keys) && key_map_view(keys@) == m,
            Err(e) => res matches Err(err) && err@ == e,
        },
{
    let ghost s = roster@.nodes;
    let mut keys: HashMap<i32, Vec<u8>> = HashMap::new();
    let mut i: usize = 0;
    assert(key_map_view(keys@) =~= Map::<i32, Seq<u8>>::empty());
    assert(s.take(0) =~= Seq::<SpecRosterNode>::empty());
    while i < roster.nodes.len()
        invariant
            i <= roster.nodes@.len(),
            s == roster@.nodes,
            s.len() == roster.nodes@.len(),
            decode_keys(s.take(i as int)) == Ok::<Map<i32, Seq<u8>>, SpecRosterError>(
                key_map_view(keys@),
            ),
        decreases roster.nodes@.len() - i,
    {
        let node = &roster.nodes[i];
        proof {
            assert(s.take(i + 1).drop_last() =~= s.take(i as int));
            assert(s.take(i + 1).last() == node@);
        }
        if keys.contains_key(&node.node_number) {
            proof {
                lemma_decode_keys_error_persists(s, i + 1, s.len() as int);
                assert(s.take(s.len() as int) =~= s);
            }
            return Err(RosterVerificationError::DuplicateNode(node.node_number));
        }
        match ed25519_key_from_spki(node.public_key_spki.as_slice()) {
            Ok(key) => {
                let ghost before = keys@;
                keys.insert(node.node_number, key);
                assert(key_map_view(keys@) =~= key_map_view(before).insert(
                    node.node_number,
                    spki_decode(node.public_key_spki@).unwrap(),
                ));
            },
            Err(reason) => {
                proof {
                    lemma_decode_keys_error_persists(s, i + 1, s.len() as int);
                    assert(s.take(s.len() as int) =~= s);
                }
                return Err(
                    RosterVerificationError::InvalidPublicKey {
                        node_number: node.node_number,
                        reason,
                    },
                );
            },
        }
        i = i + 1;
    }
    assert(s.take(s.len() as int) =~= s);
    Ok(keys)
}

/// Revocation flags of the nodes, by node number.
fn revocation_flags(nodes: &Vec<RosterNode>) -> (r: HashMap<i32, bool>)
    ensures
        r@ == revoked_flags(nodes_view(nodes@)),
{
    let ghost s = nodes_view(nodes@);
    let mut r: HashMap<i32, bool> = HashMap::new();
    let mut i: usize = 0;
    assert(s.take(0) =~= Seq::<SpecRosterNode>::empty());
    while i < nodes.len()
        invariant
            i <= nodes@.len(),
            s == nodes_view(nodes@),
            r@ == revoked_flags(s.take(i as int)),
        decreases nodes@.len() - i,
    {
        proof {
            assert(s.take(i + 1).drop_last() =~= s.take(i as int));
        }
        r.insert(nodes[i].node_number, nodes[i].revoked);
        i = i + 1;
    }
    assert(s.take(nodes@.len() as int) =~= s);
    r
}


/// Compute the SHA256 hash of a roster for version verification.
pub fn compute_roster_hash(roster: &Roster) -> (res: Vec<u8>)
    ensures
        res@ == roster_hash(roster@),
        res@.len() == 32,
{
    let bytes = roster.encode_to_vec();
    sha256_digest(bytes.as_slice())
}

/// Verify the base version hash matches the reconstructed previous roster.
pub fn verify_base_hash(
    roster: &Roster,
    base_version: i64,
    expected_hash: &[u8],
    current_version: i64,
) -> (res: Result<(), RosterVerificationError>)
    ensures
        base_hash_matches(roster@, base_version, expected_hash@) ==> res is Ok,
        !base_hash_matches(roster@, base_version, expected_hash@) ==> (res matches Err(e)
            && e@ == SpecRosterError::BaseHashMismatch(current_version)),
{
    let ghost r = roster@;
    let lo = base_version as usize;
    let mut nodes = copy_nodes(&roster.nodes);
    let mut i = roster.addenda.len();
    while i > lo
        invariant
            r == roster@,
            lo == base_version as usize,
            i <= r.addenda.len(),
            undo_addenda(r.nodes, r.addenda, lo as int, r.addenda.len() as int) == undo_addenda(
                nodes_view(nodes@),
                r.addenda,
                lo as int,
                i as int,
            ),
        decreases i,
    {
        i = i - 1;
        undo_on_nodes(&mut nodes, &roster.addenda[i]);
    }
    let mut addenda = copy_addenda(&roster.addenda);
    addenda.truncate(lo);
    let base_roster = Roster { version: base_version, nodes, addenda };
    proof {
        assert(base_roster@.nodes == nodes_view(base_roster.nodes@));
        assert(base_roster@.addenda =~= truncated(r.addenda, lo as int));
        assert(base_roster@ == base_roster_of(r, base_version));
    }
    let hash = compute_roster_hash(&base_roster);
    if !bytes_equal(hash.as_slice(), expected_hash) {
        return Err(RosterVerificationError::BaseHashMismatch(current_version));
    }
    Ok(())
}

/// Verify a signature.
fn verify_signature(key: &[u8], message: &[u8], signature_bytes: &[u8]) -> (r: bool)
    ensures
        r == ed25519_verify(key@, message@, signature_bytes@),
{
    ed25519_verify_signature(key, message, signature_bytes)
}

/// Verify an activation addendum.
fn verify_activation(
    roster: &Roster,
    activation: &Activation,
    expected_version: i64,
    keys: &HashMap<i32, Vec<u8>>,
    node_revoked: &mut HashMap<i32, bool>,
) -> (res: Result<(), RosterVerificationError>)
    ensures
        match check_activation(
            roster@,
            activation@,
            expected_version,
            key_map_view(keys@),
            old(node_revoked)@,
        ) {
            Ok(m) => res is Ok && final(node_revoked)@ == m,
            Err(e) => res matches Err(err) && err@ == e,
        },
{
    let payload = match &activation.payload {
        Some(p) => p,
        None => {
            return Err(RosterVerificationError::MissingActivationPayload(expected_version));
        },
    };
    if payload.new_version != expected_version {
        return Err(
            RosterVerificationError::VersionMismatch {
                expected: expected_version,
                actual: payload.new_version,
            },
        );
    }
    let new_node_key = match keys.get(&payload.new_node_number) {
        Some(k) => k,
        None => {
            return Err(
                RosterVerificationError::NewNodeNotInRoster {
                    version: expected_version,
                    new_node: payload.new_node_number,
                },
            );
        },
    };
    let endorser_key = match keys.get(&payload.endorser_node_number) {
        Some(k) => k,
        None => {
            return Err(
                RosterVerificationError::EndorserNotInPreviousRoster {
                    version: expected_version,
                    endorser: payload.endorser_node_number,
                },
            );
        },
    };
    if payload.new_node_number == payload.endorser_node_number {
        return Err(RosterVerificationError::NewNodeIsEndorser(payload.new_node_number));
    }
    let is_bootstrap = expected_version == 1;
    if !is_bootstrap {
        let endorser_active = match node_revoked.get(&payload.endorser_node_number) {
            Some(revoked) => !*revoked,
            None => false,
        };
        if !endorser_active {
            return Err(
                RosterVerificationError::EndorserNotInPreviousRoster {
                    version: expected_version,
                    endorser: payload.endorser_node_number,
                },
            );
        }
    }
    let payload_bytes = payload.encode_to_vec();
    if !verify_signature(
        new_node_key.as_slice(),
        payload_bytes.as_slice(),
        activation.new_node_signature.as_slice(),
    ) {
        return Err(RosterVerificationError::InvalidNewNodeSignature(expected_version));
    }
    if !verify_signature(
        endorser_key.as_slice(),
        payload_bytes.as_slice(),
        activation.endorser_signature.as_slice(),
    ) {
        return Err(RosterVerificationError::InvalidEndorserSignature(expected_version));
    }
    if expected_version > 1 {
        verify_base_hash(
            roster,
            payload.base_version,
            payload.base_version_hash.as_slice(),
            expected_version,
        )?;
    }
    node_revoked.remove(&payload.new_node_number);
    Ok(())
}

/// Verify a revocation addendum.
fn verify_revocation(
    roster: &Roster,
    revocation: &Revocation,
    expected_version: i64,
    keys: &HashMap<i32, Vec<u8>>,
    node_revoked: &mut HashMap<i32, bool>,
) -> (res: Result<(), RosterVerificationError>)
    ensures
        match check_revocation(
            roster@,
            revocation@,
            expected_version,
            key_map_view(keys@),
            old(node_revoked)@,
        ) {
            Ok(m) => res is Ok && final(node_revoked)@ == m,
            Err(e) => res matches Err(err) && err@ == e,
        },
{
    let payload = match &revocation.payload {
        Some(p) => p,
        None => {
            return Err(RosterVerificationError::MissingRevocationPayload(expected_version));
        },
    };
    if payload.new_version != expected_version {
        return Err(
            RosterVerificationError::VersionMismatch {
                expected: expected_version,
                actual: payload.new_version,
            },
        );
    }
    let revoker_key = match keys.get(&payload.revoker_node_number) {
        Some(k) => k,
        None => {
            return Err(
                RosterVerificationError::RevokerNotInPreviousRoster {
                    version: expected_version,
                    revoker: payload.revoker_node_number,
                },
            );
        },
    };
    let revoker_active = match node_revoked.get(&payload.revoker_node_number) {
        Some(revoked) => !*revoked,
        None => false,
    };
    if !revoker_active {
        return Err(
            RosterVerificationError::RevokerNotInPreviousRoster {
                version: expected_version,
                revoker: payload.revoker_node_number,
            },
        );
    }
    if !node_revoked.contains_key(&payload.revoked_node_number) {
        return Err(
            RosterVerificationError::RevokedNodeNotInRoster {
                version: expected_version,
                revoked: payload.revoked_node_number,
            },
        );
    }
    let payload_bytes = payload.encode_to_vec();
    if !verify_signature(
        revoker_key.as_slice(),
        payload_bytes.as_slice(),
        revocation.revoker_signature.as_slice(),
    ) {
        return Err(RosterVerificationError::InvalidRevokerSignature(expected_version));
    }
    if expected_version > 1 {
        verify_base_hash(
            roster,
            payload.base_version,
            payload.base_version_hash.as_slice(),
            expected_version,
        )?;
    }
    node_revoked.insert(payload.revoked_node_number, false);
    Ok(())
}


/// Verify the chain of signatures and hashes backwards through all versions.
fn verify_roster_chain(roster: &Roster, keys: &HashMap<i32, Vec<u8>>) -> (res: Result<
    (),
    RosterVerificationError,
>)
    ensures
        match chain_error(
            roster@,
            roster@.version as int,
            key_map_view(keys@),
            revoked_flags(roster@.nodes),
        ) {
            Some(e) => res matches Err(err) && err@ == e,
            None => res is Ok,
        },
{
    let ghost k = key_map_view(keys@);
    let ghost goal = chain_error(roster@, roster@.version as int, k, revoked_flags(roster@.nodes));
    let mut working = roster.duplicate();
    let mut node_revoked = revocation_flags(&roster.nodes);
    let mut version = roster.version;
    while version >= 1
        invariant
            working.version == version,
            k == key_map_view(keys@),
            goal == chain_error(roster@, roster@.version as int, k, revoked_flags(roster@.nodes)),
            goal == chain_error(working@, version as int, k, node_revoked@),
        decreases version,
    {
        let addendum_idx = (version - 1) as usize;
        let addendum = match working.addenda.last() {
            Some(a) => a.duplicate(),
            None => {
                assert(working@.addenda.len() == 0);
                assert(chain_error(working@, version as int, k, node_revoked@) == Some(
                    SpecRosterError::MissingAddendum(addendum_idx),
                ));

                return Err(RosterVerificationError::MissingAddendum(addendum_idx));
            },
        };
        proof {
            assert(addendum@ == working@.addenda.last());
        }
        let ghost w = working@;
        match &addendum.kind {
            None => {
                return Err(RosterVerificationError::EmptyAddendum(addendum_idx));
            },
            Some(AddendumKind::Activation(activation)) => {
                verify_activation(&working, activation, version, keys, &mut node_revoked)?;
            },
            Some(AddendumKind::Revocation(revocation)) => {
                verify_revocation(&working, revocation, version, keys, &mut node_revoked)?;
            },
        }
        undo_on_nodes(&mut working.nodes, &addendum);
        working.addenda.pop();
        working.version = working.version - 1;
        version = version - 1;
        proof {
            assert(working@.addenda =~= w.addenda.drop_last());
            assert(working@ == stepped_back(w, undo_addendum(w.nodes, w.addenda.last())));
        }
    }
    Ok(())
}

/// Verify a roster's cryptographic integrity.
///
/// This verifies the complete chain of trust from version 1 to the current
/// version, checking all signatures and hash chains, from the perspective of
/// node `verifier_node_number`, whose own key (SPKI DER) must be the one the
/// roster holds for it. Returns the public keys of the active (non-revoked)
/// nodes by node number.
pub fn verify_roster(
    roster: &Roster,
    verifier_node_number: i32,
    verifier_public_key_spki: &[u8],
) -> (res: Result<HashMap<i32, Vec<u8>>, RosterVerificationError>)
    ensures
        match verify_roster_result(roster@, verifier_node_number, verifier_public_key_spki@) {
            Ok(m) => res matches Ok(keys) && key_map_view(keys@) == m,
            Err(e) => res matches Err(err) && err@ == e,
        },
{
    verify_roster_structure(roster)?;
    let keys = decode_roster_keys(roster)?;
    let idx = match find_node_index(&roster.nodes, verifier_node_number) {
        Some(i) => i,
        None => {
            return Err(RosterVerificationError::VerifierNotInRoster(verifier_node_number));
        },
    };
    proof {
        lemma_first_index_matches(roster@.nodes, verifier_node_number);
    }
    if roster.nodes[idx].revoked {
        return Err(RosterVerificationError::VerifierRevoked(verifier_node_number));
    }
    let verifier_key = match keys.get(&verifier_node_number) {
        Some(k) => k,
        None => {
            return Err(RosterVerificationError::VerifierNotInRoster(verifier_node_number));
        },
    };
    let expected_verifier_key = match ed25519_key_from_spki(verifier_public_key_spki) {
        Ok(k) => k,
        Err(reason) => {
            return Err(
                RosterVerificationError::InvalidPublicKey {
                    node_number: verifier_node_number,
                    reason,
                },
            );
        },
    };
    if !bytes_equal(verifier_key.as_slice(), expected_verifier_key.as_slice()) {
        return Err(RosterVerificationError::VerifierKeyMismatch(verifier_node_number));
    }
    verify_roster_chain(roster, &keys)?;

    let ghost k = key_map_view(keys@);
    let ghost s = roster@.nodes;
    let mut active: HashMap<i32, Vec<u8>> = HashMap::new();
    let mut i: usize = 0;
    assert(key_map_view(active@) =~= active_keys(s.take(0), k));
    while i < roster.nodes.len()
        invariant
            i <= roster.nodes@.len(),
            s == roster@.nodes,
            k == key_map_view(keys@),
            key_map_view(active@) == active_keys(s.take(i as int), k),
        decreases roster.nodes@.len() - i,
    {
        let node = &roster.nodes[i];
        let ghost before = active@;
        if !node.revoked {
            match keys.get(&node.node_number) {
                Some(key) => {
                    active.insert(node.node_number, copy_bytes(key.as_slice()));
                },
                None => {},
            }
        }
        proof {
            let t = s.take(i + 1);
            assert(t[i as int] == node@);
            assert forall|n: i32| #[trigger]
                active_keys(t, k).contains_key(n) == key_map_view(active@).contains_key(n) by {
                if active_keys(s.take(i as int), k).contains_key(n) {
                    let j = choose|j: int|
                        0 <= j < i && s.take(i as int)[j].node_number == n && !s.take(
                            i as int,
                        )[j].revoked;
                    assert(t[j] == s.take(i as int)[j]);
                }
                if active_keys(t, k).contains_key(n) && n != node.node_number {
                    let j = choose|j: int|
                        0 <= j < i + 1 && t[j].node_number == n && !t[j].revoked;
                    assert(s.take(i as int)[j] == t[j]);
                }
            }
            assert forall|n: i32| #[trigger] key_map_view(active@).contains_key(n) implies key_map_view(
                active@,
            )[n] == active_keys(t, k)[n] by {
                if n != node.node_number || node.revoked || !k.contains_key(n) {
                    assert(key_map_view(before).contains_key(n));
                    assert(active@[n] == before[n]);
                    assert(key_map_view(before)[n] == active_keys(s.take(i as int), k)[n]);
                }
            }
            assert(key_map_view(active@) =~= active_keys(t, k));
        }
        i = i + 1;
    }
    assert(s.take(s.len() as int) =~= s);
    Ok(active)
}


//-- Active nodes ------------------------------------------------------------

/// The nodes that are not revoked, in roster order.
pub open spec fn active_only(nodes: Seq<SpecRosterNode>) -> Seq<SpecRosterNode>
    decreases nodes.len(),
{
    if nodes.len() == 0 {
        seq![]
    } else if nodes.last().revoked {
        active_only(nodes.drop_last())
    } else {
        active_only(nodes.drop_last()).push(nodes.last())
    }
}

/// Get active (non-revoked) nodes from a roster.
pub fn active_nodes(roster: &Roster) -> (r: Vec<RosterNode>)
    ensures
        nodes_view(r@) == active_only(roster@.nodes),
{
    let ghost s = roster@.nodes;
    let mut r: Vec<RosterNode> = Vec::new();
    let mut i: usize = 0;
    while i < roster.nodes.len()
        invariant
            i <= roster.nodes@.len(),
            s == roster@.nodes,
            nodes_view(r@) == active_only(s.take(i as int)),
        decreases roster.nodes@.len() - i,
    {
        proof {
            assert(s.take(i + 1).drop_last() =~= s.take(i as int));
        }
        if !roster.nodes[i].revoked {
            let ghost before = r@;
            r.push(roster.nodes[i].duplicate());
            assert(nodes_view(r@) =~= nodes_view(before).push(s[i as int]));
        }
        i = i + 1;
    }
    assert(s.take(s.len() as int) =~= s);
    r
}

//-- Roster builders ---------------------------------------------------------

/// The empty roster, version 0.
pub open spec fn empty_roster() -> SpecRoster {
    SpecRoster { version: 0, nodes: seq![], addenda: seq![] }
}

/// The activation payload for adding `new_node` to `base`, endorsed by
/// `endorser`.
pub open spec fn activation_payload_for(
    base: SpecRoster,
    endorser: i32,
    new_node: i32,
    new_node_nonce: Seq<u8>,
    endorser_nonce: Seq<u8>,
) -> SpecActivationPayload {
    SpecActivationPayload {
        base_version: base.version,
        base_version_hash: roster_hash(base),
        new_version: (base.version + 1) as i64,
        new_node_number: new_node,
        endorser_node_number: endorser,
        new_node_nonce,
        endorser_nonce,
    }
}

/// A fresh, not revoked node entry.
pub open spec fn fresh_node(n: i32, spki: Seq<u8>) -> SpecRosterNode {
    SpecRosterNode { node_number: n, public_key_spki: spki, revoked: false }
}

/// An activation addendum with its two signatures (the endorser's is empty
/// until the hub has obtained it).
pub open spec fn activation_addendum(
    p: SpecActivationPayload,
    new_node_signature: Seq<u8>,
    endorser_signature: Seq<u8>,
) -> SpecAddendum {
    SpecAddendum {
        kind: Some(
            SpecAddendumKind::Activation(
                SpecActivation { payload: Some(p), new_node_signature, endorser_signature },
            ),
        ),
    }
}

/// The version-1 roster of two founding nodes.
pub open spec fn bootstrap_roster(
    endorser: i32,
    endorser_spki: Seq<u8>,
    new_node: i32,
    new_node_spki: Seq<u8>,
    new_node_nonce: Seq<u8>,
    endorser_nonce: Seq<u8>,
    new_node_signature: Seq<u8>,
    endorser_signature: Seq<u8>,
) -> SpecRoster {
    SpecRoster {
        version: 1,
        nodes: seq![fresh_node(endorser, endorser_spki), fresh_node(new_node, new_node_spki)],
        addenda: seq![
            activation_addendum(
                activation_payload_for(
                    empty_roster(),
                    endorser,
                    new_node,
                    new_node_nonce,
                    endorser_nonce,
                ),
                new_node_signature,
                endorser_signature,
            ),
        ],
    }
}

/// `base` with `new_node` added, endorsed by `endorser`.
pub open spec fn activation_roster(
    base: SpecRoster,
    endorser: i32,
    new_node: i32,
    new_node_spki: Seq<u8>,
    new_node_nonce: Seq<u8>,
    endorser_nonce: Seq<u8>,
    new_node_signature: Seq<u8>,
    endorser_signature: Seq<u8>,
) -> SpecRoster {
    SpecRoster {
        version: (base.version + 1) as i64,
        nodes: base.nodes.push(fresh_node(new_node, new_node_spki)),
        addenda: base.addenda.push(
            activation_addendum(
                activation_payload_for(base, endorser, new_node, new_node_nonce, endorser_nonce),
                new_node_signature,
                endorser_signature,
            ),
        ),
    }
}

/// The revocation payload for revoking `revoked` from `base` by `revoker`.
pub open spec fn revocation_payload_for(base: SpecRoster, revoked: i32, revoker: i32) -> SpecRevocationPayload {
    SpecRevocationPayload {
        base_version: base.version,
        base_version_hash: roster_hash(base),
        new_version: (base.version + 1) as i64,
        revoked_node_number: revoked,
        revoker_node_number: revoker,
    }
}

/// `base` with `revoked` revoked by `revoker`.
pub open spec fn revocation_roster(
    base: SpecRoster,
    revoked: i32,
    revoker: i32,
    revoker_signature: Seq<u8>,
) -> SpecRoster {
    SpecRoster {
        version: (base.version + 1) as i64,
        nodes: with_flag(base.nodes, revoked, true),
        addenda: base.addenda.push(
            SpecAddendum {
                kind: Some(
                    SpecAddendumKind::Revocation(
                        SpecRevocation {
                            payload: Some(revocation_payload_for(base, revoked, revoker)),
                            revoker_signature,
                        },
                    ),
                ),
            },
        ),
    }
}

/// Build the activation payload for signing.
///
/// This is used to create the payload that both the new node and endorser sign.
pub fn build_activation_payload(
    base_roster: &Roster,
    endorser_node_number: i32,
    new_node_number: i32,
    new_node_nonce: Vec<u8>,
    endorser_nonce: Vec<u8>,
) -> (r: ActivationPayload)
    requires
        base_roster.version < i64::MAX,
    ensures
        r@ == activation_payload_for(
            base_roster@,
            endorser_node_number,
            new_node_number,
            new_node_nonce@,
            endorser_nonce@,
        ),
{
    ActivationPayload {
        base_version: base_roster.version,
        base_version_hash: compute_roster_hash(base_roster),
        new_version: base_roster.version + 1,
        new_node_number,
        endorser_node_number,
        new_node_nonce,
        endorser_nonce,
    }
}

fn fresh_roster_node(node_number: i32, public_key_spki: &[u8]) -> (r: RosterNode)
    ensures
        r@ == fresh_node(node_number, public_key_spki@),
{
    RosterNode { node_number, public_key_spki: copy_bytes(public_key_spki), revoked: false }
}

fn unsigned_activation(payload: ActivationPayload, new_node_signature: Vec<u8>) -> (r: Addendum)
    ensures
        r@ == activation_addendum(payload@, new_node_signature@, seq![]),
{
    let r = Addendum {
        kind: Some(
            AddendumKind::Activation(
                Activation {
                    payload: Some(payload),
                    new_node_signature,
                    endorser_signature: Vec::new(),
                },
            ),
        ),
    };
    assert(r@ =~= activation_addendum(payload@, new_node_signature@, seq![]));
    r
}

/// Create a bootstrap roster (version 1) with two founding nodes.
///
/// During bootstrap, both nodes are added simultaneously. The new node signs
/// the activation payload; the endorser signature is left empty to be filled
/// by the hub after obtaining the endorser's signature.
pub fn create_bootstrap_roster(
    endorser_node_number: i32,
    endorser_public_key: &[u8],
    new_node_number: i32,
    new_node_public_key: &[u8],
    new_node_nonce: Vec<u8>,
    endorser_nonce: Vec<u8>,
    new_node_signature: Vec<u8>,
) -> (r: Roster)
    ensures
        r@ == bootstrap_roster(
            endorser_node_number,
            endorser_public_key@,
            new_node_number,
            new_node_public_key@,
            new_node_nonce@,
            endorser_nonce@,
            new_node_signature@,
            seq![],
        ),
{
    let empty = Roster::empty();
    let payload = build_activation_payload(
        &empty,
        endorser_node_number,
        new_node_number,
        new_node_nonce,
        endorser_nonce,
    );
    let mut nodes: Vec<RosterNode> = Vec::new();
    nodes.push(fresh_roster_node(endorser_node_number, endorser_public_key));
    nodes.push(fresh_roster_node(new_node_number, new_node_public_key));
    let mut addenda: Vec<Addendum> = Vec::new();
    addenda.push(unsigned_activation(payload, new_node_signature));
    let r = Roster { version: 1, nodes, addenda };
    assert(r@.nodes =~= bootstrap_roster(
        endorser_node_number,
        endorser_public_key@,
        new_node_number,
        new_node_public_key@,
        new_node_nonce@,
        endorser_nonce@,
        new_node_signature@,
        seq![],
    ).nodes);
    assert(r@.addenda =~= bootstrap_roster(
        endorser_node_number,
        endorser_public_key@,
        new_node_number,
        new_node_public_key@,
        new_node_nonce@,
        endorser_nonce@,
        new_node_signature@,
        seq![],
    ).addenda);
    r
}

/// Create an activation roster for adding a node to an existing roster.
///
/// The new node signs the activation payload; the endorser signature is
/// left empty to be filled by the hub after obtaining the endorser's
/// signature.
pub fn create_activation_roster(
    base_roster: &Roster,
    endorser_node_number: i32,
    new_node_number: i32,
    new_node_public_key: &[u8],
    new_node_nonce: Vec<u8>,
    endorser_nonce: Vec<u8>,
    new_node_signature: Vec<u8>,
) -> (r: Roster)
    requires
        base_roster.version < i64::MAX,
    ensures
        r@ == activation_roster(
            base_roster@,
            endorser_node_number,
            new_node_number,
            new_node_public_key@,
            new_node_nonce@,
            endorser_nonce@,
            new_node_signature@,
            seq![],
        ),
{
    let payload = build_activation_payload(
        base_roster,
        endorser_node_number,
        new_node_number,
        new_node_nonce,
        endorser_nonce,
    );
    let mut new_roster = base_roster.duplicate();
    new_roster.version = base_roster.version + 1;
    let ghost n0 = new_roster.nodes@;
    let ghost a0 = new_roster.addenda@;
    new_roster.nodes.push(fresh_roster_node(new_node_number, new_node_public_key));
    new_roster.addenda.push(unsigned_activation(payload, new_node_signature));
    proof {
        let expect = activation_roster(
            base_roster@,
            endorser_node_number,
            new_node_number,
            new_node_public_key@,
            new_node_nonce@,
            endorser_nonce@,
            new_node_signature@,
            seq![],
        );
        assert(new_roster@.nodes =~= expect.nodes);
        assert(new_roster@.addenda =~= expect.addenda);
    }
    new_roster
}

/// Create a revocation roster: `base_roster` with the first node numbered
/// `revoked_node_number` marked revoked and a revocation addendum appended.
pub fn create_revocation_roster(
    base_roster: &Roster,
    revoked_node_number: i32,
    revoker_node_number: i32,
    revoker_signature: Vec<u8>,
) -> (r: Roster)
    requires
        base_roster.version < i64::MAX,
    ensures
        r@ == revocation_roster(
            base_roster@,
            revoked_node_number,
            revoker_node_number,
            revoker_signature@,
        ),
{
    let payload = RevocationPayload {
        base_version: base_roster.version,
        base_version_hash: compute_roster_hash(base_roster),
        new_version: base_roster.version + 1,
        revoked_node_number,
        revoker_node_number,
    };
    let mut new_roster = base_roster.duplicate();
    new_roster.version = base_roster.version + 1;
    set_first_flag(&mut new_roster.nodes, revoked_node_number, true);
    let ghost a0 = new_roster.addenda@;
    new_roster.addenda.push(
        Addendum {
            kind: Some(
                AddendumKind::Revocation(Revocation { payload: Some(payload), revoker_signature }),
            ),
        },
    );
    proof {
        let expect = revocation_roster(
            base_roster@,
            revoked_node_number,
            revoker_node_number,
            revoker_signature@,
        );
        assert(new_roster@.nodes =~= expect.nodes);
        assert(new_roster@.addenda =~= expect.addenda);
    }
    new_roster
}

} // verus!
