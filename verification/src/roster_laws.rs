//! Laws of roster verification: a roster built by the builders, with its
//! signatures in place, verifies, and each change of the roster changes the
//! set of active keys in the one expected way.
use vstd::prelude::*;

use crate::primitives::{ed25519_verify, spki_decode};
use crate::proto::{
    spec_encode_activation_payload, spec_encode_revocation_payload, SpecAddendumKind, SpecRoster,
    SpecRosterNode,
};
use crate::roster::{
    activation_payload_for, activation_roster, active_keys, base_hash_matches, base_roster_of,
    bootstrap_roster, roster_hash,
    chain_error, check_activation, check_revocation, decode_keys, empty_roster, first_index,
    fresh_node, lemma_first_index, lemma_first_index_matches, revocation_payload_for,
    revocation_roster, revoked_flags, stepped_back, undo_addendum, verify_roster_result, with_flag,
    undo_addenda, without_number, SpecRosterError,
};

verus! {

/// No node number occurs twice.
pub open spec fn unique_numbers(nodes: Seq<SpecRosterNode>) -> bool {
    forall|i: int, j: int|
        0 <= i < nodes.len() && 0 <= j < nodes.len() && i != j ==> nodes[i].node_number
            != nodes[j].node_number
}

/// Some node is numbered `n`.
pub open spec fn has_number(nodes: Seq<SpecRosterNode>, n: i32) -> bool {
    exists|i: int| 0 <= i < nodes.len() && nodes[i].node_number == n
}

/// What a successful key decoding tells: numbers are unique, the keys are
/// those of the listed numbers, each the decoded SPKI of its node.
pub proof fn lemma_decode_keys_ok(nodes: Seq<SpecRosterNode>)
    requires
        decode_keys(nodes) is Ok,
    ensures
        unique_numbers(nodes),
        forall|n: i32| #[trigger]
            decode_keys(nodes)->Ok_0.contains_key(n) <==> has_number(nodes, n),
        forall|i: int|
            0 <= i < nodes.len() ==> spki_decode(#[trigger] nodes[i].public_key_spki) is Some
                && decode_keys(nodes)->Ok_0[nodes[i].node_number] == spki_decode(
                nodes[i].public_key_spki,
            )->0,
    decreases nodes.len(),
{
    if nodes.len() > 0 {
        let p = nodes.drop_last();
        let x = nodes.last();
        lemma_decode_keys_ok(p);
        let m0 = decode_keys(p)->Ok_0;
        let m = decode_keys(nodes)->Ok_0;
        assert(m == m0.insert(x.node_number, spki_decode(x.public_key_spki)->0));
        assert forall|i: int| 0 <= i < p.len() implies #[trigger] nodes[i] == p[i] by {}
        assert forall|i: int, j: int|
            0 <= i < nodes.len() && 0 <= j < nodes.len() && i != j implies nodes[i].node_number
            != nodes[j].node_number by {
            if i < p.len() && j < p.len() {
                assert(nodes[i] == p[i] && nodes[j] == p[j]);
            } else if i < p.len() {
                assert(nodes[i] == p[i]);
                assert(has_number(p, p[i].node_number));
                assert(m0.contains_key(p[i].node_number));
            } else {
                assert(nodes[j] == p[j]);
                assert(has_number(p, p[j].node_number));
                assert(m0.contains_key(p[j].node_number));
            }
        }
        assert forall|n: i32| #[trigger] m.contains_key(n) <==> has_number(nodes, n) by {
            if has_number(nodes, n) {
                let i = choose|i: int| 0 <= i < nodes.len() && nodes[i].node_number == n;
                if i < p.len() {
                    assert(nodes[i] == p[i]);
                    assert(has_number(p, n));
                }
            }
            if m0.contains_key(n) {
                assert(has_number(p, n));
                let i = choose|i: int| 0 <= i < p.len() && p[i].node_number == n;
                assert(nodes[i] == p[i]);
            }
            if n == x.node_number {
                assert(nodes[nodes.len() - 1] == x);
            }
        }
        assert forall|i: int| 0 <= i < nodes.len() implies spki_decode(
            #[trigger] nodes[i].public_key_spki,
        ) is Some && m[nodes[i].node_number] == spki_decode(nodes[i].public_key_spki)->0 by {
            if i < p.len() {
                assert(nodes[i] == p[i]);
                assert(has_number(p, p[i].node_number));
            }
        }
    }
}

/// Decoding after adding a node with a new number and a good key.
pub proof fn lemma_decode_keys_push(nodes: Seq<SpecRosterNode>, x: SpecRosterNode)
    requires
        decode_keys(nodes) is Ok,
        !decode_keys(nodes)->Ok_0.contains_key(x.node_number),
        spki_decode(x.public_key_spki) is Some,
    ensures
        decode_keys(nodes.push(x)) == Ok::<Map<i32, Seq<u8>>, crate::roster::SpecRosterError>(
            decode_keys(nodes)->Ok_0.insert(x.node_number, spki_decode(x.public_key_spki)->0),
        ),
{
    assert(nodes.push(x).drop_last() =~= nodes);
}

/// Two node lists that agree on numbers and keys, index by index.
pub open spec fn same_ids(a: Seq<SpecRosterNode>, b: Seq<SpecRosterNode>) -> bool {
    &&& a.len() == b.len()
    &&& forall|i: int|
        0 <= i < a.len() ==> (#[trigger] a[i]).node_number == b[i].node_number
            && a[i].public_key_spki == b[i].public_key_spki
}

/// Key decoding does not look at revocation flags.
pub proof fn lemma_decode_keys_same_ids(a: Seq<SpecRosterNode>, b: Seq<SpecRosterNode>)
    requires
        same_ids(a, b),
    ensures
        decode_keys(a) == decode_keys(b),
    decreases a.len(),
{
    if a.len() > 0 {
        let pa = a.drop_last();
        let pb = b.drop_last();
        assert forall|i: int| 0 <= i < pa.len() implies (#[trigger] pa[i]).node_number
            == pb[i].node_number && pa[i].public_key_spki == pb[i].public_key_spki by {
            assert(pa[i] == a[i] && pb[i] == b[i]);
        }
        lemma_decode_keys_same_ids(pa, pb);
        assert(a.last() == a[a.len() - 1]);
    }
}

/// The first index of a number does not look at revocation flags.
pub proof fn lemma_first_index_same_ids(a: Seq<SpecRosterNode>, b: Seq<SpecRosterNode>, n: i32)
    requires
        same_ids(a, b),
    ensures
        first_index(a, n) == first_index(b, n),
{
    lemma_first_index_matches(a, n);
    match first_index(a, n) {
        Some(i) => {
            assert forall|j: int| 0 <= j < i implies b[j].node_number != n by {
                assert(a[j].node_number == b[j].node_number);
            }
            assert(a[i].node_number == b[i].node_number);
            lemma_first_index(b, n, i);
        },
        None => {
            assert forall|j: int| 0 <= j < b.len() implies b[j].node_number != n by {
                assert(a[j].node_number == b[j].node_number);
            }
            lemma_first_index(b, n, b.len() as int);
        },
    }
}

/// The first index of a number after a node is appended.
pub proof fn lemma_first_index_push(nodes: Seq<SpecRosterNode>, x: SpecRosterNode, n: i32)
    ensures
        first_index(nodes.push(x), n) == (match first_index(nodes, n) {
            Some(i) => Some(i),
            None => if x.node_number == n {
                Some(nodes.len() as int)
            } else {
                None
            },
        }),
{
    let s = nodes.push(x);
    lemma_first_index_matches(nodes, n);
    match first_index(nodes, n) {
        Some(i) => {
            assert forall|j: int| 0 <= j < i implies s[j].node_number != n by {
                assert(s[j] == nodes[j]);
            }
            assert(s[i] == nodes[i]);
            lemma_first_index(s, n, i);
        },
        None => {
            assert forall|j: int| 0 <= j < nodes.len() implies s[j].node_number != n by {
                assert(s[j] == nodes[j]);
            }
            lemma_first_index(s, n, nodes.len() as int);
            if x.node_number != n {
                lemma_first_index(s, n, s.len() as int);
            }
        },
    }
}

/// Taking out a number that no node has changes nothing.
pub proof fn lemma_without_absent(nodes: Seq<SpecRosterNode>, n: i32)
    requires
        !has_number(nodes, n),
    ensures
        without_number(nodes, n) == nodes,
    decreases nodes.len(),
{
    if nodes.len() > 0 {
        let p = nodes.drop_last();
        assert(!has_number(p, n)) by {
            if has_number(p, n) {
                let i = choose|i: int| 0 <= i < p.len() && p[i].node_number == n;
                assert(nodes[i] == p[i]);
            }
        }
        assert(nodes[nodes.len() - 1] == nodes.last());
        lemma_without_absent(p, n);
        assert(p.push(nodes.last()) =~= nodes);
    }
}

/// The revocation flags cover exactly the listed numbers; with unique
/// numbers each flag is that of its node.
pub proof fn lemma_revoked_flags(nodes: Seq<SpecRosterNode>)
    ensures
        forall|n: i32| #[trigger] revoked_flags(nodes).contains_key(n) <==> has_number(nodes, n),
        unique_numbers(nodes) ==> forall|i: int|
            0 <= i < nodes.len() ==> revoked_flags(nodes)[#[trigger] nodes[i].node_number]
                == nodes[i].revoked,
    decreases nodes.len(),
{
    if nodes.len() > 0 {
        let p = nodes.drop_last();
        let x = nodes.last();
        lemma_revoked_flags(p);
        assert(nodes[nodes.len() - 1] == x);
        assert forall|n: i32| #[trigger]
            revoked_flags(nodes).contains_key(n) <==> has_number(nodes, n) by {
            assert(revoked_flags(nodes) == revoked_flags(p).insert(x.node_number, x.revoked));
            if n == x.node_number {
                assert(nodes[nodes.len() - 1].node_number == n);
                assert(has_number(nodes, n));
            } else {
                if has_number(nodes, n) {
                    let i = choose|i: int| 0 <= i < nodes.len() && nodes[i].node_number == n;
                    assert(nodes[i] == p[i]);
                    assert(has_number(p, n));
                    assert(revoked_flags(p).contains_key(n));
                }
                if revoked_flags(p).contains_key(n) {
                    assert(has_number(p, n));
                    let i = choose|i: int| 0 <= i < p.len() && p[i].node_number == n;
                    assert(nodes[i] == p[i]);
                    assert(has_number(nodes, n));
                }
            }
        }
        if unique_numbers(nodes) {
            assert(unique_numbers(p)) by {
                assert forall|i: int, j: int|
                    0 <= i < p.len() && 0 <= j < p.len() && i != j implies p[i].node_number
                    != p[j].node_number by {
                    assert(nodes[i] == p[i] && nodes[j] == p[j]);
                }
            }
            assert forall|i: int| 0 <= i < nodes.len() implies revoked_flags(nodes)[
                #[trigger] nodes[i].node_number] == nodes[i].revoked by {
                if i < p.len() {
                    assert(nodes[i] == p[i]);
                    assert(nodes[i].node_number != x.node_number);
                }
            }
        }
    }
}

/// Setting a flag keeps numbers and keys.
pub proof fn lemma_with_flag_ids(nodes: Seq<SpecRosterNode>, n: i32, flag: bool)
    ensures
        same_ids(with_flag(nodes, n, flag), nodes),
        with_flag(nodes, n, flag).len() == nodes.len(),
{
    lemma_first_index_matches(nodes, n);
}

/// The flags after setting the flag of a listed number, numbers unique.
pub proof fn lemma_revoked_flags_with_flag(nodes: Seq<SpecRosterNode>, n: i32, flag: bool)
    requires
        unique_numbers(nodes),
        has_number(nodes, n),
    ensures
        revoked_flags(with_flag(nodes, n, flag)) == revoked_flags(nodes).insert(n, flag),
{
    let w = with_flag(nodes, n, flag);
    lemma_first_index_matches(nodes, n);
    lemma_with_flag_ids(nodes, n, flag);
    let idx = first_index(nodes, n)->0;
    assert(unique_numbers(w)) by {
        assert forall|i: int, j: int|
            0 <= i < w.len() && 0 <= j < w.len() && i != j implies w[i].node_number
            != w[j].node_number by {
            assert(w[i].node_number == nodes[i].node_number);
            assert(w[j].node_number == nodes[j].node_number);
        }
    }
    lemma_revoked_flags(nodes);
    lemma_revoked_flags(w);
    let a = revoked_flags(w);
    let b = revoked_flags(nodes).insert(n, flag);
    assert forall|k: i32| #[trigger] a.contains_key(k) <==> b.contains_key(k) by {
        if has_number(w, k) {
            let i = choose|i: int| 0 <= i < w.len() && w[i].node_number == k;
            assert(nodes[i].node_number == k);
        }
        if has_number(nodes, k) {
            let i = choose|i: int| 0 <= i < nodes.len() && nodes[i].node_number == k;
            assert(w[i].node_number == k);
        }
        if k == n {
            assert(w[idx].node_number == n);
        }
    }
    assert forall|k: i32| #[trigger] a.contains_key(k) implies a[k] == b[k] by {
        let i = choose|i: int| 0 <= i < w.len() && w[i].node_number == k;
        assert(a[w[i].node_number] == w[i].revoked);
        if i != idx {
            assert(nodes[i].node_number == k);
            assert(revoked_flags(nodes)[nodes[i].node_number] == nodes[i].revoked);
        }
    }
    assert(a =~= b);
}

/// A chain that checks with some keys checks with more keys.
pub proof fn lemma_chain_more_keys(
    w: crate::proto::SpecRoster,
    v: int,
    keys: Map<i32, Seq<u8>>,
    keys2: Map<i32, Seq<u8>>,
    revoked: Map<i32, bool>,
)
    requires
        chain_error(w, v, keys, revoked) is None,
        keys.submap_of(keys2),
    ensures
        chain_error(w, v, keys2, revoked) is None,
    decreases v,
{
    if v >= 1 {
        match w.addenda.last().kind {
            Some(crate::proto::SpecAddendumKind::Activation(act)) => {
                let p = act.payload->0;
                assert(keys.contains_key(p.new_node_number));
                assert(keys.contains_key(p.endorser_node_number));
                assert(keys2[p.new_node_number] == keys[p.new_node_number]);
                assert(keys2[p.endorser_node_number] == keys[p.endorser_node_number]);
                assert(check_activation(w, act, v as i64, keys2, revoked) == check_activation(
                    w,
                    act,
                    v as i64,
                    keys,
                    revoked,
                ));
                let rev2 = check_activation(w, act, v as i64, keys, revoked)->Ok_0;
                lemma_chain_more_keys(
                    crate::roster::stepped_back(
                        w,
                        crate::roster::undo_addendum(w.nodes, w.addenda.last()),
                    ),
                    v - 1,
                    keys,
                    keys2,
                    rev2,
                );
            },
            Some(crate::proto::SpecAddendumKind::Revocation(rv)) => {
                let p = rv.payload->0;
                assert(keys.contains_key(p.revoker_node_number));
                assert(keys2[p.revoker_node_number] == keys[p.revoker_node_number]);
                assert(check_revocation(w, rv, v as i64, keys2, revoked) == check_revocation(
                    w,
                    rv,
                    v as i64,
                    keys,
                    revoked,
                ));
                let rev2 = check_revocation(w, rv, v as i64, keys, revoked)->Ok_0;
                lemma_chain_more_keys(
                    crate::roster::stepped_back(
                        w,
                        crate::roster::undo_addendum(w.nodes, w.addenda.last()),
                    ),
                    v - 1,
                    keys,
                    keys2,
                    rev2,
                );
            },
            None => {},
        }
    }
}

/// Active keys after a fresh node is appended with its key.
pub proof fn lemma_active_keys_push(
    nodes: Seq<SpecRosterNode>,
    keys: Map<i32, Seq<u8>>,
    x: SpecRosterNode,
    k: Seq<u8>,
)
    requires
        !x.revoked,
    ensures
        active_keys(nodes.push(x), keys.insert(x.node_number, k)) == active_keys(
            nodes,
            keys,
        ).insert(x.node_number, k),
{
    let s = nodes.push(x);
    let a = active_keys(s, keys.insert(x.node_number, k));
    let b = active_keys(nodes, keys).insert(x.node_number, k);
    assert forall|n: i32| #[trigger] a.contains_key(n) <==> b.contains_key(n) by {
        if n == x.node_number {
            assert(s[nodes.len() as int] == x);
        } else {
            if a.contains_key(n) {
                let i = choose|i: int| 0 <= i < s.len() && s[i].node_number == n && !s[i].revoked;
                assert(s[i] == nodes[i]);
            }
            if b.contains_key(n) {
                let i = choose|i: int|
                    0 <= i < nodes.len() && nodes[i].node_number == n && !nodes[i].revoked;
                assert(s[i] == nodes[i]);
            }
        }
    }
    assert(a =~= b);
}

/// Active keys after a listed node is flagged revoked, numbers unique.
pub proof fn lemma_active_keys_revoke(nodes: Seq<SpecRosterNode>, keys: Map<i32, Seq<u8>>, n: i32)
    requires
        unique_numbers(nodes),
        has_number(nodes, n),
    ensures
        active_keys(with_flag(nodes, n, true), keys) == active_keys(nodes, keys).remove(n),
{
    let w = with_flag(nodes, n, true);
    lemma_first_index_matches(nodes, n);
    lemma_with_flag_ids(nodes, n, true);
    let idx = first_index(nodes, n)->0;
    let a = active_keys(w, keys);
    let b = active_keys(nodes, keys).remove(n);
    assert forall|m: i32| #[trigger] a.contains_key(m) <==> b.contains_key(m) by {
        if a.contains_key(m) {
            let i = choose|i: int| 0 <= i < w.len() && w[i].node_number == m && !w[i].revoked;
            assert(i != idx);
            assert(w[i] == nodes[i]);
            assert(m != n);
        }
        if b.contains_key(m) {
            let i = choose|i: int|
                0 <= i < nodes.len() && nodes[i].node_number == m && !nodes[i].revoked;
            assert(i != idx);
            assert(w[i] == nodes[i]);
        }
    }
    assert(a =~= b);
}

/// What a successful verification tells of the roster and the verifier.
pub proof fn lemma_verified(r: SpecRoster, verifier: i32, verifier_spki: Seq<u8>)
    requires
        verify_roster_result(r, verifier, verifier_spki) is Ok,
    ensures
        r.version >= 1,
        r.addenda.len() == (r.version as usize) as int,
        decode_keys(r.nodes) is Ok,
        unique_numbers(r.nodes),
        has_number(r.nodes, verifier),
        first_index(r.nodes, verifier) is Some,
        !r.nodes[first_index(r.nodes, verifier)->0].revoked,
        revoked_flags(r.nodes).contains_key(verifier),
        !revoked_flags(r.nodes)[verifier],
        decode_keys(r.nodes)->Ok_0.contains_key(verifier),
        spki_decode(verifier_spki) == Some(decode_keys(r.nodes)->Ok_0[verifier]),
        chain_error(r, r.version as int, decode_keys(r.nodes)->Ok_0, revoked_flags(r.nodes))
            is None,
        verify_roster_result(r, verifier, verifier_spki) == Ok::<
            Map<i32, Seq<u8>>,
            SpecRosterError,
        >(active_keys(r.nodes, decode_keys(r.nodes)->Ok_0)),
{
    lemma_decode_keys_ok(r.nodes);
    lemma_first_index_matches(r.nodes, verifier);
    lemma_revoked_flags(r.nodes);
    let i = first_index(r.nodes, verifier)->0;
    assert(r.nodes[i].node_number == verifier);
    assert(revoked_flags(r.nodes)[r.nodes[i].node_number] == r.nodes[i].revoked);
}

/// Verification of a roster whose structure and keys are known: it comes
/// down to the verifier's entry and the chain.
pub proof fn lemma_verify_unfold(r: SpecRoster, verifier: i32, verifier_spki: Seq<u8>)
    requires
        r.version >= 1,
        r.addenda.len() == (r.version as usize) as int,
        decode_keys(r.nodes) is Ok,
    ensures
        verify_roster_result(r, verifier, verifier_spki) == (match first_index(r.nodes, verifier) {
            None => Err(SpecRosterError::VerifierNotInRoster(verifier)),
            Some(i) => if r.nodes[i].revoked {
                Err(SpecRosterError::VerifierRevoked(verifier))
            } else if !decode_keys(r.nodes)->Ok_0.contains_key(verifier) {
                Err(SpecRosterError::VerifierNotInRoster(verifier))
            } else {
                match spki_decode(verifier_spki) {
                    None => Err(SpecRosterError::InvalidPublicKey { node_number: verifier }),
                    Some(expected) => if decode_keys(r.nodes)->Ok_0[verifier] != expected {
                        Err(SpecRosterError::VerifierKeyMismatch(verifier))
                    } else {
                        match chain_error(
                            r,
                            r.version as int,
                            decode_keys(r.nodes)->Ok_0,
                            revoked_flags(r.nodes),
                        ) {
                            Some(e) => Err(e),
                            None => Ok(active_keys(r.nodes, decode_keys(r.nodes)->Ok_0)),
                        }
                    },
                }
            },
        }),
{
}

/// Rebuilding the roster before an activation gives the base roster back.
pub proof fn lemma_base_of_activation(
    base: SpecRoster,
    endorser: i32,
    new_node: i32,
    new_node_spki: Seq<u8>,
    new_node_nonce: Seq<u8>,
    endorser_nonce: Seq<u8>,
    new_node_signature: Seq<u8>,
    endorser_signature: Seq<u8>,
)
    requires
        0 <= base.version < i64::MAX,
        base.version < usize::MAX,
        base.addenda.len() == base.version,
        !has_number(base.nodes, new_node),
    ensures
        ({
            let r = activation_roster(
                base,
                endorser,
                new_node,
                new_node_spki,
                new_node_nonce,
                endorser_nonce,
                new_node_signature,
                endorser_signature,
            );
            &&& base_roster_of(r, base.version) == base
            &&& undo_addendum(r.nodes, r.addenda.last()) == base.nodes
            &&& stepped_back(r, undo_addendum(r.nodes, r.addenda.last())) == base
        }),
{
    let r = activation_roster(
        base,
        endorser,
        new_node,
        new_node_spki,
        new_node_nonce,
        endorser_nonce,
        new_node_signature,
        endorser_signature,
    );
    let lo = (base.version as usize) as int;
    assert(lo == base.version);
    assert(r.nodes.drop_last() =~= base.nodes);
    lemma_without_absent(base.nodes, new_node);
    assert(undo_addendum(r.nodes, r.addenda.last()) == base.nodes);
    assert(r.addenda[lo] == r.addenda.last());
    assert(r.addenda.take(lo) =~= base.addenda);
    assert(r.addenda.drop_last() =~= base.addenda);
    assert(r.addenda.len() == lo + 1);
    assert(undo_addenda(base.nodes, r.addenda, lo, lo) == base.nodes);
    assert(undo_addenda(r.nodes, r.addenda, lo, lo + 1) == base.nodes);
    assert(base_roster_of(r, base.version).nodes == base.nodes);
}

/// Rebuilding the roster before a revocation of an active node gives the
/// base roster back.
pub proof fn lemma_base_of_revocation(
    base: SpecRoster,
    revoked: i32,
    revoker: i32,
    revoker_signature: Seq<u8>,
)
    requires
        0 <= base.version < i64::MAX,
        base.version < usize::MAX,
        base.addenda.len() == base.version,
        first_index(base.nodes, revoked) is Some,
        !base.nodes[first_index(base.nodes, revoked)->0].revoked,
    ensures
        ({
            let r = revocation_roster(base, revoked, revoker, revoker_signature);
            &&& base_roster_of(r, base.version) == base
            &&& undo_addendum(r.nodes, r.addenda.last()) == base.nodes
            &&& stepped_back(r, undo_addendum(r.nodes, r.addenda.last())) == base
        }),
{
    let r = revocation_roster(base, revoked, revoker, revoker_signature);
    let lo = (base.version as usize) as int;
    let idx = first_index(base.nodes, revoked)->0;
    lemma_first_index_matches(base.nodes, revoked);
    lemma_with_flag_ids(base.nodes, revoked, true);
    lemma_first_index_same_ids(r.nodes, base.nodes, revoked);
    assert(undo_addendum(r.nodes, r.addenda.last()) =~= base.nodes);
    assert(r.addenda[lo] == r.addenda.last());
    assert(r.addenda.take(lo) =~= base.addenda);
    assert(r.addenda.drop_last() =~= base.addenda);
    assert(r.addenda.len() == lo + 1);
    assert(undo_addenda(base.nodes, r.addenda, lo, lo) == base.nodes);
    assert(undo_addenda(r.nodes, r.addenda, lo, lo + 1) == base.nodes);
    assert(base_roster_of(r, base.version).nodes == base.nodes);
}

/// A node revoking itself (what logout submits) gives a roster that
/// nobody verifies: the revoked node gets `VerifierRevoked`, and every
/// other node that verified the base gets `RevokerNotInPreviousRoster`,
/// because the revoker is no longer active when its revocation is checked.
pub proof fn law_self_revocation_refused(
    base: SpecRoster,
    node: i32,
    node_spki: Seq<u8>,
    signature: Seq<u8>,
    verifier: i32,
    verifier_spki: Seq<u8>,
)
    requires
        verify_roster_result(base, node, node_spki) is Ok,
        verify_roster_result(base, verifier, verifier_spki) is Ok,
        base.version < i64::MAX,
        base.version < usize::MAX,
    ensures
        verifier == node ==> verify_roster_result(
            revocation_roster(base, node, node, signature),
            verifier,
            verifier_spki,
        ) == Err::<Map<i32, Seq<u8>>, SpecRosterError>(SpecRosterError::VerifierRevoked(node)),
        verifier != node ==> verify_roster_result(
            revocation_roster(base, node, node, signature),
            verifier,
            verifier_spki,
        ) == Err::<Map<i32, Seq<u8>>, SpecRosterError>(
            SpecRosterError::RevokerNotInPreviousRoster {
                version: (base.version + 1) as i64,
                revoker: node,
            },
        ),
{
    let r = revocation_roster(base, node, node, signature);
    lemma_verified(base, node, node_spki);
    lemma_verified(base, verifier, verifier_spki);
    let keys = decode_keys(base.nodes)->Ok_0;
    lemma_decode_keys_ok(base.nodes);
    assert(has_number(base.nodes, node));
    lemma_first_index_matches(base.nodes, node);
    let idx = first_index(base.nodes, node)->0;
    lemma_with_flag_ids(base.nodes, node, true);
    lemma_decode_keys_same_ids(r.nodes, base.nodes);
    lemma_first_index_same_ids(r.nodes, base.nodes, verifier);
    assert(((base.version + 1) as i64) as usize == (base.version as usize) + 1);
    lemma_verify_unfold(r, verifier, verifier_spki);
    lemma_first_index_matches(base.nodes, verifier);
    let vi = first_index(base.nodes, verifier)->0;
    if verifier != node {
        assert(vi != idx);
        assert(r.nodes[vi] == base.nodes[vi]);
        lemma_revoked_flags_with_flag(base.nodes, node, true);
        let rv = r.addenda.last().kind->Some_0->Revocation_0;
        assert(r.addenda.last() == r.addenda[r.addenda.len() - 1]);
        assert(check_revocation(r, rv, r.version, keys, revoked_flags(r.nodes)) == Err::<
            Map<i32, bool>,
            SpecRosterError,
        >(
            SpecRosterError::RevokerNotInPreviousRoster {
                version: (base.version + 1) as i64,
                revoker: node,
            },
        ));
    } else {
        assert(vi == idx);
    }
}

/// The base hash of an activation or revocation roster is checked against
/// the base it was built on: undoing the last addendum rebuilds the base
/// exactly, so the check passes for that base's hash and for no other.
pub proof fn law_base_hash_of_new_version(
    base: SpecRoster,
    endorser: i32,
    new_node: i32,
    new_node_spki: Seq<u8>,
    new_node_nonce: Seq<u8>,
    endorser_nonce: Seq<u8>,
    new_node_signature: Seq<u8>,
    endorser_signature: Seq<u8>,
    revoked: i32,
    revoker: i32,
    revoker_signature: Seq<u8>,
    hash: Seq<u8>,
)
    requires
        1 <= base.version < i64::MAX,
        base.version < usize::MAX,
        base.addenda.len() == base.version,
    ensures
        !has_number(base.nodes, new_node) ==> (base_hash_matches(
            activation_roster(
                base,
                endorser,
                new_node,
                new_node_spki,
                new_node_nonce,
                endorser_nonce,
                new_node_signature,
                endorser_signature,
            ),
            base.version,
            hash,
        ) <==> hash == roster_hash(base)),
        (first_index(base.nodes, revoked) matches Some(i) && !base.nodes[i].revoked) ==> (
        base_hash_matches(
            revocation_roster(base, revoked, revoker, revoker_signature),
            base.version,
            hash,
        ) <==> hash == roster_hash(base)),
{
    if !has_number(base.nodes, new_node) {
        lemma_base_of_activation(
            base,
            endorser,
            new_node,
            new_node_spki,
            new_node_nonce,
            endorser_nonce,
            new_node_signature,
            endorser_signature,
        );
    }
    if first_index(base.nodes, revoked) matches Some(i) && !base.nodes[i].revoked {
        lemma_base_of_revocation(base, revoked, revoker, revoker_signature);
    }
}

/// Distinct node numbers and keys that all decode make a key map.
pub proof fn lemma_decode_keys_of_valid_nodes(nodes: Seq<SpecRosterNode>)
    requires
        unique_numbers(nodes),
        forall|i: int| 0 <= i < nodes.len() ==> spki_decode(#[trigger] nodes[i].public_key_spki) is Some,
    ensures
        decode_keys(nodes) is Ok,
    decreases nodes.len(),
{
    if nodes.len() > 0 {
        let p = nodes.drop_last();
        assert forall|i: int| 0 <= i < p.len() implies spki_decode(#[trigger] p[i].public_key_spki) is Some by {
            assert(p[i] == nodes[i]);
        }
        assert forall|i: int, j: int|
            0 <= i < p.len() && 0 <= j < p.len() && i != j implies p[i].node_number != p[j].node_number by {
            assert(p[i] == nodes[i]);
            assert(p[j] == nodes[j]);
        }
        lemma_decode_keys_of_valid_nodes(p);
        lemma_decode_keys_ok(p);
        let x = nodes.last();
        if decode_keys(p)->Ok_0.contains_key(x.node_number) {
            assert(has_number(p, x.node_number));
            let k = choose|k: int| 0 <= k < p.len() && p[k].node_number == x.node_number;
            assert(nodes[k].node_number == nodes[nodes.len() - 1].node_number);
        }
        assert(spki_decode(nodes[nodes.len() - 1].public_key_spki) is Some);
    }
}

/// The verifier is checked before the chain: on a roster whose version
/// and addenda agree, whose node numbers are distinct and whose keys all
/// decode, verifying from a node that is not listed fails with
/// `VerifierNotInRoster`, from a revoked node with `VerifierRevoked`, with
/// an SPKI that does not decode with `InvalidPublicKey`, and with one whose
/// key is not the node's with `VerifierKeyMismatch`.
pub proof fn law_verifier_checks(r: SpecRoster, verifier: i32, verifier_spki: Seq<u8>)
    requires
        r.version >= 1,
        r.addenda.len() == (r.version as usize) as int,
        unique_numbers(r.nodes),
        forall|i: int|
            0 <= i < r.nodes.len() ==> spki_decode(#[trigger] r.nodes[i].public_key_spki) is Some,
    ensures
        !has_number(r.nodes, verifier) ==> verify_roster_result(r, verifier, verifier_spki) == Err::<
            Map<i32, Seq<u8>>,
            SpecRosterError,
        >(SpecRosterError::VerifierNotInRoster(verifier)),
        forall|i: int|
            0 <= i < r.nodes.len() && #[trigger] r.nodes[i].node_number == verifier ==> {
                let v = verify_roster_result(r, verifier, verifier_spki);
                &&& r.nodes[i].revoked ==> v == Err::<Map<i32, Seq<u8>>, SpecRosterError>(
                    SpecRosterError::VerifierRevoked(verifier),
                )
                &&& !r.nodes[i].revoked && spki_decode(verifier_spki) is None ==> v == Err::<
                    Map<i32, Seq<u8>>,
                    SpecRosterError,
                >(SpecRosterError::InvalidPublicKey { node_number: verifier })
                &&& !r.nodes[i].revoked && spki_decode(verifier_spki) is Some && spki_decode(
                    verifier_spki,
                )->0 != spki_decode(r.nodes[i].public_key_spki)->0 ==> v == Err::<
                    Map<i32, Seq<u8>>,
                    SpecRosterError,
                >(SpecRosterError::VerifierKeyMismatch(verifier))
            },
{
    lemma_decode_keys_of_valid_nodes(r.nodes);
    lemma_decode_keys_ok(r.nodes);
    lemma_verify_unfold(r, verifier, verifier_spki);
    lemma_first_index_matches(r.nodes, verifier);
    if !has_number(r.nodes, verifier) {
        if first_index(r.nodes, verifier) is Some {
            let k = first_index(r.nodes, verifier)->0;
            assert(r.nodes[k].node_number == verifier);
        }
    }
    assert forall|i: int|
        0 <= i < r.nodes.len() && #[trigger] r.nodes[i].node_number == verifier implies first_index(
            r.nodes,
            verifier,
        ) == Some(i) by {
        assert(has_number(r.nodes, verifier));
        let k = first_index(r.nodes, verifier)->0;
        assert(r.nodes[k].node_number == verifier);
    }
}

/// A bootstrap roster whose two signatures are good verifies, from either
/// founding node, to the keys of both founders.
pub proof fn law_bootstrap_roster_verifies(
    endorser: i32,
    endorser_spki: Seq<u8>,
    new_node: i32,
    new_node_spki: Seq<u8>,
    new_node_nonce: Seq<u8>,
    endorser_nonce: Seq<u8>,
    new_node_signature: Seq<u8>,
    endorser_signature: Seq<u8>,
    verifier: i32,
    verifier_spki: Seq<u8>,
)
    requires
        endorser != new_node,
        spki_decode(endorser_spki) is Some,
        spki_decode(new_node_spki) is Some,
        ed25519_verify(
            spki_decode(new_node_spki)->0,
            spec_encode_activation_payload(
                activation_payload_for(
                    empty_roster(),
                    endorser,
                    new_node,
                    new_node_nonce,
                    endorser_nonce,
                ),
            ),
            new_node_signature,
        ),
        ed25519_verify(
            spki_decode(endorser_spki)->0,
            spec_encode_activation_payload(
                activation_payload_for(
                    empty_roster(),
                    endorser,
                    new_node,
                    new_node_nonce,
                    endorser_nonce,
                ),
            ),
            endorser_signature,
        ),
        (verifier == endorser && spki_decode(verifier_spki) == spki_decode(endorser_spki)) || (
        verifier == new_node && spki_decode(verifier_spki) == spki_decode(new_node_spki)),
    ensures
        verify_roster_result(
            bootstrap_roster(
                endorser,
                endorser_spki,
                new_node,
                new_node_spki,
                new_node_nonce,
                endorser_nonce,
                new_node_signature,
                endorser_signature,
            ),
            verifier,
            verifier_spki,
        ) == Ok::<Map<i32, Seq<u8>>, SpecRosterError>(
            map![endorser => spki_decode(endorser_spki)->0, new_node => spki_decode(new_node_spki)->0],
        ),
{
    let r = bootstrap_roster(
        endorser,
        endorser_spki,
        new_node,
        new_node_spki,
        new_node_nonce,
        endorser_nonce,
        new_node_signature,
        endorser_signature,
    );
    let ke = spki_decode(endorser_spki)->0;
    let kn = spki_decode(new_node_spki)->0;
    let en = fresh_node(endorser, endorser_spki);
    let nn = fresh_node(new_node, new_node_spki);
    let one: Seq<SpecRosterNode> = seq![en];
    assert(one.drop_last() =~= Seq::<SpecRosterNode>::empty());
    assert(decode_keys(Seq::<SpecRosterNode>::empty()) == Ok::<
        Map<i32, Seq<u8>>,
        SpecRosterError,
    >(Map::<i32, Seq<u8>>::empty()));
    assert(one.last() == en);
    assert(r.nodes.drop_last() =~= one);
    assert(decode_keys(one) == Ok::<Map<i32, Seq<u8>>, SpecRosterError>(
        Map::<i32, Seq<u8>>::empty().insert(endorser, ke),
    ));
    let keys = Map::<i32, Seq<u8>>::empty().insert(endorser, ke).insert(new_node, kn);
    assert(decode_keys(r.nodes) == Ok::<Map<i32, Seq<u8>>, SpecRosterError>(keys));
    assert(r.nodes[0] == en && r.nodes[1] == nn);
    assert(first_index(r.nodes, endorser) == Some(0int));
    assert(r.nodes.drop_first() =~= seq![nn]);
    assert(first_index(seq![nn], new_node) == Some(0int));
    assert(first_index(r.nodes, new_node) == Some(1int));
    let rf = revoked_flags(r.nodes);
    let act = r.addenda.last().kind->Some_0->Activation_0;
    assert(check_activation(r, act, 1, keys, rf) is Ok);
    let rf2 = check_activation(r, act, 1, keys, rf)->Ok_0;
    assert(chain_error(stepped_back(r, undo_addendum(r.nodes, r.addenda.last())), 0, keys, rf2)
        is None);
    assert(chain_error(r, 1, keys, rf) is None);
    lemma_verify_unfold(r, verifier, verifier_spki);
    let expected = map![endorser => ke, new_node => kn];
    assert(active_keys(r.nodes, keys) =~= expected) by {
        assert forall|n: i32| #[trigger]
            active_keys(r.nodes, keys).contains_key(n) <==> expected.contains_key(n) by {
            if n == endorser {
                assert(r.nodes[0].node_number == n && !r.nodes[0].revoked);
            }
            if n == new_node {
                assert(r.nodes[1].node_number == n && !r.nodes[1].revoked);
            }
        }
    }
}

/// Activating a new node, endorsed by an active node, on a roster that
/// verifies gives a roster that verifies, from every node that verified the
/// base and from the new node, to the same keys plus the new node's key.
pub proof fn law_activation_extends_roster(
    base: SpecRoster,
    endorser: i32,
    endorser_spki: Seq<u8>,
    new_node: i32,
    new_node_spki: Seq<u8>,
    new_node_nonce: Seq<u8>,
    endorser_nonce: Seq<u8>,
    new_node_signature: Seq<u8>,
    endorser_signature: Seq<u8>,
    verifier: i32,
    verifier_spki: Seq<u8>,
)
    requires
        verify_roster_result(base, endorser, endorser_spki) is Ok,
        (verifier == new_node && spki_decode(verifier_spki) == spki_decode(new_node_spki)) || (
        verifier != new_node && verify_roster_result(base, verifier, verifier_spki) is Ok),
        !has_number(base.nodes, new_node),
        spki_decode(new_node_spki) is Some,
        base.version < i64::MAX,
        base.version < usize::MAX,
        ed25519_verify(
            spki_decode(new_node_spki)->0,
            spec_encode_activation_payload(
                activation_payload_for(base, endorser, new_node, new_node_nonce, endorser_nonce),
            ),
            new_node_signature,
        ),
        ed25519_verify(
            spki_decode(endorser_spki)->0,
            spec_encode_activation_payload(
                activation_payload_for(base, endorser, new_node, new_node_nonce, endorser_nonce),
            ),
            endorser_signature,
        ),
    ensures
        verify_roster_result(
            activation_roster(
                base,
                endorser,
                new_node,
                new_node_spki,
                new_node_nonce,
                endorser_nonce,
                new_node_signature,
                endorser_signature,
            ),
            verifier,
            verifier_spki,
        ) == Ok::<Map<i32, Seq<u8>>, SpecRosterError>(
            verify_roster_result(base, endorser, endorser_spki)->Ok_0.insert(
                new_node,
                spki_decode(new_node_spki)->0,
            ),
        ),
{
    let r = activation_roster(
        base,
        endorser,
        new_node,
        new_node_spki,
        new_node_nonce,
        endorser_nonce,
        new_node_signature,
        endorser_signature,
    );
    let kn = spki_decode(new_node_spki)->0;
    let x = fresh_node(new_node, new_node_spki);
    lemma_verified(base, endorser, endorser_spki);
    if verifier != new_node {
        lemma_verified(base, verifier, verifier_spki);
    }
    let keys = decode_keys(base.nodes)->Ok_0;
    lemma_decode_keys_ok(base.nodes);
    lemma_decode_keys_push(base.nodes, x);
    let keys2 = keys.insert(new_node, kn);
    assert(r.nodes == base.nodes.push(x));
    assert(decode_keys(r.nodes) == Ok::<Map<i32, Seq<u8>>, SpecRosterError>(keys2));
    assert(((base.version + 1) as i64) as usize == (base.version as usize) + 1);
    lemma_verify_unfold(r, verifier, verifier_spki);
    lemma_first_index_push(base.nodes, x, verifier);
    lemma_first_index_matches(base.nodes, new_node);
    lemma_revoked_flags(base.nodes);
    // the chain of the new roster
    let rf = revoked_flags(base.nodes);
    assert(r.nodes.drop_last() =~= base.nodes);
    assert(revoked_flags(r.nodes) == rf.insert(new_node, false));
    lemma_base_of_activation(
        base,
        endorser,
        new_node,
        new_node_spki,
        new_node_nonce,
        endorser_nonce,
        new_node_signature,
        endorser_signature,
    );
    let act = r.addenda.last().kind->Some_0->Activation_0;
    assert(rf.insert(new_node, false).remove(new_node) =~= rf);
    assert(check_activation(r, act, r.version, keys2, rf.insert(new_node, false)) == Ok::<
        Map<i32, bool>,
        SpecRosterError,
    >(rf));
    lemma_chain_more_keys(base, base.version as int, keys, keys2, rf);
    assert(chain_error(r, r.version as int, keys2, revoked_flags(r.nodes)) is None);
    lemma_active_keys_push(base.nodes, keys, x, kn);
    if verifier != new_node {
        lemma_first_index_matches(base.nodes, verifier);
        let i = first_index(base.nodes, verifier)->0;
        assert(r.nodes[i] == base.nodes[i]);
        assert(keys2[verifier] == keys[verifier]);
    } else {
        assert(r.nodes[base.nodes.len() as int] == x);
    }
}

/// Revoking an active node, by another active node, on a roster that
/// verifies gives a roster that every other node that verified the base
/// verifies to the same keys less the revoked node's, and that the revoked
/// node no longer verifies.
pub proof fn law_revocation_removes_key(
    base: SpecRoster,
    revoker: i32,
    revoker_spki: Seq<u8>,
    revoked: i32,
    revoker_signature: Seq<u8>,
    verifier: i32,
    verifier_spki: Seq<u8>,
)
    requires
        verify_roster_result(base, revoker, revoker_spki) is Ok,
        verify_roster_result(base, verifier, verifier_spki) is Ok,
        verify_roster_result(base, revoker, revoker_spki)->Ok_0.contains_key(revoked),
        revoked != revoker,
        base.version < i64::MAX,
        base.version < usize::MAX,
        ed25519_verify(
            spki_decode(revoker_spki)->0,
            spec_encode_revocation_payload(revocation_payload_for(base, revoked, revoker)),
            revoker_signature,
        ),
    ensures
        verifier != revoked ==> verify_roster_result(
            revocation_roster(base, revoked, revoker, revoker_signature),
            verifier,
            verifier_spki,
        ) == Ok::<Map<i32, Seq<u8>>, SpecRosterError>(
            verify_roster_result(base, revoker, revoker_spki)->Ok_0.remove(revoked),
        ),
        verifier == revoked ==> verify_roster_result(
            revocation_roster(base, revoked, revoker, revoker_signature),
            verifier,
            verifier_spki,
        ) == Err::<Map<i32, Seq<u8>>, SpecRosterError>(SpecRosterError::VerifierRevoked(revoked)),
{
    let r = revocation_roster(base, revoked, revoker, revoker_signature);
    lemma_verified(base, revoker, revoker_spki);
    lemma_verified(base, verifier, verifier_spki);
    let keys = decode_keys(base.nodes)->Ok_0;
    lemma_decode_keys_ok(base.nodes);
    let m = active_keys(base.nodes, keys);
    let j = choose|j: int|
        0 <= j < base.nodes.len() && base.nodes[j].node_number == revoked
            && !base.nodes[j].revoked;
    assert(has_number(base.nodes, revoked));
    lemma_first_index_matches(base.nodes, revoked);
    let idx = first_index(base.nodes, revoked)->0;
    assert(idx == j);
    lemma_with_flag_ids(base.nodes, revoked, true);
    lemma_decode_keys_same_ids(r.nodes, base.nodes);
    lemma_first_index_same_ids(r.nodes, base.nodes, verifier);
    assert(((base.version + 1) as i64) as usize == (base.version as usize) + 1);
    lemma_verify_unfold(r, verifier, verifier_spki);
    lemma_first_index_matches(base.nodes, verifier);
    let vi = first_index(base.nodes, verifier)->0;
    if verifier != revoked {
        assert(vi != idx);
        assert(r.nodes[vi] == base.nodes[vi]);
        let rf = revoked_flags(base.nodes);
        lemma_revoked_flags_with_flag(base.nodes, revoked, true);
        lemma_revoked_flags(base.nodes);
        assert(rf[base.nodes[idx].node_number] == base.nodes[idx].revoked);
        lemma_base_of_revocation(base, revoked, revoker, revoker_signature);
        let rv = r.addenda.last().kind->Some_0->Revocation_0;
        assert(rf.insert(revoked, true).insert(revoked, false) =~= rf);
        assert(check_revocation(r, rv, r.version, keys, rf.insert(revoked, true)) == Ok::<
            Map<i32, bool>,
            SpecRosterError,
        >(rf));
        assert(chain_error(r, r.version as int, keys, revoked_flags(r.nodes)) is None);
        lemma_active_keys_revoke(base.nodes, keys, revoked);
    } else {
        assert(vi == idx);
    }
}

} // verus!
