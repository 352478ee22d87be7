//! Roster and pairing messages, and their protobuf (proto3) wire encoding.
//!
//! Hashes and signatures in the roster are taken over these encodings, so
//! the encoding must be byte-for-byte the canonical proto3 one: fields in
//! field-number order, scalar fields left out when they hold their default
//! value, nested messages and byte strings length-delimited.
use vstd::prelude::*;

verus! {

//-- Wire primitives ---------------------------------------------------------

/// Base-128 varint (LEB128) encoding of a non-negative integer.
pub open spec fn spec_varint(v: nat) -> Seq<u8>
    decreases v,
{
    if v < 128 {
        seq![v as u8]
    } else {
        seq![((v % 128) + 128) as u8] + spec_varint(v / 128)
    }
}

/// The 64-bit two's complement reading of a signed integer, as protobuf
/// encodes `int32` and `int64` values.
pub open spec fn u64_of_signed(x: int) -> nat {
    if x >= 0 {
        x as nat
    } else {
        (x + 0x1_0000_0000_0000_0000) as nat
    }
}

/// Field key: field number and wire type.
pub open spec fn spec_key(field: nat, wire: nat) -> Seq<u8> {
    spec_varint(field * 8 + wire)
}

/// An `int32`/`int64` field; left out when zero.
pub open spec fn spec_int_field(field: nat, v: int) -> Seq<u8> {
    if v == 0 {
        seq![]
    } else {
        spec_key(field, 0) + spec_varint(u64_of_signed(v))
    }
}

/// A `bool` field; left out when false.
pub open spec fn spec_bool_field(field: nat, b: bool) -> Seq<u8> {
    if b {
        spec_key(field, 0) + seq![1u8]
    } else {
        seq![]
    }
}

/// A length-delimited record (always present).
pub open spec fn spec_delimited(field: nat, body: Seq<u8>) -> Seq<u8> {
    spec_key(field, 2) + spec_varint(body.len()) + body
}

/// A `bytes` field; left out when empty.
pub open spec fn spec_bytes_field(field: nat, b: Seq<u8>) -> Seq<u8> {
    if b.len() == 0 {
        seq![]
    } else {
        spec_delimited(field, b)
    }
}

//-- Models ------------------------------------------------------------------

pub struct SpecRosterNode {
    pub node_number: i32,
    pub public_key_spki: Seq<u8>,
    pub revoked: bool,
}

pub struct SpecActivationPayload {
    pub base_version: i64,
    pub base_version_hash: Seq<u8>,
    pub new_version: i64,
    pub new_node_number: i32,
    pub endorser_node_number: i32,
    pub new_node_nonce: Seq<u8>,
    pub endorser_nonce: Seq<u8>,
}

pub struct SpecActivation {
    pub payload: Option<SpecActivationPayload>,
    pub new_node_signature: Seq<u8>,
    pub endorser_signature: Seq<u8>,
}

pub struct SpecRevocationPayload {
    pub base_version: i64,
    pub base_version_hash: Seq<u8>,
    pub new_version: i64,
    pub revoked_node_number: i32,
    pub revoker_node_number: i32,
}

pub struct SpecRevocation {
    pub payload: Option<SpecRevocationPayload>,
    pub revoker_signature: Seq<u8>,
}

pub enum SpecAddendumKind {
    Activation(SpecActivation),
    Revocation(SpecRevocation),
}

pub struct SpecAddendum {
    pub kind: Option<SpecAddendumKind>,
}

pub struct SpecRoster {
    pub version: i64,
    pub nodes: Seq<SpecRosterNode>,
    pub addenda: Seq<SpecAddendum>,
}

pub struct SpecPairPayload {
    pub sender_node_number: i32,
    pub receiver_node_number: i32,
    pub public_key_spki: Seq<u8>,
    pub nonce: Seq<u8>,
    pub reply_nonce: Seq<u8>,
}

//-- Executable messages -----------------------------------------------------

/// A node entry of the roster.
#[derive(Debug, Clone)]
pub struct RosterNode {
    pub node_number: i32,
    pub public_key_spki: Vec<u8>,
    pub revoked: bool,
}

/// What both parties of an activation sign.
#[derive(Debug, Clone)]
pub struct ActivationPayload {
    pub base_version: i64,
    pub base_version_hash: Vec<u8>,
    pub new_version: i64,
    pub new_node_number: i32,
    pub endorser_node_number: i32,
    pub new_node_nonce: Vec<u8>,
    pub endorser_nonce: Vec<u8>,
}

/// An activation addendum: a new node endorsed by an active one.
#[derive(Debug, Clone)]
pub struct Activation {
    pub payload: Option<ActivationPayload>,
    pub new_node_signature: Vec<u8>,
    pub endorser_signature: Vec<u8>,
}

/// What the revoker signs.
#[derive(Debug, Clone)]
pub struct RevocationPayload {
    pub base_version: i64,
    pub base_version_hash: Vec<u8>,
    pub new_version: i64,
    pub revoked_node_number: i32,
    pub revoker_node_number: i32,
}

/// A revocation addendum.
#[derive(Debug, Clone)]
pub struct Revocation {
    pub payload: Option<RevocationPayload>,
    pub revoker_signature: Vec<u8>,
}

#[derive(Debug, Clone)]
pub enum AddendumKind {
    Activation(Activation),
    Revocation(Revocation),
}

/// One roster change.
#[derive(Debug, Clone)]
pub struct Addendum {
    pub kind: Option<AddendumKind>,
}

/// The roster of a connectivity group: its version, its nodes, and the
/// history of changes that led to it (one addendum per version).
#[derive(Debug, Clone)]
pub struct Roster {
    pub version: i64,
    pub nodes: Vec<RosterNode>,
    pub addenda: Vec<Addendum>,
}

/// The signed part of a pairing message.
#[derive(Debug, Clone)]
pub struct PairPayload {
    pub sender_node_number: i32,
    pub receiver_node_number: i32,
    pub public_key_spki: Vec<u8>,
    pub nonce: Vec<u8>,
    pub reply_nonce: Vec<u8>,
}

/// A pairing message: payload and its MAC under the pairing secret.
#[derive(Debug, Clone)]
pub struct PairNodesMessage {
    pub payload: Option<PairPayload>,
    pub mac: Vec<u8>,
}

impl View for RosterNode {
    type V = SpecRosterNode;

    open spec fn view(&self) -> SpecRosterNode {
        SpecRosterNode {
            node_number: self.node_number,
            public_key_spki: self.public_key_spki@,
            revoked: self.revoked,
        }
    }
}

impl View for ActivationPayload {
    type V = SpecActivationPayload;

    open spec fn view(&self) -> SpecActivationPayload {
        SpecActivationPayload {
            base_version: self.base_version,
            base_version_hash: self.base_version_hash@,
            new_version: self.new_version,
            new_node_number: self.new_node_number,
            endorser_node_number: self.endorser_node_number,
            new_node_nonce: self.new_node_nonce@,
            endorser_nonce: self.endorser_nonce@,
        }
    }
}

impl View for Activation {
    type V = SpecActivation;

    open spec fn view(&self) -> SpecActivation {
        SpecActivation {
            payload: match self.payload {
                Some(p) => Some(p@),
                None => None,
            },
            new_node_signature: self.new_node_signature@,
            endorser_signature: self.endorser_signature@,
        }
    }
}

impl View for RevocationPayload {
    type V = SpecRevocationPayload;

    open spec fn view(&self) -> SpecRevocationPayload {
        SpecRevocationPayload {
            base_version: self.base_version,
            base_version_hash: self.base_version_hash@,
            new_version: self.new_version,
            revoked_node_number: self.revoked_node_number,
            revoker_node_number: self.revoker_node_number,
        }
    }
}

impl View for Revocation {
    type V = SpecRevocation;

    open spec fn view(&self) -> SpecRevocation {
        SpecRevocation {
            payload: match self.payload {
                Some(p) => Some(p@),
                None => None,
            },
            revoker_signature: self.revoker_signature@,
        }
    }
}

impl View for Addendum {
    type V = SpecAddendum;

    open spec fn view(&self) -> SpecAddendum {
        SpecAddendum {
            kind: match self.kind {
                Some(AddendumKind::Activation(a)) => Some(SpecAddendumKind::Activation(a@)),
                Some(AddendumKind::Revocation(r)) => Some(SpecAddendumKind::Revocation(r@)),
                None => None,
            },
        }
    }
}

impl View for Roster {
    type V = SpecRoster;

    open spec fn view(&self) -> SpecRoster {
        SpecRoster {
            version: self.version,
            nodes: self.nodes@.map_values(|n: RosterNode| n@),
            addenda: self.addenda@.map_values(|a: Addendum| a@),
        }
    }
}

impl View for PairPayload {
    type V = SpecPairPayload;

    open spec fn view(&self) -> SpecPairPayload {
        SpecPairPayload {
            sender_node_number: self.sender_node_number,
            receiver_node_number: self.receiver_node_number,
            public_key_spki: self.public_key_spki@,
            nonce: self.nonce@,
            reply_nonce: self.reply_nonce@,
        }
    }
}

/// The model of a pairing message.
pub struct SpecPairNodesMessage {
    pub payload: Option<SpecPairPayload>,
    pub mac: Seq<u8>,
}

impl View for PairNodesMessage {
    type V = SpecPairNodesMessage;

    open spec fn view(&self) -> SpecPairNodesMessage {
        SpecPairNodesMessage {
            payload: match self.payload {
                Some(p) => Some(p@),
                None => None,
            },
            mac: self.mac@,
        }
    }
}

//-- Encodings of the models -------------------------------------------------

pub open spec fn spec_encode_node(n: SpecRosterNode) -> Seq<u8> {
    spec_int_field(1, n.node_number as int) + spec_bytes_field(2, n.public_key_spki)
        + spec_bool_field(3, n.revoked)
}

pub open spec fn spec_encode_activation_payload(p: SpecActivationPayload) -> Seq<u8> {
    spec_int_field(1, p.base_version as int) + spec_bytes_field(2, p.base_version_hash)
        + spec_int_field(3, p.new_version as int) + spec_int_field(4, p.new_node_number as int)
        + spec_int_field(5, p.endorser_node_number as int) + spec_bytes_field(6, p.new_node_nonce)
        + spec_bytes_field(7, p.endorser_nonce)
}

pub open spec fn spec_encode_revocation_payload(p: SpecRevocationPayload) -> Seq<u8> {
    spec_int_field(1, p.base_version as int) + spec_bytes_field(2, p.base_version_hash)
        + spec_int_field(3, p.new_version as int) + spec_int_field(4, p.revoked_node_number as int)
        + spec_int_field(5, p.revoker_node_number as int)
}

pub open spec fn spec_encode_activation(a: SpecActivation) -> Seq<u8> {
    (match a.payload {
        Some(p) => spec_delimited(1, spec_encode_activation_payload(p)),
        None => seq![],
    }) + spec_bytes_field(2, a.new_node_signature) + spec_bytes_field(3, a.endorser_signature)
}

pub open spec fn spec_encode_revocation(r: SpecRevocation) -> Seq<u8> {
    (match r.payload {
        Some(p) => spec_delimited(1, spec_encode_revocation_payload(p)),
        None => seq![],
    }) + spec_bytes_field(2, r.revoker_signature)
}

pub open spec fn spec_encode_addendum(a: SpecAddendum) -> Seq<u8> {
    match a.kind {
        Some(SpecAddendumKind::Activation(act)) => spec_delimited(1, spec_encode_activation(act)),
        Some(SpecAddendumKind::Revocation(rev)) => spec_delimited(2, spec_encode_revocation(rev)),
        None => seq![],
    }
}

/// The repeated `nodes` field.
pub open spec fn spec_encode_nodes(nodes: Seq<SpecRosterNode>) -> Seq<u8>
    decreases nodes.len(),
{
    if nodes.len() == 0 {
        seq![]
    } else {
        spec_encode_nodes(nodes.drop_last()) + spec_delimited(2, spec_encode_node(nodes.last()))
    }
}

/// The repeated `addenda` field.
pub open spec fn spec_encode_addenda(addenda: Seq<SpecAddendum>) -> Seq<u8>
    decreases addenda.len(),
{
    if addenda.len() == 0 {
        seq![]
    } else {
        spec_encode_addenda(addenda.drop_last()) + spec_delimited(
            3,
            spec_encode_addendum(addenda.last()),
        )
    }
}

pub open spec fn spec_encode_roster(r: SpecRoster) -> Seq<u8> {
    spec_int_field(1, r.version as int) + spec_encode_nodes(r.nodes) + spec_encode_addenda(
        r.addenda,
    )
}

pub open spec fn spec_encode_pair_payload(p: SpecPairPayload) -> Seq<u8> {
    spec_int_field(1, p.sender_node_number as int) + spec_int_field(
        2,
        p.receiver_node_number as int,
    ) + spec_bytes_field(3, p.public_key_spki) + spec_bytes_field(4, p.nonce) + spec_bytes_field(
        5,
        p.reply_nonce,
    )
}

//-- Executable encoders -----------------------------------------------------

pub fn push_varint(out: &mut Vec<u8>, v: u64)
    ensures
        final(out)@ == old(out)@ + spec_varint(v as nat),
    decreases v,
{
    if v < 128 {
        out.push(v as u8);
        assert(out@ =~= old(out)@ + spec_varint(v as nat));
    } else {
        out.push(((v % 128) + 128) as u8);
        let ghost mid = out@;
        push_varint(out, v / 128);
        assert(out@ =~= old(out)@ + spec_varint(v as nat));
    }
}

fn unsigned_of_signed(x: i64) -> (r: u64)
    ensures
        r as nat == u64_of_signed(x as int),
{
    if x >= 0 {
        x as u64
    } else {
        let m: i64 = -(x + 1);
        u64::MAX - (m as u64)
    }
}

fn push_key(out: &mut Vec<u8>, field: u64, wire: u64)
    requires
        field <= 0x1000,
        wire < 8,
    ensures
        final(out)@ == old(out)@ + spec_key(field as nat, wire as nat),
{
    push_varint(out, field * 8 + wire);
}

pub fn push_int_field(out: &mut Vec<u8>, field: u64, v: i64)
    requires
        field <= 0x1000,
    ensures
        final(out)@ == old(out)@ + spec_int_field(field as nat, v as int),
{
    if v != 0 {
        push_key(out, field, 0);
        let u = unsigned_of_signed(v);
        push_varint(out, u);
        assert(out@ =~= old(out)@ + spec_int_field(field as nat, v as int));
    } else {
        assert(out@ =~= old(out)@ + spec_int_field(field as nat, v as int));
    }
}

pub fn push_bool_field(out: &mut Vec<u8>, field: u64, b: bool)
    requires
        field <= 0x1000,
    ensures
        final(out)@ == old(out)@ + spec_bool_field(field as nat, b),
{
    if b {
        push_key(out, field, 0);
        out.push(1u8);
        assert(out@ =~= old(out)@ + spec_bool_field(field as nat, b));
    } else {
        assert(out@ =~= old(out)@ + spec_bool_field(field as nat, b));
    }
}

pub fn push_delimited(out: &mut Vec<u8>, field: u64, body: &[u8])
    requires
        field <= 0x1000,
    ensures
        final(out)@ == old(out)@ + spec_delimited(field as nat, body@),
{
    push_key(out, field, 2);
    push_varint(out, body.len() as u64);
    let ghost mid = out@;
    out.extend_from_slice(body);
    assert(out@ =~= mid + body@);
    assert(out@ =~= old(out)@ + spec_delimited(field as nat, body@));
}

pub fn push_bytes_field(out: &mut Vec<u8>, field: u64, b: &[u8])
    requires
        field <= 0x1000,
    ensures
        final(out)@ == old(out)@ + spec_bytes_field(field as nat, b@),
{
    if b.len() != 0 {
        push_delimited(out, field, b);
    } else {
        assert(out@ =~= old(out)@ + spec_bytes_field(field as nat, b@));
    }
}

impl RosterNode {
    pub fn encode_to_vec(&self) -> (r: Vec<u8>)
        ensures
            r@ == spec_encode_node(self@),
    {
        let mut out: Vec<u8> = Vec::new();
        push_int_field(&mut out, 1, self.node_number as i64);
        push_bytes_field(&mut out, 2, self.public_key_spki.as_slice());
        push_bool_field(&mut out, 3, self.revoked);
        assert(out@ =~= spec_encode_node(self@));
        out
    }
}

impl ActivationPayload {
    pub fn encode_to_vec(&self) -> (r: Vec<u8>)
        ensures
            r@ == spec_encode_activation_payload(self@),
    {
        let mut out: Vec<u8> = Vec::new();
        push_int_field(&mut out, 1, self.base_version);
        push_bytes_field(&mut out, 2, self.base_version_hash.as_slice());
        push_int_field(&mut out, 3, self.new_version);
        push_int_field(&mut out, 4, self.new_node_number as i64);
        push_int_field(&mut out, 5, self.endorser_node_number as i64);
        push_bytes_field(&mut out, 6, self.new_node_nonce.as_slice());
        push_bytes_field(&mut out, 7, self.endorser_nonce.as_slice());
        assert(out@ =~= spec_encode_activation_payload(self@));
        out
    }
}

impl RevocationPayload {
    pub fn encode_to_vec(&self) -> (r: Vec<u8>)
        ensures
            r@ == spec_encode_revocation_payload(self@),
    {
        let mut out: Vec<u8> = Vec::new();
        push_int_field(&mut out, 1, self.base_version);
        push_bytes_field(&mut out, 2, self.base_version_hash.as_slice());
        push_int_field(&mut out, 3, self.new_version);
        push_int_field(&mut out, 4, self.revoked_node_number as i64);
        push_int_field(&mut out, 5, self.revoker_node_number as i64);
        assert(out@ =~= spec_encode_revocation_payload(self@));
        out
    }
}

impl Activation {
    pub fn encode_to_vec(&self) -> (r: Vec<u8>)
        ensures
            r@ == spec_encode_activation(self@),
    {
        let mut out: Vec<u8> = Vec::new();
        match &self.payload {
            Some(p) => {
                let body = p.encode_to_vec();
                push_delimited(&mut out, 1, body.as_slice());
            },
            None => {},
        }
        push_bytes_field(&mut out, 2, self.new_node_signature.as_slice());
        push_bytes_field(&mut out, 3, self.endorser_signature.as_slice());
        assert(out@ =~= spec_encode_activation(self@));
        out
    }
}

impl Revocation {
    pub fn encode_to_vec(&self) -> (r: Vec<u8>)
        ensures
            r@ == spec_encode_revocation(self@),
    {
        let mut out: Vec<u8> = Vec::new();
        match &self.payload {
            Some(p) => {
                let body = p.encode_to_vec();
                push_delimited(&mut out, 1, body.as_slice());
            },
            None => {},
        }
        push_bytes_field(&mut out, 2, self.revoker_signature.as_slice());
        assert(out@ =~= spec_encode_revocation(self@));
        out
    }
}

impl Addendum {
    pub fn encode_to_vec(&self) -> (r: Vec<u8>)
        ensures
            r@ == spec_encode_addendum(self@),
    {
        let mut out: Vec<u8> = Vec::new();
        match &self.kind {
            Some(AddendumKind::Activation(a)) => {
                let body = a.encode_to_vec();
                push_delimited(&mut out, 1, body.as_slice());
            },
            Some(AddendumKind::Revocation(r)) => {
                let body = r.encode_to_vec();
                push_delimited(&mut out, 2, body.as_slice());
            },
            None => {},
        }
        assert(out@ =~= spec_encode_addendum(self@));
        out
    }
}

impl Roster {
    /// The canonical protobuf encoding of the roster.
    pub fn encode_to_vec(&self) -> (r: Vec<u8>)
        ensures
            r@ == spec_encode_roster(self@),
    {
        let mut out: Vec<u8> = Vec::new();
        push_int_field(&mut out, 1, self.version);
        let ghost head = out@;
        let mut i: usize = 0;
        while i < self.nodes.len()
            invariant
                i <= self.nodes@.len(),
                out@ == head + spec_encode_nodes(self@.nodes.take(i as int)),
            decreases self.nodes@.len() - i,
        {
            let body = self.nodes[i].encode_to_vec();
            push_delimited(&mut out, 2, body.as_slice());
            proof {
                let t = self@.nodes.take(i + 1);
                assert(t.drop_last() =~= self@.nodes.take(i as int));
                assert(t.last() == self.nodes@[i as int]@);
            }
            i = i + 1;
        }
        assert(self@.nodes.take(self.nodes@.len() as int) =~= self@.nodes);
        let ghost mid = out@;
        let mut j: usize = 0;
        while j < self.addenda.len()
            invariant
                j <= self.addenda@.len(),
                out@ == mid + spec_encode_addenda(self@.addenda.take(j as int)),
            decreases self.addenda@.len() - j,
        {
            let body = self.addenda[j].encode_to_vec();
            push_delimited(&mut out, 3, body.as_slice());
            proof {
                let t = self@.addenda.take(j + 1);
                assert(t.drop_last() =~= self@.addenda.take(j as int));
                assert(t.last() == self.addenda@[j as int]@);
            }
            j = j + 1;
        }
        assert(self@.addenda.take(self.addenda@.len() as int) =~= self@.addenda);
        assert(out@ =~= spec_encode_roster(self@));
        out
    }
}

impl PairPayload {
    pub fn encode_to_vec(&self) -> (r: Vec<u8>)
        ensures
            r@ == spec_encode_pair_payload(self@),
    {
        let mut out: Vec<u8> = Vec::new();
        push_int_field(&mut out, 1, self.sender_node_number as i64);
        push_int_field(&mut out, 2, self.receiver_node_number as i64);
        push_bytes_field(&mut out, 3, self.public_key_spki.as_slice());
        push_bytes_field(&mut out, 4, self.nonce.as_slice());
        push_bytes_field(&mut out, 5, self.reply_nonce.as_slice());
        assert(out@ =~= spec_encode_pair_payload(self@));
        out
    }
}


//-- Copies ------------------------------------------------------------------

/// A copy of a byte vector.
pub fn copy_bytes(v: &[u8]) -> (r: Vec<u8>)
    ensures
        r@ == v@,
{
    let mut r: Vec<u8> = Vec::new();
    r.extend_from_slice(v);
    assert(r@ =~= v@);
    r
}

impl RosterNode {
    pub fn duplicate(&self) -> (r: RosterNode)
        ensures
            r@ == self@,
    {
        RosterNode {
            node_number: self.node_number,
            public_key_spki: copy_bytes(self.public_key_spki.as_slice()),
            revoked: self.revoked,
        }
    }
}

impl PairPayload {
    pub fn duplicate(&self) -> (r: PairPayload)
        ensures
            r@ == self@,
    {
        PairPayload {
            sender_node_number: self.sender_node_number,
            receiver_node_number: self.receiver_node_number,
            public_key_spki: copy_bytes(self.public_key_spki.as_slice()),
            nonce: copy_bytes(self.nonce.as_slice()),
            reply_nonce: copy_bytes(self.reply_nonce.as_slice()),
        }
    }
}

impl ActivationPayload {
    pub fn duplicate(&self) -> (r: ActivationPayload)
        ensures
            r@ == self@,
    {
        ActivationPayload {
            base_version: self.base_version,
            base_version_hash: copy_bytes(self.base_version_hash.as_slice()),
            new_version: self.new_version,
            new_node_number: self.new_node_number,
            endorser_node_number: self.endorser_node_number,
            new_node_nonce: copy_bytes(self.new_node_nonce.as_slice()),
            endorser_nonce: copy_bytes(self.endorser_nonce.as_slice()),
        }
    }
}

impl RevocationPayload {
    pub fn duplicate(&self) -> (r: RevocationPayload)
        ensures
            r@ == self@,
    {
        RevocationPayload {
            base_version: self.base_version,
            base_version_hash: copy_bytes(self.base_version_hash.as_slice()),
            new_version: self.new_version,
            revoked_node_number: self.revoked_node_number,
            revoker_node_number: self.revoker_node_number,
        }
    }
}

impl Activation {
    pub fn duplicate(&self) -> (r: Activation)
        ensures
            r@ == self@,
    {
        let payload = match &self.payload {
            Some(p) => Some(p.duplicate()),
            None => None,
        };
        Activation {
            payload,
            new_node_signature: copy_bytes(self.new_node_signature.as_slice()),
            endorser_signature: copy_bytes(self.endorser_signature.as_slice()),
        }
    }
}

impl Revocation {
    pub fn duplicate(&self) -> (r: Revocation)
        ensures
            r@ == self@,
    {
        let payload = match &self.payload {
            Some(p) => Some(p.duplicate()),
            None => None,
        };
        Revocation { payload, revoker_signature: copy_bytes(self.revoker_signature.as_slice()) }
    }
}

impl Addendum {
    pub fn duplicate(&self) -> (r: Addendum)
        ensures
            r@ == self@,
    {
        let kind = match &self.kind {
            Some(AddendumKind::Activation(a)) => Some(AddendumKind::Activation(a.duplicate())),
            Some(AddendumKind::Revocation(rv)) => Some(AddendumKind::Revocation(rv.duplicate())),
            None => None,
        };
        Addendum { kind }
    }
}

/// A copy of a list of nodes.
pub fn copy_nodes(nodes: &Vec<RosterNode>) -> (r: Vec<RosterNode>)
    ensures
        r@.map_values(|n: RosterNode| n@) == nodes@.map_values(|n: RosterNode| n@),
{
    let mut r: Vec<RosterNode> = Vec::new();
    let mut i: usize = 0;
    while i < nodes.len()
        invariant
            i <= nodes@.len(),
            r@.len() == i,
            forall|j: int| 0 <= j < i ==> (#[trigger] r@[j])@ == nodes@[j]@,
        decreases nodes@.len() - i,
    {
        r.push(nodes[i].duplicate());
        i = i + 1;
    }
    assert(r@.map_values(|n: RosterNode| n@) =~= nodes@.map_values(|n: RosterNode| n@));
    r
}

/// A copy of a list of addenda.
pub fn copy_addenda(addenda: &Vec<Addendum>) -> (r: Vec<Addendum>)
    ensures
        r@.map_values(|a: Addendum| a@) == addenda@.map_values(|a: Addendum| a@),
{
    let mut r: Vec<Addendum> = Vec::new();
    let mut i: usize = 0;
    while i < addenda.len()
        invariant
            i <= addenda@.len(),
            r@.len() == i,
            forall|j: int| 0 <= j < i ==> (#[trigger] r@[j])@ == addenda@[j]@,
        decreases addenda@.len() - i,
    {
        r.push(addenda[i].duplicate());
        i = i + 1;
    }
    assert(r@.map_values(|a: Addendum| a@) =~= addenda@.map_values(|a: Addendum| a@));
    r
}

impl Roster {
    /// The empty roster (version 0).
    pub fn empty() -> (r: Roster)
        ensures
            r@ == (SpecRoster { version: 0, nodes: seq![], addenda: seq![] }),
    {
        let r = Roster { version: 0, nodes: Vec::new(), addenda: Vec::new() };
        assert(r@.nodes =~= seq![]);
        assert(r@.addenda =~= seq![]);
        r
    }

    pub fn duplicate(&self) -> (r: Roster)
        ensures
            r@ == self@,
    {
        Roster {
            version: self.version,
            nodes: copy_nodes(&self.nodes),
            addenda: copy_addenda(&self.addenda),
        }
    }
}

impl Default for Roster {
    /// The empty roster, version 0.
    fn default() -> (r: Self)
        ensures
            r@ == (SpecRoster { version: 0, nodes: seq![], addenda: seq![] }),
    {
        Roster::empty()
    }
}

} // verus!
