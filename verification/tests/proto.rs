use wispers_connect::proto::{PairPayload, Roster, RosterNode};

#[test]
fn roster_node_uses_the_protobuf_wire_format() {
    let node = RosterNode { node_number: 3, public_key_spki: vec![1, 2], revoked: true };
    assert_eq!(node.encode_to_vec(), vec![0x08, 0x03, 0x12, 0x02, 0x01, 0x02, 0x18, 0x01]);
    // default values are left out
    let empty = RosterNode { node_number: 0, public_key_spki: vec![], revoked: false };
    assert!(empty.encode_to_vec().is_empty());
    // a negative int32 is a ten-byte varint
    let negative = RosterNode { node_number: -1, public_key_spki: vec![], revoked: false };
    assert_eq!(
        negative.encode_to_vec(),
        vec![0x08, 0xff, 0xff, 0xff, 0xff, 0xff, 0xff, 0xff, 0xff, 0xff, 0x01]
    );
}

#[test]
fn roster_nests_its_nodes_as_length_delimited_fields() {
    let roster = Roster {
        version: 300,
        nodes: vec![RosterNode { node_number: 1, public_key_spki: vec![9], revoked: false }],
        addenda: vec![],
    };
    // version 300 = varint ac 02; nodes is field 2: key 0x12, length 5
    assert_eq!(
        roster.encode_to_vec(),
        vec![0x08, 0xac, 0x02, 0x12, 0x05, 0x08, 0x01, 0x12, 0x01, 0x09]
    );
}

#[test]
fn pair_payload_wire_bytes() {
    let p = PairPayload {
        sender_node_number: 2,
        receiver_node_number: 1,
        public_key_spki: vec![0xaa],
        nonce: vec![0xbb, 0xcc],
        reply_nonce: vec![],
    };
    assert_eq!(
        p.encode_to_vec(),
        vec![0x08, 0x02, 0x10, 0x01, 0x1a, 0x01, 0xaa, 0x22, 0x02, 0xbb, 0xcc]
    );
}
