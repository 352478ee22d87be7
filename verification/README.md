# wispers_connect

The node-side logic of Wispers Connect, a secure overlay network in which
nodes of a connectivity group trust each other through a co-signed roster
rather than through the hub that relays their messages. The functions in
`src/` are verified with Verus against their `requires`/`ensures`
contracts, except the trusted wrappers: the calls into outside crates in
`src/primitives.rs` (hashing, HMAC, HKDF, Ed25519, X25519, big-integer
base 36, random bytes) and, in `src/text.rs`, `String::push`,
`String::from_utf8` and `urlencoding::encode`. Their contracts are
believed, not proved; each wrapper's doc comment says what it claims.

## Layout

- `src/roster.rs`, `src/roster_laws.rs`: the cryptographic roster, its
  verification and its builders (bootstrap, activation, revocation), and the
  laws that tie them together.
- `src/proto.rs`: the wire encoding of roster and pairing messages.
- `src/crypto.rs`, `src/base36.rs`, `src/primitives.rs`: signing and
  encryption keys, pairing secrets and codes, pairing MACs; the calls into
  the cryptography crates sit behind trusted wrappers in `primitives.rs`.
- `src/node.rs`, `src/types.rs`, `src/errors.rs`, `src/foreign.rs`: node
  state, its storage and the node's state machine (registration,
  activation, connections, logout), split into the steps around each
  exchange with the hub.
- `src/serving.rs`: the endorsing state machine of a serving node and its
  answers to connection requests.
- `src/p2p.rs`, `src/quic.rs`: signed connection messages and the pure parts
  of the QUIC transport.
- `src/proxy.rs`, `src/pool.rs`, `src/daemon.rs`, `src/admin.rs`, `src/text.rs`:
  the protocol parsers and decisions of the sidecar's proxies, its
  connection pool, its local daemon and the command-line tools.
- `tests/`: tests on concrete values.
- `app/`: the `wcadm` admin tool (HTTP, arguments, printing) and the JSON
  form of the daemon's messages. The hub client (gRPC), the serving loop,
  the QUIC and ICE transports and the sidecar's sockets are not part of it:
  they need tonic, prost, tokio, quiche, BoringSSL and libjuice, which are
  not dependencies of this crate. Their decisions are the step functions in
  `src/`.
