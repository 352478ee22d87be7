//! The proxies' decisions: wispers.link host names, proxy errors and their
//! HTTP status codes, the SOCKS5 handshake, and the replies to stream
//! commands.
use vstd::prelude::*;

use crate::text::{
    concat_text, decimal_digits, decimal_string, int_text, int_to_text, owned, parse_i32,
    parse_i32_text, push_char, starts_with, starts_with_text, strip_suffix_text, text_eq,
    trim_text, trimmed, utf8_text, ends_with,
};

verus! {

//-- Proxy errors ------------------------------------------------------------

/// Proxy-specific errors that map to HTTP status codes.
#[derive(Debug)]
pub enum ProxyError {
    /// 400 Bad Request - malformed request
    BadRequest(String),
    /// 403 Forbidden - non-wispers.link host (when egress not enabled)
    Forbidden(String),
    /// 502 Bad Gateway - upstream error
    BadGateway(String),
    /// 504 Gateway Timeout - upstream timeout
    GatewayTimeout(String),
}

/// The HTTP status code of a proxy error.
pub open spec fn proxy_status(e: ProxyError) -> u16 {
    match e {
        ProxyError::BadRequest(_) => 400,
        ProxyError::Forbidden(_) => 403,
        ProxyError::BadGateway(_) => 502,
        ProxyError::GatewayTimeout(_) => 504,
    }
}

/// The message of a proxy error.
pub open spec fn proxy_message(e: ProxyError) -> Seq<char> {
    match e {
        ProxyError::BadRequest(m) => m@,
        ProxyError::Forbidden(m) => m@,
        ProxyError::BadGateway(m) => m@,
        ProxyError::GatewayTimeout(m) => m@,
    }
}

/// Whether `e` is a bad request with this message.
pub open spec fn is_bad_request(e: ProxyError, message: Seq<char>) -> bool {
    e matches ProxyError::BadRequest(m) && m@ == message
}

impl ProxyError {
    /// Get the HTTP status code for this error.
    pub fn status_code(&self) -> (r: u16)
        ensures
            r == proxy_status(*self),
    {
        match self {
            ProxyError::BadRequest(_) => 400,
            ProxyError::Forbidden(_) => 403,
            ProxyError::BadGateway(_) => 502,
            ProxyError::GatewayTimeout(_) => 504,
        }
    }

    /// The error's message.
    pub fn message(&self) -> (r: &str)
        ensures
            r@ == proxy_message(*self),
    {
        match self {
            ProxyError::BadRequest(m) => m.as_str(),
            ProxyError::Forbidden(m) => m.as_str(),
            ProxyError::BadGateway(m) => m.as_str(),
            ProxyError::GatewayTimeout(m) => m.as_str(),
        }
    }
}

//-- Host names --------------------------------------------------------------

/// Parsed wispers.link hostname.
#[derive(Debug, Clone, Copy, PartialEq, Eq, Structural)]
pub struct WispersHost {
    /// The node number extracted from the hostname
    pub node_number: i32,
}

/// The domain of node host names.
pub open spec fn wispers_suffix() -> Seq<char> {
    ".wispers.link"@
}

/// Parse a wispers.link hostname to extract the node number.
///
/// Expected format: `<node_number>.wispers.link`
///
/// Returns `Ok(WispersHost)` if the hostname is a valid wispers.link address,
/// or `Err(None)` if it's a non-wispers hostname (for egress routing),
/// or `Err(Some(ProxyError))` if it's malformed.
pub fn parse_wispers_host(host: &str) -> (r: Result<WispersHost, Option<ProxyError>>)
    ensures
        !ends_with(host@, wispers_suffix()) ==> r matches Err(None),
        ends_with(host@, wispers_suffix()) ==> ({
            let node_str = host@.take(host@.len() - wispers_suffix().len());
            match parse_i32_text(node_str) {
                None => r matches Err(Some(e)) && is_bad_request(
                    e,
                    "invalid node number in hostname: "@ + node_str,
                ),
                Some(n) => if n <= 0 {
                    r matches Err(Some(e)) && is_bad_request(
                        e,
                        "node number must be positive, got: "@ + int_text(n as int),
                    )
                } else {
                    r == Ok::<WispersHost, Option<ProxyError>>(WispersHost { node_number: n })
                },
            }
        }),
{
    let node_str = match strip_suffix_text(host, ".wispers.link") {
        Some(s) => s,
        None => {
            return Err(None);
        },
    };
    let node_number = match parse_i32(node_str) {
        Some(n) => n,
        None => {
            return Err(
                Some(ProxyError::BadRequest(concat_text("invalid node number in hostname: ", node_str))),
            );
        },
    };
    if node_number <= 0 {
        let number = int_to_text(node_number as i64);
        return Err(
            Some(
                ProxyError::BadRequest(
                    concat_text("node number must be positive, got: ", number.as_str()),
                ),
            ),
        );
    }
    Ok(WispersHost { node_number })
}

//-- Stream command replies --------------------------------------------------

/// What a stream command's reply means: the remote's error after `ERROR `,
/// an unexpected reply, or success on `OK` (white space trimmed).
pub open spec fn command_reply_result(response: Seq<char>) -> Result<(), Seq<char>> {
    let t = trimmed(response);
    if starts_with(t, "ERROR "@) {
        Err("remote error: "@ + t.skip(6))
    } else if t != "OK"@ {
        Err("unexpected response: "@ + t)
    } else {
        Ok(())
    }
}

/// Check the reply to a stream command.
pub fn check_command_reply(response: &str) -> (r: Result<(), String>)
    ensures
        match command_reply_result(response@) {
            Ok(()) => r is Ok,
            Err(m) => r matches Err(x) && x@ == m,
        },
{
    let t = trim_text(response);
    if starts_with_text(t, "ERROR ") {
        proof {
            reveal_strlit("ERROR ");
        }
        let rest = t.substring_char(6, t.unicode_len());
        assert(rest@ =~= t@.skip(6));
        return Err(concat_text("remote error: ", rest));
    }
    if !text_eq(t, "OK") {
        return Err(concat_text("unexpected response: ", t));
    }
    Ok(())
}

/// The command that asks a node to forward a stream to a local port.
pub open spec fn forward_command_text(port: u16) -> Seq<char> {
    "FORWARD "@ + decimal_digits(port as nat) + seq!['\n']
}

/// The FORWARD command for a port.
pub fn forward_command(port: u16) -> (r: String)
    ensures
        r@ == forward_command_text(port),
{
    let mut r = String::from_str("FORWARD ");
    let digits = decimal_string(port as u64);
    r.append(digits.as_str());
    push_char(&mut r, '\n');
    r
}

//-- SOCKS5 ------------------------------------------------------------------

pub const SOCKS_VERSION: u8 = 0x05;
pub const AUTH_NOAUTH: u8 = 0x00;
pub const CMD_CONNECT: u8 = 0x01;
pub const ATYP_IPV4: u8 = 0x01;
pub const ATYP_DOMAIN: u8 = 0x03;
pub const ATYP_IPV6: u8 = 0x04;

pub const REP_SUCCESS: u8 = 0x00;
pub const REP_GENERAL_FAILURE: u8 = 0x01;
pub const REP_NOT_ALLOWED: u8 = 0x02;
pub const REP_NETWORK_UNREACHABLE: u8 = 0x03;
pub const REP_HOST_UNREACHABLE: u8 = 0x04;
pub const REP_CONNECTION_REFUSED: u8 = 0x05;
pub const REP_TTL_EXPIRED: u8 = 0x06;
pub const REP_COMMAND_NOT_SUPPORTED: u8 = 0x07;
pub const REP_ADDRESS_TYPE_NOT_SUPPORTED: u8 = 0x08;

/// What the proxy does with a client's authentication greeting.
#[derive(Debug)]
pub enum AuthOutcome {
    /// Accept without authentication: reply VER, NOAUTH.
    Accept,
    /// Refuse without a reply.
    Refuse(ProxyError),
    /// Refuse with the "no acceptable methods" reply (VER, 0xFF).
    NoAcceptableMethod(ProxyError),
}

/// Whether the greeting's method list offers "no authentication".
pub open spec fn offers_noauth(greeting: Seq<u8>) -> bool {
    exists|i: int| 2 <= i < 2 + greeting[1] && greeting[i] == AUTH_NOAUTH
}

/// A well-formed greeting offers "no authentication" exactly when its
/// method list (the `greeting[1]` bytes after the first two) holds the
/// NOAUTH byte, at whatever position: so `check_auth_greeting` accepts
/// such a greeting exactly then, and exchanging two methods in the list
/// never changes its answer.
pub proof fn law_noauth_anywhere_in_methods(greeting: Seq<u8>, a: int, b: int)
    requires
        greeting.len() >= 2,
        greeting.len() >= 2 + greeting[1],
    ensures
        offers_noauth(greeting) <==> greeting.subrange(2, 2 + greeting[1] as int).contains(
            AUTH_NOAUTH,
        ),
        forall|i: int|
            2 <= i < 2 + greeting[1] && #[trigger] greeting[i] == AUTH_NOAUTH ==> offers_noauth(
                greeting,
            ),
        2 <= a < 2 + greeting[1] && 2 <= b < 2 + greeting[1] ==> offers_noauth(
            greeting.update(a, greeting[b]).update(b, greeting[a]),
        ) == offers_noauth(greeting),
{
    let m = greeting.subrange(2, 2 + greeting[1] as int);
    if offers_noauth(greeting) {
        let i = choose|i: int| 2 <= i < 2 + greeting[1] && greeting[i] == AUTH_NOAUTH;
        assert(m[i - 2] == AUTH_NOAUTH);
    }
    if m.contains(AUTH_NOAUTH) {
        let k = choose|k: int| 0 <= k < m.len() && m[k] == AUTH_NOAUTH;
        assert(greeting[k + 2] == AUTH_NOAUTH);
    }
    if 2 <= a < 2 + greeting[1] && 2 <= b < 2 + greeting[1] {
        let g2 = greeting.update(a, greeting[b]).update(b, greeting[a]);
        assert(g2[1] == greeting[1]);
        if offers_noauth(greeting) {
            let i = choose|i: int| 2 <= i < 2 + greeting[1] && greeting[i] == AUTH_NOAUTH;
            let i2 = if i == a {
                b
            } else if i == b {
                a
            } else {
                i
            };
            assert(g2[i2] == AUTH_NOAUTH);
        }
        if offers_noauth(g2) {
            let i = choose|i: int| 2 <= i < 2 + g2[1] && g2[i] == AUTH_NOAUTH;
            let i2 = if i == a {
                b
            } else if i == b {
                a
            } else {
                i
            };
            assert(greeting[i2] == AUTH_NOAUTH);
        }
    }
}

/// Decide on a greeting VER | NMETHODS | METHODS... (the bytes read).
pub fn check_auth_greeting(greeting: &[u8]) -> (r: AuthOutcome)
    ensures
        greeting@.len() < 2 ==> (r matches AuthOutcome::Refuse(e) && is_bad_request(
            e,
            "auth request too short"@,
        )),
        greeting@.len() >= 2 && greeting@[0] != SOCKS_VERSION ==> (r matches AuthOutcome::Refuse(e)
            && is_bad_request(e, "unsupported SOCKS version: "@ + int_text(greeting@[0] as int))),
        greeting@.len() >= 2 && greeting@[0] == SOCKS_VERSION && greeting@.len() < 2
            + greeting@[1] ==> (r matches AuthOutcome::Refuse(e) && is_bad_request(
            e,
            "auth request truncated"@,
        )),
        greeting@.len() >= 2 && greeting@[0] == SOCKS_VERSION && greeting@.len() >= 2
            + greeting@[1] ==> (if offers_noauth(greeting@) {
            r is Accept
        } else {
            r matches AuthOutcome::NoAcceptableMethod(e) && is_bad_request(
                e,
                "client does not support NOAUTH"@,
            )
        }),
{
    if greeting.len() < 2 {
        return AuthOutcome::Refuse(ProxyError::BadRequest(owned("auth request too short")));
    }
    let version = greeting[0];
    if version != SOCKS_VERSION {
        let v = int_to_text(version as i64);
        return AuthOutcome::Refuse(
            ProxyError::BadRequest(concat_text("unsupported SOCKS version: ", v.as_str())),
        );
    }
    let nmethods = greeting[1] as usize;
    if greeting.len() < 2 + nmethods {
        return AuthOutcome::Refuse(ProxyError::BadRequest(owned("auth request truncated")));
    }
    let mut i: usize = 2;
    while i < 2 + nmethods
        invariant
            greeting@.len() >= 2 + nmethods,
            greeting@.len() >= 2,
            greeting@[0] == SOCKS_VERSION,
            nmethods == greeting@[1],
            2 <= i <= 2 + nmethods,
            forall|j: int| 2 <= j < i ==> greeting@[j] != AUTH_NOAUTH,
        decreases 2 + nmethods - i,
    {
        if greeting[i] == AUTH_NOAUTH {
            return AuthOutcome::Accept;
        }
        i = i + 1;
    }
    AuthOutcome::NoAcceptableMethod(
        ProxyError::BadRequest(owned("client does not support NOAUTH")),
    )
}

/// The address type of a CONNECT request that the proxy serves.
#[derive(Debug, Clone, Copy, PartialEq, Eq, Structural)]
pub enum AddressType {
    Ipv4,
    Domain,
}

/// What the proxy does with a request header VER | CMD | RSV | ATYP.
#[derive(Debug)]
pub enum HeaderOutcome {
    /// Read an address of this type next.
    Address(AddressType),
    /// Refuse without a reply.
    Refuse(ProxyError),
    /// Refuse with this reply code.
    RefuseWithReply(u8, ProxyError),
}

/// Decide on a request header.
pub fn check_request_header(header: [u8; 4]) -> (r: HeaderOutcome)
    ensures
        header@[0] != SOCKS_VERSION ==> (r matches HeaderOutcome::Refuse(e) && is_bad_request(
            e,
            "unsupported SOCKS version: "@ + int_text(header@[0] as int),
        )),
        header@[0] == SOCKS_VERSION && header@[1] != CMD_CONNECT ==> (r matches HeaderOutcome::RefuseWithReply(
            code,
            e,
        ) && code == REP_COMMAND_NOT_SUPPORTED && is_bad_request(
            e,
            "unsupported command: "@ + int_text(header@[1] as int),
        )),
        header@[0] == SOCKS_VERSION && header@[1] == CMD_CONNECT ==> (if header@[3] == ATYP_IPV4 {
            r matches HeaderOutcome::Address(a) && a == AddressType::Ipv4
        } else if header@[3] == ATYP_DOMAIN {
            r matches HeaderOutcome::Address(a) && a == AddressType::Domain
        } else if header@[3] == ATYP_IPV6 {
            r matches HeaderOutcome::RefuseWithReply(code, e) && code
                == REP_ADDRESS_TYPE_NOT_SUPPORTED && is_bad_request(e, "IPv6 not supported yet"@)
        } else {
            r matches HeaderOutcome::RefuseWithReply(code, e) && code
                == REP_ADDRESS_TYPE_NOT_SUPPORTED && is_bad_request(
                e,
                "unsupported address type: "@ + int_text(header@[3] as int),
            )
        }),
{
    let version = header[0];
    let cmd = header[1];
    let atyp = header[3];
    if version != SOCKS_VERSION {
        let v = int_to_text(version as i64);
        return HeaderOutcome::Refuse(
            ProxyError::BadRequest(concat_text("unsupported SOCKS version: ", v.as_str())),
        );
    }
    if cmd != CMD_CONNECT {
        let c = int_to_text(cmd as i64);
        return HeaderOutcome::RefuseWithReply(
            REP_COMMAND_NOT_SUPPORTED,
            ProxyError::BadRequest(concat_text("unsupported command: ", c.as_str())),
        );
    }
    if atyp == ATYP_IPV4 {
        HeaderOutcome::Address(AddressType::Ipv4)
    } else if atyp == ATYP_DOMAIN {
        HeaderOutcome::Address(AddressType::Domain)
    } else if atyp == ATYP_IPV6 {
        HeaderOutcome::RefuseWithReply(
            REP_ADDRESS_TYPE_NOT_SUPPORTED,
            ProxyError::BadRequest(owned("IPv6 not supported yet")),
        )
    } else {
        let a = int_to_text(atyp as i64);
        HeaderOutcome::RefuseWithReply(
            REP_ADDRESS_TYPE_NOT_SUPPORTED,
            ProxyError::BadRequest(concat_text("unsupported address type: ", a.as_str())),
        )
    }
}

/// The dotted text of an IPv4 address.
pub open spec fn ipv4_text(a: Seq<u8>) -> Seq<char> {
    decimal_digits(a[0] as nat) + seq!['.'] + decimal_digits(a[1] as nat) + seq!['.']
        + decimal_digits(a[2] as nat) + seq!['.'] + decimal_digits(a[3] as nat)
}

/// The host of an IPv4 address.
pub fn ipv4_host(addr: [u8; 4]) -> (r: String)
    ensures
        r@ == ipv4_text(addr@),
{
    let mut r = decimal_string(addr[0] as u64);
    let mut i: usize = 1;
    while i < 4
        invariant
            1 <= i <= 4,
            addr@.len() == 4,
            r@ == (if i == 1 {
                decimal_digits(addr@[0] as nat)
            } else if i == 2 {
                decimal_digits(addr@[0] as nat) + seq!['.'] + decimal_digits(addr@[1] as nat)
            } else if i == 3 {
                decimal_digits(addr@[0] as nat) + seq!['.'] + decimal_digits(addr@[1] as nat)
                    + seq!['.'] + decimal_digits(addr@[2] as nat)
            } else {
                ipv4_text(addr@)
            }),
        decreases 4 - i,
    {
        push_char(&mut r, '.');
        let part = decimal_string(addr[i] as u64);
        r.append(part.as_str());
        i = i + 1;
    }
    r
}

/// The host of a domain address: its bytes must be UTF-8.
pub fn domain_host(bytes: Vec<u8>) -> (r: Result<String, ProxyError>)
    ensures
        vstd::utf8::valid_utf8(bytes@) ==> (r matches Ok(s) && vstd::utf8::encode_utf8(s@)
            == bytes@),
        !vstd::utf8::valid_utf8(bytes@) ==> (r matches Err(e) && is_bad_request(
            e,
            "invalid domain name encoding"@,
        )),
{
    match utf8_text(bytes) {
        Some(s) => Ok(s),
        None => Err(ProxyError::BadRequest(owned("invalid domain name encoding"))),
    }
}

/// The port of a big-endian port field.
pub fn port_of(bytes: [u8; 2]) -> (r: u16)
    ensures
        r == bytes@[0] * 256 + bytes@[1],
{
    (bytes[0] as u16) * 256 + (bytes[1] as u16)
}

/// A SOCKS5 reply: VER | REP | RSV | ATYP | BND.ADDR | BND.PORT, with the
/// IPv4 address 0.0.0.0 and port 0 as bind address.
pub fn reply_packet(reply_code: u8) -> (r: [u8; 10])
    ensures
        r@ == seq![SOCKS_VERSION, reply_code, 0u8, ATYP_IPV4, 0u8, 0u8, 0u8, 0u8, 0u8, 0u8],
{
    let r = [SOCKS_VERSION, reply_code, 0u8, ATYP_IPV4, 0u8, 0u8, 0u8, 0u8, 0u8, 0u8];
    assert(r@ =~= seq![SOCKS_VERSION, reply_code, 0u8, ATYP_IPV4, 0u8, 0u8, 0u8, 0u8, 0u8, 0u8]);
    r
}

/// The node a host name names: `None` for a host outside wispers.link,
/// `Some(None)` for a malformed one.
pub open spec fn wispers_node_of(host: Seq<char>) -> Option<Option<i32>> {
    if !ends_with(host, wispers_suffix()) {
        None
    } else {
        match parse_i32_text(host.take(host.len() - wispers_suffix().len())) {
            None => Some(None),
            Some(n) => if n <= 0 {
                Some(None)
            } else {
                Some(Some(n))
            },
        }
    }
}

/// Where a CONNECT request goes.
#[derive(Debug)]
pub enum Route {
    /// To this node of the group.
    Node(i32),
    /// Refused: not a wispers.link host and no egress (reply NOT_ALLOWED).
    NotAllowed,
    /// Refused: a malformed wispers.link host (reply GENERAL_FAILURE).
    Malformed(ProxyError),
}

/// Route a CONNECT request by its host name.
pub fn route_for_host(host: &str) -> (r: Route)
    ensures
        match wispers_node_of(host@) {
            Some(Some(n)) => r matches Route::Node(m) && m == n,
            None => r is NotAllowed,
            Some(None) => r is Malformed,
        },
{
    match parse_wispers_host(host) {
        Ok(h) => Route::Node(h.node_number),
        Err(None) => Route::NotAllowed,
        Err(Some(e)) => Route::Malformed(e),
    }
}


/// How forwarding a CONNECT to a node went.
#[derive(Debug, Clone, Copy, PartialEq, Eq, Structural)]
pub enum ForwardOutcome {
    /// The stream is open and the node accepted the forward.
    Forwarded,
    /// The connection to the node failed.
    ConnectFailed,
    /// Connecting to the node timed out.
    ConnectTimedOut,
    /// The node refused the FORWARD command or the stream failed.
    ForwardRefused,
}

/// The SOCKS5 reply code sent for each outcome of a forward.
pub open spec fn forward_reply(o: ForwardOutcome) -> u8 {
    match o {
        ForwardOutcome::Forwarded => REP_SUCCESS,
        ForwardOutcome::ConnectFailed => REP_HOST_UNREACHABLE,
        ForwardOutcome::ConnectTimedOut => REP_TTL_EXPIRED,
        ForwardOutcome::ForwardRefused => REP_CONNECTION_REFUSED,
    }
}

/// The SOCKS5 reply code of a forward's outcome.
pub fn forward_reply_code(outcome: ForwardOutcome) -> (r: u8)
    ensures
        r == forward_reply(outcome),
{
    match outcome {
        ForwardOutcome::Forwarded => REP_SUCCESS,
        ForwardOutcome::ConnectFailed => REP_HOST_UNREACHABLE,
        ForwardOutcome::ConnectTimedOut => REP_TTL_EXPIRED,
        ForwardOutcome::ForwardRefused => REP_CONNECTION_REFUSED,
    }
}

//-- Stream commands ---------------------------------------------------------

/// A command that a peer sends on a new stream.
#[derive(Debug, Clone, Copy, PartialEq, Eq, Structural)]
pub enum StreamCommand {
    /// `PING`: answer `PONG`.
    Ping,
    /// `FORWARD <port>`: relay the stream to this local port.
    Forward(u16),
    /// `FORWARD` with a port that does not parse.
    InvalidPort,
    /// Anything else.
    Unknown,
}

/// The length of the first line of `data` (up to the first newline).
pub open spec fn line_end(data: Seq<u8>) -> nat
    decreases data.len(),
{
    if data.len() == 0 {
        0
    } else if data[0] == 10 {
        0
    } else {
        1 + line_end(data.drop_first())
    }
}

/// The bytes of `PING`.
pub open spec fn ping_bytes() -> Seq<u8> {
    seq![80u8, 73u8, 78u8, 71u8]
}

/// The bytes of `FORWARD ` (with its space).
pub open spec fn forward_prefix() -> Seq<u8> {
    seq![70u8, 79u8, 82u8, 87u8, 65u8, 82u8, 68u8, 32u8]
}

/// The command on a stream, from its first line. The port of `FORWARD` is
/// read as UTF-8 text, white space trimmed; bytes that are not UTF-8 make it
/// invalid.
pub open spec fn stream_command_of(data: Seq<u8>) -> StreamCommand {
    let line = data.take(line_end(data) as int);
    if line == ping_bytes() {
        StreamCommand::Ping
    } else if line.len() >= 8 && line.take(8) == forward_prefix() {
        let arg = line.skip(8);
        if !vstd::utf8::valid_utf8(arg) {
            StreamCommand::InvalidPort
        } else {
            match crate::text::parse_u16_text(trimmed(vstd::utf8::decode_utf8(arg))) {
                Some(p) => StreamCommand::Forward(p),
                None => StreamCommand::InvalidPort,
            }
        }
    } else {
        StreamCommand::Unknown
    }
}

proof fn lemma_line_end(data: Seq<u8>, k: int)
    requires
        0 <= k <= data.len(),
        forall|j: int| 0 <= j < k ==> data[j] != 10,
    ensures
        k < data.len() && data[k] == 10 ==> line_end(data) == k,
        k == data.len() ==> line_end(data) == k,
    decreases k,
{
    if k > 0 {
        assert forall|j: int| 0 <= j < k - 1 implies data.drop_first()[j] != 10 by {
            assert(data.drop_first()[j] == data[j + 1]);
        }
        lemma_line_end(data.drop_first(), k - 1);
        if k < data.len() {
            assert(data.drop_first()[k - 1] == data[k]);
        }
    }
}

/// Read the command on a stream from the data first read.
pub fn parse_stream_command(data: &[u8]) -> (r: StreamCommand)
    ensures
        r == stream_command_of(data@),
{
    let mut end: usize = 0;
    while end < data.len() && data[end] != 10
        invariant
            end <= data@.len(),
            forall|j: int| 0 <= j < end ==> data@[j] != 10,
        decreases data@.len() - end,
    {
        end = end + 1;
    }
    proof {
        lemma_line_end(data@, end as int);
    }
    let line = crate::proto::copy_bytes(data);
    let mut line = line;
    line.truncate(end);
    assert(line@ =~= data@.take(end as int));
    if line.len() == 4 && line[0] == 80 && line[1] == 73 && line[2] == 78 && line[3] == 71 {
        assert(line@ =~= ping_bytes());
        return StreamCommand::Ping;
    }
    proof {
        if line@ == ping_bytes() {
            assert(line@[0] == 80 && line@[1] == 73 && line@[2] == 78 && line@[3] == 71);
        }
    }
    if line.len() >= 8 && line[0] == 70 && line[1] == 79 && line[2] == 82 && line[3] == 87
        && line[4] == 65 && line[5] == 82 && line[6] == 68 && line[7] == 32 {
        assert(line@.take(8) =~= forward_prefix());
        let mut arg: Vec<u8> = Vec::new();
        let mut i: usize = 8;
        while i < line.len()
            invariant
                8 <= i <= line@.len(),
                arg@ =~= line@.subrange(8, i as int),
            decreases line@.len() - i,
        {
            arg.push(line[i]);
            i = i + 1;
        }
        assert(arg@ =~= line@.skip(8));
        let ghost arg_bytes = arg@;
        match crate::text::utf8_text(arg) {
            Some(text) => {
                proof {
                    vstd::utf8::encode_utf8_decode_utf8(text@);
                }
                let t = trim_text(text.as_str());
                match crate::text::parse_u16(t) {
                    Some(p) => StreamCommand::Forward(p),
                    None => StreamCommand::InvalidPort,
                }
            },
            None => StreamCommand::InvalidPort,
        }
    } else {
        proof {
            if line@.len() >= 8 && line@.take(8) == forward_prefix() {
                assert(line@[0] == line@.take(8)[0]);
                assert(line@[1] == line@.take(8)[1]);
                assert(line@[2] == line@.take(8)[2]);
                assert(line@[3] == line@.take(8)[3]);
                assert(line@[4] == line@.take(8)[4]);
                assert(line@[5] == line@.take(8)[5]);
                assert(line@[6] == line@.take(8)[6]);
                assert(line@[7] == line@.take(8)[7]);
            }
        }
        StreamCommand::Unknown
    }
}

/// The reply of an incoming datagram connection: `pong` to `ping`.
pub fn datagram_reply(data: &[u8]) -> (r: Option<Vec<u8>>)
    ensures
        data@ == seq![112u8, 105u8, 110u8, 103u8] ==> (r matches Some(p) && p@ == seq![
            112u8,
            111u8,
            110u8,
            103u8,
        ]),
        data@ != seq![112u8, 105u8, 110u8, 103u8] ==> r is None,
{
    if data.len() == 4 && data[0] == 112 && data[1] == 105 && data[2] == 110 && data[3] == 103 {
        assert(data@ =~= seq![112u8, 105u8, 110u8, 103u8]);
        let mut p: Vec<u8> = Vec::new();
        p.push(112u8);
        p.push(111u8);
        p.push(110u8);
        p.push(103u8);
        assert(p@ =~= seq![112u8, 111u8, 110u8, 103u8]);
        Some(p)
    } else {
        proof {
            if data@ == seq![112u8, 105u8, 110u8, 103u8] {
                assert(data@[0] == 112);
            }
        }
        None
    }
}
} // verus!
