use wispers_connect::proxy::{
    check_auth_greeting, check_command_reply, check_request_header, domain_host, forward_command,
    forward_reply_code, ipv4_host, parse_stream_command, parse_wispers_host, port_of, reply_packet,
    route_for_host, ForwardOutcome,
    AddressType, AuthOutcome, HeaderOutcome, ProxyError, Route, StreamCommand, ATYP_DOMAIN,
    ATYP_IPV4, ATYP_IPV6, AUTH_NOAUTH, CMD_CONNECT, REP_ADDRESS_TYPE_NOT_SUPPORTED,
    REP_COMMAND_NOT_SUPPORTED, REP_CONNECTION_REFUSED, REP_GENERAL_FAILURE, REP_HOST_UNREACHABLE,
    REP_NETWORK_UNREACHABLE, REP_NOT_ALLOWED, REP_SUCCESS, REP_TTL_EXPIRED, SOCKS_VERSION,
};

#[test]
fn test_parse_wispers_host_valid() {
    let host = parse_wispers_host("3.wispers.link").unwrap();
    assert_eq!(host.node_number, 3);
    let host = parse_wispers_host("42.wispers.link").unwrap();
    assert_eq!(host.node_number, 42);
    let host = parse_wispers_host("999.wispers.link").unwrap();
    assert_eq!(host.node_number, 999);
}

#[test]
fn test_parse_wispers_host_non_wispers() {
    let result = parse_wispers_host("example.com");
    assert!(matches!(result, Err(None)));
    let result = parse_wispers_host("google.com");
    assert!(matches!(result, Err(None)));
    let result = parse_wispers_host("localhost");
    assert!(matches!(result, Err(None)));
}

#[test]
fn test_parse_wispers_host_invalid_node_number() {
    let result = parse_wispers_host("abc.wispers.link");
    assert!(matches!(result, Err(Some(ProxyError::BadRequest(_)))));
    let result = parse_wispers_host("0.wispers.link");
    assert!(matches!(result, Err(Some(ProxyError::BadRequest(_)))));
    let result = parse_wispers_host("-1.wispers.link");
    assert!(matches!(result, Err(Some(ProxyError::BadRequest(_)))));
}

#[test]
fn test_proxy_error_status_codes() {
    assert_eq!(ProxyError::BadRequest("".to_string()).status_code(), 400);
    assert_eq!(ProxyError::Forbidden("".to_string()).status_code(), 403);
    assert_eq!(ProxyError::BadGateway("".to_string()).status_code(), 502);
    assert_eq!(ProxyError::GatewayTimeout("".to_string()).status_code(), 504);
}

#[test]
fn test_socks5_constants() {
    assert_eq!(SOCKS_VERSION, 0x05);
    assert_eq!(AUTH_NOAUTH, 0x00);
    assert_eq!(CMD_CONNECT, 0x01);
    assert_eq!(ATYP_IPV4, 0x01);
    assert_eq!(ATYP_DOMAIN, 0x03);
    assert_eq!(ATYP_IPV6, 0x04);
}

#[test]
fn test_reply_codes() {
    assert_eq!(REP_SUCCESS, 0x00);
    assert_eq!(REP_GENERAL_FAILURE, 0x01);
    assert_eq!(REP_NOT_ALLOWED, 0x02);
    assert_eq!(REP_CONNECTION_REFUSED, 0x05);
    assert_eq!(REP_TTL_EXPIRED, 0x06);
    assert_eq!(REP_COMMAND_NOT_SUPPORTED, 0x07);
    assert_eq!(REP_ADDRESS_TYPE_NOT_SUPPORTED, 0x08);
    assert_eq!(REP_NETWORK_UNREACHABLE, 0x03);
    assert_eq!(REP_HOST_UNREACHABLE, 0x04);
}

#[test]
fn host_error_messages() {
    match parse_wispers_host("abc.wispers.link") {
        Err(Some(e)) => assert_eq!(e.message(), "invalid node number in hostname: abc"),
        _ => panic!("expected a bad request"),
    }
    match parse_wispers_host("-1.wispers.link") {
        Err(Some(e)) => assert_eq!(e.message(), "node number must be positive, got: -1"),
        _ => panic!("expected a bad request"),
    }
    assert!(matches!(parse_wispers_host(".wispers.link"), Err(Some(ProxyError::BadRequest(_)))));
    assert!(matches!(parse_wispers_host("+5.wispers.link"), Ok(h) if h.node_number == 5));
    assert!(matches!(parse_wispers_host("5.wispers.links"), Err(None)));
}

#[test]
fn auth_greetings() {
    assert!(matches!(check_auth_greeting(&[5, 1, 0]), AuthOutcome::Accept));
    assert!(matches!(check_auth_greeting(&[5, 2, 2, 0]), AuthOutcome::Accept));
    match check_auth_greeting(&[5]) {
        AuthOutcome::Refuse(e) => assert_eq!(e.message(), "auth request too short"),
        _ => panic!(),
    }
    match check_auth_greeting(&[4, 1, 0]) {
        AuthOutcome::Refuse(e) => assert_eq!(e.message(), "unsupported SOCKS version: 4"),
        _ => panic!(),
    }
    match check_auth_greeting(&[5, 3, 0]) {
        AuthOutcome::Refuse(e) => assert_eq!(e.message(), "auth request truncated"),
        _ => panic!(),
    }
    match check_auth_greeting(&[5, 1, 2]) {
        AuthOutcome::NoAcceptableMethod(e) => {
            assert_eq!(e.message(), "client does not support NOAUTH")
        }
        _ => panic!(),
    }
}

#[test]
fn request_headers() {
    assert!(matches!(check_request_header([5, 1, 0, 1]), HeaderOutcome::Address(AddressType::Ipv4)));
    assert!(matches!(
        check_request_header([5, 1, 0, 3]),
        HeaderOutcome::Address(AddressType::Domain)
    ));
    match check_request_header([5, 2, 0, 1]) {
        HeaderOutcome::RefuseWithReply(code, e) => {
            assert_eq!(code, REP_COMMAND_NOT_SUPPORTED);
            assert_eq!(e.message(), "unsupported command: 2");
        }
        _ => panic!(),
    }
    match check_request_header([5, 1, 0, 4]) {
        HeaderOutcome::RefuseWithReply(code, e) => {
            assert_eq!(code, REP_ADDRESS_TYPE_NOT_SUPPORTED);
            assert_eq!(e.message(), "IPv6 not supported yet");
        }
        _ => panic!(),
    }
    match check_request_header([5, 1, 0, 9]) {
        HeaderOutcome::RefuseWithReply(code, e) => {
            assert_eq!(code, REP_ADDRESS_TYPE_NOT_SUPPORTED);
            assert_eq!(e.message(), "unsupported address type: 9");
        }
        _ => panic!(),
    }
    match check_request_header([4, 1, 0, 1]) {
        HeaderOutcome::Refuse(e) => assert_eq!(e.message(), "unsupported SOCKS version: 4"),
        _ => panic!(),
    }
}

#[test]
fn addresses_and_replies() {
    assert_eq!(ipv4_host([192, 168, 0, 17]), "192.168.0.17");
    assert_eq!(ipv4_host([0, 0, 0, 0]), "0.0.0.0");
    assert_eq!(domain_host(b"3.wispers.link".to_vec()).unwrap(), "3.wispers.link");
    match domain_host(vec![0xff, 0xfe]) {
        Err(e) => assert_eq!(e.message(), "invalid domain name encoding"),
        Ok(_) => panic!(),
    }
    assert_eq!(port_of([0x1f, 0x90]), 8080);
    assert_eq!(reply_packet(REP_NOT_ALLOWED), [5, 2, 0, 1, 0, 0, 0, 0, 0, 0]);
    assert!(matches!(route_for_host("7.wispers.link"), Route::Node(7)));
    assert!(matches!(route_for_host("example.com"), Route::NotAllowed));
    assert!(matches!(route_for_host("x.wispers.link"), Route::Malformed(_)));
}

#[test]
fn stream_commands_and_replies() {
    assert_eq!(parse_stream_command(b"PING\n"), StreamCommand::Ping);
    assert_eq!(parse_stream_command(b"PING"), StreamCommand::Ping);
    assert_eq!(parse_stream_command(b"FORWARD 8080\nrest"), StreamCommand::Forward(8080));
    assert_eq!(parse_stream_command(b"FORWARD  443 \n"), StreamCommand::Forward(443));
    assert_eq!(parse_stream_command(b"FORWARD 70000\n"), StreamCommand::InvalidPort);
    assert_eq!(parse_stream_command(b"FORWARD \xff\n"), StreamCommand::InvalidPort);
    assert_eq!(parse_stream_command(b"HELLO\n"), StreamCommand::Unknown);
    assert_eq!(parse_stream_command(b"PINGX\n"), StreamCommand::Unknown);
    assert_eq!(forward_command(443), "FORWARD 443\n");
    assert!(check_command_reply("OK\n").is_ok());
    assert!(check_command_reply("  OK  ").is_ok());
    assert_eq!(check_command_reply("ERROR refused\n").unwrap_err(), "remote error: refused");
    assert_eq!(check_command_reply("NOPE").unwrap_err(), "unexpected response: NOPE");
}

#[test]
fn forward_outcomes_reply_codes() {
    assert_eq!(forward_reply_code(ForwardOutcome::Forwarded), 0x00);
    assert_eq!(forward_reply_code(ForwardOutcome::ConnectFailed), 0x04);
    assert_eq!(forward_reply_code(ForwardOutcome::ConnectTimedOut), 0x06);
    assert_eq!(forward_reply_code(ForwardOutcome::ForwardRefused), 0x05);
}
