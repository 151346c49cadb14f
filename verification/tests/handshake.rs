use concert::handshake::HandshakeError;
use concert::handshake::mk_accept_header;
use concert::handshake::validate_upgrade;

#[test]
fn test_accept_header() {
    // Worked example of RFC 6455
    assert_eq!(mk_accept_header(b"x3JJHMbDL1EzLkh9GBhXDw=="), "HSmrc0sMlYUkAGmm5OPpG2HaGWk=")
}

#[test]
fn test_accept_header_differs_per_key() {
    let a = mk_accept_header(b"x3JJHMbDL1EzLkh9GBhXDw==");
    let b = mk_accept_header(b"dGhlIHNhbXBsZSBub25jZQ==");
    assert_eq!(b, "s3pPLMBiTxaQ9kYGzzhZRbK+xOo=");
    assert_ne!(a, b);
}

#[test]
fn test_validate_success_without_protocol() {
    let resp = validate_upgrade(
        b"GET",
        b"/",
        Some(b"websocket"),
        Some(b"13"),
        Some(b"x3JJHMbDL1EzLkh9GBhXDw=="),
        None,
        None,
    )
    .expect("handshake should succeed");
    assert_eq!(resp.accept, "HSmrc0sMlYUkAGmm5OPpG2HaGWk=");
    assert_eq!(resp.protocol, None);
}

#[test]
fn test_validate_upgrade_header_case_insensitive() {
    let resp = validate_upgrade(
        b"GET",
        b"/",
        Some(b"WebSocket"),
        Some(b"13"),
        Some(b"x3JJHMbDL1EzLkh9GBhXDw=="),
        None,
        None,
    )
    .expect("handshake should succeed");
    assert_eq!(resp.accept, "HSmrc0sMlYUkAGmm5OPpG2HaGWk=");
}

#[test]
fn test_validate_success_with_protocol() {
    let resp = validate_upgrade(
        b"GET",
        b"/",
        Some(b"websocket"),
        Some(b"13"),
        Some(b"x3JJHMbDL1EzLkh9GBhXDw=="),
        Some(b"clapi-0-1"),
        Some(b"clapi-0-1"),
    )
    .expect("handshake should succeed");
    assert_eq!(resp.protocol.as_deref(), Some(b"clapi-0-1".as_slice()));
}

#[test]
fn test_validate_method_not_allowed() {
    let e = validate_upgrade(
        b"POST",
        b"/",
        Some(b"websocket"),
        Some(b"13"),
        Some(b"x3JJHMbDL1EzLkh9GBhXDw=="),
        None,
        None,
    )
    .unwrap_err();
    assert_eq!(e, HandshakeError::MethodNotAllowed);
    assert_eq!(e.status_code(), 405);
}

#[test]
fn test_validate_bad_upgrade_target() {
    let e = validate_upgrade(
        b"GET",
        b"/",
        Some(b"h2c"),
        Some(b"13"),
        Some(b"x3JJHMbDL1EzLkh9GBhXDw=="),
        None,
        None,
    )
    .unwrap_err();
    assert_eq!(e, HandshakeError::BadUpgradeTarget);
    assert_eq!(e.status_code(), 400);

    let missing = validate_upgrade(
        b"GET",
        b"/",
        None,
        Some(b"13"),
        Some(b"x3JJHMbDL1EzLkh9GBhXDw=="),
        None,
        None,
    )
    .unwrap_err();
    assert_eq!(missing, HandshakeError::BadUpgradeTarget);
}

#[test]
fn test_validate_unsupported_version() {
    let e = validate_upgrade(
        b"GET",
        b"/",
        Some(b"websocket"),
        Some(b"8"),
        Some(b"x3JJHMbDL1EzLkh9GBhXDw=="),
        None,
        None,
    )
    .unwrap_err();
    assert_eq!(e, HandshakeError::UnsupportedVersion);
    assert_eq!(e.status_code(), 400);

    let missing = validate_upgrade(
        b"GET",
        b"/",
        Some(b"websocket"),
        None,
        Some(b"x3JJHMbDL1EzLkh9GBhXDw=="),
        None,
        None,
    )
    .unwrap_err();
    assert_eq!(missing, HandshakeError::UnsupportedVersion);
}

#[test]
fn test_validate_protocol_mismatch() {
    let e = validate_upgrade(
        b"GET",
        b"/",
        Some(b"websocket"),
        Some(b"13"),
        Some(b"x3JJHMbDL1EzLkh9GBhXDw=="),
        Some(b"clapi-0-2"),
        Some(b"clapi-0-1"),
    )
    .unwrap_err();
    assert_eq!(e, HandshakeError::ProtocolMismatch);
    assert_eq!(e.status_code(), 400);

    let missing = validate_upgrade(
        b"GET",
        b"/",
        Some(b"websocket"),
        Some(b"13"),
        Some(b"x3JJHMbDL1EzLkh9GBhXDw=="),
        None,
        Some(b"clapi-0-1"),
    )
    .unwrap_err();
    assert_eq!(missing, HandshakeError::ProtocolMismatch);
}

#[test]
fn test_validate_path_not_found() {
    let e = validate_upgrade(
        b"GET",
        b"/elsewhere",
        Some(b"websocket"),
        Some(b"13"),
        Some(b"x3JJHMbDL1EzLkh9GBhXDw=="),
        None,
        None,
    )
    .unwrap_err();
    assert_eq!(e, HandshakeError::PathNotFound);
    assert_eq!(e.status_code(), 404);
}

#[test]
fn test_validate_missing_key() {
    let e = validate_upgrade(b"GET", b"/", Some(b"websocket"), Some(b"13"), None, None, None)
        .unwrap_err();
    assert_eq!(e, HandshakeError::MissingKey);
    assert_eq!(e.status_code(), 400);
}
