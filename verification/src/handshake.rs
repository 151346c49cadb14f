//! Opening-handshake validation: checking an HTTP upgrade request and
//! computing the `Sec-WebSocket-Accept` value of the 101 response.

use vstd::prelude::*;
use vstd::slice::slice_to_vec;
use base64::Engine;

verus! {

/// The SHA-1 digest of a byte sequence: 20 bytes, a function of the
/// message alone.  Named rather than spelled out; the accept-key test
/// against the RFC 6455 worked example exercises the real hash.
pub uninterp spec fn sha1_of(bytes: Seq<u8>) -> Seq<u8>;

/// The standard, padded base64 encoding of a byte sequence: a function of
/// the input bytes alone.
pub uninterp spec fn base64_of(bytes: Seq<u8>) -> Seq<char>;

/// Relies on `crypto::sha1::Sha1` through `crypto::digest::Digest`:
/// `input` feeds the whole message, `result` writes the 160-bit (20-byte)
/// digest, which depends on the message alone.
#[verifier::external_body]
fn sha1_digest(message: &Vec<u8>) -> (r: Vec<u8>)
    ensures
        r@ == sha1_of(message@),
        r@.len() == 20,
{
    let mut hasher = crypto::sha1::Sha1::new();
    crypto::digest::Digest::input(&mut hasher, message.as_slice());
    let mut out = vec![0u8; 20];
    crypto::digest::Digest::result(&mut hasher, &mut out);
    out
}

/// Relies on `base64::engine::general_purpose::STANDARD` (the standard
/// alphabet, with padding): `Engine::encode` of a byte slice depends on
/// those bytes alone.
#[verifier::external_body]
fn base64_encode(bytes: &Vec<u8>) -> (r: String)
    ensures
        r@ == base64_of(bytes@),
{
    base64::engine::general_purpose::STANDARD.encode(bytes.as_slice())
}

/// The fixed RFC 6455 GUID `258EAFA5-E914-47DA-95CA-C5AB0DC85B11`, as the
/// ASCII bytes appended to the key before hashing.
pub open spec fn spec_guid() -> Seq<u8> {
    seq![
        50u8,
        53u8,
        56u8,
        69u8,
        65u8,
        70u8,
        65u8,
        53u8,
        45u8,
        69u8,
        57u8,
        49u8,
        52u8,
        45u8,
        52u8,
        55u8,
        68u8,
        65u8,
        45u8,
        57u8,
        53u8,
        67u8,
        65u8,
        45u8,
        67u8,
        53u8,
        65u8,
        66u8,
        48u8,
        68u8,
        67u8,
        56u8,
        53u8,
        66u8,
        49u8,
        49u8,
    ]
}

fn guid_bytes() -> (r: Vec<u8>)
    ensures
        r@ == spec_guid(),
{
    let mut v: Vec<u8> = Vec::new();
    v.push(50);  // '2'
    v.push(53);  // '5'
    v.push(56);  // '8'
    v.push(69);  // 'E'
    v.push(65);  // 'A'
    v.push(70);  // 'F'
    v.push(65);  // 'A'
    v.push(53);  // '5'
    v.push(45);  // '-'
    v.push(69);  // 'E'
    v.push(57);  // '9'
    v.push(49);  // '1'
    v.push(52);  // '4'
    v.push(45);  // '-'
    v.push(52);  // '4'
    v.push(55);  // '7'
    v.push(68);  // 'D'
    v.push(65);  // 'A'
    v.push(45);  // '-'
    v.push(57);  // '9'
    v.push(53);  // '5'
    v.push(67);  // 'C'
    v.push(65);  // 'A'
    v.push(45);  // '-'
    v.push(67);  // 'C'
    v.push(53);  // '5'
    v.push(65);  // 'A'
    v.push(66);  // 'B'
    v.push(48);  // '0'
    v.push(68);  // 'D'
    v.push(67);  // 'C'
    v.push(56);  // '8'
    v.push(53);  // '5'
    v.push(66);  // 'B'
    v.push(49);  // '1'
    v.push(49);  // '1'
    proof {
        assert(v@ =~= spec_guid());
    }
    v
}

/// The `Sec-WebSocket-Accept` value owed for a key header: the base64
/// encoding of the SHA-1 digest of the raw (undecoded) key bytes followed
/// by the RFC 6455 GUID.
pub open spec fn spec_accept_value(key: Seq<u8>) -> Seq<char> {
    base64_of(sha1_of(key + spec_guid()))
}

/// Computes the `Sec-WebSocket-Accept` header value for the raw bytes of
/// a `Sec-WebSocket-Key` header.
pub fn mk_accept_header(key_header: &[u8]) -> (r: String)
    ensures
        r@ == spec_accept_value(key_header@),
{
    let mut buf: Vec<u8> = slice_to_vec(key_header);
    let mut g = guid_bytes();
    buf.append(&mut g);
    let digest = sha1_digest(&buf);
    base64_encode(&digest)
}

/// Why an upgrade request is refused.  Each failure maps to its own HTTP
/// status, given by [`HandshakeError::status_code`].
#[derive(Clone, Copy, Debug, PartialEq, Eq, Structural)]
pub enum HandshakeError {
    /// The method is not GET (status 405).
    MethodNotAllowed,
    /// The `Upgrade` header is missing or not `websocket` (status 400).
    BadUpgradeTarget,
    /// The `Sec-WebSocket-Version` header is missing or not `13` (400).
    UnsupportedVersion,
    /// The `Sec-WebSocket-Key` header is missing (400).
    MissingKey,
    /// The path is not the one configured endpoint `/` (404).
    PathNotFound,
    /// A protocol string is enforced and the `Sec-WebSocket-Protocol`
    /// header is missing or differs from it (400).
    ProtocolMismatch,
}

/// The HTTP status of each handshake failure.
pub open spec fn spec_status_code(e: HandshakeError) -> u16 {
    match e {
        HandshakeError::MethodNotAllowed => 405,
        HandshakeError::BadUpgradeTarget => 400,
        HandshakeError::UnsupportedVersion => 400,
        HandshakeError::MissingKey => 400,
        HandshakeError::PathNotFound => 404,
        HandshakeError::ProtocolMismatch => 400,
    }
}

impl HandshakeError {
    /// The HTTP status of the error response this failure is answered with.
    pub fn status_code(self) -> (r: u16)
        ensures
            r == spec_status_code(self),
    {
        match self {
            HandshakeError::MethodNotAllowed => 405,
            HandshakeError::BadUpgradeTarget => 400,
            HandshakeError::UnsupportedVersion => 400,
            HandshakeError::MissingKey => 400,
            HandshakeError::PathNotFound => 404,
            HandshakeError::ProtocolMismatch => 400,
        }
    }
}

/// The switching-protocols response to a valid upgrade request: status
/// 101 with `Upgrade: websocket`, `Connection: Upgrade`, the computed
/// `Sec-WebSocket-Accept` value, and the agreed protocol when one was
/// enforced.
#[derive(Debug)]
pub struct UpgradeResponse {
    pub accept: String,
    pub protocol: Option<Vec<u8>>,
}

/// `c` with an ASCII upper-case letter folded to lower case.
pub open spec fn spec_lower(c: u8) -> u8 {
    if 65 <= c && c <= 90 {
        (c + 32) as u8
    } else {
        c
    }
}

/// ASCII case-insensitive equality of two byte sequences.
pub open spec fn spec_eq_ignore_case(a: Seq<u8>, b: Seq<u8>) -> bool {
    a.len() == b.len() && (forall|i: int| 0 <= i < a.len() ==> spec_lower(a[i]) == spec_lower(b[i]))
}

fn lower(c: u8) -> (r: u8)
    ensures
        r == spec_lower(c),
{
    if 65 <= c && c <= 90 {
        c + 32
    } else {
        c
    }
}

fn bytes_eq(a: &[u8], b: &[u8]) -> (r: bool)
    ensures
        r == (a@ == b@),
{
    if a.len() != b.len() {
        return false;
    }
    let n = a.len();
    let mut i: usize = 0;
    while i < n
        invariant
            n == a@.len() == b@.len(),
            0 <= i <= n,
            forall|j: int| 0 <= j < i ==> a@[j] == b@[j],
        decreases n - i,
    {
        if a[i] != b[i] {
            return false;
        }
        i = i + 1;
    }
    proof {
        assert(a@ =~= b@);
    }
    true
}

fn eq_ignore_case(a: &[u8], b: &[u8]) -> (r: bool)
    ensures
        r == spec_eq_ignore_case(a@, b@),
{
    if a.len() != b.len() {
        return false;
    }
    let n = a.len();
    let mut i: usize = 0;
    while i < n
        invariant
            n == a@.len() == b@.len(),
            0 <= i <= n,
            forall|j: int| 0 <= j < i ==> spec_lower(a@[j]) == spec_lower(b@[j]),
        decreases n - i,
    {
        if lower(a[i]) != lower(b[i]) {
            return false;
        }
        i = i + 1;
    }
    true
}

/// The bytes of `GET`.
pub open spec fn spec_get_token() -> Seq<u8> {
    seq![71u8, 69u8, 84u8]
}

/// The bytes of `websocket`.
pub open spec fn spec_websocket_token() -> Seq<u8> {
    seq![119u8, 101u8, 98u8, 115u8, 111u8, 99u8, 107u8, 101u8, 116u8]
}

/// The bytes of `13`.
pub open spec fn spec_version_13() -> Seq<u8> {
    seq![49u8, 51u8]
}

/// The bytes of the one configured endpoint, `/`.
pub open spec fn spec_endpoint() -> Seq<u8> {
    seq![47u8]
}

fn get_token() -> (r: Vec<u8>)
    ensures
        r@ == spec_get_token(),
{
    let mut v: Vec<u8> = Vec::new();
    v.push(71);  // 'G'
    v.push(69);  // 'E'
    v.push(84);  // 'T'
    proof {
        assert(v@ =~= spec_get_token());
    }
    v
}

fn websocket_token() -> (r: Vec<u8>)
    ensures
        r@ == spec_websocket_token(),
{
    let mut v: Vec<u8> = Vec::new();
    v.push(119);  // 'w'
    v.push(101);  // 'e'
    v.push(98);  // 'b'
    v.push(115);  // 's'
    v.push(111);  // 'o'
    v.push(99);  // 'c'
    v.push(107);  // 'k'
    v.push(101);  // 'e'
    v.push(116);  // 't'
    proof {
        assert(v@ =~= spec_websocket_token());
    }
    v
}

fn version_13_token() -> (r: Vec<u8>)
    ensures
        r@ == spec_version_13(),
{
    let mut v: Vec<u8> = Vec::new();
    v.push(49);  // '1'
    v.push(51);  // '3'
    proof {
        assert(v@ =~= spec_version_13());
    }
    v
}

fn endpoint_token() -> (r: Vec<u8>)
    ensures
        r@ == spec_endpoint(),
{
    let mut v: Vec<u8> = Vec::new();
    v.push(47);  // '/'
    proof {
        assert(v@ =~= spec_endpoint());
    }
    v
}

/// The byte sequences behind an `Option` of header bytes.
pub open spec fn spec_opt_bytes(o: Option<&[u8]>) -> Option<Seq<u8>> {
    match o {
        None => None,
        Some(s) => Some(s@),
    }
}

/// The handshake decision, checks in this order: the method must be GET;
/// the `Upgrade` header must case-insensitively equal `websocket`; the
/// version header must equal `13`; where a protocol string is enforced
/// the protocol header must equal it; the path must be the endpoint `/`;
/// and the key header must be present.  `Ok` carries the raw key bytes.
pub open spec fn spec_validate(
    method: Seq<u8>,
    path: Seq<u8>,
    upgrade: Option<Seq<u8>>,
    version: Option<Seq<u8>>,
    key: Option<Seq<u8>>,
    protocol: Option<Seq<u8>>,
    expected_protocol: Option<Seq<u8>>,
) -> Result<Seq<u8>, HandshakeError> {
    if method != spec_get_token() {
        Err(HandshakeError::MethodNotAllowed)
    } else if !(upgrade is Some && spec_eq_ignore_case(upgrade->0, spec_websocket_token())) {
        Err(HandshakeError::BadUpgradeTarget)
    } else if !(version is Some && version->0 == spec_version_13()) {
        Err(HandshakeError::UnsupportedVersion)
    } else if expected_protocol is Some && !(protocol is Some && protocol->0
        == expected_protocol->0) {
        Err(HandshakeError::ProtocolMismatch)
    } else if path != spec_endpoint() {
        Err(HandshakeError::PathNotFound)
    } else if key is None {
        Err(HandshakeError::MissingKey)
    } else {
        Ok(key->0)
    }
}

/// Validates an upgrade request given as plain values (the method, the
/// path, and the relevant header values, `None` where a header is
/// absent), and computes the switching-protocols response.  Exactly the
/// requests [`spec_validate`] accepts are answered with `Ok`; the accept
/// value is [`spec_accept_value`] of the raw key bytes, and the agreed
/// protocol echoes the enforced one.
pub fn validate_upgrade(
    method: &[u8],
    path: &[u8],
    upgrade: Option<&[u8]>,
    version: Option<&[u8]>,
    key: Option<&[u8]>,
    protocol: Option<&[u8]>,
    expected_protocol: Option<&[u8]>,
) -> (r: Result<UpgradeResponse, HandshakeError>)
    ensures
        ({
            let d = spec_validate(
                method@,
                path@,
                spec_opt_bytes(upgrade),
                spec_opt_bytes(version),
                spec_opt_bytes(key),
                spec_opt_bytes(protocol),
                spec_opt_bytes(expected_protocol),
            );
            match r {
                Ok(resp) => d is Ok && resp.accept@ == spec_accept_value(d->Ok_0) && (match
                    expected_protocol {
                    None => resp.protocol is None,
                    Some(ep) => resp.protocol matches Some(p) && p@ == ep@,
                }),
                Err(e) => d is Err && e == d->Err_0,
            }
        }),
{
    if !bytes_eq(method, get_token().as_slice()) {
        return Err(HandshakeError::MethodNotAllowed);
    }
    let upgrade_ok = match upgrade {
        None => false,
        Some(u) => eq_ignore_case(u, websocket_token().as_slice()),
    };
    if !upgrade_ok {
        return Err(HandshakeError::BadUpgradeTarget);
    }
    let version_ok = match version {
        None => false,
        Some(v) => bytes_eq(v, version_13_token().as_slice()),
    };
    if !version_ok {
        return Err(HandshakeError::UnsupportedVersion);
    }
    match expected_protocol {
        None => {},
        Some(ep) => {
            let protocol_ok = match protocol {
                None => false,
                Some(p) => bytes_eq(p, ep),
            };
            if !protocol_ok {
                return Err(HandshakeError::ProtocolMismatch);
            }
        },
    }
    if !bytes_eq(path, endpoint_token().as_slice()) {
        return Err(HandshakeError::PathNotFound);
    }
    match key {
        None => Err(HandshakeError::MissingKey),
        Some(k) => {
            let accept = mk_accept_header(k);
            let protocol_echo: Option<Vec<u8>> = match expected_protocol {
                None => None,
                Some(ep) => Some(slice_to_vec(ep)),
            };
            Ok(UpgradeResponse { accept, protocol: protocol_echo })
        },
    }
}

} // verus!
