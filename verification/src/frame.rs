//! RFC 6455 frame codec: parsing and serializing one WebSocket frame,
//! and unmasking of client-to-server payloads.
//!
//! A buffer parses as exactly one frame: a header whose three reserved
//! bits must be clear, a 4-bit opcode, a 7-bit length field with 16-bit
//! and 64-bit big-endian extensions, an optional 32-bit masking key, and
//! the payload.  A buffer that ends early is `Truncated` (so a streaming
//! caller can wait for more bytes); bytes past the declared end are
//! `TrailingData`.

use vstd::prelude::*;
use vstd::slice::slice_subrange;
use vstd::slice::slice_to_vec;

verus! {

/// The opcode of a WebSocket frame (RFC 6455, section 5.2).
#[derive(Clone, Copy, Debug, PartialEq, Eq, Structural)]
pub enum Op {
    Continuation,
    Text,
    Binary,
    Close,
    Ping,
    Pong,
}

/// The 4-bit wire value of an opcode.
pub open spec fn spec_op_value(op: Op) -> u8 {
    match op {
        Op::Continuation => 0x0,
        Op::Text => 0x1,
        Op::Binary => 0x2,
        Op::Close => 0x8,
        Op::Ping => 0x9,
        Op::Pong => 0xa,
    }
}

/// The opcode a 4-bit wire value stands for, if any.
pub open spec fn spec_op_of(v: u8) -> Option<Op> {
    match v {
        0x0 => Some(Op::Continuation),
        0x1 => Some(Op::Text),
        0x2 => Some(Op::Binary),
        0x8 => Some(Op::Close),
        0x9 => Some(Op::Ping),
        0xa => Some(Op::Pong),
        _ => None,
    }
}

impl Op {
    /// The 4-bit wire value of this opcode.
    pub fn to_u8(self) -> (r: u8)
        ensures
            r == spec_op_value(self),
    {
        match self {
            Op::Continuation => 0x0,
            Op::Text => 0x1,
            Op::Binary => 0x2,
            Op::Close => 0x8,
            Op::Ping => 0x9,
            Op::Pong => 0xa,
        }
    }

    /// Decodes a 4-bit opcode value; values outside {0, 1, 2, 8, 9, a}
    /// have no opcode.
    pub fn from_u8(v: u8) -> (r: Option<Op>)
        ensures
            r == spec_op_of(v),
    {
        match v {
            0x0 => Some(Op::Continuation),
            0x1 => Some(Op::Text),
            0x2 => Some(Op::Binary),
            0x8 => Some(Op::Close),
            0x9 => Some(Op::Ping),
            0xa => Some(Op::Pong),
            _ => None,
        }
    }
}

/// Why a byte buffer fails to parse as one frame.
#[derive(Clone, Copy, Debug, PartialEq, Eq, Structural)]
pub enum ParseError {
    /// One of the three reserved header bits is set.
    ReservedBits,
    /// The 4-bit opcode is none of {0, 1, 2, 8, 9, a}.
    UnknownOpcode,
    /// The buffer ends before the frame declared by its header does.
    Truncated,
    /// Bytes remain past the declared end of the frame.
    TrailingData,
}

/// One WebSocket frame.  `raw_payload` holds the payload bytes exactly as
/// they stand on the wire: still masked when `masking_key` is present.
/// [`Frame::payload`] unmasks them.
#[derive(Debug, PartialEq)]
pub struct Frame {
    pub fin: bool,
    pub op: Op,
    pub masking_key: Option<u32>,
    pub raw_payload: Vec<u8>,
}

/// The mathematical model of a frame, with the payload as a byte sequence.
#[verifier::ext_equal]
pub struct FrameView {
    pub fin: bool,
    pub op: Op,
    pub masking_key: Option<u32>,
    pub raw_payload: Seq<u8>,
}

impl View for Frame {
    type V = FrameView;

    open spec fn view(&self) -> FrameView {
        FrameView {
            fin: self.fin,
            op: self.op,
            masking_key: self.masking_key,
            raw_payload: self.raw_payload@,
        }
    }
}

/// The big-endian bytes of a 16-bit value.
pub open spec fn spec_u16_be(x: u16) -> Seq<u8> {
    seq![(x >> 8) as u8, (x & 0xff) as u8]
}

/// The 16-bit value of two big-endian bytes.
pub open spec fn spec_u16_from_be(hi: u8, lo: u8) -> u16 {
    ((hi as u16) << 8) | (lo as u16)
}

/// The big-endian bytes of a 32-bit value.
pub open spec fn spec_u32_be(x: u32) -> Seq<u8> {
    seq![
        ((x >> 24) & 0xff) as u8,
        ((x >> 16) & 0xff) as u8,
        ((x >> 8) & 0xff) as u8,
        (x & 0xff) as u8,
    ]
}

/// The 32-bit value of four big-endian bytes.
pub open spec fn spec_u32_from_be(b0: u8, b1: u8, b2: u8, b3: u8) -> u32 {
    ((b0 as u32) << 24) | ((b1 as u32) << 16) | ((b2 as u32) << 8) | (b3 as u32)
}

/// The big-endian bytes of a 64-bit value.
pub open spec fn spec_u64_be(x: u64) -> Seq<u8> {
    seq![
        ((x >> 56) & 0xff) as u8,
        ((x >> 48) & 0xff) as u8,
        ((x >> 40) & 0xff) as u8,
        ((x >> 32) & 0xff) as u8,
        ((x >> 24) & 0xff) as u8,
        ((x >> 16) & 0xff) as u8,
        ((x >> 8) & 0xff) as u8,
        (x & 0xff) as u8,
    ]
}

/// The 64-bit value of eight big-endian bytes.
pub open spec fn spec_u64_from_be(
    b0: u8,
    b1: u8,
    b2: u8,
    b3: u8,
    b4: u8,
    b5: u8,
    b6: u8,
    b7: u8,
) -> u64 {
    ((b0 as u64) << 56) | ((b1 as u64) << 48) | ((b2 as u64) << 40) | ((b3 as u64) << 32) | ((
    b4 as u64) << 24) | ((b5 as u64) << 16) | ((b6 as u64) << 8) | (b7 as u64)
}

/// The first header byte: the fin bit, three clear reserved bits, and the
/// 4-bit opcode.
pub open spec fn spec_byte0(f: FrameView) -> u8 {
    if f.fin {
        0x80u8 | spec_op_value(f.op)
    } else {
        spec_op_value(f.op)
    }
}

/// The mask bit of the second header byte.
pub open spec fn spec_mask_bit(f: FrameView) -> u8 {
    if f.masking_key is Some {
        0x80u8
    } else {
        0x00u8
    }
}

/// The second header byte and the extended-length bytes: a payload length
/// under 126 stands in the 7-bit field itself; up to 16 bits it follows as
/// a big-endian `u16` behind the field value 126; otherwise as a
/// big-endian `u64` behind the field value 127.
pub open spec fn spec_len_bytes(mask_bit: u8, len: nat) -> Seq<u8> {
    if len < 126 {
        seq![mask_bit | (len as u8)]
    } else if len <= 0xFFFF {
        seq![mask_bit | 126u8] + spec_u16_be(len as u16)
    } else {
        seq![mask_bit | 127u8] + spec_u64_be(len as u64)
    }
}

/// The bytes of the masking key, if one is present.
pub open spec fn spec_key_seq(k: Option<u32>) -> Seq<u8> {
    match k {
        None => Seq::<u8>::empty(),
        Some(key) => spec_u32_be(key),
    }
}

/// The serialized form of a frame: header, length field, masking key if
/// present, then the raw payload verbatim.
pub open spec fn spec_serialize(f: FrameView) -> Seq<u8> {
    seq![spec_byte0(f)] + spec_len_bytes(spec_mask_bit(f), f.raw_payload.len())
        + spec_key_seq(f.masking_key) + f.raw_payload
}

/// What parsing a buffer as exactly one frame gives.  Checks run in this
/// order: two header bytes present, reserved bits clear, opcode known,
/// extended length present, masking key present, payload complete and
/// nothing behind it.
pub open spec fn spec_parse(b: Seq<u8>) -> Result<FrameView, ParseError> {
    if b.len() < 2 {
        Err(ParseError::Truncated)
    } else if b[0] & 0x70 != 0 {
        Err(ParseError::ReservedBits)
    } else if spec_op_of(b[0] & 0x0f) is None {
        Err(ParseError::UnknownOpcode)
    } else {
        let fin = (b[0] & 0x80) == 0x80;
        let op = spec_op_of(b[0] & 0x0f)->0;
        let masked = (b[1] & 0x80) == 0x80;
        let len7 = b[1] & 0x7f;
        if len7 == 126 && b.len() < 4 {
            Err(ParseError::Truncated)
        } else if len7 == 127 && b.len() < 10 {
            Err(ParseError::Truncated)
        } else {
            let off0: int = if len7 == 126 {
                4
            } else if len7 == 127 {
                10
            } else {
                2
            };
            let plen: nat = if len7 == 126 {
                spec_u16_from_be(b[2], b[3]) as nat
            } else if len7 == 127 {
                spec_u64_from_be(b[2], b[3], b[4], b[5], b[6], b[7], b[8], b[9]) as nat
            } else {
                len7 as nat
            };
            if masked && b.len() < off0 + 4 {
                Err(ParseError::Truncated)
            } else {
                let off1: int = if masked {
                    off0 + 4
                } else {
                    off0
                };
                let key: Option<u32> = if masked {
                    Some(spec_u32_from_be(b[off0], b[off0 + 1], b[off0 + 2], b[off0 + 3]))
                } else {
                    None
                };
                if b.len() - off1 < plen {
                    Err(ParseError::Truncated)
                } else if b.len() - off1 > plen {
                    Err(ParseError::TrailingData)
                } else {
                    Ok(
                        FrameView {
                            fin,
                            op,
                            masking_key: key,
                            raw_payload: b.subrange(off1, b.len() as int),
                        },
                    )
                }
            }
        }
    }
}

proof fn lemma_byte0_fields(v: u8)
    requires
        v == 0 || v == 1 || v == 2 || v == 8 || v == 9 || v == 10,
    ensures
        ((0x80u8 | v) & 0x70) == 0,
        ((0x80u8 | v) & 0x80) == 0x80,
        ((0x80u8 | v) & 0x0f) == v,
        (v & 0x70) == 0,
        (v & 0x80) == 0,
        (v & 0x0f) == v,
{
    assert(v < 16 ==> ((0x80u8 | v) & 0x70) == 0 && ((0x80u8 | v) & 0x80) == 0x80 && ((0x80u8 | v)
        & 0x0f) == v && (v & 0x70) == 0 && (v & 0x80) == 0 && (v & 0x0f) == v) by (bit_vector);
}

proof fn lemma_byte1_fields(m: u8, l: u8)
    requires
        m == 0 || m == 0x80,
        l <= 127,
    ensures
        ((m | l) & 0x80) == m,
        ((m | l) & 0x7f) == l,
{
    assert((m == 0 || m == 0x80) && l <= 127 ==> ((m | l) & 0x80) == m && ((m | l) & 0x7f) == l)
        by (bit_vector);
}

proof fn lemma_u16_be_roundtrip(x: u16)
    ensures
        spec_u16_from_be(((x >> 8) as u8), ((x & 0xff) as u8)) == x,
{
    assert(((((x >> 8) as u8) as u16) << 8) | (((x & 0xff) as u8) as u16) == x) by (bit_vector);
}

proof fn lemma_u32_be_roundtrip(x: u32)
    ensures
        spec_u32_from_be(
            (((x >> 24) & 0xff) as u8),
            (((x >> 16) & 0xff) as u8),
            (((x >> 8) & 0xff) as u8),
            ((x & 0xff) as u8),
        ) == x,
{
    assert(((((x >> 24) & 0xff) as u8 as u32) << 24) | ((((x >> 16) & 0xff) as u8 as u32) << 16) | (
    (((x >> 8) & 0xff) as u8 as u32) << 8) | ((x & 0xff) as u8 as u32) == x) by (bit_vector);
}

proof fn lemma_u64_be_roundtrip(x: u64)
    ensures
        spec_u64_from_be(
            (((x >> 56) & 0xff) as u8),
            (((x >> 48) & 0xff) as u8),
            (((x >> 40) & 0xff) as u8),
            (((x >> 32) & 0xff) as u8),
            (((x >> 24) & 0xff) as u8),
            (((x >> 16) & 0xff) as u8),
            (((x >> 8) & 0xff) as u8),
            ((x & 0xff) as u8),
        ) == x,
{
    assert(((((x >> 56) & 0xff) as u8 as u64) << 56) | ((((x >> 48) & 0xff) as u8 as u64) << 48) | (
    (((x >> 40) & 0xff) as u8 as u64) << 40) | ((((x >> 32) & 0xff) as u8 as u64) << 32) | ((((x
        >> 24) & 0xff) as u8 as u64) << 24) | ((((x >> 16) & 0xff) as u8 as u64) << 16) | ((((x
        >> 8) & 0xff) as u8 as u64) << 8) | ((x & 0xff) as u8 as u64) == x) by (bit_vector);
}

/// The codec round-trips: parsing the serialized form of any frame gives
/// that frame back, whether or not it is masked, at every payload length
/// a serialized frame can carry.
pub proof fn lemma_parse_serialize(f: FrameView)
    requires
        f.raw_payload.len() <= u64::MAX,
    ensures
        spec_parse(spec_serialize(f)) == Ok::<FrameView, ParseError>(f),
{
    let b = spec_serialize(f);
    let v = spec_op_value(f.op);
    let b0 = spec_byte0(f);
    let mb = spec_mask_bit(f);
    let len = f.raw_payload.len();
    let lenb = spec_len_bytes(mb, len);
    let keyb = spec_key_seq(f.masking_key);
    lemma_byte0_fields(v);
    let len7v: u8 = if len < 126 {
        len as u8
    } else if len <= 0xFFFF {
        126
    } else {
        127
    };
    lemma_byte1_fields(mb, len7v);
    assert(lenb[0] == mb | len7v);
    assert(b[0] == b0);
    assert(b[1] == lenb[0]);
    assert(spec_op_of(b[0] & 0x0f) == Some(f.op));
    assert((b[0] & 0x80 == 0x80) == f.fin);
    let masked = f.masking_key is Some;
    assert((b[1] & 0x80 == 0x80) == masked);
    assert(b[1] & 0x7f == len7v);
    assert(b.len() == 1 + lenb.len() + keyb.len() + len);
    let off0: int = if len7v == 126 {
        4
    } else if len7v == 127 {
        10
    } else {
        2
    };
    assert(lenb.len() + 1 == off0);
    if len7v == 126 {
        let l16 = len as u16;
        lemma_u16_be_roundtrip(l16);
        assert(b[2] == lenb[1] && b[3] == lenb[2]);
        assert(spec_u16_from_be(b[2], b[3]) == len);
    } else if len7v == 127 {
        let l64 = len as u64;
        lemma_u64_be_roundtrip(l64);
        assert(b[2] == lenb[1] && b[3] == lenb[2] && b[4] == lenb[3] && b[5] == lenb[4] && b[6]
            == lenb[5] && b[7] == lenb[6] && b[8] == lenb[7] && b[9] == lenb[8]);
        assert(spec_u64_from_be(b[2], b[3], b[4], b[5], b[6], b[7], b[8], b[9]) == len);
    }
    let plen: nat = if len7v == 126 {
        spec_u16_from_be(b[2], b[3]) as nat
    } else if len7v == 127 {
        spec_u64_from_be(b[2], b[3], b[4], b[5], b[6], b[7], b[8], b[9]) as nat
    } else {
        len7v as nat
    };
    assert(plen == len);
    let off1: int = if masked {
        off0 + 4
    } else {
        off0
    };
    if masked {
        let key = f.masking_key->0;
        lemma_u32_be_roundtrip(key);
        assert(keyb.len() == 4);
        assert(b[off0] == keyb[0] && b[off0 + 1] == keyb[1] && b[off0 + 2] == keyb[2] && b[off0
            + 3] == keyb[3]);
        assert(spec_u32_from_be(b[off0], b[off0 + 1], b[off0 + 2], b[off0 + 3]) == key);
    } else {
        assert(keyb.len() == 0);
    }
    assert(b.len() - off1 == len);
    assert forall|j: int| 0 <= j < len implies b[off1 + j] == f.raw_payload[j] by {}
    assert(b.subrange(off1, b.len() as int) =~= f.raw_payload);
    assert(spec_parse(b) =~= Ok::<FrameView, ParseError>(f));
}

/// A buffer whose header sets any of the three reserved bits fails to
/// parse, with `ReservedBits`, never silently: the check stands before
/// everything but the presence of the two header bytes.
pub proof fn lemma_reserved_bits_fail(b: Seq<u8>)
    requires
        b.len() >= 2,
        b[0] & 0x70 != 0,
    ensures
        spec_parse(b) == Err::<FrameView, ParseError>(ParseError::ReservedBits),
{
}

/// A 4-bit value is an opcode exactly when it is one of
/// {0, 1, 2, 8, 9, a}; a buffer whose header carries any other value
/// fails to parse, with `UnknownOpcode`.
pub proof fn lemma_unknown_opcode_fails(b: Seq<u8>)
    requires
        b.len() >= 2,
        b[0] & 0x70 == 0,
    ensures
        (spec_op_of(b[0] & 0x0f) is None) <==> !(b[0] & 0x0f == 0 || b[0] & 0x0f == 1 || b[0]
            & 0x0f == 2 || b[0] & 0x0f == 8 || b[0] & 0x0f == 9 || b[0] & 0x0f == 0xa),
        (spec_op_of(b[0] & 0x0f) is None) ==> spec_parse(b) == Err::<FrameView, ParseError>(
            ParseError::UnknownOpcode,
        ),
{
}

/// Byte `i` of the masking key, keys being applied in big-endian order,
/// repeating every four bytes.
pub open spec fn spec_key_byte(key: u32, i: int) -> u8 {
    spec_u32_be(key)[i % 4]
}

/// The unmasked form of a masked payload: byte `i` of the output is byte
/// `i` of the input XOR byte `i mod 4` of the big-endian masking key.
pub open spec fn spec_unmask(raw: Seq<u8>, key: u32) -> Seq<u8> {
    Seq::new(raw.len(), |i: int| raw[i] ^ spec_key_byte(key, i))
}

/// The logical payload of a frame: the raw bytes, unmasked when a masking
/// key is present.
pub open spec fn spec_payload(f: FrameView) -> Seq<u8> {
    match f.masking_key {
        None => f.raw_payload,
        Some(key) => spec_unmask(f.raw_payload, key),
    }
}

impl Frame {
    /// Parses a buffer holding exactly one frame.
    pub fn parse(input: &[u8]) -> (r: Result<Frame, ParseError>)
        ensures
            match r {
                Ok(f) => spec_parse(input@) == Ok::<FrameView, ParseError>(f@),
                Err(e) => spec_parse(input@) == Err::<FrameView, ParseError>(e),
            },
    {
        let n = input.len();
        if n < 2 {
            return Err(ParseError::Truncated);
        }
        let b0 = input[0];
        let b1 = input[1];
        if b0 & 0x70 != 0 {
            return Err(ParseError::ReservedBits);
        }
        let op = match Op::from_u8(b0 & 0x0f) {
            None => {
                return Err(ParseError::UnknownOpcode);
            },
            Some(op) => op,
        };
        let fin = (b0 & 0x80) == 0x80;
        let masked = (b1 & 0x80) == 0x80;
        let len7 = b1 & 0x7f;
        let off0: usize;
        let plen: u64;
        if len7 == 126 {
            if n < 4 {
                return Err(ParseError::Truncated);
            }
            off0 = 4;
            plen = (((input[2] as u16) << 8) | (input[3] as u16)) as u64;
        } else if len7 == 127 {
            if n < 10 {
                return Err(ParseError::Truncated);
            }
            off0 = 10;
            plen = ((input[2] as u64) << 56) | ((input[3] as u64) << 48) | ((input[4] as u64)
                << 40) | ((input[5] as u64) << 32) | ((input[6] as u64) << 24) | ((input[7] as u64)
                << 16) | ((input[8] as u64) << 8) | (input[9] as u64);
        } else {
            off0 = 2;
            plen = len7 as u64;
        }
        let off1: usize;
        let key: Option<u32>;
        if masked {
            if n - off0 < 4 {
                return Err(ParseError::Truncated);
            }
            off1 = off0 + 4;
            key = Some(
                ((input[off0] as u32) << 24) | ((input[off0 + 1] as u32) << 16) | ((input[off0
                    + 2] as u32) << 8) | (input[off0 + 3] as u32),
            );
        } else {
            off1 = off0;
            key = None;
        }
        let rem = n - off1;
        if (rem as u64) < plen {
            return Err(ParseError::Truncated);
        }
        if (rem as u64) > plen {
            return Err(ParseError::TrailingData);
        }
        let raw_payload = slice_to_vec(slice_subrange(input, off1, n));
        Ok(Frame { fin, op, masking_key: key, raw_payload })
    }

    /// Serializes this frame: the exact inverse of [`Frame::parse`] on the
    /// canonical length encoding.
    pub fn serialize(&self) -> (r: Vec<u8>)
        ensures
            r@ == spec_serialize(self@),
    {
        let mut out: Vec<u8> = Vec::new();
        let opv = self.op.to_u8();
        let b0: u8 = if self.fin {
            0x80u8 | opv
        } else {
            opv
        };
        out.push(b0);
        let mask_bit: u8 = if self.masking_key.is_some() {
            0x80
        } else {
            0x00
        };
        let len = self.raw_payload.len();
        if len < 126 {
            out.push(mask_bit | (len as u8));
        } else if len <= 0xFFFF {
            let l16 = len as u16;
            out.push(mask_bit | 126u8);
            out.push((l16 >> 8) as u8);
            out.push((l16 & 0xff) as u8);
        } else {
            let l64 = len as u64;
            out.push(mask_bit | 127u8);
            out.push(((l64 >> 56) & 0xff) as u8);
            out.push(((l64 >> 48) & 0xff) as u8);
            out.push(((l64 >> 40) & 0xff) as u8);
            out.push(((l64 >> 32) & 0xff) as u8);
            out.push(((l64 >> 24) & 0xff) as u8);
            out.push(((l64 >> 16) & 0xff) as u8);
            out.push(((l64 >> 8) & 0xff) as u8);
            out.push((l64 & 0xff) as u8);
        }
        match self.masking_key {
            Some(k) => {
                out.push(((k >> 24) & 0xff) as u8);
                out.push(((k >> 16) & 0xff) as u8);
                out.push(((k >> 8) & 0xff) as u8);
                out.push((k & 0xff) as u8);
            },
            None => {},
        }
        let ghost prefix: Seq<u8> = out@;
        let mut i: usize = 0;
        while i < self.raw_payload.len()
            invariant
                0 <= i <= self.raw_payload.len(),
                out@ == prefix + self.raw_payload@.take(i as int),
            decreases self.raw_payload.len() - i,
        {
            out.push(self.raw_payload[i]);
            assert(self.raw_payload@.take(i + 1) == self.raw_payload@.take(i as int).push(
                self.raw_payload@[i as int],
            ));
            i = i + 1;
        }
        proof {
            assert(self.raw_payload@.take(self.raw_payload@.len() as int) == self.raw_payload@);
            assert(out@ =~= spec_serialize(self@));
        }
        out
    }

    /// The logical payload: a copy of the raw payload, unmasked when this
    /// frame carries a masking key.
    pub fn payload(&self) -> (r: Vec<u8>)
        ensures
            r@ == spec_payload(self@),
    {
        match self.masking_key {
            None => {
                let mut v: Vec<u8> = Vec::new();
                let mut i: usize = 0;
                while i < self.raw_payload.len()
                    invariant
                        0 <= i <= self.raw_payload.len(),
                        v@ == self.raw_payload@.take(i as int),
                    decreases self.raw_payload.len() - i,
                {
                    v.push(self.raw_payload[i]);
                    assert(self.raw_payload@.take(i + 1) == self.raw_payload@.take(i as int).push(
                        self.raw_payload@[i as int],
                    ));
                    i = i + 1;
                }
                assert(v@ =~= self.raw_payload@);
                v
            },
            Some(key) => {
                let kb0: u8 = ((key >> 24) & 0xff) as u8;
                let kb1: u8 = ((key >> 16) & 0xff) as u8;
                let kb2: u8 = ((key >> 8) & 0xff) as u8;
                let kb3: u8 = (key & 0xff) as u8;
                let mut v: Vec<u8> = Vec::new();
                let mut i: usize = 0;
                while i < self.raw_payload.len()
                    invariant
                        0 <= i <= self.raw_payload.len(),
                        v@.len() == i,
                        kb0 == spec_u32_be(key)[0],
                        kb1 == spec_u32_be(key)[1],
                        kb2 == spec_u32_be(key)[2],
                        kb3 == spec_u32_be(key)[3],
                        forall|j: int|
                            0 <= j < i ==> v@[j] == self.raw_payload@[j] ^ spec_key_byte(key, j),
                    decreases self.raw_payload.len() - i,
                {
                    let kb: u8 = match i % 4 {
                        0 => kb0,
                        1 => kb1,
                        2 => kb2,
                        _ => kb3,
                    };
                    assert(kb == spec_key_byte(key, i as int));
                    v.push(self.raw_payload[i] ^ kb);
                    i = i + 1;
                }
                assert(v@ =~= spec_unmask(self.raw_payload@, key));
                v
            },
        }
    }
}

} // verus!
