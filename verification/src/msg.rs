use vstd::prelude::*;

use crate::error::UdpError;

verus! {

/// What a `UdpMsg` denotes: the same shape over mathematical sequences, used
/// by every contract about serialization.
pub enum MsgView {
    Ping { seq: u32 },
    Pong { seq: u32 },
    Data { bytes: Seq<u8> },
}

/// An application message carried by the transport: a couple of fixed-size
/// control messages and an opaque payload. The transport only ever turns a
/// message into bytes and back; what a payload means belongs to the protocol
/// built on top.
#[derive(Debug, Clone)]
pub enum UdpMsg {
    Ping { seq: u32 },
    Pong { seq: u32 },
    Data { bytes: Vec<u8> },
}

impl View for UdpMsg {
    type V = MsgView;

    open spec fn view(&self) -> MsgView {
        match self {
            UdpMsg::Ping { seq } => MsgView::Ping { seq: *seq },
            UdpMsg::Pong { seq } => MsgView::Pong { seq: *seq },
            UdpMsg::Data { bytes } => MsgView::Data { bytes: bytes@ },
        }
    }
}

impl PartialEq for UdpMsg {
    fn eq(&self, other: &UdpMsg) -> (r: bool) {
        match (self, other) {
            (UdpMsg::Ping { seq: a }, UdpMsg::Ping { seq: b }) => *a == *b,
            (UdpMsg::Pong { seq: a }, UdpMsg::Pong { seq: b }) => *a == *b,
            (UdpMsg::Data { bytes: a }, UdpMsg::Data { bytes: b }) => bytes_eq(a, b),
            _ => false,
        }
    }
}

impl Eq for UdpMsg {}

impl vstd::std_specs::cmp::PartialEqSpecImpl for UdpMsg {
    open spec fn obeys_eq_spec() -> bool {
        true
    }

    open spec fn eq_spec(&self, other: &UdpMsg) -> bool {
        self@ == other@
    }
}

fn bytes_eq(a: &Vec<u8>, b: &Vec<u8>) -> (r: bool)
    ensures
        r == (a@ == b@),
{
    if a.len() != b.len() {
        return false;
    }
    let mut i: usize = 0;
    while i < a.len()
        invariant
            i <= a@.len(),
            a@.len() == b@.len(),
            forall|j: int| 0 <= j < i ==> a@[j] == b@[j],
        decreases a@.len() - i,
    {
        if a[i] != b[i] {
            return false;
        }
        i = i + 1;
    }
    proof {
        assert(a@ =~= b@);
    }
    true
}

/// The four bytes of `x`, least significant first.
pub open spec fn le32_bytes(x: u32) -> Seq<u8> {
    seq![
        (x % 0x100) as u8,
        ((x / 0x100) % 0x100) as u8,
        ((x / 0x1_0000) % 0x100) as u8,
        ((x / 0x100_0000) % 0x100) as u8,
    ]
}

/// The value of four little-endian bytes.
pub open spec fn le32_val(s: Seq<u8>) -> int
    recommends
        s.len() == 4,
{
    s[0] + s[1] * 0x100 + s[2] * 0x1_0000 + s[3] * 0x100_0000
}

pub proof fn lemma_le32_round(x: u32)
    ensures
        le32_val(le32_bytes(x)) == x,
{
    assert(x % 0x100 + ((x / 0x100) % 0x100) * 0x100 + ((x / 0x1_0000) % 0x100) * 0x1_0000 + ((x
        / 0x100_0000) % 0x100) * 0x100_0000 == x) by (bit_vector);
}

/// The wire encoding of a message, before compression: a little-endian
/// variant tag, then the variant's fields, a payload prefixed by its length.
pub open spec fn encoded(v: MsgView) -> Seq<u8> {
    match v {
        MsgView::Ping { seq } => le32_bytes(0) + le32_bytes(seq),
        MsgView::Pong { seq } => le32_bytes(1) + le32_bytes(seq),
        MsgView::Data { bytes } => le32_bytes(2) + le32_bytes(bytes.len() as u32) + bytes,
    }
}

/// Whether a message can be encoded at all: a payload's length must fit the
/// length prefix.
pub open spec fn encodable(v: MsgView) -> bool {
    match v {
        MsgView::Data { bytes } => bytes.len() <= 0xFFFF_FFFF,
        _ => true,
    }
}

/// The inverse reading of `encoded`: the message a byte sequence encodes, or
/// `None` where it encodes nothing.
pub open spec fn decoded(s: Seq<u8>) -> Option<MsgView> {
    if s.len() < 8 {
        None
    } else {
        let tag = le32_val(s.subrange(0, 4));
        let x = le32_val(s.subrange(4, 8));
        if tag == 0 && s.len() == 8 {
            Some(MsgView::Ping { seq: x as u32 })
        } else if tag == 1 && s.len() == 8 {
            Some(MsgView::Pong { seq: x as u32 })
        } else if tag == 2 && s.len() == x + 8 {
            Some(MsgView::Data { bytes: s.skip(8) })
        } else {
            None
        }
    }
}

/// Serialization round-trip: decoding inverts encoding on every message that
/// can be encoded.
pub proof fn lemma_msg_round_trip(v: MsgView)
    requires
        encodable(v),
    ensures
        decoded(encoded(v)) == Some(v),
{
    let s = encoded(v);
    match v {
        MsgView::Ping { seq } => {
            assert(s.subrange(0, 4) =~= le32_bytes(0));
            assert(s.subrange(4, 8) =~= le32_bytes(seq));
            lemma_le32_round(0);
            lemma_le32_round(seq);
        }
        MsgView::Pong { seq } => {
            assert(s.subrange(0, 4) =~= le32_bytes(1));
            assert(s.subrange(4, 8) =~= le32_bytes(seq));
            lemma_le32_round(1);
            lemma_le32_round(seq);
        }
        MsgView::Data { bytes } => {
            let n = bytes.len() as u32;
            assert(s.subrange(0, 4) =~= le32_bytes(2));
            assert(s.subrange(4, 8) =~= le32_bytes(n));
            lemma_le32_round(2);
            lemma_le32_round(n);
            assert(s.skip(8) =~= bytes);
        }
    }
}

proof fn lemma_le32_bytes_round(s: Seq<u8>)
    requires
        s.len() == 4,
    ensures
        0 <= le32_val(s) <= u32::MAX,
        le32_bytes(le32_val(s) as u32) == s,
{
    let a = s[0] as u32;
    let b = s[1] as u32;
    let c = s[2] as u32;
    let d = s[3] as u32;
    let x = (a + b * 0x100 + c * 0x1_0000 + d * 0x100_0000) as u32;
    assert((a + b * 0x100 + c * 0x1_0000 + d * 0x100_0000) % 0x100 == a && ((a + b * 0x100 + c
        * 0x1_0000 + d * 0x100_0000) / 0x100) % 0x100 == b && ((a + b * 0x100 + c * 0x1_0000 + d
        * 0x100_0000) / 0x1_0000) % 0x100 == c && ((a + b * 0x100 + c * 0x1_0000 + d * 0x100_0000)
        / 0x100_0000) % 0x100 == d) by (bit_vector)
        requires
            a < 0x100,
            b < 0x100,
            c < 0x100,
            d < 0x100,
    ;
    assert(le32_bytes(x) =~= s);
}

/// The wire encoding is unambiguous: a byte sequence decodes to a message
/// only if it is exactly that message's encoding, so decoding is the exact
/// inverse of encoding in both directions.
pub proof fn lemma_decode_exact(s: Seq<u8>)
    ensures
        decoded(s) matches Some(v) ==> encodable(v) && encoded(v) == s,
{
    if decoded(s) is Some {
        let head = s.subrange(0, 4);
        let arg = s.subrange(4, 8);
        lemma_le32_bytes_round(head);
        lemma_le32_bytes_round(arg);
        assert(encoded(decoded(s)->0) =~= s);
    }
}

fn push_u32_le(out: &mut Vec<u8>, x: u32)
    ensures
        final(out)@ == old(out)@ + le32_bytes(x),
{
    out.push((x % 0x100) as u8);
    out.push(((x / 0x100) % 0x100) as u8);
    out.push(((x / 0x1_0000) % 0x100) as u8);
    out.push(((x / 0x100_0000) % 0x100) as u8);
    proof {
        assert(out@ =~= old(out)@ + le32_bytes(x));
    }
}

fn read_u32_le(b: &Vec<u8>, off: usize) -> (r: u32)
    requires
        off + 4 <= b@.len(),
    ensures
        r as int == le32_val(b@.subrange(off as int, off as int + 4)),
{
    // the exec length, a usize, bounds off + 4 and so every index below
    let _blen = b.len();
    let b0 = b[off] as u32;
    let b1 = b[off + 1] as u32;
    let b2 = b[off + 2] as u32;
    let b3 = b[off + 3] as u32;
    b0 + b1 * 0x100 + b2 * 0x1_0000 + b3 * 0x100_0000
}

impl UdpMsg {
    /// Serialize the message to its wire encoding. Fails only where the
    /// message cannot be encoded (a payload too long for the length prefix).
    pub fn encode(&self) -> (r: Result<Vec<u8>, UdpError>)
        ensures
            match r {
                Ok(bytes) => encodable(self@) && bytes@ == encoded(self@),
                Err(e) => !encodable(self@) && e == UdpError::Encoding,
            },
    {
        match self {
            UdpMsg::Ping { seq } => {
                let mut out: Vec<u8> = Vec::new();
                push_u32_le(&mut out, 0);
                push_u32_le(&mut out, *seq);
                proof {
                    assert(out@ =~= encoded(self@));
                }
                Ok(out)
            }
            UdpMsg::Pong { seq } => {
                let mut out: Vec<u8> = Vec::new();
                push_u32_le(&mut out, 1);
                push_u32_le(&mut out, *seq);
                proof {
                    assert(out@ =~= encoded(self@));
                }
                Ok(out)
            }
            UdpMsg::Data { bytes } => {
                if bytes.len() as u64 > 0xFFFF_FFFFu64 {
                    return Err(UdpError::Encoding);
                }
                let n: u32 = bytes.len() as u32;
                let mut out: Vec<u8> = Vec::new();
                push_u32_le(&mut out, 2);
                push_u32_le(&mut out, n);
                let mut i: usize = 0;
                while i < bytes.len()
                    invariant
                        i <= bytes@.len(),
                        n == bytes@.len(),
                        out@ == le32_bytes(2) + le32_bytes(n) + bytes@.subrange(0, i as int),
                    decreases bytes@.len() - i,
                {
                    out.push(bytes[i]);
                    i = i + 1;
                    proof {
                        assert(bytes@.subrange(0, i as int) =~= bytes@.subrange(0, i - 1) + seq![
                            bytes@[i - 1],
                        ]);
                    }
                }
                proof {
                    assert(bytes@.subrange(0, bytes@.len() as int) =~= bytes@);
                    assert(out@ =~= encoded(self@));
                }
                Ok(out)
            }
        }
    }

    /// Deserialize a wire encoding back into a message: exactly the messages
    /// `encode` produces are accepted, anything else is an encoding error.
    pub fn decode(b: &Vec<u8>) -> (r: Result<UdpMsg, UdpError>)
        ensures
            match r {
                Ok(m) => decoded(b@) == Some(m@),
                Err(e) => decoded(b@) is None && e == UdpError::Encoding,
            },
    {
        if b.len() < 8 {
            return Err(UdpError::Encoding);
        }
        let tag = read_u32_le(b, 0);
        let x = read_u32_le(b, 4);
        if tag == 0 && b.len() == 8 {
            Ok(UdpMsg::Ping { seq: x })
        } else if tag == 1 && b.len() == 8 {
            Ok(UdpMsg::Pong { seq: x })
        } else if tag == 2 && b.len() - 8 == x as usize {
            let mut bytes: Vec<u8> = Vec::new();
            let mut i: usize = 8;
            while i < b.len()
                invariant
                    8 <= i <= b@.len(),
                    bytes@ == b@.subrange(8, i as int),
                decreases b@.len() - i,
            {
                bytes.push(b[i]);
                i = i + 1;
                proof {
                    assert(b@.subrange(8, i as int) =~= b@.subrange(8, i - 1) + seq![b@[i - 1]]);
                }
            }
            proof {
                assert(bytes@ =~= b@.skip(8));
            }
            Ok(UdpMsg::Data { bytes })
        } else {
            Err(UdpError::Encoding)
        }
    }
}

} // verus!
