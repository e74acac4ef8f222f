//! Payload codec: the typed request/response values that cross the dispatch
//! boundary, and their byte encoding. A payload travels as a tag byte followed
//! by fixed-width little-endian integers and raw data bytes; decoding accepts
//! exactly the encodings and nothing else, which gives the round-trip law.

use vstd::prelude::*;

verus! {

/// Wire tag byte of an identifier payload.
pub const TAG_ID: u8 = 1;

/// Wire tag byte of a raw data payload.
pub const TAG_DATA: u8 = 2;

/// Wire tag byte of a record payload (identifier plus data).
pub const TAG_RECORD: u8 = 3;

/// A typed value carried over the boundary: an entity identifier, an opaque
/// data buffer, or a record pairing an identifier with its data.
#[derive(Debug, Clone, PartialEq, Eq)]
pub enum Payload {
    Id(u64),
    Data(Vec<u8>),
    Record { id: u64, data: Vec<u8> },
}

/// Mathematical model of a `Payload`.
pub enum PayloadView {
    Id(u64),
    Data(Seq<u8>),
    Record { id: u64, data: Seq<u8> },
}

/// The shape of a payload, used as the declared request or response type of a
/// handler. A command with no tag carries no payload at all.
#[derive(Clone, Copy, PartialEq, Eq, Structural, Debug)]
pub enum PayloadTag {
    Id,
    Data,
    Record,
}

impl View for Payload {
    type V = PayloadView;

    open spec fn view(&self) -> PayloadView {
        match self {
            Payload::Id(n) => PayloadView::Id(*n),
            Payload::Data(d) => PayloadView::Data(d@),
            Payload::Record { id, data } => PayloadView::Record { id: *id, data: data@ },
        }
    }
}

impl PayloadView {
    /// The shape of this payload value.
    pub open spec fn tag(self) -> PayloadTag {
        match self {
            PayloadView::Id(_) => PayloadTag::Id,
            PayloadView::Data(_) => PayloadTag::Data,
            PayloadView::Record { .. } => PayloadTag::Record,
        }
    }

    /// A payload is encodable when its data fits the length field.
    pub open spec fn wf(self) -> bool {
        match self {
            PayloadView::Id(_) => true,
            PayloadView::Data(d) => d.len() <= u64::MAX,
            PayloadView::Record { data, .. } => data.len() <= u64::MAX,
        }
    }
}

impl Payload {
    /// The shape of this payload value.
    pub fn tag(&self) -> (t: PayloadTag)
        ensures
            t == self@.tag(),
    {
        match self {
            Payload::Id(_) => PayloadTag::Id,
            Payload::Data(_) => PayloadTag::Data,
            Payload::Record { .. } => PayloadTag::Record,
        }
    }

    /// An equal copy of this payload.
    pub fn duplicate(&self) -> (r: Payload)
        ensures
            r@ == self@,
    {
        match self {
            Payload::Id(n) => Payload::Id(*n),
            Payload::Data(d) => Payload::Data(copy_bytes(d)),
            Payload::Record { id, data } => Payload::Record { id: *id, data: copy_bytes(data) },
        }
    }
}

/// An owned copy of a byte buffer.
pub fn copy_bytes(v: &Vec<u8>) -> (r: Vec<u8>)
    ensures
        r@ == v@,
{
    let mut r: Vec<u8> = Vec::new();
    let mut i: usize = 0;
    while i < v.len()
        invariant
            i <= v.len(),
            r@ == v@.subrange(0, i as int),
        decreases v.len() - i,
    {
        r.push(v[i]);
        i = i + 1;
    }
    assert(r@ =~= v@);
    r
}

/// The eight little-endian bytes of a 64-bit integer.
pub open spec fn le8(n: u64) -> Seq<u8> {
    seq![
        n as u8,
        (n >> 8) as u8,
        (n >> 16) as u8,
        (n >> 24) as u8,
        (n >> 32) as u8,
        (n >> 40) as u8,
        (n >> 48) as u8,
        (n >> 56) as u8,
    ]
}

/// The 64-bit integer read from eight little-endian bytes.
pub open spec fn le_val(b: Seq<u8>) -> u64
    recommends
        b.len() == 8,
{
    ((b[0] as u64) | ((b[1] as u64) << 8) | ((b[2] as u64) << 16) | ((b[3] as u64) << 24)
        | ((b[4] as u64) << 32) | ((b[5] as u64) << 40) | ((b[6] as u64) << 48) | (
    (b[7] as u64) << 56)) as u64
}

/// Reading back the eight little-endian bytes of an integer yields the
/// integer.
pub proof fn lemma_le_round_trip(n: u64)
    ensures
        le_val(le8(n)) == n,
{
    assert(le8(n)[0] == n as u8);
    assert(le8(n)[1] == (n >> 8) as u8);
    assert(le8(n)[2] == (n >> 16) as u8);
    assert(le8(n)[3] == (n >> 24) as u8);
    assert(le8(n)[4] == (n >> 32) as u8);
    assert(le8(n)[5] == (n >> 40) as u8);
    assert(le8(n)[6] == (n >> 48) as u8);
    assert(le8(n)[7] == (n >> 56) as u8);
    assert((((n as u8) as u64) | ((((n >> 8) as u8) as u64) << 8) | ((((n >> 16) as u8) as u64)
        << 16) | ((((n >> 24) as u8) as u64) << 24) | ((((n >> 32) as u8) as u64) << 32) | ((((n
        >> 40) as u8) as u64) << 40) | ((((n >> 48) as u8) as u64) << 48) | ((((n >> 56) as u8)
        as u64) << 56)) as u64 == n) by (bit_vector);
}

/// Appends the eight little-endian bytes of `n` to `out`.
pub fn push_le(out: &mut Vec<u8>, n: u64)
    ensures
        final(out)@ == old(out)@ + le8(n),
{
    out.push(n as u8);
    out.push((n >> 8) as u8);
    out.push((n >> 16) as u8);
    out.push((n >> 24) as u8);
    out.push((n >> 32) as u8);
    out.push((n >> 40) as u8);
    out.push((n >> 48) as u8);
    out.push((n >> 56) as u8);
    assert(out@ =~= old(out)@ + le8(n));
}

/// Reads the 64-bit little-endian integer at offset `off` of `b`.
pub fn read_le(b: &Vec<u8>, off: usize) -> (n: u64)
    requires
        off + 8 <= b@.len(),
    ensures
        n == le_val(b@.subrange(off as int, off as int + 8)),
{
    let l = b.len();
    assert(off + 8 <= l);
    let n: u64 = (b[off] as u64) | ((b[off + 1] as u64) << 8) | ((b[off + 2] as u64) << 16) | ((
    b[off + 3] as u64) << 24) | ((b[off + 4] as u64) << 32) | ((b[off + 5] as u64) << 40) | ((b[off
        + 6] as u64) << 48) | ((b[off + 7] as u64) << 56);
    proof {
        let s = b@.subrange(off as int, off as int + 8);
        assert(s[0] == b@[off as int]);
        assert(s[1] == b@[off as int + 1]);
        assert(s[2] == b@[off as int + 2]);
        assert(s[3] == b@[off as int + 3]);
        assert(s[4] == b@[off as int + 4]);
        assert(s[5] == b@[off as int + 5]);
        assert(s[6] == b@[off as int + 6]);
        assert(s[7] == b@[off as int + 7]);
    }
    n
}

/// The byte encoding of a payload value.
pub open spec fn spec_encode(p: PayloadView) -> Seq<u8> {
    match p {
        PayloadView::Id(n) => seq![TAG_ID] + le8(n),
        PayloadView::Data(d) => seq![TAG_DATA] + le8(d.len() as u64) + d,
        PayloadView::Record { id, data } => seq![TAG_RECORD] + le8(id) + le8(data.len() as u64)
            + data,
    }
}

/// The payload value a byte buffer decodes to, if it is a valid encoding.
pub open spec fn spec_decode(b: Seq<u8>) -> Option<PayloadView> {
    if b.len() < 9 {
        None
    } else if b[0] == TAG_ID {
        if b.len() == 9 {
            Some(PayloadView::Id(le_val(b.subrange(1, 9))))
        } else {
            None
        }
    } else if b[0] == TAG_DATA {
        if le_val(b.subrange(1, 9)) as int == b.len() - 9 {
            Some(PayloadView::Data(b.subrange(9, b.len() as int)))
        } else {
            None
        }
    } else if b[0] == TAG_RECORD {
        if b.len() >= 17 && le_val(b.subrange(9, 17)) as int == b.len() - 17 {
            Some(
                PayloadView::Record {
                    id: le_val(b.subrange(1, 9)),
                    data: b.subrange(17, b.len() as int),
                },
            )
        } else {
            None
        }
    } else {
        None
    }
}

/// The model of an optional payload.
pub open spec fn opt_view(p: Option<Payload>) -> Option<PayloadView> {
    match p {
        None => None,
        Some(q) => Some(q@),
    }
}

/// Encodes a payload value into bytes.
pub fn encode_payload(p: &Payload) -> (r: Vec<u8>)
    ensures
        r@ == spec_encode(p@),
{
    match p {
        Payload::Id(n) => {
            let mut out: Vec<u8> = Vec::new();
            out.push(TAG_ID);
            push_le(&mut out, *n);
            assert(out@ =~= spec_encode(p@));
            out
        },
        Payload::Data(d) => {
            let mut out: Vec<u8> = Vec::new();
            out.push(TAG_DATA);
            push_le(&mut out, d.len() as u64);
            push_all(&mut out, d);
            assert(out@ =~= spec_encode(p@));
            out
        },
        Payload::Record { id, data } => {
            let mut out: Vec<u8> = Vec::new();
            out.push(TAG_RECORD);
            push_le(&mut out, *id);
            push_le(&mut out, data.len() as u64);
            push_all(&mut out, data);
            assert(out@ =~= spec_encode(p@));
            out
        },
    }
}

/// Appends every byte of `src` to `out`.
pub fn push_all(out: &mut Vec<u8>, src: &Vec<u8>)
    ensures
        final(out)@ == old(out)@ + src@,
{
    let mut i: usize = 0;
    while i < src.len()
        invariant
            i <= src.len(),
            out@ == old(out)@ + src@.subrange(0, i as int),
        decreases src.len() - i,
    {
        out.push(src[i]);
        assert(out@ =~= old(out)@ + src@.subrange(0, i as int + 1));
        i = i + 1;
    }
    assert(out@ =~= old(out)@ + src@);
}

/// Decodes a byte buffer into the payload value it encodes, if any.
pub fn decode_payload(b: &Vec<u8>) -> (r: Option<Payload>)
    ensures
        opt_view(r) == spec_decode(b@),
{
    if b.len() < 9 {
        return None;
    }
    let t = b[0];
    if t == TAG_ID {
        if b.len() == 9 {
            let n = read_le(b, 1);
            Some(Payload::Id(n))
        } else {
            None
        }
    } else if t == TAG_DATA {
        let len = read_le(b, 1);
        if len == (b.len() - 9) as u64 {
            let d = copy_tail(b, 9);
            Some(Payload::Data(d))
        } else {
            None
        }
    } else if t == TAG_RECORD {
        if b.len() < 17 {
            return None;
        }
        let id = read_le(b, 1);
        let len = read_le(b, 9);
        if len == (b.len() - 17) as u64 {
            let d = copy_tail(b, 17);
            Some(Payload::Record { id, data: d })
        } else {
            None
        }
    } else {
        None
    }
}

/// The bytes of `b` from offset `off` to the end, as an owned buffer.
fn copy_tail(b: &Vec<u8>, off: usize) -> (r: Vec<u8>)
    requires
        off <= b@.len(),
    ensures
        r@ == b@.subrange(off as int, b@.len() as int),
{
    let mut r: Vec<u8> = Vec::new();
    let mut i: usize = off;
    while i < b.len()
        invariant
            off <= i <= b@.len(),
            r@ == b@.subrange(off as int, i as int),
        decreases b@.len() - i,
    {
        r.push(b[i]);
        assert(r@ =~= b@.subrange(off as int, i as int + 1));
        i = i + 1;
    }
    r
}

/// The request value carried by the given bytes under a declared request
/// shape: `Some(None)` for no payload where none is declared, `Some(Some(p))`
/// for a payload of the declared shape, and `None` where the bytes do not
/// match the declaration.
pub open spec fn spec_decode_request(tag: Option<PayloadTag>, b: Seq<u8>) -> Option<
    Option<PayloadView>,
> {
    match tag {
        None => if b.len() == 0 {
            Some(None)
        } else {
            None
        },
        Some(t) => match spec_decode(b) {
            Some(p) => if p.tag() == t {
                Some(Some(p))
            } else {
                None
            },
            None => None,
        },
    }
}

/// The model of a decoded optional payload.
pub open spec fn opt2_view(r: Option<Option<Payload>>) -> Option<Option<PayloadView>> {
    match r {
        None => None,
        Some(p) => Some(opt_view(p)),
    }
}

/// Decodes a byte buffer against a declared payload shape; `None` means the
/// bytes do not match the declaration. The same function serves the caller
/// side, which decodes a response against the command's declared response
/// shape.
pub fn decode_request(tag: Option<PayloadTag>, b: &Vec<u8>) -> (r: Option<Option<Payload>>)
    ensures
        opt2_view(r) == spec_decode_request(tag, b@),
{
    match tag {
        None => {
            if b.len() == 0 {
                Some(None)
            } else {
                None
            }
        },
        Some(t) => {
            match decode_payload(b) {
                Some(p) => {
                    let pt = p.tag();
                    if pt == t {
                        Some(Some(p))
                    } else {
                        None
                    }
                },
                None => None,
            }
        },
    }
}

/// The byte encoding of an optional response payload; no payload encodes to
/// the empty buffer.
pub open spec fn spec_encode_response(r: Option<PayloadView>) -> Seq<u8> {
    match r {
        None => Seq::empty(),
        Some(p) => spec_encode(p),
    }
}

/// Encodes an optional response payload into bytes.
pub fn encode_response(r: Option<Payload>) -> (out: Vec<u8>)
    ensures
        out@ == spec_encode_response(opt_view(r)),
{
    match r {
        None => {
            let out: Vec<u8> = Vec::new();
            assert(out@ =~= Seq::<u8>::empty());
            out
        },
        Some(p) => encode_payload(&p),
    }
}

/// The shape of an optional payload.
pub open spec fn opt_tag(r: Option<PayloadView>) -> Option<PayloadTag> {
    match r {
        None => None,
        Some(p) => Some(p.tag()),
    }
}

/// Encodability of an optional payload.
pub open spec fn opt_wf(r: Option<PayloadView>) -> bool {
    match r {
        None => true,
        Some(p) => p.wf(),
    }
}

/// Round-trip law for single payloads: decoding an encoding yields the
/// encoded value, for every encodable payload.
pub proof fn lemma_payload_round_trip(p: PayloadView)
    requires
        p.wf(),
    ensures
        spec_decode(spec_encode(p)) == Some(p),
{
    match p {
        PayloadView::Id(n) => {
            let e = spec_encode(p);
            assert(e.len() == 9);
            assert(e[0] == TAG_ID);
            assert(e.subrange(1, 9) =~= le8(n));
            lemma_le_round_trip(n);
        },
        PayloadView::Data(d) => {
            let e = spec_encode(p);
            assert(e.len() == 9 + d.len());
            assert(e[0] == TAG_DATA);
            assert(e.subrange(1, 9) =~= le8(d.len() as u64));
            lemma_le_round_trip(d.len() as u64);
            assert(le_val(e.subrange(1, 9)) as int == d.len());
            assert(e.subrange(9, e.len() as int) =~= d);
        },
        PayloadView::Record { id, data } => {
            let e = spec_encode(p);
            assert(e.len() == 17 + data.len());
            assert(e[0] == TAG_RECORD);
            assert(e.subrange(1, 9) =~= le8(id));
            assert(e.subrange(9, 17) =~= le8(data.len() as u64));
            lemma_le_round_trip(id);
            lemma_le_round_trip(data.len() as u64);
            assert(le_val(e.subrange(9, 17)) as int == data.len());
            assert(e.subrange(17, e.len() as int) =~= data);
        },
    }
}

/// Round-trip law for responses: encoding a handler's response and decoding
/// it on the caller's side against the declared response shape reproduces an
/// equal value, for every supported response.
pub proof fn lemma_response_round_trip(r: Option<PayloadView>)
    requires
        opt_wf(r),
    ensures
        spec_decode_request(opt_tag(r), spec_encode_response(r)) == Some(r),
{
    match r {
        None => {
        },
        Some(p) => {
            lemma_payload_round_trip(p);
        },
    }
}

} // verus!
