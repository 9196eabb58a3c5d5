//! The versioned binary snapshot: a 4-byte little-endian format version
//! followed by the serialized source records.
//!
//! Encoders state exactly which bytes they produce; decoders guarantee that
//! whatever a library encoder produced decodes back to the very value it
//! came from, so a snapshot round trip is loss-free.  A reader confronted
//! with a version it does not recognize refuses the payload outright.

use vstd::prelude::*;
use vstd::string::StrSliceExecFns;
use vstd::utf8::encode_utf8;
use vstd::utf8::decode_utf8;
use vstd::utf8::valid_utf8;

use crate::error::OewnError;

verus! {

/// Whether the byte sequence `e` occurs in `d` starting at position `p`.
pub open spec fn starts_with(d: Seq<u8>, p: int, e: Seq<u8>) -> bool {
    0 <= p && p + e.len() <= d.len() && d.subrange(p, p + e.len()) == e
}

/// An occurrence of a concatenation is an occurrence of each part in turn.
pub proof fn lemma_split(d: Seq<u8>, p: int, a: Seq<u8>, b: Seq<u8>)
    requires
        starts_with(d, p, a + b),
    ensures
        starts_with(d, p, a),
        starts_with(d, p + a.len(), b),
{
    let e = a + b;
    assert(d.subrange(p, p + a.len()) =~= e.subrange(0, a.len() as int));
    assert(e.subrange(0, a.len() as int) =~= a);
    assert(d.subrange(p + a.len(), p + e.len()) =~= e.subrange(a.len() as int, e.len() as int));
    assert(e.subrange(a.len() as int, e.len() as int) =~= b);
}

/// The little-endian bytes of a 32-bit value.
pub open spec fn enc_u32(v: u32) -> Seq<u8> {
    seq![
        (v & 0xff) as u8,
        ((v >> 8) & 0xff) as u8,
        ((v >> 16) & 0xff) as u8,
        ((v >> 24) & 0xff) as u8,
    ]
}

/// The little-endian bytes of a 64-bit value.
pub open spec fn enc_u64(v: u64) -> Seq<u8> {
    seq![
        (v & 0xff) as u8,
        ((v >> 8) & 0xff) as u8,
        ((v >> 16) & 0xff) as u8,
        ((v >> 24) & 0xff) as u8,
        ((v >> 32) & 0xff) as u8,
        ((v >> 40) & 0xff) as u8,
        ((v >> 48) & 0xff) as u8,
        ((v >> 56) & 0xff) as u8,
    ]
}

/// One byte for a boolean.
pub open spec fn enc_bool(b: bool) -> Seq<u8> {
    if b {
        seq![1u8]
    } else {
        seq![0u8]
    }
}

/// A string: the byte length of its UTF-8 form, then those bytes.
pub open spec fn enc_str(s: Seq<char>) -> Seq<u8> {
    enc_u64(encode_utf8(s).len() as u64) + encode_utf8(s)
}

/// An optional string: a presence byte, then the string when present.
pub open spec fn enc_opt_str(o: Option<Seq<char>>) -> Seq<u8> {
    match o {
        None => seq![0u8],
        Some(s) => seq![1u8] + enc_str(s),
    }
}

/// Appends the little-endian bytes of a 32-bit value.
pub fn write_u32(buf: &mut Vec<u8>, v: u32)
    ensures
        final(buf)@ == old(buf)@ + enc_u32(v),
{
    let ghost b0 = buf@;
    buf.push((v & 0xff) as u8);
    buf.push(((v >> 8) & 0xff) as u8);
    buf.push(((v >> 16) & 0xff) as u8);
    buf.push(((v >> 24) & 0xff) as u8);
    proof {
        assert(buf@ =~= b0 + enc_u32(v));
    }
}

/// Appends the little-endian bytes of a 64-bit value.
pub fn write_u64(buf: &mut Vec<u8>, v: u64)
    ensures
        final(buf)@ == old(buf)@ + enc_u64(v),
{
    let ghost b0 = buf@;
    buf.push((v & 0xff) as u8);
    buf.push(((v >> 8) & 0xff) as u8);
    buf.push(((v >> 16) & 0xff) as u8);
    buf.push(((v >> 24) & 0xff) as u8);
    buf.push(((v >> 32) & 0xff) as u8);
    buf.push(((v >> 40) & 0xff) as u8);
    buf.push(((v >> 48) & 0xff) as u8);
    buf.push(((v >> 56) & 0xff) as u8);
    proof {
        assert(buf@ =~= b0 + enc_u64(v));
    }
}

/// Appends a boolean byte.
pub fn write_bool(buf: &mut Vec<u8>, b: bool)
    ensures
        final(buf)@ == old(buf)@ + enc_bool(b),
{
    let ghost b0 = buf@;
    if b {
        buf.push(1u8);
    } else {
        buf.push(0u8);
    }
    proof {
        assert(buf@ =~= b0 + enc_bool(b));
    }
}

/// Appends a length-prefixed string.
pub fn write_str(buf: &mut Vec<u8>, s: &str)
    ensures
        final(buf)@ == old(buf)@ + enc_str(s@),
{
    let ghost b0 = buf@;
    let mut bytes = s.as_bytes_vec();
    proof {
        assert(bytes@ == encode_utf8(s@));
    }
    write_u64(buf, bytes.len() as u64);
    buf.append(&mut bytes);
    proof {
        assert(buf@ =~= b0 + enc_str(s@));
    }
}

/// Appends an optional length-prefixed string.
pub fn write_opt_str(buf: &mut Vec<u8>, o: &Option<String>)
    ensures
        final(buf)@ == old(buf)@ + enc_opt_str(crate::models::opt_str_view(*o)),
{
    let ghost b0 = buf@;
    match o {
        None => {
            buf.push(0u8);
            proof {
                assert(buf@ =~= b0 + enc_opt_str(None));
            }
        },
        Some(s) => {
            buf.push(1u8);
            write_str(buf, s.as_str());
            proof {
                assert(buf@ =~= b0 + enc_opt_str(Some(s@)));
            }
        },
    }
}

/// Relies on `String::from_utf8`: decodes exactly the valid UTF-8 byte
/// sequences, to the characters those bytes encode.
#[verifier::external_body]
fn bytes_to_string(v: Vec<u8>) -> (r: Option<String>)
    ensures
        r matches Some(s) ==> valid_utf8(v@) && s@ == decode_utf8(v@),
        r is Some <==> valid_utf8(v@),
{
    String::from_utf8(v).ok()
}

/// Reads a little-endian 32-bit value.
pub fn read_u32(data: &Vec<u8>, pos: &mut usize) -> (r: Option<u32>)
    ensures
        forall|v: u32|
            starts_with(data@, *old(pos) as int, #[trigger] enc_u32(v)) ==> (r == Some(v)
                && *final(pos) == *old(pos) + 4),
        r matches Some(v) ==> starts_with(data@, *old(pos) as int, enc_u32(v)) && *final(pos)
            == *old(pos) + 4,
{
    let n = data.len();
    if *pos > n || n - *pos < 4 {
        proof {
            assert forall|v: u32|
                starts_with(data@, *old(pos) as int, #[trigger] enc_u32(v)) implies false by {}
        }
        return None;
    }
    let p = *pos;
    let b0 = data[p] as u32;
    let b1 = data[p + 1] as u32;
    let b2 = data[p + 2] as u32;
    let b3 = data[p + 3] as u32;
    let val = b0 | (b1 << 8) | (b2 << 16) | (b3 << 24);
    *pos = p + 4;
    proof {
        let c0 = data@[p as int];
        let c1 = data@[p + 1];
        let c2 = data@[p + 2];
        let c3 = data@[p + 3];
        assert({
            let x = (c0 as u32) | ((c1 as u32) << 8) | ((c2 as u32) << 16) | ((c3 as u32) << 24);
            (x & 0xff) as u8 == c0 && ((x >> 8) & 0xff) as u8 == c1 && ((x >> 16) & 0xff) as u8
                == c2 && ((x >> 24) & 0xff) as u8 == c3
        }) by (bit_vector);
        assert(data@.subrange(p as int, p + 4) =~= enc_u32(val));
        assert forall|v: u32|
            starts_with(data@, p as int, #[trigger] enc_u32(v)) implies val == v by {
            assert(data@[p as int] == (v & 0xff) as u8);
            assert(data@[p + 1] == ((v >> 8) & 0xff) as u8);
            assert(data@[p + 2] == ((v >> 16) & 0xff) as u8);
            assert(data@[p + 3] == ((v >> 24) & 0xff) as u8);
            assert((((v & 0xff) as u8) as u32) | ((((v >> 8) & 0xff) as u8) as u32) << 8 | ((((v
                >> 16) & 0xff) as u8) as u32) << 16 | ((((v >> 24) & 0xff) as u8) as u32) << 24
                == v) by (bit_vector);
        }
    }
    Some(val)
}

/// Reads a little-endian 64-bit value.
pub fn read_u64(data: &Vec<u8>, pos: &mut usize) -> (r: Option<u64>)
    ensures
        forall|v: u64|
            starts_with(data@, *old(pos) as int, #[trigger] enc_u64(v)) ==> (r == Some(v)
                && *final(pos) == *old(pos) + 8),
{
    let n = data.len();
    if *pos > n || n - *pos < 8 {
        proof {
            assert forall|v: u64|
                starts_with(data@, *old(pos) as int, #[trigger] enc_u64(v)) implies false by {}
        }
        return None;
    }
    let p = *pos;
    let b0 = data[p] as u64;
    let b1 = data[p + 1] as u64;
    let b2 = data[p + 2] as u64;
    let b3 = data[p + 3] as u64;
    let b4 = data[p + 4] as u64;
    let b5 = data[p + 5] as u64;
    let b6 = data[p + 6] as u64;
    let b7 = data[p + 7] as u64;
    let val = b0 | (b1 << 8) | (b2 << 16) | (b3 << 24) | (b4 << 32) | (b5 << 40) | (b6 << 48) | (
    b7 << 56);
    *pos = p + 8;
    proof {
        assert forall|v: u64|
            starts_with(data@, p as int, #[trigger] enc_u64(v)) implies val == v by {
            assert(data@[p as int] == (v & 0xff) as u8);
            assert(data@[p + 1] == ((v >> 8) & 0xff) as u8);
            assert(data@[p + 2] == ((v >> 16) & 0xff) as u8);
            assert(data@[p + 3] == ((v >> 24) & 0xff) as u8);
            assert(data@[p + 4] == ((v >> 32) & 0xff) as u8);
            assert(data@[p + 5] == ((v >> 40) & 0xff) as u8);
            assert(data@[p + 6] == ((v >> 48) & 0xff) as u8);
            assert(data@[p + 7] == ((v >> 56) & 0xff) as u8);
            assert((((v & 0xff) as u8) as u64) | ((((v >> 8) & 0xff) as u8) as u64) << 8 | ((((v
                >> 16) & 0xff) as u8) as u64) << 16 | ((((v >> 24) & 0xff) as u8) as u64) << 24 | ((((
            v >> 32) & 0xff) as u8) as u64) << 32 | ((((v >> 40) & 0xff) as u8) as u64) << 40 | ((((
            v >> 48) & 0xff) as u8) as u64) << 48 | ((((v >> 56) & 0xff) as u8) as u64) << 56
                == v) by (bit_vector);
        }
    }
    Some(val)
}

/// Reads a boolean byte.
pub fn read_bool(data: &Vec<u8>, pos: &mut usize) -> (r: Option<bool>)
    ensures
        forall|b: bool|
            starts_with(data@, *old(pos) as int, #[trigger] enc_bool(b)) ==> (r == Some(b)
                && *final(pos) == *old(pos) + 1),
{
    let n = data.len();
    if *pos >= n {
        return None;
    }
    let p = *pos;
    let byte = data[p];
    *pos = p + 1;
    proof {
        assert forall|b: bool|
            starts_with(data@, p as int, #[trigger] enc_bool(b)) implies data@[p as int]
            == enc_bool(b)[0] by {
            assert(data@.subrange(p as int, p as int + 1)[0] == data@[p as int]);
        }
    }
    if byte == 1 {
        Some(true)
    } else if byte == 0 {
        Some(false)
    } else {
        None
    }
}

/// Reads a length-prefixed string.
pub fn read_str(data: &Vec<u8>, pos: &mut usize) -> (r: Option<String>)
    ensures
        forall|t: Seq<char>|
            starts_with(data@, *old(pos) as int, #[trigger] enc_str(t)) ==> (r matches Some(s)
                && s@ == t && *final(pos) == *old(pos) + enc_str(t).len()),
{
    let ghost p0 = *pos as int;
    let n = match read_u64(data, pos) {
        Some(n) => n,
        None => {
            proof {
                assert forall|t: Seq<char>|
                    starts_with(data@, p0, #[trigger] enc_str(t)) implies false by {
                    lemma_split(data@, p0, enc_u64(encode_utf8(t).len() as u64), encode_utf8(t));
                }
            }
            return None;
        },
    };
    let dl = data.len();
    if *pos > dl || ((dl - *pos) as u64) < n {
        proof {
            assert forall|t: Seq<char>|
                starts_with(data@, p0, #[trigger] enc_str(t)) implies false by {
                lemma_split(data@, p0, enc_u64(encode_utf8(t).len() as u64), encode_utf8(t));
                assert(n == encode_utf8(t).len() as u64);
            }
        }
        return None;
    }
    let count = n as usize;
    let p = *pos;
    let mut bytes: Vec<u8> = Vec::new();
    let mut i: usize = 0;
    while i < count
        invariant
            p + count <= data@.len(),
            data@.len() <= usize::MAX,
            i <= count,
            bytes@ == data@.subrange(p as int, p as int + i as int),
        decreases count - i,
    {
        bytes.push(data[p + i]);
        proof {
            assert(bytes@ =~= data@.subrange(p as int, p as int + i as int + 1));
        }
        i = i + 1;
    }
    *pos = p + count;
    let ghost raw = bytes@;
    match bytes_to_string(bytes) {
        Some(s) => {
            proof {
                assert forall|t: Seq<char>|
                    starts_with(data@, p0, #[trigger] enc_str(t)) implies (s@ == t && *pos == p0
                    + enc_str(t).len()) by {
                    lemma_split(data@, p0, enc_u64(encode_utf8(t).len() as u64), encode_utf8(t));
                    assert(n == encode_utf8(t).len() as u64);
                    assert(raw =~= encode_utf8(t));
                    vstd::utf8::encode_utf8_decode_utf8(t);
                }
            }
            Some(s)
        },
        None => {
            proof {
                assert forall|t: Seq<char>|
                    starts_with(data@, p0, #[trigger] enc_str(t)) implies false by {
                    lemma_split(data@, p0, enc_u64(encode_utf8(t).len() as u64), encode_utf8(t));
                    assert(n == encode_utf8(t).len() as u64);
                    assert(raw =~= encode_utf8(t));
                    broadcast use vstd::utf8::encode_utf8_valid_utf8;

                    assert(valid_utf8(raw));
                }
            }
            None
        },
    }
}

/// Reads an optional length-prefixed string.
pub fn read_opt_str(data: &Vec<u8>, pos: &mut usize) -> (r: Option<Option<String>>)
    ensures
        forall|o: Option<Seq<char>>|
            starts_with(data@, *old(pos) as int, #[trigger] enc_opt_str(o)) ==> (r matches Some(
                ov,
            ) && crate::models::opt_str_view(ov) == o && *final(pos) == *old(pos) + enc_opt_str(
                o,
            ).len()),
{
    let ghost p0 = *pos as int;
    let n = data.len();
    if *pos >= n {
        return None;
    }
    let p = *pos;
    let byte = data[p];
    *pos = p + 1;
    if byte == 0 {
        proof {
            assert forall|o: Option<Seq<char>>|
                starts_with(data@, p0, #[trigger] enc_opt_str(o)) implies (o is None) by {
                if o is Some {
                    let s = o->0;
                    assert(enc_opt_str(o) == seq![1u8] + enc_str(s));
                    assert(data@.subrange(p0, p0 + enc_opt_str(o).len() as int)[0] == data@[p0]);
                    assert(data@[p0] == 1u8);
                }
            }
        }
        Some(None)
    } else if byte == 1 {
        let ghost p1 = *pos as int;
        match read_str(data, pos) {
            Some(s) => {
                proof {
                    assert forall|o: Option<Seq<char>>|
                        starts_with(data@, p0, #[trigger] enc_opt_str(o)) implies (o matches Some(
                        t,
                    ) && s@ == t && *pos == p0 + enc_opt_str(o).len()) by {
                        if o is None {
                            assert(data@.subrange(p0, p0 + 1)[0] == data@[p0]);
                            assert(data@[p0] == 0u8);
                        } else {
                            let t = o->0;
                            lemma_split(data@, p0, seq![1u8], enc_str(t));
                            assert(starts_with(data@, p1, enc_str(t)));
                        }
                    }
                }
                Some(Some(s))
            },
            None => {
                proof {
                    assert forall|o: Option<Seq<char>>|
                        starts_with(data@, p0, #[trigger] enc_opt_str(o)) implies false by {
                        if o is None {
                            assert(data@.subrange(p0, p0 + 1)[0] == data@[p0]);
                            assert(data@[p0] == 0u8);
                        } else {
                            let t = o->0;
                            lemma_split(data@, p0, seq![1u8], enc_str(t));
                            assert(starts_with(data@, p1, enc_str(t)));
                        }
                    }
                }
                None
            },
        }
    } else {
        proof {
            assert forall|o: Option<Seq<char>>|
                starts_with(data@, p0, #[trigger] enc_opt_str(o)) implies false by {
                if o is None {
                    assert(data@.subrange(p0, p0 + 1)[0] == data@[p0]);
                    assert(data@[p0] == 0u8);
                } else {
                    let t = o->0;
                    assert(enc_opt_str(o) == seq![1u8] + enc_str(t));
                    assert(data@.subrange(p0, p0 + enc_opt_str(o).len() as int)[0] == data@[p0]);
                    assert(data@[p0] == 1u8);
                }
            }
        }
        None
    }
}


/// A flattening of nonempty parts is at least as long as the part count.
pub proof fn lemma_flatten_len_bound(m: Seq<Seq<u8>>)
    requires
        forall|i: int| 0 <= i < m.len() ==> (#[trigger] m[i]).len() >= 1,
    ensures
        m.flatten().len() >= m.len(),
    decreases m.len(),
{
    if m.len() > 0 {
        assert(forall|i: int|
            0 <= i < m.drop_first().len() ==> (#[trigger] m.drop_first()[i]).len() >= 1);
        lemma_flatten_len_bound(m.drop_first());
        assert(m.flatten() == m.first() + m.drop_first().flatten());
    }
}

/// Where one element's encoding sits inside an encoded list: after the
/// count and the flattened encodings of the elements before it.
pub proof fn lemma_list_elem_at<T>(
    d: Seq<u8>,
    p0: int,
    s: Seq<T>,
    ef: spec_fn(T) -> Seq<u8>,
    i: int,
)
    requires
        starts_with(d, p0, enc_u64(s.len() as u64) + s.map_values(ef).flatten()),
        0 <= i < s.len(),
    ensures
        starts_with(d, p0 + 8 + s.take(i).map_values(ef).flatten().len(), ef(s[i])),
{
    lemma_split(d, p0, enc_u64(s.len() as u64), s.map_values(ef).flatten());
    let before = s.take(i).map_values(ef);
    let after = s.skip(i + 1).map_values(ef);
    assert(s.map_values(ef) =~= before + (seq![ef(s[i])] + after));
    vstd::seq_lib::lemma_flatten_concat(before, seq![ef(s[i])] + after);
    vstd::seq_lib::lemma_flatten_concat(seq![ef(s[i])], after);
    seq![ef(s[i])].lemma_flatten_singleton();
    lemma_split(d, p0 + 8, before.flatten(), (seq![ef(s[i])] + after).flatten());
    lemma_split(
        d,
        p0 + 8 + before.flatten().len(),
        ef(s[i]),
        after.flatten(),
    );
}

/// Sequence concatenation is associative.
pub proof fn seq_add_assoc<A>(a: Seq<A>, b: Seq<A>, c: Seq<A>)
    ensures
        (a + b) + c == a + (b + c),
{
    assert((a + b) + c =~= a + (b + c));
}

/// One step of a prefix's flattened encodings.
pub proof fn lemma_take_map_flatten_step<T>(s: Seq<T>, ef: spec_fn(T) -> Seq<u8>, i: int)
    requires
        0 <= i < s.len(),
    ensures
        s.take(i + 1).map_values(ef).flatten() == s.take(i).map_values(ef).flatten() + ef(s[i]),
{
    let m = s.take(i).map_values(ef);
    m.lemma_flatten_push(ef(s[i]));
    assert(m.push(ef(s[i])) =~= s.take(i + 1).map_values(ef));
}

/// The snapshot tag of a `PartOfSpeech` value.
pub open spec fn pos_tag(v: crate::models::PartOfSpeech) -> u8 {
    match v {
        crate::models::PartOfSpeech::N => 0,
        crate::models::PartOfSpeech::V => 1,
        crate::models::PartOfSpeech::A => 2,
        crate::models::PartOfSpeech::R => 3,
        crate::models::PartOfSpeech::S => 4,
        crate::models::PartOfSpeech::C => 5,
        crate::models::PartOfSpeech::P => 6,
        crate::models::PartOfSpeech::X => 7,
        crate::models::PartOfSpeech::U => 8,
    }
}

/// One tag byte for a `PartOfSpeech` value.
pub open spec fn enc_pos(v: crate::models::PartOfSpeech) -> Seq<u8> {
    seq![pos_tag(v)]
}

/// Appends the tag byte of a `PartOfSpeech` value.
pub fn write_pos(buf: &mut Vec<u8>, v: crate::models::PartOfSpeech)
    ensures
        final(buf)@ == old(buf)@ + enc_pos(v),
{
    let ghost b0 = buf@;
    let t: u8 = match v {
        crate::models::PartOfSpeech::N => 0,
        crate::models::PartOfSpeech::V => 1,
        crate::models::PartOfSpeech::A => 2,
        crate::models::PartOfSpeech::R => 3,
        crate::models::PartOfSpeech::S => 4,
        crate::models::PartOfSpeech::C => 5,
        crate::models::PartOfSpeech::P => 6,
        crate::models::PartOfSpeech::X => 7,
        crate::models::PartOfSpeech::U => 8,
    };
    buf.push(t);
    proof {
        assert(buf@ =~= b0 + enc_pos(v));
    }
}

/// Reads the tag byte of a `PartOfSpeech` value.
pub fn read_pos(data: &Vec<u8>, pos: &mut usize) -> (r: Option<crate::models::PartOfSpeech>)
    ensures
        forall|v: crate::models::PartOfSpeech|
            starts_with(data@, *old(pos) as int, #[trigger] enc_pos(v)) ==> (r == Some(
                v,
            ) && *final(pos) == *old(pos) + 1),
{
    let n = data.len();
    if *pos >= n {
        return None;
    }
    let p = *pos;
    let byte = data[p];
    *pos = p + 1;
    proof {
        assert forall|v: crate::models::PartOfSpeech|
            starts_with(data@, p as int, #[trigger] enc_pos(v)) implies data@[p as int]
            == pos_tag(v) by {
            assert(data@.subrange(p as int, p as int + 1)[0] == data@[p as int]);
        }
    }
    match byte {
        0 => Some(crate::models::PartOfSpeech::N),
        1 => Some(crate::models::PartOfSpeech::V),
        2 => Some(crate::models::PartOfSpeech::A),
        3 => Some(crate::models::PartOfSpeech::R),
        4 => Some(crate::models::PartOfSpeech::S),
        5 => Some(crate::models::PartOfSpeech::C),
        6 => Some(crate::models::PartOfSpeech::P),
        7 => Some(crate::models::PartOfSpeech::X),
        8 => Some(crate::models::PartOfSpeech::U),
        _ => None,
    }
}

/// The snapshot tag of a `SenseRelType` value.
pub open spec fn srel_tag(v: crate::models::SenseRelType) -> u8 {
    match v {
        crate::models::SenseRelType::Antonym => 0,
        crate::models::SenseRelType::Also => 1,
        crate::models::SenseRelType::Participle => 2,
        crate::models::SenseRelType::Pertainym => 3,
        crate::models::SenseRelType::Derivation => 4,
        crate::models::SenseRelType::DomainTopic => 5,
        crate::models::SenseRelType::DomainMemberTopic => 6,
        crate::models::SenseRelType::DomainRegion => 7,
        crate::models::SenseRelType::DomainMemberRegion => 8,
        crate::models::SenseRelType::Exemplifies => 9,
        crate::models::SenseRelType::IsExemplifiedBy => 10,
        crate::models::SenseRelType::Other => 11,
    }
}

/// One tag byte for a `SenseRelType` value.
pub open spec fn enc_srel(v: crate::models::SenseRelType) -> Seq<u8> {
    seq![srel_tag(v)]
}

/// Appends the tag byte of a `SenseRelType` value.
pub fn write_srel(buf: &mut Vec<u8>, v: crate::models::SenseRelType)
    ensures
        final(buf)@ == old(buf)@ + enc_srel(v),
{
    let ghost b0 = buf@;
    let t: u8 = match v {
        crate::models::SenseRelType::Antonym => 0,
        crate::models::SenseRelType::Also => 1,
        crate::models::SenseRelType::Participle => 2,
        crate::models::SenseRelType::Pertainym => 3,
        crate::models::SenseRelType::Derivation => 4,
        crate::models::SenseRelType::DomainTopic => 5,
        crate::models::SenseRelType::DomainMemberTopic => 6,
        crate::models::SenseRelType::DomainRegion => 7,
        crate::models::SenseRelType::DomainMemberRegion => 8,
        crate::models::SenseRelType::Exemplifies => 9,
        crate::models::SenseRelType::IsExemplifiedBy => 10,
        crate::models::SenseRelType::Other => 11,
    };
    buf.push(t);
    proof {
        assert(buf@ =~= b0 + enc_srel(v));
    }
}

/// Reads the tag byte of a `SenseRelType` value.
pub fn read_srel(data: &Vec<u8>, pos: &mut usize) -> (r: Option<crate::models::SenseRelType>)
    ensures
        forall|v: crate::models::SenseRelType|
            starts_with(data@, *old(pos) as int, #[trigger] enc_srel(v)) ==> (r == Some(
                v,
            ) && *final(pos) == *old(pos) + 1),
{
    let n = data.len();
    if *pos >= n {
        return None;
    }
    let p = *pos;
    let byte = data[p];
    *pos = p + 1;
    proof {
        assert forall|v: crate::models::SenseRelType|
            starts_with(data@, p as int, #[trigger] enc_srel(v)) implies data@[p as int]
            == srel_tag(v) by {
            assert(data@.subrange(p as int, p as int + 1)[0] == data@[p as int]);
        }
    }
    match byte {
        0 => Some(crate::models::SenseRelType::Antonym),
        1 => Some(crate::models::SenseRelType::Also),
        2 => Some(crate::models::SenseRelType::Participle),
        3 => Some(crate::models::SenseRelType::Pertainym),
        4 => Some(crate::models::SenseRelType::Derivation),
        5 => Some(crate::models::SenseRelType::DomainTopic),
        6 => Some(crate::models::SenseRelType::DomainMemberTopic),
        7 => Some(crate::models::SenseRelType::DomainRegion),
        8 => Some(crate::models::SenseRelType::DomainMemberRegion),
        9 => Some(crate::models::SenseRelType::Exemplifies),
        10 => Some(crate::models::SenseRelType::IsExemplifiedBy),
        11 => Some(crate::models::SenseRelType::Other),
        _ => None,
    }
}

/// The snapshot tag of a `SynsetRelType` value.
pub open spec fn yrel_tag(v: crate::models::SynsetRelType) -> u8 {
    match v {
        crate::models::SynsetRelType::Hypernym => 0,
        crate::models::SynsetRelType::Hyponym => 1,
        crate::models::SynsetRelType::InstanceHypernym => 2,
        crate::models::SynsetRelType::InstanceHyponym => 3,
        crate::models::SynsetRelType::MeroMember => 4,
        crate::models::SynsetRelType::MeroPart => 5,
        crate::models::SynsetRelType::MeroSubstance => 6,
        crate::models::SynsetRelType::HoloMember => 7,
        crate::models::SynsetRelType::HoloPart => 8,
        crate::models::SynsetRelType::HoloSubstance => 9,
        crate::models::SynsetRelType::Entails => 10,
        crate::models::SynsetRelType::Causes => 11,
        crate::models::SynsetRelType::Similar => 12,
        crate::models::SynsetRelType::Attribute => 13,
        crate::models::SynsetRelType::DomainRegion => 14,
        crate::models::SynsetRelType::DomainTopic => 15,
        crate::models::SynsetRelType::HasDomainRegion => 16,
        crate::models::SynsetRelType::HasDomainTopic => 17,
        crate::models::SynsetRelType::Exemplifies => 18,
        crate::models::SynsetRelType::IsExemplifiedBy => 19,
        crate::models::SynsetRelType::Agent => 20,
        crate::models::SynsetRelType::Also => 21,
        crate::models::SynsetRelType::AntoConverse => 22,
        crate::models::SynsetRelType::AntoGradable => 23,
        crate::models::SynsetRelType::AntoSimple => 24,
        crate::models::SynsetRelType::Antonym => 25,
        crate::models::SynsetRelType::Augmentative => 26,
        crate::models::SynsetRelType::BeInState => 27,
        crate::models::SynsetRelType::ClassifiedBy => 28,
        crate::models::SynsetRelType::Classifies => 29,
        crate::models::SynsetRelType::CoAgentInstrument => 30,
        crate::models::SynsetRelType::CoAgentPatient => 31,
        crate::models::SynsetRelType::CoAgentResult => 32,
        crate::models::SynsetRelType::CoInstrumentAgent => 33,
        crate::models::SynsetRelType::CoInstrumentPatient => 34,
        crate::models::SynsetRelType::CoInstrumentResult => 35,
        crate::models::SynsetRelType::CoPatientAgent => 36,
        crate::models::SynsetRelType::CoPatientInstrument => 37,
        crate::models::SynsetRelType::CoResultAgent => 38,
        crate::models::SynsetRelType::CoResultInstrument => 39,
        crate::models::SynsetRelType::CoRole => 40,
        crate::models::SynsetRelType::Constitutive => 41,
        crate::models::SynsetRelType::Derivation => 42,
        crate::models::SynsetRelType::Diminutive => 43,
        crate::models::SynsetRelType::Direction => 44,
        crate::models::SynsetRelType::Domain => 45,
        crate::models::SynsetRelType::EqSynonym => 46,
        crate::models::SynsetRelType::Feminine => 47,
        crate::models::SynsetRelType::HasAugmentative => 48,
        crate::models::SynsetRelType::HasDiminutive => 49,
        crate::models::SynsetRelType::HasDomain => 50,
        crate::models::SynsetRelType::HasFeminine => 51,
        crate::models::SynsetRelType::HasMasculine => 52,
        crate::models::SynsetRelType::HasYoung => 53,
        crate::models::SynsetRelType::HoloLocation => 54,
        crate::models::SynsetRelType::HoloPortion => 55,
        crate::models::SynsetRelType::Holonym => 56,
        crate::models::SynsetRelType::InManner => 57,
        crate::models::SynsetRelType::Instrument => 58,
        crate::models::SynsetRelType::Involved => 59,
        crate::models::SynsetRelType::InvolvedAgent => 60,
        crate::models::SynsetRelType::InvolvedDirection => 61,
        crate::models::SynsetRelType::InvolvedInstrument => 62,
        crate::models::SynsetRelType::InvolvedLocation => 63,
        crate::models::SynsetRelType::InvolvedPatient => 64,
        crate::models::SynsetRelType::InvolvedResult => 65,
        crate::models::SynsetRelType::InvolvedSourceDirection => 66,
        crate::models::SynsetRelType::InvolvedTargetDirection => 67,
        crate::models::SynsetRelType::IrSynonym => 68,
        crate::models::SynsetRelType::IsCausedBy => 69,
        crate::models::SynsetRelType::IsEntailedBy => 70,
        crate::models::SynsetRelType::IsSubeventOf => 71,
        crate::models::SynsetRelType::Location => 72,
        crate::models::SynsetRelType::MannerOf => 73,
        crate::models::SynsetRelType::Masculine => 74,
        crate::models::SynsetRelType::MeroLocation => 75,
        crate::models::SynsetRelType::MeroPortion => 76,
        crate::models::SynsetRelType::Meronym => 77,
        crate::models::SynsetRelType::Other => 78,
        crate::models::SynsetRelType::Participle => 79,
        crate::models::SynsetRelType::Patient => 80,
        crate::models::SynsetRelType::Pertainym => 81,
        crate::models::SynsetRelType::RestrictedBy => 82,
        crate::models::SynsetRelType::Restricts => 83,
        crate::models::SynsetRelType::Result => 84,
        crate::models::SynsetRelType::Role => 85,
        crate::models::SynsetRelType::SecondaryAspectIp => 86,
        crate::models::SynsetRelType::SecondaryAspectPi => 87,
        crate::models::SynsetRelType::SimpleAspectIp => 88,
        crate::models::SynsetRelType::SimpleAspectPi => 89,
        crate::models::SynsetRelType::SourceDirection => 90,
        crate::models::SynsetRelType::StateOf => 91,
        crate::models::SynsetRelType::Subevent => 92,
        crate::models::SynsetRelType::TargetDirection => 93,
        crate::models::SynsetRelType::Young => 94,
        crate::models::SynsetRelType::Unknown => 95,
    }
}

/// One tag byte for a `SynsetRelType` value.
pub open spec fn enc_yrel(v: crate::models::SynsetRelType) -> Seq<u8> {
    seq![yrel_tag(v)]
}

/// Appends the tag byte of a `SynsetRelType` value.
pub fn write_yrel(buf: &mut Vec<u8>, v: crate::models::SynsetRelType)
    ensures
        final(buf)@ == old(buf)@ + enc_yrel(v),
{
    let ghost b0 = buf@;
    let t: u8 = match v {
        crate::models::SynsetRelType::Hypernym => 0,
        crate::models::SynsetRelType::Hyponym => 1,
        crate::models::SynsetRelType::InstanceHypernym => 2,
        crate::models::SynsetRelType::InstanceHyponym => 3,
        crate::models::SynsetRelType::MeroMember => 4,
        crate::models::SynsetRelType::MeroPart => 5,
        crate::models::SynsetRelType::MeroSubstance => 6,
        crate::models::SynsetRelType::HoloMember => 7,
        crate::models::SynsetRelType::HoloPart => 8,
        crate::models::SynsetRelType::HoloSubstance => 9,
        crate::models::SynsetRelType::Entails => 10,
        crate::models::SynsetRelType::Causes => 11,
        crate::models::SynsetRelType::Similar => 12,
        crate::models::SynsetRelType::Attribute => 13,
        crate::models::SynsetRelType::DomainRegion => 14,
        crate::models::SynsetRelType::DomainTopic => 15,
        crate::models::SynsetRelType::HasDomainRegion => 16,
        crate::models::SynsetRelType::HasDomainTopic => 17,
        crate::models::SynsetRelType::Exemplifies => 18,
        crate::models::SynsetRelType::IsExemplifiedBy => 19,
        crate::models::SynsetRelType::Agent => 20,
        crate::models::SynsetRelType::Also => 21,
        crate::models::SynsetRelType::AntoConverse => 22,
        crate::models::SynsetRelType::AntoGradable => 23,
        crate::models::SynsetRelType::AntoSimple => 24,
        crate::models::SynsetRelType::Antonym => 25,
        crate::models::SynsetRelType::Augmentative => 26,
        crate::models::SynsetRelType::BeInState => 27,
        crate::models::SynsetRelType::ClassifiedBy => 28,
        crate::models::SynsetRelType::Classifies => 29,
        crate::models::SynsetRelType::CoAgentInstrument => 30,
        crate::models::SynsetRelType::CoAgentPatient => 31,
        crate::models::SynsetRelType::CoAgentResult => 32,
        crate::models::SynsetRelType::CoInstrumentAgent => 33,
        crate::models::SynsetRelType::CoInstrumentPatient => 34,
        crate::models::SynsetRelType::CoInstrumentResult => 35,
        crate::models::SynsetRelType::CoPatientAgent => 36,
        crate::models::SynsetRelType::CoPatientInstrument => 37,
        crate::models::SynsetRelType::CoResultAgent => 38,
        crate::models::SynsetRelType::CoResultInstrument => 39,
        crate::models::SynsetRelType::CoRole => 40,
        crate::models::SynsetRelType::Constitutive => 41,
        crate::models::SynsetRelType::Derivation => 42,
        crate::models::SynsetRelType::Diminutive => 43,
        crate::models::SynsetRelType::Direction => 44,
        crate::models::SynsetRelType::Domain => 45,
        crate::models::SynsetRelType::EqSynonym => 46,
        crate::models::SynsetRelType::Feminine => 47,
        crate::models::SynsetRelType::HasAugmentative => 48,
        crate::models::SynsetRelType::HasDiminutive => 49,
        crate::models::SynsetRelType::HasDomain => 50,
        crate::models::SynsetRelType::HasFeminine => 51,
        crate::models::SynsetRelType::HasMasculine => 52,
        crate::models::SynsetRelType::HasYoung => 53,
        crate::models::SynsetRelType::HoloLocation => 54,
        crate::models::SynsetRelType::HoloPortion => 55,
        crate::models::SynsetRelType::Holonym => 56,
        crate::models::SynsetRelType::InManner => 57,
        crate::models::SynsetRelType::Instrument => 58,
        crate::models::SynsetRelType::Involved => 59,
        crate::models::SynsetRelType::InvolvedAgent => 60,
        crate::models::SynsetRelType::InvolvedDirection => 61,
        crate::models::SynsetRelType::InvolvedInstrument => 62,
        crate::models::SynsetRelType::InvolvedLocation => 63,
        crate::models::SynsetRelType::InvolvedPatient => 64,
        crate::models::SynsetRelType::InvolvedResult => 65,
        crate::models::SynsetRelType::InvolvedSourceDirection => 66,
        crate::models::SynsetRelType::InvolvedTargetDirection => 67,
        crate::models::SynsetRelType::IrSynonym => 68,
        crate::models::SynsetRelType::IsCausedBy => 69,
        crate::models::SynsetRelType::IsEntailedBy => 70,
        crate::models::SynsetRelType::IsSubeventOf => 71,
        crate::models::SynsetRelType::Location => 72,
        crate::models::SynsetRelType::MannerOf => 73,
        crate::models::SynsetRelType::Masculine => 74,
        crate::models::SynsetRelType::MeroLocation => 75,
        crate::models::SynsetRelType::MeroPortion => 76,
        crate::models::SynsetRelType::Meronym => 77,
        crate::models::SynsetRelType::Other => 78,
        crate::models::SynsetRelType::Participle => 79,
        crate::models::SynsetRelType::Patient => 80,
        crate::models::SynsetRelType::Pertainym => 81,
        crate::models::SynsetRelType::RestrictedBy => 82,
        crate::models::SynsetRelType::Restricts => 83,
        crate::models::SynsetRelType::Result => 84,
        crate::models::SynsetRelType::Role => 85,
        crate::models::SynsetRelType::SecondaryAspectIp => 86,
        crate::models::SynsetRelType::SecondaryAspectPi => 87,
        crate::models::SynsetRelType::SimpleAspectIp => 88,
        crate::models::SynsetRelType::SimpleAspectPi => 89,
        crate::models::SynsetRelType::SourceDirection => 90,
        crate::models::SynsetRelType::StateOf => 91,
        crate::models::SynsetRelType::Subevent => 92,
        crate::models::SynsetRelType::TargetDirection => 93,
        crate::models::SynsetRelType::Young => 94,
        crate::models::SynsetRelType::Unknown => 95,
    };
    buf.push(t);
    proof {
        assert(buf@ =~= b0 + enc_yrel(v));
    }
}

/// Reads the tag byte of a `SynsetRelType` value.
#[verifier::rlimit(60)]
pub fn read_yrel(data: &Vec<u8>, pos: &mut usize) -> (r: Option<crate::models::SynsetRelType>)
    ensures
        forall|v: crate::models::SynsetRelType|
            starts_with(data@, *old(pos) as int, #[trigger] enc_yrel(v)) ==> (r == Some(
                v,
            ) && *final(pos) == *old(pos) + 1),
{
    let n = data.len();
    if *pos >= n {
        return None;
    }
    let p = *pos;
    let byte = data[p];
    *pos = p + 1;
    proof {
        assert forall|v: crate::models::SynsetRelType|
            starts_with(data@, p as int, #[trigger] enc_yrel(v)) implies data@[p as int]
            == yrel_tag(v) by {
            assert(data@.subrange(p as int, p as int + 1)[0] == data@[p as int]);
        }
    }
    match byte {
        0 => Some(crate::models::SynsetRelType::Hypernym),
        1 => Some(crate::models::SynsetRelType::Hyponym),
        2 => Some(crate::models::SynsetRelType::InstanceHypernym),
        3 => Some(crate::models::SynsetRelType::InstanceHyponym),
        4 => Some(crate::models::SynsetRelType::MeroMember),
        5 => Some(crate::models::SynsetRelType::MeroPart),
        6 => Some(crate::models::SynsetRelType::MeroSubstance),
        7 => Some(crate::models::SynsetRelType::HoloMember),
        8 => Some(crate::models::SynsetRelType::HoloPart),
        9 => Some(crate::models::SynsetRelType::HoloSubstance),
        10 => Some(crate::models::SynsetRelType::Entails),
        11 => Some(crate::models::SynsetRelType::Causes),
        12 => Some(crate::models::SynsetRelType::Similar),
        13 => Some(crate::models::SynsetRelType::Attribute),
        14 => Some(crate::models::SynsetRelType::DomainRegion),
        15 => Some(crate::models::SynsetRelType::DomainTopic),
        16 => Some(crate::models::SynsetRelType::HasDomainRegion),
        17 => Some(crate::models::SynsetRelType::HasDomainTopic),
        18 => Some(crate::models::SynsetRelType::Exemplifies),
        19 => Some(crate::models::SynsetRelType::IsExemplifiedBy),
        20 => Some(crate::models::SynsetRelType::Agent),
        21 => Some(crate::models::SynsetRelType::Also),
        22 => Some(crate::models::SynsetRelType::AntoConverse),
        23 => Some(crate::models::SynsetRelType::AntoGradable),
        24 => Some(crate::models::SynsetRelType::AntoSimple),
        25 => Some(crate::models::SynsetRelType::Antonym),
        26 => Some(crate::models::SynsetRelType::Augmentative),
        27 => Some(crate::models::SynsetRelType::BeInState),
        28 => Some(crate::models::SynsetRelType::ClassifiedBy),
        29 => Some(crate::models::SynsetRelType::Classifies),
        30 => Some(crate::models::SynsetRelType::CoAgentInstrument),
        31 => Some(crate::models::SynsetRelType::CoAgentPatient),
        32 => Some(crate::models::SynsetRelType::CoAgentResult),
        33 => Some(crate::models::SynsetRelType::CoInstrumentAgent),
        34 => Some(crate::models::SynsetRelType::CoInstrumentPatient),
        35 => Some(crate::models::SynsetRelType::CoInstrumentResult),
        36 => Some(crate::models::SynsetRelType::CoPatientAgent),
        37 => Some(crate::models::SynsetRelType::CoPatientInstrument),
        38 => Some(crate::models::SynsetRelType::CoResultAgent),
        39 => Some(crate::models::SynsetRelType::CoResultInstrument),
        40 => Some(crate::models::SynsetRelType::CoRole),
        41 => Some(crate::models::SynsetRelType::Constitutive),
        42 => Some(crate::models::SynsetRelType::Derivation),
        43 => Some(crate::models::SynsetRelType::Diminutive),
        44 => Some(crate::models::SynsetRelType::Direction),
        45 => Some(crate::models::SynsetRelType::Domain),
        46 => Some(crate::models::SynsetRelType::EqSynonym),
        47 => Some(crate::models::SynsetRelType::Feminine),
        48 => Some(crate::models::SynsetRelType::HasAugmentative),
        49 => Some(crate::models::SynsetRelType::HasDiminutive),
        50 => Some(crate::models::SynsetRelType::HasDomain),
        51 => Some(crate::models::SynsetRelType::HasFeminine),
        52 => Some(crate::models::SynsetRelType::HasMasculine),
        53 => Some(crate::models::SynsetRelType::HasYoung),
        54 => Some(crate::models::SynsetRelType::HoloLocation),
        55 => Some(crate::models::SynsetRelType::HoloPortion),
        56 => Some(crate::models::SynsetRelType::Holonym),
        57 => Some(crate::models::SynsetRelType::InManner),
        58 => Some(crate::models::SynsetRelType::Instrument),
        59 => Some(crate::models::SynsetRelType::Involved),
        60 => Some(crate::models::SynsetRelType::InvolvedAgent),
        61 => Some(crate::models::SynsetRelType::InvolvedDirection),
        62 => Some(crate::models::SynsetRelType::InvolvedInstrument),
        63 => Some(crate::models::SynsetRelType::InvolvedLocation),
        64 => Some(crate::models::SynsetRelType::InvolvedPatient),
        65 => Some(crate::models::SynsetRelType::InvolvedResult),
        66 => Some(crate::models::SynsetRelType::InvolvedSourceDirection),
        67 => Some(crate::models::SynsetRelType::InvolvedTargetDirection),
        68 => Some(crate::models::SynsetRelType::IrSynonym),
        69 => Some(crate::models::SynsetRelType::IsCausedBy),
        70 => Some(crate::models::SynsetRelType::IsEntailedBy),
        71 => Some(crate::models::SynsetRelType::IsSubeventOf),
        72 => Some(crate::models::SynsetRelType::Location),
        73 => Some(crate::models::SynsetRelType::MannerOf),
        74 => Some(crate::models::SynsetRelType::Masculine),
        75 => Some(crate::models::SynsetRelType::MeroLocation),
        76 => Some(crate::models::SynsetRelType::MeroPortion),
        77 => Some(crate::models::SynsetRelType::Meronym),
        78 => Some(crate::models::SynsetRelType::Other),
        79 => Some(crate::models::SynsetRelType::Participle),
        80 => Some(crate::models::SynsetRelType::Patient),
        81 => Some(crate::models::SynsetRelType::Pertainym),
        82 => Some(crate::models::SynsetRelType::RestrictedBy),
        83 => Some(crate::models::SynsetRelType::Restricts),
        84 => Some(crate::models::SynsetRelType::Result),
        85 => Some(crate::models::SynsetRelType::Role),
        86 => Some(crate::models::SynsetRelType::SecondaryAspectIp),
        87 => Some(crate::models::SynsetRelType::SecondaryAspectPi),
        88 => Some(crate::models::SynsetRelType::SimpleAspectIp),
        89 => Some(crate::models::SynsetRelType::SimpleAspectPi),
        90 => Some(crate::models::SynsetRelType::SourceDirection),
        91 => Some(crate::models::SynsetRelType::StateOf),
        92 => Some(crate::models::SynsetRelType::Subevent),
        93 => Some(crate::models::SynsetRelType::TargetDirection),
        94 => Some(crate::models::SynsetRelType::Young),
        95 => Some(crate::models::SynsetRelType::Unknown),
        _ => None,
    }
}

/// The snapshot bytes of a `Pronunciation`.
pub open spec fn enc_pron(x: crate::models::PronunciationV) -> Seq<u8> {
    enc_str(x.variety) + (enc_opt_str(x.notation) + (enc_bool(x.phonemic) + (enc_opt_str(x.audio) + (enc_str(x.text)))))
}

/// A `Pronunciation` encoding is never empty.
proof fn lemma_enc_pron_nonempty(x: crate::models::PronunciationV)
    ensures
        enc_pron(x).len() >= 1,
{
}

/// Appends the snapshot bytes of a `Pronunciation`.
#[verifier::rlimit(100)]
#[verifier::spinoff_prover]
pub fn write_pron(buf: &mut Vec<u8>, x: &crate::models::Pronunciation)
    ensures
        final(buf)@ == old(buf)@ + enc_pron(x@),
{
    let ghost b0 = buf@;
    write_str(buf, x.variety.as_str());
    write_opt_str(buf, &x.notation);
    write_bool(buf, x.phonemic);
    write_opt_str(buf, &x.audio);
    write_str(buf, x.text.as_str());
    proof {
        let e1 = enc_str(x@.variety);
        let e2 = enc_opt_str(x@.notation);
        let e3 = enc_bool(x@.phonemic);
        let e4 = enc_opt_str(x@.audio);
        let e5 = enc_str(x@.text);
        assert(buf@ == b0 + e1 + e2 + e3 + e4 + e5);
        seq_add_assoc(b0 + e1 + e2 + e3, e4, e5);
        seq_add_assoc(b0 + e1 + e2, e3, e4 + (e5));
        seq_add_assoc(b0 + e1, e2, e3 + (e4 + (e5)));
        seq_add_assoc(b0, e1, e2 + (e3 + (e4 + (e5))));
        assert(buf@ == b0 + enc_pron(x@));
    }
}

/// Reads back a `Pronunciation` from its snapshot bytes.
#[verifier::rlimit(100)]
#[verifier::spinoff_prover]
pub fn read_pron(data: &Vec<u8>, pos: &mut usize) -> (r: Option<crate::models::Pronunciation>)
    ensures
        forall|x: crate::models::PronunciationV|
            starts_with(data@, *old(pos) as int, #[trigger] enc_pron(x)) ==> (r matches
            Some(v) && v@ == x && *final(pos) == *old(pos) + enc_pron(x).len()),
{
    let ghost p0 = *pos as int;
    let ghost q0 = *pos as int;
    let v0 = match read_str(data, pos) {
        Some(v) => v,
        None => {
            proof {
                assert forall|x: crate::models::PronunciationV|
                    starts_with(data@, p0, #[trigger] enc_pron(x)) implies false by {
                    let qs0: int = p0;
                    lemma_split(data@, qs0, enc_str(x.variety), enc_opt_str(x.notation) + (enc_bool(x.phonemic) + (enc_opt_str(x.audio) + (enc_str(x.text)))));
                    let qs1: int = qs0 + enc_str(x.variety).len();
                }
            }
            return None;
        },
    };
    let ghost q1 = *pos as int;
    let v1 = match read_opt_str(data, pos) {
        Some(v) => v,
        None => {
            proof {
                assert forall|x: crate::models::PronunciationV|
                    starts_with(data@, p0, #[trigger] enc_pron(x)) implies false by {
                    let qs0: int = p0;
                    lemma_split(data@, qs0, enc_str(x.variety), enc_opt_str(x.notation) + (enc_bool(x.phonemic) + (enc_opt_str(x.audio) + (enc_str(x.text)))));
                    let qs1: int = qs0 + enc_str(x.variety).len();
                    lemma_split(data@, qs1, enc_opt_str(x.notation), enc_bool(x.phonemic) + (enc_opt_str(x.audio) + (enc_str(x.text))));
                    let qs2: int = qs1 + enc_opt_str(x.notation).len();
                }
            }
            return None;
        },
    };
    let ghost q2 = *pos as int;
    let v2 = match read_bool(data, pos) {
        Some(v) => v,
        None => {
            proof {
                assert forall|x: crate::models::PronunciationV|
                    starts_with(data@, p0, #[trigger] enc_pron(x)) implies false by {
                    let qs0: int = p0;
                    lemma_split(data@, qs0, enc_str(x.variety), enc_opt_str(x.notation) + (enc_bool(x.phonemic) + (enc_opt_str(x.audio) + (enc_str(x.text)))));
                    let qs1: int = qs0 + enc_str(x.variety).len();
                    lemma_split(data@, qs1, enc_opt_str(x.notation), enc_bool(x.phonemic) + (enc_opt_str(x.audio) + (enc_str(x.text))));
                    let qs2: int = qs1 + enc_opt_str(x.notation).len();
                    lemma_split(data@, qs2, enc_bool(x.phonemic), enc_opt_str(x.audio) + (enc_str(x.text)));
                    let qs3: int = qs2 + enc_bool(x.phonemic).len();
                }
            }
            return None;
        },
    };
    let ghost q3 = *pos as int;
    let v3 = match read_opt_str(data, pos) {
        Some(v) => v,
        None => {
            proof {
                assert forall|x: crate::models::PronunciationV|
                    starts_with(data@, p0, #[trigger] enc_pron(x)) implies false by {
                    let qs0: int = p0;
                    lemma_split(data@, qs0, enc_str(x.variety), enc_opt_str(x.notation) + (enc_bool(x.phonemic) + (enc_opt_str(x.audio) + (enc_str(x.text)))));
                    let qs1: int = qs0 + enc_str(x.variety).len();
                    lemma_split(data@, qs1, enc_opt_str(x.notation), enc_bool(x.phonemic) + (enc_opt_str(x.audio) + (enc_str(x.text))));
                    let qs2: int = qs1 + enc_opt_str(x.notation).len();
                    lemma_split(data@, qs2, enc_bool(x.phonemic), enc_opt_str(x.audio) + (enc_str(x.text)));
                    let qs3: int = qs2 + enc_bool(x.phonemic).len();
                    lemma_split(data@, qs3, enc_opt_str(x.audio), enc_str(x.text));
                    let qs4: int = qs3 + enc_opt_str(x.audio).len();
                }
            }
            return None;
        },
    };
    let ghost q4 = *pos as int;
    let v4 = match read_str(data, pos) {
        Some(v) => v,
        None => {
            proof {
                assert forall|x: crate::models::PronunciationV|
                    starts_with(data@, p0, #[trigger] enc_pron(x)) implies false by {
                    let qs0: int = p0;
                    lemma_split(data@, qs0, enc_str(x.variety), enc_opt_str(x.notation) + (enc_bool(x.phonemic) + (enc_opt_str(x.audio) + (enc_str(x.text)))));
                    let qs1: int = qs0 + enc_str(x.variety).len();
                    lemma_split(data@, qs1, enc_opt_str(x.notation), enc_bool(x.phonemic) + (enc_opt_str(x.audio) + (enc_str(x.text))));
                    let qs2: int = qs1 + enc_opt_str(x.notation).len();
                    lemma_split(data@, qs2, enc_bool(x.phonemic), enc_opt_str(x.audio) + (enc_str(x.text)));
                    let qs3: int = qs2 + enc_bool(x.phonemic).len();
                    lemma_split(data@, qs3, enc_opt_str(x.audio), enc_str(x.text));
                    let qs4: int = qs3 + enc_opt_str(x.audio).len();
                }
            }
            return None;
        },
    };
    let out = crate::models::Pronunciation {
        variety: v0,
        notation: v1,
        phonemic: v2,
        audio: v3,
        text: v4,
    };
    proof {
        assert forall|x: crate::models::PronunciationV|
            starts_with(data@, p0, #[trigger] enc_pron(x)) implies (out@ == x && *pos
            == p0 + enc_pron(x).len()) by {
                    let qs0: int = p0;
                    lemma_split(data@, qs0, enc_str(x.variety), enc_opt_str(x.notation) + (enc_bool(x.phonemic) + (enc_opt_str(x.audio) + (enc_str(x.text)))));
                    let qs1: int = qs0 + enc_str(x.variety).len();
                    lemma_split(data@, qs1, enc_opt_str(x.notation), enc_bool(x.phonemic) + (enc_opt_str(x.audio) + (enc_str(x.text))));
                    let qs2: int = qs1 + enc_opt_str(x.notation).len();
                    lemma_split(data@, qs2, enc_bool(x.phonemic), enc_opt_str(x.audio) + (enc_str(x.text)));
                    let qs3: int = qs2 + enc_bool(x.phonemic).len();
                    lemma_split(data@, qs3, enc_opt_str(x.audio), enc_str(x.text));
                    let qs4: int = qs3 + enc_opt_str(x.audio).len();
            assert(out@ == x);
        }
    }
    Some(out)
}

/// The snapshot bytes of a list of `Pronunciation` records: a count, then each
/// record in turn.
pub open spec fn enc_pron_list(s: Seq<crate::models::PronunciationV>) -> Seq<u8> {
    enc_u64(s.len() as u64) + s.map_values(|x: crate::models::PronunciationV| enc_pron(x)).flatten()
}

/// Appends the snapshot bytes of a vector of `Pronunciation` records.
pub fn write_pron_list(buf: &mut Vec<u8>, v: &Vec<crate::models::Pronunciation>)
    ensures
        final(buf)@ == old(buf)@ + enc_pron_list(crate::models::views_of(v@)),
{
    let ghost b0 = buf@;
    let ghost vs = crate::models::views_of(v@);
    let ghost ef = |x: crate::models::PronunciationV| enc_pron(x);
    write_u64(buf, v.len() as u64);
    proof {
        assert(vs.take(0).map_values(ef) =~= Seq::<Seq<u8>>::empty());
        assert(Seq::<Seq<u8>>::empty().flatten() =~= Seq::<u8>::empty());
        assert(buf@ =~= b0 + enc_u64(vs.len() as u64) + vs.take(0).map_values(ef).flatten());
    }
    let n = v.len();
    let mut i: usize = 0;
    while i < n
        invariant
            b0 == old(buf)@,
            vs == crate::models::views_of(v@),
            ef == (|x: crate::models::PronunciationV| enc_pron(x)),
            n == v@.len(),
            vs.len() == n,
            i <= n,
            buf@ == b0 + enc_u64(vs.len() as u64) + vs.take(i as int).map_values(
                ef,
            ).flatten(),
        decreases n - i,
    {
        write_pron(buf, &v[i]);
        proof {
            lemma_take_map_flatten_step(vs, ef, i as int);
            assert(ef(vs[i as int]) == enc_pron(vs[i as int]));
            seq_add_assoc(
                b0 + enc_u64(vs.len() as u64),
                vs.take(i as int).map_values(ef).flatten(),
                ef(vs[i as int]),
            );
            assert(buf@ == b0 + enc_u64(vs.len() as u64) + vs.take(i as int + 1).map_values(
                ef,
            ).flatten());
        }
        i = i + 1;
    }
    proof {
        assert(vs.take(n as int) =~= vs);
        assert(buf@ =~= b0 + enc_pron_list(vs));
    }
}

/// Reads back a vector of `Pronunciation` records from its snapshot bytes.
#[verifier::rlimit(100)]
#[verifier::spinoff_prover]
pub fn read_pron_list(data: &Vec<u8>, pos: &mut usize) -> (r: Option<Vec<crate::models::Pronunciation>>)
    ensures
        forall|s: Seq<crate::models::PronunciationV>|
            starts_with(data@, *old(pos) as int, #[trigger] enc_pron_list(s)) ==> (r
            matches Some(v) && crate::models::views_of(v@) == s && *final(pos) == *old(pos)
            + enc_pron_list(s).len()),
{
    let ghost p0 = *pos as int;
    let ghost ef = |x: crate::models::PronunciationV| enc_pron(x);
    let n = match read_u64(data, pos) {
        Some(n) => n,
        None => {
            proof {
                assert forall|s: Seq<crate::models::PronunciationV>|
                    starts_with(data@, p0, #[trigger] enc_pron_list(s)) implies false by {
                    lemma_split(
                        data@,
                        p0,
                        enc_u64(s.len() as u64),
                        s.map_values(ef).flatten(),
                    );
                }
            }
            return None;
        },
    };
    let dl = data.len();
    if n > (dl as u64) {
        proof {
            assert forall|s: Seq<crate::models::PronunciationV>|
                starts_with(data@, p0, #[trigger] enc_pron_list(s)) implies false by {
                lemma_split(data@, p0, enc_u64(s.len() as u64), s.map_values(ef).flatten());
                assert forall|k: int| 0 <= k < s.map_values(ef).len() implies (
                    #[trigger] s.map_values(ef)[k]).len() >= 1 by {
                    assert(s.map_values(ef)[k] == enc_pron(s[k]));
                    lemma_enc_pron_nonempty(s[k]);
                }
                lemma_flatten_len_bound(s.map_values(ef));
            }
        }
        return None;
    }
    let count = n as usize;
    let mut out: Vec<crate::models::Pronunciation> = Vec::new();
    let mut i: usize = 0;
    proof {
        assert forall|s: Seq<crate::models::PronunciationV>|
            starts_with(data@, p0, #[trigger] enc_pron_list(s)) implies {
            &&& s.len() == count
            &&& crate::models::views_of(out@) == s.take(0)
            &&& *pos == p0 + 8 + s.take(0).map_values(ef).flatten().len()
        } by {
            lemma_split(data@, p0, enc_u64(s.len() as u64), s.map_values(ef).flatten());
            assert forall|k: int| 0 <= k < s.map_values(ef).len() implies (
                #[trigger] s.map_values(ef)[k]).len() >= 1 by {
                assert(s.map_values(ef)[k] == enc_pron(s[k]));
                lemma_enc_pron_nonempty(s[k]);
            }
            lemma_flatten_len_bound(s.map_values(ef));
            assert(s.take(0).map_values(ef) =~= Seq::<Seq<u8>>::empty());
            assert(Seq::<Seq<u8>>::empty().flatten() =~= Seq::<u8>::empty());
            assert(crate::models::views_of(out@) =~= s.take(0));
        }
    }
    while i < count
        invariant
            p0 == *old(pos) as int,
            ef == (|x: crate::models::PronunciationV| enc_pron(x)),
            i <= count,
            out@.len() == i,
            forall|s: Seq<crate::models::PronunciationV>|
                starts_with(data@, p0, #[trigger] enc_pron_list(s)) ==> {
                    &&& s.len() == count
                    &&& crate::models::views_of(out@) == s.take(i as int)
                    &&& *pos == p0 + 8 + s.take(i as int).map_values(ef).flatten().len()
                },
        decreases count - i,
    {
        let ghost qi = *pos as int;
        let item = match read_pron(data, pos) {
            Some(v) => v,
            None => {
                proof {
                    assert forall|s: Seq<crate::models::PronunciationV>|
                        starts_with(data@, p0, #[trigger] enc_pron_list(s)) implies false by {
                        lemma_list_elem_at(data@, p0, s, ef, i as int);
                        assert(qi == p0 + 8 + s.take(i as int).map_values(ef).flatten().len());
                        assert(ef(s[i as int]) == enc_pron(s[i as int]));
                        assert(starts_with(data@, qi, enc_pron(s[i as int])));
                    }
                }
                return None;
            },
        };
        let ghost out0 = out@;
        out.push(item);
        proof {
            assert forall|s: Seq<crate::models::PronunciationV>|
                starts_with(data@, p0, #[trigger] enc_pron_list(s)) implies {
                &&& crate::models::views_of(out@) == s.take(i as int + 1)
                &&& *pos == p0 + 8 + s.take(i as int + 1).map_values(ef).flatten().len()
            } by {
                lemma_list_elem_at(data@, p0, s, ef, i as int);
                assert(qi == p0 + 8 + s.take(i as int).map_values(ef).flatten().len());
                assert(ef(s[i as int]) == enc_pron(s[i as int]));
                assert(starts_with(data@, qi, enc_pron(s[i as int])));
                assert(crate::models::views_of(out0.push(out@.last())) =~= crate::models::views_of(
                    out0,
                ).push(out@.last()@));
                assert(crate::models::views_of(out@) =~= s.take(i as int + 1));
                lemma_take_map_flatten_step(s, ef, i as int);
            }
        }
        i = i + 1;
    }
    proof {
        assert forall|s: Seq<crate::models::PronunciationV>|
            starts_with(data@, p0, #[trigger] enc_pron_list(s)) implies (crate::models::views_of(
            out@,
        ) == s && *pos == p0 + enc_pron_list(s).len()) by {
            assert(s.take(count as int) =~= s);
        }
    }
    Some(out)
}

/// The snapshot bytes of a `SenseRelation`.
pub open spec fn enc_sense_rel(x: crate::models::SenseRelationV) -> Seq<u8> {
    enc_srel(x.rel_type) + (enc_str(x.target))
}

/// A `SenseRelation` encoding is never empty.
proof fn lemma_enc_sense_rel_nonempty(x: crate::models::SenseRelationV)
    ensures
        enc_sense_rel(x).len() >= 1,
{
}

/// Appends the snapshot bytes of a `SenseRelation`.
#[verifier::rlimit(100)]
#[verifier::spinoff_prover]
pub fn write_sense_rel(buf: &mut Vec<u8>, x: &crate::models::SenseRelation)
    ensures
        final(buf)@ == old(buf)@ + enc_sense_rel(x@),
{
    let ghost b0 = buf@;
    write_srel(buf, x.rel_type);
    write_str(buf, x.target.as_str());
    proof {
        let e1 = enc_srel(x@.rel_type);
        let e2 = enc_str(x@.target);
        assert(buf@ == b0 + e1 + e2);
        seq_add_assoc(b0, e1, e2);
        assert(buf@ == b0 + enc_sense_rel(x@));
    }
}

/// Reads back a `SenseRelation` from its snapshot bytes.
#[verifier::rlimit(100)]
#[verifier::spinoff_prover]
pub fn read_sense_rel(data: &Vec<u8>, pos: &mut usize) -> (r: Option<crate::models::SenseRelation>)
    ensures
        forall|x: crate::models::SenseRelationV|
            starts_with(data@, *old(pos) as int, #[trigger] enc_sense_rel(x)) ==> (r matches
            Some(v) && v@ == x && *final(pos) == *old(pos) + enc_sense_rel(x).len()),
{
    let ghost p0 = *pos as int;
    let ghost q0 = *pos as int;
    let v0 = match read_srel(data, pos) {
        Some(v) => v,
        None => {
            proof {
                assert forall|x: crate::models::SenseRelationV|
                    starts_with(data@, p0, #[trigger] enc_sense_rel(x)) implies false by {
                    let qs0: int = p0;
                    lemma_split(data@, qs0, enc_srel(x.rel_type), enc_str(x.target));
                    let qs1: int = qs0 + enc_srel(x.rel_type).len();
                }
            }
            return None;
        },
    };
    let ghost q1 = *pos as int;
    let v1 = match read_str(data, pos) {
        Some(v) => v,
        None => {
            proof {
                assert forall|x: crate::models::SenseRelationV|
                    starts_with(data@, p0, #[trigger] enc_sense_rel(x)) implies false by {
                    let qs0: int = p0;
                    lemma_split(data@, qs0, enc_srel(x.rel_type), enc_str(x.target));
                    let qs1: int = qs0 + enc_srel(x.rel_type).len();
                }
            }
            return None;
        },
    };
    let out = crate::models::SenseRelation {
        rel_type: v0,
        target: v1,
    };
    proof {
        assert forall|x: crate::models::SenseRelationV|
            starts_with(data@, p0, #[trigger] enc_sense_rel(x)) implies (out@ == x && *pos
            == p0 + enc_sense_rel(x).len()) by {
                    let qs0: int = p0;
                    lemma_split(data@, qs0, enc_srel(x.rel_type), enc_str(x.target));
                    let qs1: int = qs0 + enc_srel(x.rel_type).len();
            assert(out@ == x);
        }
    }
    Some(out)
}

/// The snapshot bytes of a list of `SenseRelation` records: a count, then each
/// record in turn.
pub open spec fn enc_sense_rel_list(s: Seq<crate::models::SenseRelationV>) -> Seq<u8> {
    enc_u64(s.len() as u64) + s.map_values(|x: crate::models::SenseRelationV| enc_sense_rel(x)).flatten()
}

/// Appends the snapshot bytes of a vector of `SenseRelation` records.
pub fn write_sense_rel_list(buf: &mut Vec<u8>, v: &Vec<crate::models::SenseRelation>)
    ensures
        final(buf)@ == old(buf)@ + enc_sense_rel_list(crate::models::views_of(v@)),
{
    let ghost b0 = buf@;
    let ghost vs = crate::models::views_of(v@);
    let ghost ef = |x: crate::models::SenseRelationV| enc_sense_rel(x);
    write_u64(buf, v.len() as u64);
    proof {
        assert(vs.take(0).map_values(ef) =~= Seq::<Seq<u8>>::empty());
        assert(Seq::<Seq<u8>>::empty().flatten() =~= Seq::<u8>::empty());
        assert(buf@ =~= b0 + enc_u64(vs.len() as u64) + vs.take(0).map_values(ef).flatten());
    }
    let n = v.len();
    let mut i: usize = 0;
    while i < n
        invariant
            b0 == old(buf)@,
            vs == crate::models::views_of(v@),
            ef == (|x: crate::models::SenseRelationV| enc_sense_rel(x)),
            n == v@.len(),
            vs.len() == n,
            i <= n,
            buf@ == b0 + enc_u64(vs.len() as u64) + vs.take(i as int).map_values(
                ef,
            ).flatten(),
        decreases n - i,
    {
        write_sense_rel(buf, &v[i]);
        proof {
            lemma_take_map_flatten_step(vs, ef, i as int);
            assert(ef(vs[i as int]) == enc_sense_rel(vs[i as int]));
            seq_add_assoc(
                b0 + enc_u64(vs.len() as u64),
                vs.take(i as int).map_values(ef).flatten(),
                ef(vs[i as int]),
            );
            assert(buf@ == b0 + enc_u64(vs.len() as u64) + vs.take(i as int + 1).map_values(
                ef,
            ).flatten());
        }
        i = i + 1;
    }
    proof {
        assert(vs.take(n as int) =~= vs);
        assert(buf@ =~= b0 + enc_sense_rel_list(vs));
    }
}

/// Reads back a vector of `SenseRelation` records from its snapshot bytes.
#[verifier::rlimit(100)]
#[verifier::spinoff_prover]
pub fn read_sense_rel_list(data: &Vec<u8>, pos: &mut usize) -> (r: Option<Vec<crate::models::SenseRelation>>)
    ensures
        forall|s: Seq<crate::models::SenseRelationV>|
            starts_with(data@, *old(pos) as int, #[trigger] enc_sense_rel_list(s)) ==> (r
            matches Some(v) && crate::models::views_of(v@) == s && *final(pos) == *old(pos)
            + enc_sense_rel_list(s).len()),
{
    let ghost p0 = *pos as int;
    let ghost ef = |x: crate::models::SenseRelationV| enc_sense_rel(x);
    let n = match read_u64(data, pos) {
        Some(n) => n,
        None => {
            proof {
                assert forall|s: Seq<crate::models::SenseRelationV>|
                    starts_with(data@, p0, #[trigger] enc_sense_rel_list(s)) implies false by {
                    lemma_split(
                        data@,
                        p0,
                        enc_u64(s.len() as u64),
                        s.map_values(ef).flatten(),
                    );
                }
            }
            return None;
        },
    };
    let dl = data.len();
    if n > (dl as u64) {
        proof {
            assert forall|s: Seq<crate::models::SenseRelationV>|
                starts_with(data@, p0, #[trigger] enc_sense_rel_list(s)) implies false by {
                lemma_split(data@, p0, enc_u64(s.len() as u64), s.map_values(ef).flatten());
                assert forall|k: int| 0 <= k < s.map_values(ef).len() implies (
                    #[trigger] s.map_values(ef)[k]).len() >= 1 by {
                    assert(s.map_values(ef)[k] == enc_sense_rel(s[k]));
                    lemma_enc_sense_rel_nonempty(s[k]);
                }
                lemma_flatten_len_bound(s.map_values(ef));
            }
        }
        return None;
    }
    let count = n as usize;
    let mut out: Vec<crate::models::SenseRelation> = Vec::new();
    let mut i: usize = 0;
    proof {
        assert forall|s: Seq<crate::models::SenseRelationV>|
            starts_with(data@, p0, #[trigger] enc_sense_rel_list(s)) implies {
            &&& s.len() == count
            &&& crate::models::views_of(out@) == s.take(0)
            &&& *pos == p0 + 8 + s.take(0).map_values(ef).flatten().len()
        } by {
            lemma_split(data@, p0, enc_u64(s.len() as u64), s.map_values(ef).flatten());
            assert forall|k: int| 0 <= k < s.map_values(ef).len() implies (
                #[trigger] s.map_values(ef)[k]).len() >= 1 by {
                assert(s.map_values(ef)[k] == enc_sense_rel(s[k]));
                lemma_enc_sense_rel_nonempty(s[k]);
            }
            lemma_flatten_len_bound(s.map_values(ef));
            assert(s.take(0).map_values(ef) =~= Seq::<Seq<u8>>::empty());
            assert(Seq::<Seq<u8>>::empty().flatten() =~= Seq::<u8>::empty());
            assert(crate::models::views_of(out@) =~= s.take(0));
        }
    }
    while i < count
        invariant
            p0 == *old(pos) as int,
            ef == (|x: crate::models::SenseRelationV| enc_sense_rel(x)),
            i <= count,
            out@.len() == i,
            forall|s: Seq<crate::models::SenseRelationV>|
                starts_with(data@, p0, #[trigger] enc_sense_rel_list(s)) ==> {
                    &&& s.len() == count
                    &&& crate::models::views_of(out@) == s.take(i as int)
                    &&& *pos == p0 + 8 + s.take(i as int).map_values(ef).flatten().len()
                },
        decreases count - i,
    {
        let ghost qi = *pos as int;
        let item = match read_sense_rel(data, pos) {
            Some(v) => v,
            None => {
                proof {
                    assert forall|s: Seq<crate::models::SenseRelationV>|
                        starts_with(data@, p0, #[trigger] enc_sense_rel_list(s)) implies false by {
                        lemma_list_elem_at(data@, p0, s, ef, i as int);
                        assert(qi == p0 + 8 + s.take(i as int).map_values(ef).flatten().len());
                        assert(ef(s[i as int]) == enc_sense_rel(s[i as int]));
                        assert(starts_with(data@, qi, enc_sense_rel(s[i as int])));
                    }
                }
                return None;
            },
        };
        let ghost out0 = out@;
        out.push(item);
        proof {
            assert forall|s: Seq<crate::models::SenseRelationV>|
                starts_with(data@, p0, #[trigger] enc_sense_rel_list(s)) implies {
                &&& crate::models::views_of(out@) == s.take(i as int + 1)
                &&& *pos == p0 + 8 + s.take(i as int + 1).map_values(ef).flatten().len()
            } by {
                lemma_list_elem_at(data@, p0, s, ef, i as int);
                assert(qi == p0 + 8 + s.take(i as int).map_values(ef).flatten().len());
                assert(ef(s[i as int]) == enc_sense_rel(s[i as int]));
                assert(starts_with(data@, qi, enc_sense_rel(s[i as int])));
                assert(crate::models::views_of(out0.push(out@.last())) =~= crate::models::views_of(
                    out0,
                ).push(out@.last()@));
                assert(crate::models::views_of(out@) =~= s.take(i as int + 1));
                lemma_take_map_flatten_step(s, ef, i as int);
            }
        }
        i = i + 1;
    }
    proof {
        assert forall|s: Seq<crate::models::SenseRelationV>|
            starts_with(data@, p0, #[trigger] enc_sense_rel_list(s)) implies (crate::models::views_of(
            out@,
        ) == s && *pos == p0 + enc_sense_rel_list(s).len()) by {
            assert(s.take(count as int) =~= s);
        }
    }
    Some(out)
}

/// The snapshot bytes of a `Sense`.
pub open spec fn enc_sense(x: crate::models::SenseV) -> Seq<u8> {
    enc_str(x.id) + (enc_str(x.synset) + (enc_sense_rel_list(x.sense_relations)))
}

/// A `Sense` encoding is never empty.
proof fn lemma_enc_sense_nonempty(x: crate::models::SenseV)
    ensures
        enc_sense(x).len() >= 1,
{
}

/// Appends the snapshot bytes of a `Sense`.
#[verifier::rlimit(100)]
#[verifier::spinoff_prover]
pub fn write_sense(buf: &mut Vec<u8>, x: &crate::models::Sense)
    ensures
        final(buf)@ == old(buf)@ + enc_sense(x@),
{
    let ghost b0 = buf@;
    write_str(buf, x.id.as_str());
    write_str(buf, x.synset.as_str());
    write_sense_rel_list(buf, &x.sense_relations);
    proof {
        let e1 = enc_str(x@.id);
        let e2 = enc_str(x@.synset);
        let e3 = enc_sense_rel_list(x@.sense_relations);
        assert(buf@ == b0 + e1 + e2 + e3);
        seq_add_assoc(b0 + e1, e2, e3);
        seq_add_assoc(b0, e1, e2 + (e3));
        assert(buf@ == b0 + enc_sense(x@));
    }
}

/// Reads back a `Sense` from its snapshot bytes.
#[verifier::rlimit(100)]
#[verifier::spinoff_prover]
pub fn read_sense(data: &Vec<u8>, pos: &mut usize) -> (r: Option<crate::models::Sense>)
    ensures
        forall|x: crate::models::SenseV|
            starts_with(data@, *old(pos) as int, #[trigger] enc_sense(x)) ==> (r matches
            Some(v) && v@ == x && *final(pos) == *old(pos) + enc_sense(x).len()),
{
    let ghost p0 = *pos as int;
    let ghost q0 = *pos as int;
    let v0 = match read_str(data, pos) {
        Some(v) => v,
        None => {
            proof {
                assert forall|x: crate::models::SenseV|
                    starts_with(data@, p0, #[trigger] enc_sense(x)) implies false by {
                    let qs0: int = p0;
                    lemma_split(data@, qs0, enc_str(x.id), enc_str(x.synset) + (enc_sense_rel_list(x.sense_relations)));
                    let qs1: int = qs0 + enc_str(x.id).len();
                }
            }
            return None;
        },
    };
    let ghost q1 = *pos as int;
    let v1 = match read_str(data, pos) {
        Some(v) => v,
        None => {
            proof {
                assert forall|x: crate::models::SenseV|
                    starts_with(data@, p0, #[trigger] enc_sense(x)) implies false by {
                    let qs0: int = p0;
                    lemma_split(data@, qs0, enc_str(x.id), enc_str(x.synset) + (enc_sense_rel_list(x.sense_relations)));
                    let qs1: int = qs0 + enc_str(x.id).len();
                    lemma_split(data@, qs1, enc_str(x.synset), enc_sense_rel_list(x.sense_relations));
                    let qs2: int = qs1 + enc_str(x.synset).len();
                }
            }
            return None;
        },
    };
    let ghost q2 = *pos as int;
    let v2 = match read_sense_rel_list(data, pos) {
        Some(v) => v,
        None => {
            proof {
                assert forall|x: crate::models::SenseV|
                    starts_with(data@, p0, #[trigger] enc_sense(x)) implies false by {
                    let qs0: int = p0;
                    lemma_split(data@, qs0, enc_str(x.id), enc_str(x.synset) + (enc_sense_rel_list(x.sense_relations)));
                    let qs1: int = qs0 + enc_str(x.id).len();
                    lemma_split(data@, qs1, enc_str(x.synset), enc_sense_rel_list(x.sense_relations));
                    let qs2: int = qs1 + enc_str(x.synset).len();
                }
            }
            return None;
        },
    };
    let out = crate::models::Sense {
        id: v0,
        synset: v1,
        sense_relations: v2,
    };
    proof {
        assert forall|x: crate::models::SenseV|
            starts_with(data@, p0, #[trigger] enc_sense(x)) implies (out@ == x && *pos
            == p0 + enc_sense(x).len()) by {
                    let qs0: int = p0;
                    lemma_split(data@, qs0, enc_str(x.id), enc_str(x.synset) + (enc_sense_rel_list(x.sense_relations)));
                    let qs1: int = qs0 + enc_str(x.id).len();
                    lemma_split(data@, qs1, enc_str(x.synset), enc_sense_rel_list(x.sense_relations));
                    let qs2: int = qs1 + enc_str(x.synset).len();
            assert(out@ == x);
        }
    }
    Some(out)
}

/// The snapshot bytes of a list of `Sense` records: a count, then each
/// record in turn.
pub open spec fn enc_sense_list(s: Seq<crate::models::SenseV>) -> Seq<u8> {
    enc_u64(s.len() as u64) + s.map_values(|x: crate::models::SenseV| enc_sense(x)).flatten()
}

/// Appends the snapshot bytes of a vector of `Sense` records.
pub fn write_sense_list(buf: &mut Vec<u8>, v: &Vec<crate::models::Sense>)
    ensures
        final(buf)@ == old(buf)@ + enc_sense_list(crate::models::views_of(v@)),
{
    let ghost b0 = buf@;
    let ghost vs = crate::models::views_of(v@);
    let ghost ef = |x: crate::models::SenseV| enc_sense(x);
    write_u64(buf, v.len() as u64);
    proof {
        assert(vs.take(0).map_values(ef) =~= Seq::<Seq<u8>>::empty());
        assert(Seq::<Seq<u8>>::empty().flatten() =~= Seq::<u8>::empty());
        assert(buf@ =~= b0 + enc_u64(vs.len() as u64) + vs.take(0).map_values(ef).flatten());
    }
    let n = v.len();
    let mut i: usize = 0;
    while i < n
        invariant
            b0 == old(buf)@,
            vs == crate::models::views_of(v@),
            ef == (|x: crate::models::SenseV| enc_sense(x)),
            n == v@.len(),
            vs.len() == n,
            i <= n,
            buf@ == b0 + enc_u64(vs.len() as u64) + vs.take(i as int).map_values(
                ef,
            ).flatten(),
        decreases n - i,
    {
        write_sense(buf, &v[i]);
        proof {
            lemma_take_map_flatten_step(vs, ef, i as int);
            assert(ef(vs[i as int]) == enc_sense(vs[i as int]));
            seq_add_assoc(
                b0 + enc_u64(vs.len() as u64),
                vs.take(i as int).map_values(ef).flatten(),
                ef(vs[i as int]),
            );
            assert(buf@ == b0 + enc_u64(vs.len() as u64) + vs.take(i as int + 1).map_values(
                ef,
            ).flatten());
        }
        i = i + 1;
    }
    proof {
        assert(vs.take(n as int) =~= vs);
        assert(buf@ =~= b0 + enc_sense_list(vs));
    }
}

/// Reads back a vector of `Sense` records from its snapshot bytes.
#[verifier::rlimit(100)]
#[verifier::spinoff_prover]
pub fn read_sense_list(data: &Vec<u8>, pos: &mut usize) -> (r: Option<Vec<crate::models::Sense>>)
    ensures
        forall|s: Seq<crate::models::SenseV>|
            starts_with(data@, *old(pos) as int, #[trigger] enc_sense_list(s)) ==> (r
            matches Some(v) && crate::models::views_of(v@) == s && *final(pos) == *old(pos)
            + enc_sense_list(s).len()),
{
    let ghost p0 = *pos as int;
    let ghost ef = |x: crate::models::SenseV| enc_sense(x);
    let n = match read_u64(data, pos) {
        Some(n) => n,
        None => {
            proof {
                assert forall|s: Seq<crate::models::SenseV>|
                    starts_with(data@, p0, #[trigger] enc_sense_list(s)) implies false by {
                    lemma_split(
                        data@,
                        p0,
                        enc_u64(s.len() as u64),
                        s.map_values(ef).flatten(),
                    );
                }
            }
            return None;
        },
    };
    let dl = data.len();
    if n > (dl as u64) {
        proof {
            assert forall|s: Seq<crate::models::SenseV>|
                starts_with(data@, p0, #[trigger] enc_sense_list(s)) implies false by {
                lemma_split(data@, p0, enc_u64(s.len() as u64), s.map_values(ef).flatten());
                assert forall|k: int| 0 <= k < s.map_values(ef).len() implies (
                    #[trigger] s.map_values(ef)[k]).len() >= 1 by {
                    assert(s.map_values(ef)[k] == enc_sense(s[k]));
                    lemma_enc_sense_nonempty(s[k]);
                }
                lemma_flatten_len_bound(s.map_values(ef));
            }
        }
        return None;
    }
    let count = n as usize;
    let mut out: Vec<crate::models::Sense> = Vec::new();
    let mut i: usize = 0;
    proof {
        assert forall|s: Seq<crate::models::SenseV>|
            starts_with(data@, p0, #[trigger] enc_sense_list(s)) implies {
            &&& s.len() == count
            &&& crate::models::views_of(out@) == s.take(0)
            &&& *pos == p0 + 8 + s.take(0).map_values(ef).flatten().len()
        } by {
            lemma_split(data@, p0, enc_u64(s.len() as u64), s.map_values(ef).flatten());
            assert forall|k: int| 0 <= k < s.map_values(ef).len() implies (
                #[trigger] s.map_values(ef)[k]).len() >= 1 by {
                assert(s.map_values(ef)[k] == enc_sense(s[k]));
                lemma_enc_sense_nonempty(s[k]);
            }
            lemma_flatten_len_bound(s.map_values(ef));
            assert(s.take(0).map_values(ef) =~= Seq::<Seq<u8>>::empty());
            assert(Seq::<Seq<u8>>::empty().flatten() =~= Seq::<u8>::empty());
            assert(crate::models::views_of(out@) =~= s.take(0));
        }
    }
    while i < count
        invariant
            p0 == *old(pos) as int,
            ef == (|x: crate::models::SenseV| enc_sense(x)),
            i <= count,
            out@.len() == i,
            forall|s: Seq<crate::models::SenseV>|
                starts_with(data@, p0, #[trigger] enc_sense_list(s)) ==> {
                    &&& s.len() == count
                    &&& crate::models::views_of(out@) == s.take(i as int)
                    &&& *pos == p0 + 8 + s.take(i as int).map_values(ef).flatten().len()
                },
        decreases count - i,
    {
        let ghost qi = *pos as int;
        let item = match read_sense(data, pos) {
            Some(v) => v,
            None => {
                proof {
                    assert forall|s: Seq<crate::models::SenseV>|
                        starts_with(data@, p0, #[trigger] enc_sense_list(s)) implies false by {
                        lemma_list_elem_at(data@, p0, s, ef, i as int);
                        assert(qi == p0 + 8 + s.take(i as int).map_values(ef).flatten().len());
                        assert(ef(s[i as int]) == enc_sense(s[i as int]));
                        assert(starts_with(data@, qi, enc_sense(s[i as int])));
                    }
                }
                return None;
            },
        };
        let ghost out0 = out@;
        out.push(item);
        proof {
            assert forall|s: Seq<crate::models::SenseV>|
                starts_with(data@, p0, #[trigger] enc_sense_list(s)) implies {
                &&& crate::models::views_of(out@) == s.take(i as int + 1)
                &&& *pos == p0 + 8 + s.take(i as int + 1).map_values(ef).flatten().len()
            } by {
                lemma_list_elem_at(data@, p0, s, ef, i as int);
                assert(qi == p0 + 8 + s.take(i as int).map_values(ef).flatten().len());
                assert(ef(s[i as int]) == enc_sense(s[i as int]));
                assert(starts_with(data@, qi, enc_sense(s[i as int])));
                assert(crate::models::views_of(out0.push(out@.last())) =~= crate::models::views_of(
                    out0,
                ).push(out@.last()@));
                assert(crate::models::views_of(out@) =~= s.take(i as int + 1));
                lemma_take_map_flatten_step(s, ef, i as int);
            }
        }
        i = i + 1;
    }
    proof {
        assert forall|s: Seq<crate::models::SenseV>|
            starts_with(data@, p0, #[trigger] enc_sense_list(s)) implies (crate::models::views_of(
            out@,
        ) == s && *pos == p0 + enc_sense_list(s).len()) by {
            assert(s.take(count as int) =~= s);
        }
    }
    Some(out)
}

/// The snapshot bytes of a `Definition`.
pub open spec fn enc_definition(x: crate::models::DefinitionV) -> Seq<u8> {
    enc_opt_str(x.dc_source) + (enc_str(x.text))
}

/// A `Definition` encoding is never empty.
proof fn lemma_enc_definition_nonempty(x: crate::models::DefinitionV)
    ensures
        enc_definition(x).len() >= 1,
{
}

/// Appends the snapshot bytes of a `Definition`.
#[verifier::rlimit(100)]
#[verifier::spinoff_prover]
pub fn write_definition(buf: &mut Vec<u8>, x: &crate::models::Definition)
    ensures
        final(buf)@ == old(buf)@ + enc_definition(x@),
{
    let ghost b0 = buf@;
    write_opt_str(buf, &x.dc_source);
    write_str(buf, x.text.as_str());
    proof {
        let e1 = enc_opt_str(x@.dc_source);
        let e2 = enc_str(x@.text);
        assert(buf@ == b0 + e1 + e2);
        seq_add_assoc(b0, e1, e2);
        assert(buf@ == b0 + enc_definition(x@));
    }
}

/// Reads back a `Definition` from its snapshot bytes.
#[verifier::rlimit(100)]
#[verifier::spinoff_prover]
pub fn read_definition(data: &Vec<u8>, pos: &mut usize) -> (r: Option<crate::models::Definition>)
    ensures
        forall|x: crate::models::DefinitionV|
            starts_with(data@, *old(pos) as int, #[trigger] enc_definition(x)) ==> (r matches
            Some(v) && v@ == x && *final(pos) == *old(pos) + enc_definition(x).len()),
{
    let ghost p0 = *pos as int;
    let ghost q0 = *pos as int;
    let v0 = match read_opt_str(data, pos) {
        Some(v) => v,
        None => {
            proof {
                assert forall|x: crate::models::DefinitionV|
                    starts_with(data@, p0, #[trigger] enc_definition(x)) implies false by {
                    let qs0: int = p0;
                    lemma_split(data@, qs0, enc_opt_str(x.dc_source), enc_str(x.text));
                    let qs1: int = qs0 + enc_opt_str(x.dc_source).len();
                }
            }
            return None;
        },
    };
    let ghost q1 = *pos as int;
    let v1 = match read_str(data, pos) {
        Some(v) => v,
        None => {
            proof {
                assert forall|x: crate::models::DefinitionV|
                    starts_with(data@, p0, #[trigger] enc_definition(x)) implies false by {
                    let qs0: int = p0;
                    lemma_split(data@, qs0, enc_opt_str(x.dc_source), enc_str(x.text));
                    let qs1: int = qs0 + enc_opt_str(x.dc_source).len();
                }
            }
            return None;
        },
    };
    let out = crate::models::Definition {
        dc_source: v0,
        text: v1,
    };
    proof {
        assert forall|x: crate::models::DefinitionV|
            starts_with(data@, p0, #[trigger] enc_definition(x)) implies (out@ == x && *pos
            == p0 + enc_definition(x).len()) by {
                    let qs0: int = p0;
                    lemma_split(data@, qs0, enc_opt_str(x.dc_source), enc_str(x.text));
                    let qs1: int = qs0 + enc_opt_str(x.dc_source).len();
            assert(out@ == x);
        }
    }
    Some(out)
}

/// The snapshot bytes of a list of `Definition` records: a count, then each
/// record in turn.
pub open spec fn enc_definition_list(s: Seq<crate::models::DefinitionV>) -> Seq<u8> {
    enc_u64(s.len() as u64) + s.map_values(|x: crate::models::DefinitionV| enc_definition(x)).flatten()
}

/// Appends the snapshot bytes of a vector of `Definition` records.
pub fn write_definition_list(buf: &mut Vec<u8>, v: &Vec<crate::models::Definition>)
    ensures
        final(buf)@ == old(buf)@ + enc_definition_list(crate::models::views_of(v@)),
{
    let ghost b0 = buf@;
    let ghost vs = crate::models::views_of(v@);
    let ghost ef = |x: crate::models::DefinitionV| enc_definition(x);
    write_u64(buf, v.len() as u64);
    proof {
        assert(vs.take(0).map_values(ef) =~= Seq::<Seq<u8>>::empty());
        assert(Seq::<Seq<u8>>::empty().flatten() =~= Seq::<u8>::empty());
        assert(buf@ =~= b0 + enc_u64(vs.len() as u64) + vs.take(0).map_values(ef).flatten());
    }
    let n = v.len();
    let mut i: usize = 0;
    while i < n
        invariant
            b0 == old(buf)@,
            vs == crate::models::views_of(v@),
            ef == (|x: crate::models::DefinitionV| enc_definition(x)),
            n == v@.len(),
            vs.len() == n,
            i <= n,
            buf@ == b0 + enc_u64(vs.len() as u64) + vs.take(i as int).map_values(
                ef,
            ).flatten(),
        decreases n - i,
    {
        write_definition(buf, &v[i]);
        proof {
            lemma_take_map_flatten_step(vs, ef, i as int);
            assert(ef(vs[i as int]) == enc_definition(vs[i as int]));
            seq_add_assoc(
                b0 + enc_u64(vs.len() as u64),
                vs.take(i as int).map_values(ef).flatten(),
                ef(vs[i as int]),
            );
            assert(buf@ == b0 + enc_u64(vs.len() as u64) + vs.take(i as int + 1).map_values(
                ef,
            ).flatten());
        }
        i = i + 1;
    }
    proof {
        assert(vs.take(n as int) =~= vs);
        assert(buf@ =~= b0 + enc_definition_list(vs));
    }
}

/// Reads back a vector of `Definition` records from its snapshot bytes.
#[verifier::rlimit(100)]
#[verifier::spinoff_prover]
pub fn read_definition_list(data: &Vec<u8>, pos: &mut usize) -> (r: Option<Vec<crate::models::Definition>>)
    ensures
        forall|s: Seq<crate::models::DefinitionV>|
            starts_with(data@, *old(pos) as int, #[trigger] enc_definition_list(s)) ==> (r
            matches Some(v) && crate::models::views_of(v@) == s && *final(pos) == *old(pos)
            + enc_definition_list(s).len()),
{
    let ghost p0 = *pos as int;
    let ghost ef = |x: crate::models::DefinitionV| enc_definition(x);
    let n = match read_u64(data, pos) {
        Some(n) => n,
        None => {
            proof {
                assert forall|s: Seq<crate::models::DefinitionV>|
                    starts_with(data@, p0, #[trigger] enc_definition_list(s)) implies false by {
                    lemma_split(
                        data@,
                        p0,
                        enc_u64(s.len() as u64),
                        s.map_values(ef).flatten(),
                    );
                }
            }
            return None;
        },
    };
    let dl = data.len();
    if n > (dl as u64) {
        proof {
            assert forall|s: Seq<crate::models::DefinitionV>|
                starts_with(data@, p0, #[trigger] enc_definition_list(s)) implies false by {
                lemma_split(data@, p0, enc_u64(s.len() as u64), s.map_values(ef).flatten());
                assert forall|k: int| 0 <= k < s.map_values(ef).len() implies (
                    #[trigger] s.map_values(ef)[k]).len() >= 1 by {
                    assert(s.map_values(ef)[k] == enc_definition(s[k]));
                    lemma_enc_definition_nonempty(s[k]);
                }
                lemma_flatten_len_bound(s.map_values(ef));
            }
        }
        return None;
    }
    let count = n as usize;
    let mut out: Vec<crate::models::Definition> = Vec::new();
    let mut i: usize = 0;
    proof {
        assert forall|s: Seq<crate::models::DefinitionV>|
            starts_with(data@, p0, #[trigger] enc_definition_list(s)) implies {
            &&& s.len() == count
            &&& crate::models::views_of(out@) == s.take(0)
            &&& *pos == p0 + 8 + s.take(0).map_values(ef).flatten().len()
        } by {
            lemma_split(data@, p0, enc_u64(s.len() as u64), s.map_values(ef).flatten());
            assert forall|k: int| 0 <= k < s.map_values(ef).len() implies (
                #[trigger] s.map_values(ef)[k]).len() >= 1 by {
                assert(s.map_values(ef)[k] == enc_definition(s[k]));
                lemma_enc_definition_nonempty(s[k]);
            }
            lemma_flatten_len_bound(s.map_values(ef));
            assert(s.take(0).map_values(ef) =~= Seq::<Seq<u8>>::empty());
            assert(Seq::<Seq<u8>>::empty().flatten() =~= Seq::<u8>::empty());
            assert(crate::models::views_of(out@) =~= s.take(0));
        }
    }
    while i < count
        invariant
            p0 == *old(pos) as int,
            ef == (|x: crate::models::DefinitionV| enc_definition(x)),
            i <= count,
            out@.len() == i,
            forall|s: Seq<crate::models::DefinitionV>|
                starts_with(data@, p0, #[trigger] enc_definition_list(s)) ==> {
                    &&& s.len() == count
                    &&& crate::models::views_of(out@) == s.take(i as int)
                    &&& *pos == p0 + 8 + s.take(i as int).map_values(ef).flatten().len()
                },
        decreases count - i,
    {
        let ghost qi = *pos as int;
        let item = match read_definition(data, pos) {
            Some(v) => v,
            None => {
                proof {
                    assert forall|s: Seq<crate::models::DefinitionV>|
                        starts_with(data@, p0, #[trigger] enc_definition_list(s)) implies false by {
                        lemma_list_elem_at(data@, p0, s, ef, i as int);
                        assert(qi == p0 + 8 + s.take(i as int).map_values(ef).flatten().len());
                        assert(ef(s[i as int]) == enc_definition(s[i as int]));
                        assert(starts_with(data@, qi, enc_definition(s[i as int])));
                    }
                }
                return None;
            },
        };
        let ghost out0 = out@;
        out.push(item);
        proof {
            assert forall|s: Seq<crate::models::DefinitionV>|
                starts_with(data@, p0, #[trigger] enc_definition_list(s)) implies {
                &&& crate::models::views_of(out@) == s.take(i as int + 1)
                &&& *pos == p0 + 8 + s.take(i as int + 1).map_values(ef).flatten().len()
            } by {
                lemma_list_elem_at(data@, p0, s, ef, i as int);
                assert(qi == p0 + 8 + s.take(i as int).map_values(ef).flatten().len());
                assert(ef(s[i as int]) == enc_definition(s[i as int]));
                assert(starts_with(data@, qi, enc_definition(s[i as int])));
                assert(crate::models::views_of(out0.push(out@.last())) =~= crate::models::views_of(
                    out0,
                ).push(out@.last()@));
                assert(crate::models::views_of(out@) =~= s.take(i as int + 1));
                lemma_take_map_flatten_step(s, ef, i as int);
            }
        }
        i = i + 1;
    }
    proof {
        assert forall|s: Seq<crate::models::DefinitionV>|
            starts_with(data@, p0, #[trigger] enc_definition_list(s)) implies (crate::models::views_of(
            out@,
        ) == s && *pos == p0 + enc_definition_list(s).len()) by {
            assert(s.take(count as int) =~= s);
        }
    }
    Some(out)
}

/// The snapshot bytes of a `ILIDefinition`.
pub open spec fn enc_ili_def(x: crate::models::ILIDefinitionV) -> Seq<u8> {
    enc_opt_str(x.dc_source) + (enc_str(x.text))
}

/// A `ILIDefinition` encoding is never empty.
proof fn lemma_enc_ili_def_nonempty(x: crate::models::ILIDefinitionV)
    ensures
        enc_ili_def(x).len() >= 1,
{
}

/// Appends the snapshot bytes of a `ILIDefinition`.
#[verifier::rlimit(100)]
#[verifier::spinoff_prover]
pub fn write_ili_def(buf: &mut Vec<u8>, x: &crate::models::ILIDefinition)
    ensures
        final(buf)@ == old(buf)@ + enc_ili_def(x@),
{
    let ghost b0 = buf@;
    write_opt_str(buf, &x.dc_source);
    write_str(buf, x.text.as_str());
    proof {
        let e1 = enc_opt_str(x@.dc_source);
        let e2 = enc_str(x@.text);
        assert(buf@ == b0 + e1 + e2);
        seq_add_assoc(b0, e1, e2);
        assert(buf@ == b0 + enc_ili_def(x@));
    }
}

/// Reads back a `ILIDefinition` from its snapshot bytes.
#[verifier::rlimit(100)]
#[verifier::spinoff_prover]
pub fn read_ili_def(data: &Vec<u8>, pos: &mut usize) -> (r: Option<crate::models::ILIDefinition>)
    ensures
        forall|x: crate::models::ILIDefinitionV|
            starts_with(data@, *old(pos) as int, #[trigger] enc_ili_def(x)) ==> (r matches
            Some(v) && v@ == x && *final(pos) == *old(pos) + enc_ili_def(x).len()),
{
    let ghost p0 = *pos as int;
    let ghost q0 = *pos as int;
    let v0 = match read_opt_str(data, pos) {
        Some(v) => v,
        None => {
            proof {
                assert forall|x: crate::models::ILIDefinitionV|
                    starts_with(data@, p0, #[trigger] enc_ili_def(x)) implies false by {
                    let qs0: int = p0;
                    lemma_split(data@, qs0, enc_opt_str(x.dc_source), enc_str(x.text));
                    let qs1: int = qs0 + enc_opt_str(x.dc_source).len();
                }
            }
            return None;
        },
    };
    let ghost q1 = *pos as int;
    let v1 = match read_str(data, pos) {
        Some(v) => v,
        None => {
            proof {
                assert forall|x: crate::models::ILIDefinitionV|
                    starts_with(data@, p0, #[trigger] enc_ili_def(x)) implies false by {
                    let qs0: int = p0;
                    lemma_split(data@, qs0, enc_opt_str(x.dc_source), enc_str(x.text));
                    let qs1: int = qs0 + enc_opt_str(x.dc_source).len();
                }
            }
            return None;
        },
    };
    let out = crate::models::ILIDefinition {
        dc_source: v0,
        text: v1,
    };
    proof {
        assert forall|x: crate::models::ILIDefinitionV|
            starts_with(data@, p0, #[trigger] enc_ili_def(x)) implies (out@ == x && *pos
            == p0 + enc_ili_def(x).len()) by {
                    let qs0: int = p0;
                    lemma_split(data@, qs0, enc_opt_str(x.dc_source), enc_str(x.text));
                    let qs1: int = qs0 + enc_opt_str(x.dc_source).len();
            assert(out@ == x);
        }
    }
    Some(out)
}

/// The snapshot bytes of a list of `ILIDefinition` records: a count, then each
/// record in turn.
pub open spec fn enc_ili_def_list(s: Seq<crate::models::ILIDefinitionV>) -> Seq<u8> {
    enc_u64(s.len() as u64) + s.map_values(|x: crate::models::ILIDefinitionV| enc_ili_def(x)).flatten()
}

/// Appends the snapshot bytes of a vector of `ILIDefinition` records.
pub fn write_ili_def_list(buf: &mut Vec<u8>, v: &Vec<crate::models::ILIDefinition>)
    ensures
        final(buf)@ == old(buf)@ + enc_ili_def_list(crate::models::views_of(v@)),
{
    let ghost b0 = buf@;
    let ghost vs = crate::models::views_of(v@);
    let ghost ef = |x: crate::models::ILIDefinitionV| enc_ili_def(x);
    write_u64(buf, v.len() as u64);
    proof {
        assert(vs.take(0).map_values(ef) =~= Seq::<Seq<u8>>::empty());
        assert(Seq::<Seq<u8>>::empty().flatten() =~= Seq::<u8>::empty());
        assert(buf@ =~= b0 + enc_u64(vs.len() as u64) + vs.take(0).map_values(ef).flatten());
    }
    let n = v.len();
    let mut i: usize = 0;
    while i < n
        invariant
            b0 == old(buf)@,
            vs == crate::models::views_of(v@),
            ef == (|x: crate::models::ILIDefinitionV| enc_ili_def(x)),
            n == v@.len(),
            vs.len() == n,
            i <= n,
            buf@ == b0 + enc_u64(vs.len() as u64) + vs.take(i as int).map_values(
                ef,
            ).flatten(),
        decreases n - i,
    {
        write_ili_def(buf, &v[i]);
        proof {
            lemma_take_map_flatten_step(vs, ef, i as int);
            assert(ef(vs[i as int]) == enc_ili_def(vs[i as int]));
            seq_add_assoc(
                b0 + enc_u64(vs.len() as u64),
                vs.take(i as int).map_values(ef).flatten(),
                ef(vs[i as int]),
            );
            assert(buf@ == b0 + enc_u64(vs.len() as u64) + vs.take(i as int + 1).map_values(
                ef,
            ).flatten());
        }
        i = i + 1;
    }
    proof {
        assert(vs.take(n as int) =~= vs);
        assert(buf@ =~= b0 + enc_ili_def_list(vs));
    }
}

/// Reads back a vector of `ILIDefinition` records from its snapshot bytes.
#[verifier::rlimit(100)]
#[verifier::spinoff_prover]
pub fn read_ili_def_list(data: &Vec<u8>, pos: &mut usize) -> (r: Option<Vec<crate::models::ILIDefinition>>)
    ensures
        forall|s: Seq<crate::models::ILIDefinitionV>|
            starts_with(data@, *old(pos) as int, #[trigger] enc_ili_def_list(s)) ==> (r
            matches Some(v) && crate::models::views_of(v@) == s && *final(pos) == *old(pos)
            + enc_ili_def_list(s).len()),
{
    let ghost p0 = *pos as int;
    let ghost ef = |x: crate::models::ILIDefinitionV| enc_ili_def(x);
    let n = match read_u64(data, pos) {
        Some(n) => n,
        None => {
            proof {
                assert forall|s: Seq<crate::models::ILIDefinitionV>|
                    starts_with(data@, p0, #[trigger] enc_ili_def_list(s)) implies false by {
                    lemma_split(
                        data@,
                        p0,
                        enc_u64(s.len() as u64),
                        s.map_values(ef).flatten(),
                    );
                }
            }
            return None;
        },
    };
    let dl = data.len();
    if n > (dl as u64) {
        proof {
            assert forall|s: Seq<crate::models::ILIDefinitionV>|
                starts_with(data@, p0, #[trigger] enc_ili_def_list(s)) implies false by {
                lemma_split(data@, p0, enc_u64(s.len() as u64), s.map_values(ef).flatten());
                assert forall|k: int| 0 <= k < s.map_values(ef).len() implies (
                    #[trigger] s.map_values(ef)[k]).len() >= 1 by {
                    assert(s.map_values(ef)[k] == enc_ili_def(s[k]));
                    lemma_enc_ili_def_nonempty(s[k]);
                }
                lemma_flatten_len_bound(s.map_values(ef));
            }
        }
        return None;
    }
    let count = n as usize;
    let mut out: Vec<crate::models::ILIDefinition> = Vec::new();
    let mut i: usize = 0;
    proof {
        assert forall|s: Seq<crate::models::ILIDefinitionV>|
            starts_with(data@, p0, #[trigger] enc_ili_def_list(s)) implies {
            &&& s.len() == count
            &&& crate::models::views_of(out@) == s.take(0)
            &&& *pos == p0 + 8 + s.take(0).map_values(ef).flatten().len()
        } by {
            lemma_split(data@, p0, enc_u64(s.len() as u64), s.map_values(ef).flatten());
            assert forall|k: int| 0 <= k < s.map_values(ef).len() implies (
                #[trigger] s.map_values(ef)[k]).len() >= 1 by {
                assert(s.map_values(ef)[k] == enc_ili_def(s[k]));
                lemma_enc_ili_def_nonempty(s[k]);
            }
            lemma_flatten_len_bound(s.map_values(ef));
            assert(s.take(0).map_values(ef) =~= Seq::<Seq<u8>>::empty());
            assert(Seq::<Seq<u8>>::empty().flatten() =~= Seq::<u8>::empty());
            assert(crate::models::views_of(out@) =~= s.take(0));
        }
    }
    while i < count
        invariant
            p0 == *old(pos) as int,
            ef == (|x: crate::models::ILIDefinitionV| enc_ili_def(x)),
            i <= count,
            out@.len() == i,
            forall|s: Seq<crate::models::ILIDefinitionV>|
                starts_with(data@, p0, #[trigger] enc_ili_def_list(s)) ==> {
                    &&& s.len() == count
                    &&& crate::models::views_of(out@) == s.take(i as int)
                    &&& *pos == p0 + 8 + s.take(i as int).map_values(ef).flatten().len()
                },
        decreases count - i,
    {
        let ghost qi = *pos as int;
        let item = match read_ili_def(data, pos) {
            Some(v) => v,
            None => {
                proof {
                    assert forall|s: Seq<crate::models::ILIDefinitionV>|
                        starts_with(data@, p0, #[trigger] enc_ili_def_list(s)) implies false by {
                        lemma_list_elem_at(data@, p0, s, ef, i as int);
                        assert(qi == p0 + 8 + s.take(i as int).map_values(ef).flatten().len());
                        assert(ef(s[i as int]) == enc_ili_def(s[i as int]));
                        assert(starts_with(data@, qi, enc_ili_def(s[i as int])));
                    }
                }
                return None;
            },
        };
        let ghost out0 = out@;
        out.push(item);
        proof {
            assert forall|s: Seq<crate::models::ILIDefinitionV>|
                starts_with(data@, p0, #[trigger] enc_ili_def_list(s)) implies {
                &&& crate::models::views_of(out@) == s.take(i as int + 1)
                &&& *pos == p0 + 8 + s.take(i as int + 1).map_values(ef).flatten().len()
            } by {
                lemma_list_elem_at(data@, p0, s, ef, i as int);
                assert(qi == p0 + 8 + s.take(i as int).map_values(ef).flatten().len());
                assert(ef(s[i as int]) == enc_ili_def(s[i as int]));
                assert(starts_with(data@, qi, enc_ili_def(s[i as int])));
                assert(crate::models::views_of(out0.push(out@.last())) =~= crate::models::views_of(
                    out0,
                ).push(out@.last()@));
                assert(crate::models::views_of(out@) =~= s.take(i as int + 1));
                lemma_take_map_flatten_step(s, ef, i as int);
            }
        }
        i = i + 1;
    }
    proof {
        assert forall|s: Seq<crate::models::ILIDefinitionV>|
            starts_with(data@, p0, #[trigger] enc_ili_def_list(s)) implies (crate::models::views_of(
            out@,
        ) == s && *pos == p0 + enc_ili_def_list(s).len()) by {
            assert(s.take(count as int) =~= s);
        }
    }
    Some(out)
}

/// An optional ILI definition: a presence byte, then the record when
/// present.
pub open spec fn enc_opt_ili(o: Option<crate::models::ILIDefinitionV>) -> Seq<u8> {
    match o {
        None => seq![0u8],
        Some(d) => seq![1u8] + enc_ili_def(d),
    }
}

/// Appends an optional ILI definition.
pub fn write_opt_ili(buf: &mut Vec<u8>, o: &Option<crate::models::ILIDefinition>)
    ensures
        final(buf)@ == old(buf)@ + enc_opt_ili(crate::models::opt_ili_view(*o)),
{
    let ghost b0 = buf@;
    match o {
        None => {
            buf.push(0u8);
            proof {
                assert(buf@ =~= b0 + enc_opt_ili(None));
            }
        },
        Some(d) => {
            buf.push(1u8);
            write_ili_def(buf, d);
            proof {
                assert(buf@ =~= b0 + enc_opt_ili(Some(d@)));
            }
        },
    }
}

/// Reads back an optional ILI definition.
pub fn read_opt_ili(data: &Vec<u8>, pos: &mut usize) -> (r: Option<Option<crate::models::ILIDefinition>>)
    ensures
        forall|o: Option<crate::models::ILIDefinitionV>|
            starts_with(data@, *old(pos) as int, #[trigger] enc_opt_ili(o)) ==> (r matches
            Some(ov) && crate::models::opt_ili_view(ov) == o && *final(pos) == *old(pos)
            + enc_opt_ili(o).len()),
{
    let ghost p0 = *pos as int;
    let n = data.len();
    if *pos >= n {
        return None;
    }
    let p = *pos;
    let byte = data[p];
    *pos = p + 1;
    if byte == 0 {
        proof {
            assert forall|o: Option<crate::models::ILIDefinitionV>|
                starts_with(data@, p0, #[trigger] enc_opt_ili(o)) implies (o is None) by {
                if o is Some {
                    let d = o->0;
                    assert(enc_opt_ili(o) == seq![1u8] + enc_ili_def(d));
                    assert(data@.subrange(p0, p0 + enc_opt_ili(o).len() as int)[0] == data@[p0]);
                    assert(data@[p0] == 1u8);
                }
            }
        }
        Some(None)
    } else if byte == 1 {
        let ghost p1 = *pos as int;
        match read_ili_def(data, pos) {
            Some(d) => {
                proof {
                    assert forall|o: Option<crate::models::ILIDefinitionV>|
                        starts_with(data@, p0, #[trigger] enc_opt_ili(o)) implies (o matches
                        Some(t) && d@ == t && *pos == p0 + enc_opt_ili(o).len()) by {
                        if o is None {
                            assert(data@.subrange(p0, p0 + 1)[0] == data@[p0]);
                            assert(data@[p0] == 0u8);
                        } else {
                            let t = o->0;
                            lemma_split(data@, p0, seq![1u8], enc_ili_def(t));
                            assert(starts_with(data@, p1, enc_ili_def(t)));
                        }
                    }
                }
                Some(Some(d))
            },
            None => {
                proof {
                    assert forall|o: Option<crate::models::ILIDefinitionV>|
                        starts_with(data@, p0, #[trigger] enc_opt_ili(o)) implies false by {
                        if o is None {
                            assert(data@.subrange(p0, p0 + 1)[0] == data@[p0]);
                            assert(data@[p0] == 0u8);
                        } else {
                            let t = o->0;
                            lemma_split(data@, p0, seq![1u8], enc_ili_def(t));
                            assert(starts_with(data@, p1, enc_ili_def(t)));
                        }
                    }
                }
                None
            },
        }
    } else {
        proof {
            assert forall|o: Option<crate::models::ILIDefinitionV>|
                starts_with(data@, p0, #[trigger] enc_opt_ili(o)) implies false by {
                if o is None {
                    assert(data@.subrange(p0, p0 + 1)[0] == data@[p0]);
                    assert(data@[p0] == 0u8);
                } else {
                    let t = o->0;
                    assert(enc_opt_ili(o) == seq![1u8] + enc_ili_def(t));
                    assert(data@.subrange(p0, p0 + enc_opt_ili(o).len() as int)[0] == data@[p0]);
                    assert(data@[p0] == 1u8);
                }
            }
        }
        None
    }
}

/// The snapshot bytes of a `Example`.
pub open spec fn enc_example(x: crate::models::ExampleV) -> Seq<u8> {
    enc_opt_str(x.dc_source) + (enc_str(x.text))
}

/// A `Example` encoding is never empty.
proof fn lemma_enc_example_nonempty(x: crate::models::ExampleV)
    ensures
        enc_example(x).len() >= 1,
{
}

/// Appends the snapshot bytes of a `Example`.
#[verifier::rlimit(100)]
#[verifier::spinoff_prover]
pub fn write_example(buf: &mut Vec<u8>, x: &crate::models::Example)
    ensures
        final(buf)@ == old(buf)@ + enc_example(x@),
{
    let ghost b0 = buf@;
    write_opt_str(buf, &x.dc_source);
    write_str(buf, x.text.as_str());
    proof {
        let e1 = enc_opt_str(x@.dc_source);
        let e2 = enc_str(x@.text);
        assert(buf@ == b0 + e1 + e2);
        seq_add_assoc(b0, e1, e2);
        assert(buf@ == b0 + enc_example(x@));
    }
}

/// Reads back a `Example` from its snapshot bytes.
#[verifier::rlimit(100)]
#[verifier::spinoff_prover]
pub fn read_example(data: &Vec<u8>, pos: &mut usize) -> (r: Option<crate::models::Example>)
    ensures
        forall|x: crate::models::ExampleV|
            starts_with(data@, *old(pos) as int, #[trigger] enc_example(x)) ==> (r matches
            Some(v) && v@ == x && *final(pos) == *old(pos) + enc_example(x).len()),
{
    let ghost p0 = *pos as int;
    let ghost q0 = *pos as int;
    let v0 = match read_opt_str(data, pos) {
        Some(v) => v,
        None => {
            proof {
                assert forall|x: crate::models::ExampleV|
                    starts_with(data@, p0, #[trigger] enc_example(x)) implies false by {
                    let qs0: int = p0;
                    lemma_split(data@, qs0, enc_opt_str(x.dc_source), enc_str(x.text));
                    let qs1: int = qs0 + enc_opt_str(x.dc_source).len();
                }
            }
            return None;
        },
    };
    let ghost q1 = *pos as int;
    let v1 = match read_str(data, pos) {
        Some(v) => v,
        None => {
            proof {
                assert forall|x: crate::models::ExampleV|
                    starts_with(data@, p0, #[trigger] enc_example(x)) implies false by {
                    let qs0: int = p0;
                    lemma_split(data@, qs0, enc_opt_str(x.dc_source), enc_str(x.text));
                    let qs1: int = qs0 + enc_opt_str(x.dc_source).len();
                }
            }
            return None;
        },
    };
    let out = crate::models::Example {
        dc_source: v0,
        text: v1,
    };
    proof {
        assert forall|x: crate::models::ExampleV|
            starts_with(data@, p0, #[trigger] enc_example(x)) implies (out@ == x && *pos
            == p0 + enc_example(x).len()) by {
                    let qs0: int = p0;
                    lemma_split(data@, qs0, enc_opt_str(x.dc_source), enc_str(x.text));
                    let qs1: int = qs0 + enc_opt_str(x.dc_source).len();
            assert(out@ == x);
        }
    }
    Some(out)
}

/// The snapshot bytes of a list of `Example` records: a count, then each
/// record in turn.
pub open spec fn enc_example_list(s: Seq<crate::models::ExampleV>) -> Seq<u8> {
    enc_u64(s.len() as u64) + s.map_values(|x: crate::models::ExampleV| enc_example(x)).flatten()
}

/// Appends the snapshot bytes of a vector of `Example` records.
pub fn write_example_list(buf: &mut Vec<u8>, v: &Vec<crate::models::Example>)
    ensures
        final(buf)@ == old(buf)@ + enc_example_list(crate::models::views_of(v@)),
{
    let ghost b0 = buf@;
    let ghost vs = crate::models::views_of(v@);
    let ghost ef = |x: crate::models::ExampleV| enc_example(x);
    write_u64(buf, v.len() as u64);
    proof {
        assert(vs.take(0).map_values(ef) =~= Seq::<Seq<u8>>::empty());
        assert(Seq::<Seq<u8>>::empty().flatten() =~= Seq::<u8>::empty());
        assert(buf@ =~= b0 + enc_u64(vs.len() as u64) + vs.take(0).map_values(ef).flatten());
    }
    let n = v.len();
    let mut i: usize = 0;
    while i < n
        invariant
            b0 == old(buf)@,
            vs == crate::models::views_of(v@),
            ef == (|x: crate::models::ExampleV| enc_example(x)),
            n == v@.len(),
            vs.len() == n,
            i <= n,
            buf@ == b0 + enc_u64(vs.len() as u64) + vs.take(i as int).map_values(
                ef,
            ).flatten(),
        decreases n - i,
    {
        write_example(buf, &v[i]);
        proof {
            lemma_take_map_flatten_step(vs, ef, i as int);
            assert(ef(vs[i as int]) == enc_example(vs[i as int]));
            seq_add_assoc(
                b0 + enc_u64(vs.len() as u64),
                vs.take(i as int).map_values(ef).flatten(),
                ef(vs[i as int]),
            );
            assert(buf@ == b0 + enc_u64(vs.len() as u64) + vs.take(i as int + 1).map_values(
                ef,
            ).flatten());
        }
        i = i + 1;
    }
    proof {
        assert(vs.take(n as int) =~= vs);
        assert(buf@ =~= b0 + enc_example_list(vs));
    }
}

/// Reads back a vector of `Example` records from its snapshot bytes.
#[verifier::rlimit(100)]
#[verifier::spinoff_prover]
pub fn read_example_list(data: &Vec<u8>, pos: &mut usize) -> (r: Option<Vec<crate::models::Example>>)
    ensures
        forall|s: Seq<crate::models::ExampleV>|
            starts_with(data@, *old(pos) as int, #[trigger] enc_example_list(s)) ==> (r
            matches Some(v) && crate::models::views_of(v@) == s && *final(pos) == *old(pos)
            + enc_example_list(s).len()),
{
    let ghost p0 = *pos as int;
    let ghost ef = |x: crate::models::ExampleV| enc_example(x);
    let n = match read_u64(data, pos) {
        Some(n) => n,
        None => {
            proof {
                assert forall|s: Seq<crate::models::ExampleV>|
                    starts_with(data@, p0, #[trigger] enc_example_list(s)) implies false by {
                    lemma_split(
                        data@,
                        p0,
                        enc_u64(s.len() as u64),
                        s.map_values(ef).flatten(),
                    );
                }
            }
            return None;
        },
    };
    let dl = data.len();
    if n > (dl as u64) {
        proof {
            assert forall|s: Seq<crate::models::ExampleV>|
                starts_with(data@, p0, #[trigger] enc_example_list(s)) implies false by {
                lemma_split(data@, p0, enc_u64(s.len() as u64), s.map_values(ef).flatten());
                assert forall|k: int| 0 <= k < s.map_values(ef).len() implies (
                    #[trigger] s.map_values(ef)[k]).len() >= 1 by {
                    assert(s.map_values(ef)[k] == enc_example(s[k]));
                    lemma_enc_example_nonempty(s[k]);
                }
                lemma_flatten_len_bound(s.map_values(ef));
            }
        }
        return None;
    }
    let count = n as usize;
    let mut out: Vec<crate::models::Example> = Vec::new();
    let mut i: usize = 0;
    proof {
        assert forall|s: Seq<crate::models::ExampleV>|
            starts_with(data@, p0, #[trigger] enc_example_list(s)) implies {
            &&& s.len() == count
            &&& crate::models::views_of(out@) == s.take(0)
            &&& *pos == p0 + 8 + s.take(0).map_values(ef).flatten().len()
        } by {
            lemma_split(data@, p0, enc_u64(s.len() as u64), s.map_values(ef).flatten());
            assert forall|k: int| 0 <= k < s.map_values(ef).len() implies (
                #[trigger] s.map_values(ef)[k]).len() >= 1 by {
                assert(s.map_values(ef)[k] == enc_example(s[k]));
                lemma_enc_example_nonempty(s[k]);
            }
            lemma_flatten_len_bound(s.map_values(ef));
            assert(s.take(0).map_values(ef) =~= Seq::<Seq<u8>>::empty());
            assert(Seq::<Seq<u8>>::empty().flatten() =~= Seq::<u8>::empty());
            assert(crate::models::views_of(out@) =~= s.take(0));
        }
    }
    while i < count
        invariant
            p0 == *old(pos) as int,
            ef == (|x: crate::models::ExampleV| enc_example(x)),
            i <= count,
            out@.len() == i,
            forall|s: Seq<crate::models::ExampleV>|
                starts_with(data@, p0, #[trigger] enc_example_list(s)) ==> {
                    &&& s.len() == count
                    &&& crate::models::views_of(out@) == s.take(i as int)
                    &&& *pos == p0 + 8 + s.take(i as int).map_values(ef).flatten().len()
                },
        decreases count - i,
    {
        let ghost qi = *pos as int;
        let item = match read_example(data, pos) {
            Some(v) => v,
            None => {
                proof {
                    assert forall|s: Seq<crate::models::ExampleV>|
                        starts_with(data@, p0, #[trigger] enc_example_list(s)) implies false by {
                        lemma_list_elem_at(data@, p0, s, ef, i as int);
                        assert(qi == p0 + 8 + s.take(i as int).map_values(ef).flatten().len());
                        assert(ef(s[i as int]) == enc_example(s[i as int]));
                        assert(starts_with(data@, qi, enc_example(s[i as int])));
                    }
                }
                return None;
            },
        };
        let ghost out0 = out@;
        out.push(item);
        proof {
            assert forall|s: Seq<crate::models::ExampleV>|
                starts_with(data@, p0, #[trigger] enc_example_list(s)) implies {
                &&& crate::models::views_of(out@) == s.take(i as int + 1)
                &&& *pos == p0 + 8 + s.take(i as int + 1).map_values(ef).flatten().len()
            } by {
                lemma_list_elem_at(data@, p0, s, ef, i as int);
                assert(qi == p0 + 8 + s.take(i as int).map_values(ef).flatten().len());
                assert(ef(s[i as int]) == enc_example(s[i as int]));
                assert(starts_with(data@, qi, enc_example(s[i as int])));
                assert(crate::models::views_of(out0.push(out@.last())) =~= crate::models::views_of(
                    out0,
                ).push(out@.last()@));
                assert(crate::models::views_of(out@) =~= s.take(i as int + 1));
                lemma_take_map_flatten_step(s, ef, i as int);
            }
        }
        i = i + 1;
    }
    proof {
        assert forall|s: Seq<crate::models::ExampleV>|
            starts_with(data@, p0, #[trigger] enc_example_list(s)) implies (crate::models::views_of(
            out@,
        ) == s && *pos == p0 + enc_example_list(s).len()) by {
            assert(s.take(count as int) =~= s);
        }
    }
    Some(out)
}

/// The snapshot bytes of a `SynsetRelation`.
pub open spec fn enc_synset_rel(x: crate::models::SynsetRelationV) -> Seq<u8> {
    enc_yrel(x.rel_type) + (enc_str(x.target))
}

/// A `SynsetRelation` encoding is never empty.
proof fn lemma_enc_synset_rel_nonempty(x: crate::models::SynsetRelationV)
    ensures
        enc_synset_rel(x).len() >= 1,
{
}

/// Appends the snapshot bytes of a `SynsetRelation`.
#[verifier::rlimit(100)]
#[verifier::spinoff_prover]
pub fn write_synset_rel(buf: &mut Vec<u8>, x: &crate::models::SynsetRelation)
    ensures
        final(buf)@ == old(buf)@ + enc_synset_rel(x@),
{
    let ghost b0 = buf@;
    write_yrel(buf, x.rel_type);
    write_str(buf, x.target.as_str());
    proof {
        let e1 = enc_yrel(x@.rel_type);
        let e2 = enc_str(x@.target);
        assert(buf@ == b0 + e1 + e2);
        seq_add_assoc(b0, e1, e2);
        assert(buf@ == b0 + enc_synset_rel(x@));
    }
}

/// Reads back a `SynsetRelation` from its snapshot bytes.
#[verifier::rlimit(100)]
#[verifier::spinoff_prover]
pub fn read_synset_rel(data: &Vec<u8>, pos: &mut usize) -> (r: Option<crate::models::SynsetRelation>)
    ensures
        forall|x: crate::models::SynsetRelationV|
            starts_with(data@, *old(pos) as int, #[trigger] enc_synset_rel(x)) ==> (r matches
            Some(v) && v@ == x && *final(pos) == *old(pos) + enc_synset_rel(x).len()),
{
    let ghost p0 = *pos as int;
    let ghost q0 = *pos as int;
    let v0 = match read_yrel(data, pos) {
        Some(v) => v,
        None => {
            proof {
                assert forall|x: crate::models::SynsetRelationV|
                    starts_with(data@, p0, #[trigger] enc_synset_rel(x)) implies false by {
                    let qs0: int = p0;
                    lemma_split(data@, qs0, enc_yrel(x.rel_type), enc_str(x.target));
                    let qs1: int = qs0 + enc_yrel(x.rel_type).len();
                }
            }
            return None;
        },
    };
    let ghost q1 = *pos as int;
    let v1 = match read_str(data, pos) {
        Some(v) => v,
        None => {
            proof {
                assert forall|x: crate::models::SynsetRelationV|
                    starts_with(data@, p0, #[trigger] enc_synset_rel(x)) implies false by {
                    let qs0: int = p0;
                    lemma_split(data@, qs0, enc_yrel(x.rel_type), enc_str(x.target));
                    let qs1: int = qs0 + enc_yrel(x.rel_type).len();
                }
            }
            return None;
        },
    };
    let out = crate::models::SynsetRelation {
        rel_type: v0,
        target: v1,
    };
    proof {
        assert forall|x: crate::models::SynsetRelationV|
            starts_with(data@, p0, #[trigger] enc_synset_rel(x)) implies (out@ == x && *pos
            == p0 + enc_synset_rel(x).len()) by {
                    let qs0: int = p0;
                    lemma_split(data@, qs0, enc_yrel(x.rel_type), enc_str(x.target));
                    let qs1: int = qs0 + enc_yrel(x.rel_type).len();
            assert(out@ == x);
        }
    }
    Some(out)
}

/// The snapshot bytes of a list of `SynsetRelation` records: a count, then each
/// record in turn.
pub open spec fn enc_synset_rel_list(s: Seq<crate::models::SynsetRelationV>) -> Seq<u8> {
    enc_u64(s.len() as u64) + s.map_values(|x: crate::models::SynsetRelationV| enc_synset_rel(x)).flatten()
}

/// Appends the snapshot bytes of a vector of `SynsetRelation` records.
pub fn write_synset_rel_list(buf: &mut Vec<u8>, v: &Vec<crate::models::SynsetRelation>)
    ensures
        final(buf)@ == old(buf)@ + enc_synset_rel_list(crate::models::views_of(v@)),
{
    let ghost b0 = buf@;
    let ghost vs = crate::models::views_of(v@);
    let ghost ef = |x: crate::models::SynsetRelationV| enc_synset_rel(x);
    write_u64(buf, v.len() as u64);
    proof {
        assert(vs.take(0).map_values(ef) =~= Seq::<Seq<u8>>::empty());
        assert(Seq::<Seq<u8>>::empty().flatten() =~= Seq::<u8>::empty());
        assert(buf@ =~= b0 + enc_u64(vs.len() as u64) + vs.take(0).map_values(ef).flatten());
    }
    let n = v.len();
    let mut i: usize = 0;
    while i < n
        invariant
            b0 == old(buf)@,
            vs == crate::models::views_of(v@),
            ef == (|x: crate::models::SynsetRelationV| enc_synset_rel(x)),
            n == v@.len(),
            vs.len() == n,
            i <= n,
            buf@ == b0 + enc_u64(vs.len() as u64) + vs.take(i as int).map_values(
                ef,
            ).flatten(),
        decreases n - i,
    {
        write_synset_rel(buf, &v[i]);
        proof {
            lemma_take_map_flatten_step(vs, ef, i as int);
            assert(ef(vs[i as int]) == enc_synset_rel(vs[i as int]));
            seq_add_assoc(
                b0 + enc_u64(vs.len() as u64),
                vs.take(i as int).map_values(ef).flatten(),
                ef(vs[i as int]),
            );
            assert(buf@ == b0 + enc_u64(vs.len() as u64) + vs.take(i as int + 1).map_values(
                ef,
            ).flatten());
        }
        i = i + 1;
    }
    proof {
        assert(vs.take(n as int) =~= vs);
        assert(buf@ =~= b0 + enc_synset_rel_list(vs));
    }
}

/// Reads back a vector of `SynsetRelation` records from its snapshot bytes.
#[verifier::rlimit(100)]
#[verifier::spinoff_prover]
pub fn read_synset_rel_list(data: &Vec<u8>, pos: &mut usize) -> (r: Option<Vec<crate::models::SynsetRelation>>)
    ensures
        forall|s: Seq<crate::models::SynsetRelationV>|
            starts_with(data@, *old(pos) as int, #[trigger] enc_synset_rel_list(s)) ==> (r
            matches Some(v) && crate::models::views_of(v@) == s && *final(pos) == *old(pos)
            + enc_synset_rel_list(s).len()),
{
    let ghost p0 = *pos as int;
    let ghost ef = |x: crate::models::SynsetRelationV| enc_synset_rel(x);
    let n = match read_u64(data, pos) {
        Some(n) => n,
        None => {
            proof {
                assert forall|s: Seq<crate::models::SynsetRelationV>|
                    starts_with(data@, p0, #[trigger] enc_synset_rel_list(s)) implies false by {
                    lemma_split(
                        data@,
                        p0,
                        enc_u64(s.len() as u64),
                        s.map_values(ef).flatten(),
                    );
                }
            }
            return None;
        },
    };
    let dl = data.len();
    if n > (dl as u64) {
        proof {
            assert forall|s: Seq<crate::models::SynsetRelationV>|
                starts_with(data@, p0, #[trigger] enc_synset_rel_list(s)) implies false by {
                lemma_split(data@, p0, enc_u64(s.len() as u64), s.map_values(ef).flatten());
                assert forall|k: int| 0 <= k < s.map_values(ef).len() implies (
                    #[trigger] s.map_values(ef)[k]).len() >= 1 by {
                    assert(s.map_values(ef)[k] == enc_synset_rel(s[k]));
                    lemma_enc_synset_rel_nonempty(s[k]);
                }
                lemma_flatten_len_bound(s.map_values(ef));
            }
        }
        return None;
    }
    let count = n as usize;
    let mut out: Vec<crate::models::SynsetRelation> = Vec::new();
    let mut i: usize = 0;
    proof {
        assert forall|s: Seq<crate::models::SynsetRelationV>|
            starts_with(data@, p0, #[trigger] enc_synset_rel_list(s)) implies {
            &&& s.len() == count
            &&& crate::models::views_of(out@) == s.take(0)
            &&& *pos == p0 + 8 + s.take(0).map_values(ef).flatten().len()
        } by {
            lemma_split(data@, p0, enc_u64(s.len() as u64), s.map_values(ef).flatten());
            assert forall|k: int| 0 <= k < s.map_values(ef).len() implies (
                #[trigger] s.map_values(ef)[k]).len() >= 1 by {
                assert(s.map_values(ef)[k] == enc_synset_rel(s[k]));
                lemma_enc_synset_rel_nonempty(s[k]);
            }
            lemma_flatten_len_bound(s.map_values(ef));
            assert(s.take(0).map_values(ef) =~= Seq::<Seq<u8>>::empty());
            assert(Seq::<Seq<u8>>::empty().flatten() =~= Seq::<u8>::empty());
            assert(crate::models::views_of(out@) =~= s.take(0));
        }
    }
    while i < count
        invariant
            p0 == *old(pos) as int,
            ef == (|x: crate::models::SynsetRelationV| enc_synset_rel(x)),
            i <= count,
            out@.len() == i,
            forall|s: Seq<crate::models::SynsetRelationV>|
                starts_with(data@, p0, #[trigger] enc_synset_rel_list(s)) ==> {
                    &&& s.len() == count
                    &&& crate::models::views_of(out@) == s.take(i as int)
                    &&& *pos == p0 + 8 + s.take(i as int).map_values(ef).flatten().len()
                },
        decreases count - i,
    {
        let ghost qi = *pos as int;
        let item = match read_synset_rel(data, pos) {
            Some(v) => v,
            None => {
                proof {
                    assert forall|s: Seq<crate::models::SynsetRelationV>|
                        starts_with(data@, p0, #[trigger] enc_synset_rel_list(s)) implies false by {
                        lemma_list_elem_at(data@, p0, s, ef, i as int);
                        assert(qi == p0 + 8 + s.take(i as int).map_values(ef).flatten().len());
                        assert(ef(s[i as int]) == enc_synset_rel(s[i as int]));
                        assert(starts_with(data@, qi, enc_synset_rel(s[i as int])));
                    }
                }
                return None;
            },
        };
        let ghost out0 = out@;
        out.push(item);
        proof {
            assert forall|s: Seq<crate::models::SynsetRelationV>|
                starts_with(data@, p0, #[trigger] enc_synset_rel_list(s)) implies {
                &&& crate::models::views_of(out@) == s.take(i as int + 1)
                &&& *pos == p0 + 8 + s.take(i as int + 1).map_values(ef).flatten().len()
            } by {
                lemma_list_elem_at(data@, p0, s, ef, i as int);
                assert(qi == p0 + 8 + s.take(i as int).map_values(ef).flatten().len());
                assert(ef(s[i as int]) == enc_synset_rel(s[i as int]));
                assert(starts_with(data@, qi, enc_synset_rel(s[i as int])));
                assert(crate::models::views_of(out0.push(out@.last())) =~= crate::models::views_of(
                    out0,
                ).push(out@.last()@));
                assert(crate::models::views_of(out@) =~= s.take(i as int + 1));
                lemma_take_map_flatten_step(s, ef, i as int);
            }
        }
        i = i + 1;
    }
    proof {
        assert forall|s: Seq<crate::models::SynsetRelationV>|
            starts_with(data@, p0, #[trigger] enc_synset_rel_list(s)) implies (crate::models::views_of(
            out@,
        ) == s && *pos == p0 + enc_synset_rel_list(s).len()) by {
            assert(s.take(count as int) =~= s);
        }
    }
    Some(out)
}

/// The snapshot bytes of a `Requires`.
pub open spec fn enc_requires_rec(x: crate::models::RequiresV) -> Seq<u8> {
    enc_str(x.id) + (enc_str(x.version))
}

/// A `Requires` encoding is never empty.
proof fn lemma_enc_requires_rec_nonempty(x: crate::models::RequiresV)
    ensures
        enc_requires_rec(x).len() >= 1,
{
}

/// Appends the snapshot bytes of a `Requires`.
#[verifier::rlimit(100)]
#[verifier::spinoff_prover]
pub fn write_requires_rec(buf: &mut Vec<u8>, x: &crate::models::Requires)
    ensures
        final(buf)@ == old(buf)@ + enc_requires_rec(x@),
{
    let ghost b0 = buf@;
    write_str(buf, x.id.as_str());
    write_str(buf, x.version.as_str());
    proof {
        let e1 = enc_str(x@.id);
        let e2 = enc_str(x@.version);
        assert(buf@ == b0 + e1 + e2);
        seq_add_assoc(b0, e1, e2);
        assert(buf@ == b0 + enc_requires_rec(x@));
    }
}

/// Reads back a `Requires` from its snapshot bytes.
#[verifier::rlimit(100)]
#[verifier::spinoff_prover]
pub fn read_requires_rec(data: &Vec<u8>, pos: &mut usize) -> (r: Option<crate::models::Requires>)
    ensures
        forall|x: crate::models::RequiresV|
            starts_with(data@, *old(pos) as int, #[trigger] enc_requires_rec(x)) ==> (r matches
            Some(v) && v@ == x && *final(pos) == *old(pos) + enc_requires_rec(x).len()),
{
    let ghost p0 = *pos as int;
    let ghost q0 = *pos as int;
    let v0 = match read_str(data, pos) {
        Some(v) => v,
        None => {
            proof {
                assert forall|x: crate::models::RequiresV|
                    starts_with(data@, p0, #[trigger] enc_requires_rec(x)) implies false by {
                    let qs0: int = p0;
                    lemma_split(data@, qs0, enc_str(x.id), enc_str(x.version));
                    let qs1: int = qs0 + enc_str(x.id).len();
                }
            }
            return None;
        },
    };
    let ghost q1 = *pos as int;
    let v1 = match read_str(data, pos) {
        Some(v) => v,
        None => {
            proof {
                assert forall|x: crate::models::RequiresV|
                    starts_with(data@, p0, #[trigger] enc_requires_rec(x)) implies false by {
                    let qs0: int = p0;
                    lemma_split(data@, qs0, enc_str(x.id), enc_str(x.version));
                    let qs1: int = qs0 + enc_str(x.id).len();
                }
            }
            return None;
        },
    };
    let out = crate::models::Requires {
        id: v0,
        version: v1,
    };
    proof {
        assert forall|x: crate::models::RequiresV|
            starts_with(data@, p0, #[trigger] enc_requires_rec(x)) implies (out@ == x && *pos
            == p0 + enc_requires_rec(x).len()) by {
                    let qs0: int = p0;
                    lemma_split(data@, qs0, enc_str(x.id), enc_str(x.version));
                    let qs1: int = qs0 + enc_str(x.id).len();
            assert(out@ == x);
        }
    }
    Some(out)
}

/// The snapshot bytes of a list of `Requires` records: a count, then each
/// record in turn.
pub open spec fn enc_requires_rec_list(s: Seq<crate::models::RequiresV>) -> Seq<u8> {
    enc_u64(s.len() as u64) + s.map_values(|x: crate::models::RequiresV| enc_requires_rec(x)).flatten()
}

/// Appends the snapshot bytes of a vector of `Requires` records.
pub fn write_requires_rec_list(buf: &mut Vec<u8>, v: &Vec<crate::models::Requires>)
    ensures
        final(buf)@ == old(buf)@ + enc_requires_rec_list(crate::models::views_of(v@)),
{
    let ghost b0 = buf@;
    let ghost vs = crate::models::views_of(v@);
    let ghost ef = |x: crate::models::RequiresV| enc_requires_rec(x);
    write_u64(buf, v.len() as u64);
    proof {
        assert(vs.take(0).map_values(ef) =~= Seq::<Seq<u8>>::empty());
        assert(Seq::<Seq<u8>>::empty().flatten() =~= Seq::<u8>::empty());
        assert(buf@ =~= b0 + enc_u64(vs.len() as u64) + vs.take(0).map_values(ef).flatten());
    }
    let n = v.len();
    let mut i: usize = 0;
    while i < n
        invariant
            b0 == old(buf)@,
            vs == crate::models::views_of(v@),
            ef == (|x: crate::models::RequiresV| enc_requires_rec(x)),
            n == v@.len(),
            vs.len() == n,
            i <= n,
            buf@ == b0 + enc_u64(vs.len() as u64) + vs.take(i as int).map_values(
                ef,
            ).flatten(),
        decreases n - i,
    {
        write_requires_rec(buf, &v[i]);
        proof {
            lemma_take_map_flatten_step(vs, ef, i as int);
            assert(ef(vs[i as int]) == enc_requires_rec(vs[i as int]));
            seq_add_assoc(
                b0 + enc_u64(vs.len() as u64),
                vs.take(i as int).map_values(ef).flatten(),
                ef(vs[i as int]),
            );
            assert(buf@ == b0 + enc_u64(vs.len() as u64) + vs.take(i as int + 1).map_values(
                ef,
            ).flatten());
        }
        i = i + 1;
    }
    proof {
        assert(vs.take(n as int) =~= vs);
        assert(buf@ =~= b0 + enc_requires_rec_list(vs));
    }
}

/// Reads back a vector of `Requires` records from its snapshot bytes.
#[verifier::rlimit(100)]
#[verifier::spinoff_prover]
pub fn read_requires_rec_list(data: &Vec<u8>, pos: &mut usize) -> (r: Option<Vec<crate::models::Requires>>)
    ensures
        forall|s: Seq<crate::models::RequiresV>|
            starts_with(data@, *old(pos) as int, #[trigger] enc_requires_rec_list(s)) ==> (r
            matches Some(v) && crate::models::views_of(v@) == s && *final(pos) == *old(pos)
            + enc_requires_rec_list(s).len()),
{
    let ghost p0 = *pos as int;
    let ghost ef = |x: crate::models::RequiresV| enc_requires_rec(x);
    let n = match read_u64(data, pos) {
        Some(n) => n,
        None => {
            proof {
                assert forall|s: Seq<crate::models::RequiresV>|
                    starts_with(data@, p0, #[trigger] enc_requires_rec_list(s)) implies false by {
                    lemma_split(
                        data@,
                        p0,
                        enc_u64(s.len() as u64),
                        s.map_values(ef).flatten(),
                    );
                }
            }
            return None;
        },
    };
    let dl = data.len();
    if n > (dl as u64) {
        proof {
            assert forall|s: Seq<crate::models::RequiresV>|
                starts_with(data@, p0, #[trigger] enc_requires_rec_list(s)) implies false by {
                lemma_split(data@, p0, enc_u64(s.len() as u64), s.map_values(ef).flatten());
                assert forall|k: int| 0 <= k < s.map_values(ef).len() implies (
                    #[trigger] s.map_values(ef)[k]).len() >= 1 by {
                    assert(s.map_values(ef)[k] == enc_requires_rec(s[k]));
                    lemma_enc_requires_rec_nonempty(s[k]);
                }
                lemma_flatten_len_bound(s.map_values(ef));
            }
        }
        return None;
    }
    let count = n as usize;
    let mut out: Vec<crate::models::Requires> = Vec::new();
    let mut i: usize = 0;
    proof {
        assert forall|s: Seq<crate::models::RequiresV>|
            starts_with(data@, p0, #[trigger] enc_requires_rec_list(s)) implies {
            &&& s.len() == count
            &&& crate::models::views_of(out@) == s.take(0)
            &&& *pos == p0 + 8 + s.take(0).map_values(ef).flatten().len()
        } by {
            lemma_split(data@, p0, enc_u64(s.len() as u64), s.map_values(ef).flatten());
            assert forall|k: int| 0 <= k < s.map_values(ef).len() implies (
                #[trigger] s.map_values(ef)[k]).len() >= 1 by {
                assert(s.map_values(ef)[k] == enc_requires_rec(s[k]));
                lemma_enc_requires_rec_nonempty(s[k]);
            }
            lemma_flatten_len_bound(s.map_values(ef));
            assert(s.take(0).map_values(ef) =~= Seq::<Seq<u8>>::empty());
            assert(Seq::<Seq<u8>>::empty().flatten() =~= Seq::<u8>::empty());
            assert(crate::models::views_of(out@) =~= s.take(0));
        }
    }
    while i < count
        invariant
            p0 == *old(pos) as int,
            ef == (|x: crate::models::RequiresV| enc_requires_rec(x)),
            i <= count,
            out@.len() == i,
            forall|s: Seq<crate::models::RequiresV>|
                starts_with(data@, p0, #[trigger] enc_requires_rec_list(s)) ==> {
                    &&& s.len() == count
                    &&& crate::models::views_of(out@) == s.take(i as int)
                    &&& *pos == p0 + 8 + s.take(i as int).map_values(ef).flatten().len()
                },
        decreases count - i,
    {
        let ghost qi = *pos as int;
        let item = match read_requires_rec(data, pos) {
            Some(v) => v,
            None => {
                proof {
                    assert forall|s: Seq<crate::models::RequiresV>|
                        starts_with(data@, p0, #[trigger] enc_requires_rec_list(s)) implies false by {
                        lemma_list_elem_at(data@, p0, s, ef, i as int);
                        assert(qi == p0 + 8 + s.take(i as int).map_values(ef).flatten().len());
                        assert(ef(s[i as int]) == enc_requires_rec(s[i as int]));
                        assert(starts_with(data@, qi, enc_requires_rec(s[i as int])));
                    }
                }
                return None;
            },
        };
        let ghost out0 = out@;
        out.push(item);
        proof {
            assert forall|s: Seq<crate::models::RequiresV>|
                starts_with(data@, p0, #[trigger] enc_requires_rec_list(s)) implies {
                &&& crate::models::views_of(out@) == s.take(i as int + 1)
                &&& *pos == p0 + 8 + s.take(i as int + 1).map_values(ef).flatten().len()
            } by {
                lemma_list_elem_at(data@, p0, s, ef, i as int);
                assert(qi == p0 + 8 + s.take(i as int).map_values(ef).flatten().len());
                assert(ef(s[i as int]) == enc_requires_rec(s[i as int]));
                assert(starts_with(data@, qi, enc_requires_rec(s[i as int])));
                assert(crate::models::views_of(out0.push(out@.last())) =~= crate::models::views_of(
                    out0,
                ).push(out@.last()@));
                assert(crate::models::views_of(out@) =~= s.take(i as int + 1));
                lemma_take_map_flatten_step(s, ef, i as int);
            }
        }
        i = i + 1;
    }
    proof {
        assert forall|s: Seq<crate::models::RequiresV>|
            starts_with(data@, p0, #[trigger] enc_requires_rec_list(s)) implies (crate::models::views_of(
            out@,
        ) == s && *pos == p0 + enc_requires_rec_list(s).len()) by {
            assert(s.take(count as int) =~= s);
        }
    }
    Some(out)
}

/// The snapshot bytes of a `LexicalEntry`.
pub open spec fn enc_entry(x: crate::models::LexicalEntryV) -> Seq<u8> {
    enc_str(x.id) + (enc_str(x.lemma.written_form) + (enc_pos(x.lemma.part_of_speech) + (enc_pron_list(x.pronunciations) + (enc_sense_list(x.senses)))))
}

/// A `LexicalEntry` encoding is never empty.
proof fn lemma_enc_entry_nonempty(x: crate::models::LexicalEntryV)
    ensures
        enc_entry(x).len() >= 1,
{
}

/// Appends the snapshot bytes of a `LexicalEntry`.
#[verifier::rlimit(100)]
#[verifier::spinoff_prover]
pub fn write_entry(buf: &mut Vec<u8>, x: &crate::models::LexicalEntry)
    ensures
        final(buf)@ == old(buf)@ + enc_entry(x@),
{
    let ghost b0 = buf@;
    write_str(buf, x.id.as_str());
    write_str(buf, x.lemma.written_form.as_str());
    write_pos(buf, x.lemma.part_of_speech);
    write_pron_list(buf, &x.pronunciations);
    write_sense_list(buf, &x.senses);
    proof {
        let e1 = enc_str(x@.id);
        let e2 = enc_str(x@.lemma.written_form);
        let e3 = enc_pos(x@.lemma.part_of_speech);
        let e4 = enc_pron_list(x@.pronunciations);
        let e5 = enc_sense_list(x@.senses);
        assert(buf@ == b0 + e1 + e2 + e3 + e4 + e5);
        seq_add_assoc(b0 + e1 + e2 + e3, e4, e5);
        seq_add_assoc(b0 + e1 + e2, e3, e4 + (e5));
        seq_add_assoc(b0 + e1, e2, e3 + (e4 + (e5)));
        seq_add_assoc(b0, e1, e2 + (e3 + (e4 + (e5))));
        assert(buf@ == b0 + enc_entry(x@));
    }
}

/// Reads back a `LexicalEntry` from its snapshot bytes.
#[verifier::rlimit(100)]
#[verifier::spinoff_prover]
pub fn read_entry(data: &Vec<u8>, pos: &mut usize) -> (r: Option<crate::models::LexicalEntry>)
    ensures
        forall|x: crate::models::LexicalEntryV|
            starts_with(data@, *old(pos) as int, #[trigger] enc_entry(x)) ==> (r matches
            Some(v) && v@ == x && *final(pos) == *old(pos) + enc_entry(x).len()),
{
    let ghost p0 = *pos as int;
    let ghost q0 = *pos as int;
    let v0 = match read_str(data, pos) {
        Some(v) => v,
        None => {
            proof {
                assert forall|x: crate::models::LexicalEntryV|
                    starts_with(data@, p0, #[trigger] enc_entry(x)) implies false by {
                    let qs0: int = p0;
                    lemma_split(data@, qs0, enc_str(x.id), enc_str(x.lemma.written_form) + (enc_pos(x.lemma.part_of_speech) + (enc_pron_list(x.pronunciations) + (enc_sense_list(x.senses)))));
                    let qs1: int = qs0 + enc_str(x.id).len();
                }
            }
            return None;
        },
    };
    let ghost q1 = *pos as int;
    let v1 = match read_str(data, pos) {
        Some(v) => v,
        None => {
            proof {
                assert forall|x: crate::models::LexicalEntryV|
                    starts_with(data@, p0, #[trigger] enc_entry(x)) implies false by {
                    let qs0: int = p0;
                    lemma_split(data@, qs0, enc_str(x.id), enc_str(x.lemma.written_form) + (enc_pos(x.lemma.part_of_speech) + (enc_pron_list(x.pronunciations) + (enc_sense_list(x.senses)))));
                    let qs1: int = qs0 + enc_str(x.id).len();
                    lemma_split(data@, qs1, enc_str(x.lemma.written_form), enc_pos(x.lemma.part_of_speech) + (enc_pron_list(x.pronunciations) + (enc_sense_list(x.senses))));
                    let qs2: int = qs1 + enc_str(x.lemma.written_form).len();
                }
            }
            return None;
        },
    };
    let ghost q2 = *pos as int;
    let v2 = match read_pos(data, pos) {
        Some(v) => v,
        None => {
            proof {
                assert forall|x: crate::models::LexicalEntryV|
                    starts_with(data@, p0, #[trigger] enc_entry(x)) implies false by {
                    let qs0: int = p0;
                    lemma_split(data@, qs0, enc_str(x.id), enc_str(x.lemma.written_form) + (enc_pos(x.lemma.part_of_speech) + (enc_pron_list(x.pronunciations) + (enc_sense_list(x.senses)))));
                    let qs1: int = qs0 + enc_str(x.id).len();
                    lemma_split(data@, qs1, enc_str(x.lemma.written_form), enc_pos(x.lemma.part_of_speech) + (enc_pron_list(x.pronunciations) + (enc_sense_list(x.senses))));
                    let qs2: int = qs1 + enc_str(x.lemma.written_form).len();
                    lemma_split(data@, qs2, enc_pos(x.lemma.part_of_speech), enc_pron_list(x.pronunciations) + (enc_sense_list(x.senses)));
                    let qs3: int = qs2 + enc_pos(x.lemma.part_of_speech).len();
                }
            }
            return None;
        },
    };
    let ghost q3 = *pos as int;
    let v3 = match read_pron_list(data, pos) {
        Some(v) => v,
        None => {
            proof {
                assert forall|x: crate::models::LexicalEntryV|
                    starts_with(data@, p0, #[trigger] enc_entry(x)) implies false by {
                    let qs0: int = p0;
                    lemma_split(data@, qs0, enc_str(x.id), enc_str(x.lemma.written_form) + (enc_pos(x.lemma.part_of_speech) + (enc_pron_list(x.pronunciations) + (enc_sense_list(x.senses)))));
                    let qs1: int = qs0 + enc_str(x.id).len();
                    lemma_split(data@, qs1, enc_str(x.lemma.written_form), enc_pos(x.lemma.part_of_speech) + (enc_pron_list(x.pronunciations) + (enc_sense_list(x.senses))));
                    let qs2: int = qs1 + enc_str(x.lemma.written_form).len();
                    lemma_split(data@, qs2, enc_pos(x.lemma.part_of_speech), enc_pron_list(x.pronunciations) + (enc_sense_list(x.senses)));
                    let qs3: int = qs2 + enc_pos(x.lemma.part_of_speech).len();
                    lemma_split(data@, qs3, enc_pron_list(x.pronunciations), enc_sense_list(x.senses));
                    let qs4: int = qs3 + enc_pron_list(x.pronunciations).len();
                }
            }
            return None;
        },
    };
    let ghost q4 = *pos as int;
    let v4 = match read_sense_list(data, pos) {
        Some(v) => v,
        None => {
            proof {
                assert forall|x: crate::models::LexicalEntryV|
                    starts_with(data@, p0, #[trigger] enc_entry(x)) implies false by {
                    let qs0: int = p0;
                    lemma_split(data@, qs0, enc_str(x.id), enc_str(x.lemma.written_form) + (enc_pos(x.lemma.part_of_speech) + (enc_pron_list(x.pronunciations) + (enc_sense_list(x.senses)))));
                    let qs1: int = qs0 + enc_str(x.id).len();
                    lemma_split(data@, qs1, enc_str(x.lemma.written_form), enc_pos(x.lemma.part_of_speech) + (enc_pron_list(x.pronunciations) + (enc_sense_list(x.senses))));
                    let qs2: int = qs1 + enc_str(x.lemma.written_form).len();
                    lemma_split(data@, qs2, enc_pos(x.lemma.part_of_speech), enc_pron_list(x.pronunciations) + (enc_sense_list(x.senses)));
                    let qs3: int = qs2 + enc_pos(x.lemma.part_of_speech).len();
                    lemma_split(data@, qs3, enc_pron_list(x.pronunciations), enc_sense_list(x.senses));
                    let qs4: int = qs3 + enc_pron_list(x.pronunciations).len();
                }
            }
            return None;
        },
    };
    let out = crate::models::LexicalEntry {
        id: v0,
        lemma: crate::models::Lemma { written_form: v1, part_of_speech: v2 },
        pronunciations: v3,
        senses: v4,
    };
    proof {
        assert forall|x: crate::models::LexicalEntryV|
            starts_with(data@, p0, #[trigger] enc_entry(x)) implies (out@ == x && *pos
            == p0 + enc_entry(x).len()) by {
                    let qs0: int = p0;
                    lemma_split(data@, qs0, enc_str(x.id), enc_str(x.lemma.written_form) + (enc_pos(x.lemma.part_of_speech) + (enc_pron_list(x.pronunciations) + (enc_sense_list(x.senses)))));
                    let qs1: int = qs0 + enc_str(x.id).len();
                    lemma_split(data@, qs1, enc_str(x.lemma.written_form), enc_pos(x.lemma.part_of_speech) + (enc_pron_list(x.pronunciations) + (enc_sense_list(x.senses))));
                    let qs2: int = qs1 + enc_str(x.lemma.written_form).len();
                    lemma_split(data@, qs2, enc_pos(x.lemma.part_of_speech), enc_pron_list(x.pronunciations) + (enc_sense_list(x.senses)));
                    let qs3: int = qs2 + enc_pos(x.lemma.part_of_speech).len();
                    lemma_split(data@, qs3, enc_pron_list(x.pronunciations), enc_sense_list(x.senses));
                    let qs4: int = qs3 + enc_pron_list(x.pronunciations).len();
            assert(out@ == x);
        }
    }
    Some(out)
}

/// The snapshot bytes of a list of `LexicalEntry` records: a count, then each
/// record in turn.
pub open spec fn enc_entry_list(s: Seq<crate::models::LexicalEntryV>) -> Seq<u8> {
    enc_u64(s.len() as u64) + s.map_values(|x: crate::models::LexicalEntryV| enc_entry(x)).flatten()
}

/// Appends the snapshot bytes of a vector of `LexicalEntry` records.
pub fn write_entry_list(buf: &mut Vec<u8>, v: &Vec<crate::models::LexicalEntry>)
    ensures
        final(buf)@ == old(buf)@ + enc_entry_list(crate::models::views_of(v@)),
{
    let ghost b0 = buf@;
    let ghost vs = crate::models::views_of(v@);
    let ghost ef = |x: crate::models::LexicalEntryV| enc_entry(x);
    write_u64(buf, v.len() as u64);
    proof {
        assert(vs.take(0).map_values(ef) =~= Seq::<Seq<u8>>::empty());
        assert(Seq::<Seq<u8>>::empty().flatten() =~= Seq::<u8>::empty());
        assert(buf@ =~= b0 + enc_u64(vs.len() as u64) + vs.take(0).map_values(ef).flatten());
    }
    let n = v.len();
    let mut i: usize = 0;
    while i < n
        invariant
            b0 == old(buf)@,
            vs == crate::models::views_of(v@),
            ef == (|x: crate::models::LexicalEntryV| enc_entry(x)),
            n == v@.len(),
            vs.len() == n,
            i <= n,
            buf@ == b0 + enc_u64(vs.len() as u64) + vs.take(i as int).map_values(
                ef,
            ).flatten(),
        decreases n - i,
    {
        write_entry(buf, &v[i]);
        proof {
            lemma_take_map_flatten_step(vs, ef, i as int);
            assert(ef(vs[i as int]) == enc_entry(vs[i as int]));
            seq_add_assoc(
                b0 + enc_u64(vs.len() as u64),
                vs.take(i as int).map_values(ef).flatten(),
                ef(vs[i as int]),
            );
            assert(buf@ == b0 + enc_u64(vs.len() as u64) + vs.take(i as int + 1).map_values(
                ef,
            ).flatten());
        }
        i = i + 1;
    }
    proof {
        assert(vs.take(n as int) =~= vs);
        assert(buf@ =~= b0 + enc_entry_list(vs));
    }
}

/// Reads back a vector of `LexicalEntry` records from its snapshot bytes.
#[verifier::rlimit(100)]
#[verifier::spinoff_prover]
pub fn read_entry_list(data: &Vec<u8>, pos: &mut usize) -> (r: Option<Vec<crate::models::LexicalEntry>>)
    ensures
        forall|s: Seq<crate::models::LexicalEntryV>|
            starts_with(data@, *old(pos) as int, #[trigger] enc_entry_list(s)) ==> (r
            matches Some(v) && crate::models::views_of(v@) == s && *final(pos) == *old(pos)
            + enc_entry_list(s).len()),
{
    let ghost p0 = *pos as int;
    let ghost ef = |x: crate::models::LexicalEntryV| enc_entry(x);
    let n = match read_u64(data, pos) {
        Some(n) => n,
        None => {
            proof {
                assert forall|s: Seq<crate::models::LexicalEntryV>|
                    starts_with(data@, p0, #[trigger] enc_entry_list(s)) implies false by {
                    lemma_split(
                        data@,
                        p0,
                        enc_u64(s.len() as u64),
                        s.map_values(ef).flatten(),
                    );
                }
            }
            return None;
        },
    };
    let dl = data.len();
    if n > (dl as u64) {
        proof {
            assert forall|s: Seq<crate::models::LexicalEntryV>|
                starts_with(data@, p0, #[trigger] enc_entry_list(s)) implies false by {
                lemma_split(data@, p0, enc_u64(s.len() as u64), s.map_values(ef).flatten());
                assert forall|k: int| 0 <= k < s.map_values(ef).len() implies (
                    #[trigger] s.map_values(ef)[k]).len() >= 1 by {
                    assert(s.map_values(ef)[k] == enc_entry(s[k]));
                    lemma_enc_entry_nonempty(s[k]);
                }
                lemma_flatten_len_bound(s.map_values(ef));
            }
        }
        return None;
    }
    let count = n as usize;
    let mut out: Vec<crate::models::LexicalEntry> = Vec::new();
    let mut i: usize = 0;
    proof {
        assert forall|s: Seq<crate::models::LexicalEntryV>|
            starts_with(data@, p0, #[trigger] enc_entry_list(s)) implies {
            &&& s.len() == count
            &&& crate::models::views_of(out@) == s.take(0)
            &&& *pos == p0 + 8 + s.take(0).map_values(ef).flatten().len()
        } by {
            lemma_split(data@, p0, enc_u64(s.len() as u64), s.map_values(ef).flatten());
            assert forall|k: int| 0 <= k < s.map_values(ef).len() implies (
                #[trigger] s.map_values(ef)[k]).len() >= 1 by {
                assert(s.map_values(ef)[k] == enc_entry(s[k]));
                lemma_enc_entry_nonempty(s[k]);
            }
            lemma_flatten_len_bound(s.map_values(ef));
            assert(s.take(0).map_values(ef) =~= Seq::<Seq<u8>>::empty());
            assert(Seq::<Seq<u8>>::empty().flatten() =~= Seq::<u8>::empty());
            assert(crate::models::views_of(out@) =~= s.take(0));
        }
    }
    while i < count
        invariant
            p0 == *old(pos) as int,
            ef == (|x: crate::models::LexicalEntryV| enc_entry(x)),
            i <= count,
            out@.len() == i,
            forall|s: Seq<crate::models::LexicalEntryV>|
                starts_with(data@, p0, #[trigger] enc_entry_list(s)) ==> {
                    &&& s.len() == count
                    &&& crate::models::views_of(out@) == s.take(i as int)
                    &&& *pos == p0 + 8 + s.take(i as int).map_values(ef).flatten().len()
                },
        decreases count - i,
    {
        let ghost qi = *pos as int;
        let item = match read_entry(data, pos) {
            Some(v) => v,
            None => {
                proof {
                    assert forall|s: Seq<crate::models::LexicalEntryV>|
                        starts_with(data@, p0, #[trigger] enc_entry_list(s)) implies false by {
                        lemma_list_elem_at(data@, p0, s, ef, i as int);
                        assert(qi == p0 + 8 + s.take(i as int).map_values(ef).flatten().len());
                        assert(ef(s[i as int]) == enc_entry(s[i as int]));
                        assert(starts_with(data@, qi, enc_entry(s[i as int])));
                    }
                }
                return None;
            },
        };
        let ghost out0 = out@;
        out.push(item);
        proof {
            assert forall|s: Seq<crate::models::LexicalEntryV>|
                starts_with(data@, p0, #[trigger] enc_entry_list(s)) implies {
                &&& crate::models::views_of(out@) == s.take(i as int + 1)
                &&& *pos == p0 + 8 + s.take(i as int + 1).map_values(ef).flatten().len()
            } by {
                lemma_list_elem_at(data@, p0, s, ef, i as int);
                assert(qi == p0 + 8 + s.take(i as int).map_values(ef).flatten().len());
                assert(ef(s[i as int]) == enc_entry(s[i as int]));
                assert(starts_with(data@, qi, enc_entry(s[i as int])));
                assert(crate::models::views_of(out0.push(out@.last())) =~= crate::models::views_of(
                    out0,
                ).push(out@.last()@));
                assert(crate::models::views_of(out@) =~= s.take(i as int + 1));
                lemma_take_map_flatten_step(s, ef, i as int);
            }
        }
        i = i + 1;
    }
    proof {
        assert forall|s: Seq<crate::models::LexicalEntryV>|
            starts_with(data@, p0, #[trigger] enc_entry_list(s)) implies (crate::models::views_of(
            out@,
        ) == s && *pos == p0 + enc_entry_list(s).len()) by {
            assert(s.take(count as int) =~= s);
        }
    }
    Some(out)
}

/// The snapshot bytes of a `Synset`.
pub open spec fn enc_synset(x: crate::models::SynsetV) -> Seq<u8> {
    enc_str(x.id) + (enc_opt_str(x.ili) + (enc_pos(x.part_of_speech) + (enc_str(x.members) + (enc_definition_list(x.definitions) + (enc_opt_ili(x.ili_definition) + (enc_synset_rel_list(x.synset_relations) + (enc_example_list(x.examples))))))))
}

/// A `Synset` encoding is never empty.
proof fn lemma_enc_synset_nonempty(x: crate::models::SynsetV)
    ensures
        enc_synset(x).len() >= 1,
{
}

/// Appends the snapshot bytes of a `Synset`.
#[verifier::rlimit(100)]
#[verifier::spinoff_prover]
pub fn write_synset(buf: &mut Vec<u8>, x: &crate::models::Synset)
    ensures
        final(buf)@ == old(buf)@ + enc_synset(x@),
{
    let ghost b0 = buf@;
    write_str(buf, x.id.as_str());
    write_opt_str(buf, &x.ili);
    write_pos(buf, x.part_of_speech);
    write_str(buf, x.members.as_str());
    write_definition_list(buf, &x.definitions);
    write_opt_ili(buf, &x.ili_definition);
    write_synset_rel_list(buf, &x.synset_relations);
    write_example_list(buf, &x.examples);
    proof {
        let e1 = enc_str(x@.id);
        let e2 = enc_opt_str(x@.ili);
        let e3 = enc_pos(x@.part_of_speech);
        let e4 = enc_str(x@.members);
        let e5 = enc_definition_list(x@.definitions);
        let e6 = enc_opt_ili(x@.ili_definition);
        let e7 = enc_synset_rel_list(x@.synset_relations);
        let e8 = enc_example_list(x@.examples);
        assert(buf@ == b0 + e1 + e2 + e3 + e4 + e5 + e6 + e7 + e8);
        seq_add_assoc(b0 + e1 + e2 + e3 + e4 + e5 + e6, e7, e8);
        seq_add_assoc(b0 + e1 + e2 + e3 + e4 + e5, e6, e7 + (e8));
        seq_add_assoc(b0 + e1 + e2 + e3 + e4, e5, e6 + (e7 + (e8)));
        seq_add_assoc(b0 + e1 + e2 + e3, e4, e5 + (e6 + (e7 + (e8))));
        seq_add_assoc(b0 + e1 + e2, e3, e4 + (e5 + (e6 + (e7 + (e8)))));
        seq_add_assoc(b0 + e1, e2, e3 + (e4 + (e5 + (e6 + (e7 + (e8))))));
        seq_add_assoc(b0, e1, e2 + (e3 + (e4 + (e5 + (e6 + (e7 + (e8)))))));
        assert(buf@ == b0 + enc_synset(x@));
    }
}

/// Reads back a `Synset` from its snapshot bytes.
#[verifier::rlimit(100)]
#[verifier::spinoff_prover]
pub fn read_synset(data: &Vec<u8>, pos: &mut usize) -> (r: Option<crate::models::Synset>)
    ensures
        forall|x: crate::models::SynsetV|
            starts_with(data@, *old(pos) as int, #[trigger] enc_synset(x)) ==> (r matches
            Some(v) && v@ == x && *final(pos) == *old(pos) + enc_synset(x).len()),
{
    let ghost p0 = *pos as int;
    let ghost q0 = *pos as int;
    let v0 = match read_str(data, pos) {
        Some(v) => v,
        None => {
            proof {
                assert forall|x: crate::models::SynsetV|
                    starts_with(data@, p0, #[trigger] enc_synset(x)) implies false by {
                    let qs0: int = p0;
                    lemma_split(data@, qs0, enc_str(x.id), enc_opt_str(x.ili) + (enc_pos(x.part_of_speech) + (enc_str(x.members) + (enc_definition_list(x.definitions) + (enc_opt_ili(x.ili_definition) + (enc_synset_rel_list(x.synset_relations) + (enc_example_list(x.examples))))))));
                    let qs1: int = qs0 + enc_str(x.id).len();
                }
            }
            return None;
        },
    };
    let ghost q1 = *pos as int;
    let v1 = match read_opt_str(data, pos) {
        Some(v) => v,
        None => {
            proof {
                assert forall|x: crate::models::SynsetV|
                    starts_with(data@, p0, #[trigger] enc_synset(x)) implies false by {
                    let qs0: int = p0;
                    lemma_split(data@, qs0, enc_str(x.id), enc_opt_str(x.ili) + (enc_pos(x.part_of_speech) + (enc_str(x.members) + (enc_definition_list(x.definitions) + (enc_opt_ili(x.ili_definition) + (enc_synset_rel_list(x.synset_relations) + (enc_example_list(x.examples))))))));
                    let qs1: int = qs0 + enc_str(x.id).len();
                    lemma_split(data@, qs1, enc_opt_str(x.ili), enc_pos(x.part_of_speech) + (enc_str(x.members) + (enc_definition_list(x.definitions) + (enc_opt_ili(x.ili_definition) + (enc_synset_rel_list(x.synset_relations) + (enc_example_list(x.examples)))))));
                    let qs2: int = qs1 + enc_opt_str(x.ili).len();
                }
            }
            return None;
        },
    };
    let ghost q2 = *pos as int;
    let v2 = match read_pos(data, pos) {
        Some(v) => v,
        None => {
            proof {
                assert forall|x: crate::models::SynsetV|
                    starts_with(data@, p0, #[trigger] enc_synset(x)) implies false by {
                    let qs0: int = p0;
                    lemma_split(data@, qs0, enc_str(x.id), enc_opt_str(x.ili) + (enc_pos(x.part_of_speech) + (enc_str(x.members) + (enc_definition_list(x.definitions) + (enc_opt_ili(x.ili_definition) + (enc_synset_rel_list(x.synset_relations) + (enc_example_list(x.examples))))))));
                    let qs1: int = qs0 + enc_str(x.id).len();
                    lemma_split(data@, qs1, enc_opt_str(x.ili), enc_pos(x.part_of_speech) + (enc_str(x.members) + (enc_definition_list(x.definitions) + (enc_opt_ili(x.ili_definition) + (enc_synset_rel_list(x.synset_relations) + (enc_example_list(x.examples)))))));
                    let qs2: int = qs1 + enc_opt_str(x.ili).len();
                    lemma_split(data@, qs2, enc_pos(x.part_of_speech), enc_str(x.members) + (enc_definition_list(x.definitions) + (enc_opt_ili(x.ili_definition) + (enc_synset_rel_list(x.synset_relations) + (enc_example_list(x.examples))))));
                    let qs3: int = qs2 + enc_pos(x.part_of_speech).len();
                }
            }
            return None;
        },
    };
    let ghost q3 = *pos as int;
    let v3 = match read_str(data, pos) {
        Some(v) => v,
        None => {
            proof {
                assert forall|x: crate::models::SynsetV|
                    starts_with(data@, p0, #[trigger] enc_synset(x)) implies false by {
                    let qs0: int = p0;
                    lemma_split(data@, qs0, enc_str(x.id), enc_opt_str(x.ili) + (enc_pos(x.part_of_speech) + (enc_str(x.members) + (enc_definition_list(x.definitions) + (enc_opt_ili(x.ili_definition) + (enc_synset_rel_list(x.synset_relations) + (enc_example_list(x.examples))))))));
                    let qs1: int = qs0 + enc_str(x.id).len();
                    lemma_split(data@, qs1, enc_opt_str(x.ili), enc_pos(x.part_of_speech) + (enc_str(x.members) + (enc_definition_list(x.definitions) + (enc_opt_ili(x.ili_definition) + (enc_synset_rel_list(x.synset_relations) + (enc_example_list(x.examples)))))));
                    let qs2: int = qs1 + enc_opt_str(x.ili).len();
                    lemma_split(data@, qs2, enc_pos(x.part_of_speech), enc_str(x.members) + (enc_definition_list(x.definitions) + (enc_opt_ili(x.ili_definition) + (enc_synset_rel_list(x.synset_relations) + (enc_example_list(x.examples))))));
                    let qs3: int = qs2 + enc_pos(x.part_of_speech).len();
                    lemma_split(data@, qs3, enc_str(x.members), enc_definition_list(x.definitions) + (enc_opt_ili(x.ili_definition) + (enc_synset_rel_list(x.synset_relations) + (enc_example_list(x.examples)))));
                    let qs4: int = qs3 + enc_str(x.members).len();
                }
            }
            return None;
        },
    };
    let ghost q4 = *pos as int;
    let v4 = match read_definition_list(data, pos) {
        Some(v) => v,
        None => {
            proof {
                assert forall|x: crate::models::SynsetV|
                    starts_with(data@, p0, #[trigger] enc_synset(x)) implies false by {
                    let qs0: int = p0;
                    lemma_split(data@, qs0, enc_str(x.id), enc_opt_str(x.ili) + (enc_pos(x.part_of_speech) + (enc_str(x.members) + (enc_definition_list(x.definitions) + (enc_opt_ili(x.ili_definition) + (enc_synset_rel_list(x.synset_relations) + (enc_example_list(x.examples))))))));
                    let qs1: int = qs0 + enc_str(x.id).len();
                    lemma_split(data@, qs1, enc_opt_str(x.ili), enc_pos(x.part_of_speech) + (enc_str(x.members) + (enc_definition_list(x.definitions) + (enc_opt_ili(x.ili_definition) + (enc_synset_rel_list(x.synset_relations) + (enc_example_list(x.examples)))))));
                    let qs2: int = qs1 + enc_opt_str(x.ili).len();
                    lemma_split(data@, qs2, enc_pos(x.part_of_speech), enc_str(x.members) + (enc_definition_list(x.definitions) + (enc_opt_ili(x.ili_definition) + (enc_synset_rel_list(x.synset_relations) + (enc_example_list(x.examples))))));
                    let qs3: int = qs2 + enc_pos(x.part_of_speech).len();
                    lemma_split(data@, qs3, enc_str(x.members), enc_definition_list(x.definitions) + (enc_opt_ili(x.ili_definition) + (enc_synset_rel_list(x.synset_relations) + (enc_example_list(x.examples)))));
                    let qs4: int = qs3 + enc_str(x.members).len();
                    lemma_split(data@, qs4, enc_definition_list(x.definitions), enc_opt_ili(x.ili_definition) + (enc_synset_rel_list(x.synset_relations) + (enc_example_list(x.examples))));
                    let qs5: int = qs4 + enc_definition_list(x.definitions).len();
                }
            }
            return None;
        },
    };
    let ghost q5 = *pos as int;
    let v5 = match read_opt_ili(data, pos) {
        Some(v) => v,
        None => {
            proof {
                assert forall|x: crate::models::SynsetV|
                    starts_with(data@, p0, #[trigger] enc_synset(x)) implies false by {
                    let qs0: int = p0;
                    lemma_split(data@, qs0, enc_str(x.id), enc_opt_str(x.ili) + (enc_pos(x.part_of_speech) + (enc_str(x.members) + (enc_definition_list(x.definitions) + (enc_opt_ili(x.ili_definition) + (enc_synset_rel_list(x.synset_relations) + (enc_example_list(x.examples))))))));
                    let qs1: int = qs0 + enc_str(x.id).len();
                    lemma_split(data@, qs1, enc_opt_str(x.ili), enc_pos(x.part_of_speech) + (enc_str(x.members) + (enc_definition_list(x.definitions) + (enc_opt_ili(x.ili_definition) + (enc_synset_rel_list(x.synset_relations) + (enc_example_list(x.examples)))))));
                    let qs2: int = qs1 + enc_opt_str(x.ili).len();
                    lemma_split(data@, qs2, enc_pos(x.part_of_speech), enc_str(x.members) + (enc_definition_list(x.definitions) + (enc_opt_ili(x.ili_definition) + (enc_synset_rel_list(x.synset_relations) + (enc_example_list(x.examples))))));
                    let qs3: int = qs2 + enc_pos(x.part_of_speech).len();
                    lemma_split(data@, qs3, enc_str(x.members), enc_definition_list(x.definitions) + (enc_opt_ili(x.ili_definition) + (enc_synset_rel_list(x.synset_relations) + (enc_example_list(x.examples)))));
                    let qs4: int = qs3 + enc_str(x.members).len();
                    lemma_split(data@, qs4, enc_definition_list(x.definitions), enc_opt_ili(x.ili_definition) + (enc_synset_rel_list(x.synset_relations) + (enc_example_list(x.examples))));
                    let qs5: int = qs4 + enc_definition_list(x.definitions).len();
                    lemma_split(data@, qs5, enc_opt_ili(x.ili_definition), enc_synset_rel_list(x.synset_relations) + (enc_example_list(x.examples)));
                    let qs6: int = qs5 + enc_opt_ili(x.ili_definition).len();
                }
            }
            return None;
        },
    };
    let ghost q6 = *pos as int;
    let v6 = match read_synset_rel_list(data, pos) {
        Some(v) => v,
        None => {
            proof {
                assert forall|x: crate::models::SynsetV|
                    starts_with(data@, p0, #[trigger] enc_synset(x)) implies false by {
                    let qs0: int = p0;
                    lemma_split(data@, qs0, enc_str(x.id), enc_opt_str(x.ili) + (enc_pos(x.part_of_speech) + (enc_str(x.members) + (enc_definition_list(x.definitions) + (enc_opt_ili(x.ili_definition) + (enc_synset_rel_list(x.synset_relations) + (enc_example_list(x.examples))))))));
                    let qs1: int = qs0 + enc_str(x.id).len();
                    lemma_split(data@, qs1, enc_opt_str(x.ili), enc_pos(x.part_of_speech) + (enc_str(x.members) + (enc_definition_list(x.definitions) + (enc_opt_ili(x.ili_definition) + (enc_synset_rel_list(x.synset_relations) + (enc_example_list(x.examples)))))));
                    let qs2: int = qs1 + enc_opt_str(x.ili).len();
                    lemma_split(data@, qs2, enc_pos(x.part_of_speech), enc_str(x.members) + (enc_definition_list(x.definitions) + (enc_opt_ili(x.ili_definition) + (enc_synset_rel_list(x.synset_relations) + (enc_example_list(x.examples))))));
                    let qs3: int = qs2 + enc_pos(x.part_of_speech).len();
                    lemma_split(data@, qs3, enc_str(x.members), enc_definition_list(x.definitions) + (enc_opt_ili(x.ili_definition) + (enc_synset_rel_list(x.synset_relations) + (enc_example_list(x.examples)))));
                    let qs4: int = qs3 + enc_str(x.members).len();
                    lemma_split(data@, qs4, enc_definition_list(x.definitions), enc_opt_ili(x.ili_definition) + (enc_synset_rel_list(x.synset_relations) + (enc_example_list(x.examples))));
                    let qs5: int = qs4 + enc_definition_list(x.definitions).len();
                    lemma_split(data@, qs5, enc_opt_ili(x.ili_definition), enc_synset_rel_list(x.synset_relations) + (enc_example_list(x.examples)));
                    let qs6: int = qs5 + enc_opt_ili(x.ili_definition).len();
                    lemma_split(data@, qs6, enc_synset_rel_list(x.synset_relations), enc_example_list(x.examples));
                    let qs7: int = qs6 + enc_synset_rel_list(x.synset_relations).len();
                }
            }
            return None;
        },
    };
    let ghost q7 = *pos as int;
    let v7 = match read_example_list(data, pos) {
        Some(v) => v,
        None => {
            proof {
                assert forall|x: crate::models::SynsetV|
                    starts_with(data@, p0, #[trigger] enc_synset(x)) implies false by {
                    let qs0: int = p0;
                    lemma_split(data@, qs0, enc_str(x.id), enc_opt_str(x.ili) + (enc_pos(x.part_of_speech) + (enc_str(x.members) + (enc_definition_list(x.definitions) + (enc_opt_ili(x.ili_definition) + (enc_synset_rel_list(x.synset_relations) + (enc_example_list(x.examples))))))));
                    let qs1: int = qs0 + enc_str(x.id).len();
                    lemma_split(data@, qs1, enc_opt_str(x.ili), enc_pos(x.part_of_speech) + (enc_str(x.members) + (enc_definition_list(x.definitions) + (enc_opt_ili(x.ili_definition) + (enc_synset_rel_list(x.synset_relations) + (enc_example_list(x.examples)))))));
                    let qs2: int = qs1 + enc_opt_str(x.ili).len();
                    lemma_split(data@, qs2, enc_pos(x.part_of_speech), enc_str(x.members) + (enc_definition_list(x.definitions) + (enc_opt_ili(x.ili_definition) + (enc_synset_rel_list(x.synset_relations) + (enc_example_list(x.examples))))));
                    let qs3: int = qs2 + enc_pos(x.part_of_speech).len();
                    lemma_split(data@, qs3, enc_str(x.members), enc_definition_list(x.definitions) + (enc_opt_ili(x.ili_definition) + (enc_synset_rel_list(x.synset_relations) + (enc_example_list(x.examples)))));
                    let qs4: int = qs3 + enc_str(x.members).len();
                    lemma_split(data@, qs4, enc_definition_list(x.definitions), enc_opt_ili(x.ili_definition) + (enc_synset_rel_list(x.synset_relations) + (enc_example_list(x.examples))));
                    let qs5: int = qs4 + enc_definition_list(x.definitions).len();
                    lemma_split(data@, qs5, enc_opt_ili(x.ili_definition), enc_synset_rel_list(x.synset_relations) + (enc_example_list(x.examples)));
                    let qs6: int = qs5 + enc_opt_ili(x.ili_definition).len();
                    lemma_split(data@, qs6, enc_synset_rel_list(x.synset_relations), enc_example_list(x.examples));
                    let qs7: int = qs6 + enc_synset_rel_list(x.synset_relations).len();
                }
            }
            return None;
        },
    };
    let out = crate::models::Synset {
        id: v0,
        ili: v1,
        part_of_speech: v2,
        members: v3,
        definitions: v4,
        ili_definition: v5,
        synset_relations: v6,
        examples: v7,
    };
    proof {
        assert forall|x: crate::models::SynsetV|
            starts_with(data@, p0, #[trigger] enc_synset(x)) implies (out@ == x && *pos
            == p0 + enc_synset(x).len()) by {
                    let qs0: int = p0;
                    lemma_split(data@, qs0, enc_str(x.id), enc_opt_str(x.ili) + (enc_pos(x.part_of_speech) + (enc_str(x.members) + (enc_definition_list(x.definitions) + (enc_opt_ili(x.ili_definition) + (enc_synset_rel_list(x.synset_relations) + (enc_example_list(x.examples))))))));
                    let qs1: int = qs0 + enc_str(x.id).len();
                    lemma_split(data@, qs1, enc_opt_str(x.ili), enc_pos(x.part_of_speech) + (enc_str(x.members) + (enc_definition_list(x.definitions) + (enc_opt_ili(x.ili_definition) + (enc_synset_rel_list(x.synset_relations) + (enc_example_list(x.examples)))))));
                    let qs2: int = qs1 + enc_opt_str(x.ili).len();
                    lemma_split(data@, qs2, enc_pos(x.part_of_speech), enc_str(x.members) + (enc_definition_list(x.definitions) + (enc_opt_ili(x.ili_definition) + (enc_synset_rel_list(x.synset_relations) + (enc_example_list(x.examples))))));
                    let qs3: int = qs2 + enc_pos(x.part_of_speech).len();
                    lemma_split(data@, qs3, enc_str(x.members), enc_definition_list(x.definitions) + (enc_opt_ili(x.ili_definition) + (enc_synset_rel_list(x.synset_relations) + (enc_example_list(x.examples)))));
                    let qs4: int = qs3 + enc_str(x.members).len();
                    lemma_split(data@, qs4, enc_definition_list(x.definitions), enc_opt_ili(x.ili_definition) + (enc_synset_rel_list(x.synset_relations) + (enc_example_list(x.examples))));
                    let qs5: int = qs4 + enc_definition_list(x.definitions).len();
                    lemma_split(data@, qs5, enc_opt_ili(x.ili_definition), enc_synset_rel_list(x.synset_relations) + (enc_example_list(x.examples)));
                    let qs6: int = qs5 + enc_opt_ili(x.ili_definition).len();
                    lemma_split(data@, qs6, enc_synset_rel_list(x.synset_relations), enc_example_list(x.examples));
                    let qs7: int = qs6 + enc_synset_rel_list(x.synset_relations).len();
            assert(out@ == x);
        }
    }
    Some(out)
}

/// The snapshot bytes of a list of `Synset` records: a count, then each
/// record in turn.
pub open spec fn enc_synset_list(s: Seq<crate::models::SynsetV>) -> Seq<u8> {
    enc_u64(s.len() as u64) + s.map_values(|x: crate::models::SynsetV| enc_synset(x)).flatten()
}

/// Appends the snapshot bytes of a vector of `Synset` records.
pub fn write_synset_list(buf: &mut Vec<u8>, v: &Vec<crate::models::Synset>)
    ensures
        final(buf)@ == old(buf)@ + enc_synset_list(crate::models::views_of(v@)),
{
    let ghost b0 = buf@;
    let ghost vs = crate::models::views_of(v@);
    let ghost ef = |x: crate::models::SynsetV| enc_synset(x);
    write_u64(buf, v.len() as u64);
    proof {
        assert(vs.take(0).map_values(ef) =~= Seq::<Seq<u8>>::empty());
        assert(Seq::<Seq<u8>>::empty().flatten() =~= Seq::<u8>::empty());
        assert(buf@ =~= b0 + enc_u64(vs.len() as u64) + vs.take(0).map_values(ef).flatten());
    }
    let n = v.len();
    let mut i: usize = 0;
    while i < n
        invariant
            b0 == old(buf)@,
            vs == crate::models::views_of(v@),
            ef == (|x: crate::models::SynsetV| enc_synset(x)),
            n == v@.len(),
            vs.len() == n,
            i <= n,
            buf@ == b0 + enc_u64(vs.len() as u64) + vs.take(i as int).map_values(
                ef,
            ).flatten(),
        decreases n - i,
    {
        write_synset(buf, &v[i]);
        proof {
            lemma_take_map_flatten_step(vs, ef, i as int);
            assert(ef(vs[i as int]) == enc_synset(vs[i as int]));
            seq_add_assoc(
                b0 + enc_u64(vs.len() as u64),
                vs.take(i as int).map_values(ef).flatten(),
                ef(vs[i as int]),
            );
            assert(buf@ == b0 + enc_u64(vs.len() as u64) + vs.take(i as int + 1).map_values(
                ef,
            ).flatten());
        }
        i = i + 1;
    }
    proof {
        assert(vs.take(n as int) =~= vs);
        assert(buf@ =~= b0 + enc_synset_list(vs));
    }
}

/// Reads back a vector of `Synset` records from its snapshot bytes.
#[verifier::rlimit(100)]
#[verifier::spinoff_prover]
pub fn read_synset_list(data: &Vec<u8>, pos: &mut usize) -> (r: Option<Vec<crate::models::Synset>>)
    ensures
        forall|s: Seq<crate::models::SynsetV>|
            starts_with(data@, *old(pos) as int, #[trigger] enc_synset_list(s)) ==> (r
            matches Some(v) && crate::models::views_of(v@) == s && *final(pos) == *old(pos)
            + enc_synset_list(s).len()),
{
    let ghost p0 = *pos as int;
    let ghost ef = |x: crate::models::SynsetV| enc_synset(x);
    let n = match read_u64(data, pos) {
        Some(n) => n,
        None => {
            proof {
                assert forall|s: Seq<crate::models::SynsetV>|
                    starts_with(data@, p0, #[trigger] enc_synset_list(s)) implies false by {
                    lemma_split(
                        data@,
                        p0,
                        enc_u64(s.len() as u64),
                        s.map_values(ef).flatten(),
                    );
                }
            }
            return None;
        },
    };
    let dl = data.len();
    if n > (dl as u64) {
        proof {
            assert forall|s: Seq<crate::models::SynsetV>|
                starts_with(data@, p0, #[trigger] enc_synset_list(s)) implies false by {
                lemma_split(data@, p0, enc_u64(s.len() as u64), s.map_values(ef).flatten());
                assert forall|k: int| 0 <= k < s.map_values(ef).len() implies (
                    #[trigger] s.map_values(ef)[k]).len() >= 1 by {
                    assert(s.map_values(ef)[k] == enc_synset(s[k]));
                    lemma_enc_synset_nonempty(s[k]);
                }
                lemma_flatten_len_bound(s.map_values(ef));
            }
        }
        return None;
    }
    let count = n as usize;
    let mut out: Vec<crate::models::Synset> = Vec::new();
    let mut i: usize = 0;
    proof {
        assert forall|s: Seq<crate::models::SynsetV>|
            starts_with(data@, p0, #[trigger] enc_synset_list(s)) implies {
            &&& s.len() == count
            &&& crate::models::views_of(out@) == s.take(0)
            &&& *pos == p0 + 8 + s.take(0).map_values(ef).flatten().len()
        } by {
            lemma_split(data@, p0, enc_u64(s.len() as u64), s.map_values(ef).flatten());
            assert forall|k: int| 0 <= k < s.map_values(ef).len() implies (
                #[trigger] s.map_values(ef)[k]).len() >= 1 by {
                assert(s.map_values(ef)[k] == enc_synset(s[k]));
                lemma_enc_synset_nonempty(s[k]);
            }
            lemma_flatten_len_bound(s.map_values(ef));
            assert(s.take(0).map_values(ef) =~= Seq::<Seq<u8>>::empty());
            assert(Seq::<Seq<u8>>::empty().flatten() =~= Seq::<u8>::empty());
            assert(crate::models::views_of(out@) =~= s.take(0));
        }
    }
    while i < count
        invariant
            p0 == *old(pos) as int,
            ef == (|x: crate::models::SynsetV| enc_synset(x)),
            i <= count,
            out@.len() == i,
            forall|s: Seq<crate::models::SynsetV>|
                starts_with(data@, p0, #[trigger] enc_synset_list(s)) ==> {
                    &&& s.len() == count
                    &&& crate::models::views_of(out@) == s.take(i as int)
                    &&& *pos == p0 + 8 + s.take(i as int).map_values(ef).flatten().len()
                },
        decreases count - i,
    {
        let ghost qi = *pos as int;
        let item = match read_synset(data, pos) {
            Some(v) => v,
            None => {
                proof {
                    assert forall|s: Seq<crate::models::SynsetV>|
                        starts_with(data@, p0, #[trigger] enc_synset_list(s)) implies false by {
                        lemma_list_elem_at(data@, p0, s, ef, i as int);
                        assert(qi == p0 + 8 + s.take(i as int).map_values(ef).flatten().len());
                        assert(ef(s[i as int]) == enc_synset(s[i as int]));
                        assert(starts_with(data@, qi, enc_synset(s[i as int])));
                    }
                }
                return None;
            },
        };
        let ghost out0 = out@;
        out.push(item);
        proof {
            assert forall|s: Seq<crate::models::SynsetV>|
                starts_with(data@, p0, #[trigger] enc_synset_list(s)) implies {
                &&& crate::models::views_of(out@) == s.take(i as int + 1)
                &&& *pos == p0 + 8 + s.take(i as int + 1).map_values(ef).flatten().len()
            } by {
                lemma_list_elem_at(data@, p0, s, ef, i as int);
                assert(qi == p0 + 8 + s.take(i as int).map_values(ef).flatten().len());
                assert(ef(s[i as int]) == enc_synset(s[i as int]));
                assert(starts_with(data@, qi, enc_synset(s[i as int])));
                assert(crate::models::views_of(out0.push(out@.last())) =~= crate::models::views_of(
                    out0,
                ).push(out@.last()@));
                assert(crate::models::views_of(out@) =~= s.take(i as int + 1));
                lemma_take_map_flatten_step(s, ef, i as int);
            }
        }
        i = i + 1;
    }
    proof {
        assert forall|s: Seq<crate::models::SynsetV>|
            starts_with(data@, p0, #[trigger] enc_synset_list(s)) implies (crate::models::views_of(
            out@,
        ) == s && *pos == p0 + enc_synset_list(s).len()) by {
            assert(s.take(count as int) =~= s);
        }
    }
    Some(out)
}

/// The snapshot bytes of a `Lexicon`.
pub open spec fn enc_lexicon(x: crate::models::LexiconV) -> Seq<u8> {
    enc_str(x.id) + (enc_str(x.label) + (enc_str(x.language) + (enc_str(x.email) + (enc_str(x.license) + (enc_str(x.version) + (enc_opt_str(x.url) + (enc_opt_str(x.citation) + (enc_opt_str(x.logo) + (enc_opt_str(x.status) + (enc_opt_str(x.dc_publisher) + (enc_opt_str(x.dc_contributor) + (enc_requires_rec_list(x.requires) + (enc_entry_list(x.lexical_entries) + (enc_synset_list(x.synsets)))))))))))))))
}

/// A `Lexicon` encoding is never empty.
proof fn lemma_enc_lexicon_nonempty(x: crate::models::LexiconV)
    ensures
        enc_lexicon(x).len() >= 1,
{
}

/// Appends the snapshot bytes of a `Lexicon`.
#[verifier::rlimit(100)]
#[verifier::spinoff_prover]
pub fn write_lexicon(buf: &mut Vec<u8>, x: &crate::models::Lexicon)
    ensures
        final(buf)@ == old(buf)@ + enc_lexicon(x@),
{
    let ghost b0 = buf@;
    write_str(buf, x.id.as_str());
    write_str(buf, x.label.as_str());
    write_str(buf, x.language.as_str());
    write_str(buf, x.email.as_str());
    write_str(buf, x.license.as_str());
    write_str(buf, x.version.as_str());
    write_opt_str(buf, &x.url);
    write_opt_str(buf, &x.citation);
    write_opt_str(buf, &x.logo);
    write_opt_str(buf, &x.status);
    write_opt_str(buf, &x.dc_publisher);
    write_opt_str(buf, &x.dc_contributor);
    write_requires_rec_list(buf, &x.requires);
    write_entry_list(buf, &x.lexical_entries);
    write_synset_list(buf, &x.synsets);
    proof {
        let e1 = enc_str(x@.id);
        let e2 = enc_str(x@.label);
        let e3 = enc_str(x@.language);
        let e4 = enc_str(x@.email);
        let e5 = enc_str(x@.license);
        let e6 = enc_str(x@.version);
        let e7 = enc_opt_str(x@.url);
        let e8 = enc_opt_str(x@.citation);
        let e9 = enc_opt_str(x@.logo);
        let e10 = enc_opt_str(x@.status);
        let e11 = enc_opt_str(x@.dc_publisher);
        let e12 = enc_opt_str(x@.dc_contributor);
        let e13 = enc_requires_rec_list(x@.requires);
        let e14 = enc_entry_list(x@.lexical_entries);
        let e15 = enc_synset_list(x@.synsets);
        assert(buf@ == b0 + e1 + e2 + e3 + e4 + e5 + e6 + e7 + e8 + e9 + e10 + e11 + e12 + e13 + e14 + e15);
        seq_add_assoc(b0 + e1 + e2 + e3 + e4 + e5 + e6 + e7 + e8 + e9 + e10 + e11 + e12 + e13, e14, e15);
        seq_add_assoc(b0 + e1 + e2 + e3 + e4 + e5 + e6 + e7 + e8 + e9 + e10 + e11 + e12, e13, e14 + (e15));
        seq_add_assoc(b0 + e1 + e2 + e3 + e4 + e5 + e6 + e7 + e8 + e9 + e10 + e11, e12, e13 + (e14 + (e15)));
        seq_add_assoc(b0 + e1 + e2 + e3 + e4 + e5 + e6 + e7 + e8 + e9 + e10, e11, e12 + (e13 + (e14 + (e15))));
        seq_add_assoc(b0 + e1 + e2 + e3 + e4 + e5 + e6 + e7 + e8 + e9, e10, e11 + (e12 + (e13 + (e14 + (e15)))));
        seq_add_assoc(b0 + e1 + e2 + e3 + e4 + e5 + e6 + e7 + e8, e9, e10 + (e11 + (e12 + (e13 + (e14 + (e15))))));
        seq_add_assoc(b0 + e1 + e2 + e3 + e4 + e5 + e6 + e7, e8, e9 + (e10 + (e11 + (e12 + (e13 + (e14 + (e15)))))));
        seq_add_assoc(b0 + e1 + e2 + e3 + e4 + e5 + e6, e7, e8 + (e9 + (e10 + (e11 + (e12 + (e13 + (e14 + (e15))))))));
        seq_add_assoc(b0 + e1 + e2 + e3 + e4 + e5, e6, e7 + (e8 + (e9 + (e10 + (e11 + (e12 + (e13 + (e14 + (e15)))))))));
        seq_add_assoc(b0 + e1 + e2 + e3 + e4, e5, e6 + (e7 + (e8 + (e9 + (e10 + (e11 + (e12 + (e13 + (e14 + (e15))))))))));
        seq_add_assoc(b0 + e1 + e2 + e3, e4, e5 + (e6 + (e7 + (e8 + (e9 + (e10 + (e11 + (e12 + (e13 + (e14 + (e15)))))))))));
        seq_add_assoc(b0 + e1 + e2, e3, e4 + (e5 + (e6 + (e7 + (e8 + (e9 + (e10 + (e11 + (e12 + (e13 + (e14 + (e15))))))))))));
        seq_add_assoc(b0 + e1, e2, e3 + (e4 + (e5 + (e6 + (e7 + (e8 + (e9 + (e10 + (e11 + (e12 + (e13 + (e14 + (e15)))))))))))));
        seq_add_assoc(b0, e1, e2 + (e3 + (e4 + (e5 + (e6 + (e7 + (e8 + (e9 + (e10 + (e11 + (e12 + (e13 + (e14 + (e15))))))))))))));
        assert(buf@ == b0 + enc_lexicon(x@));
    }
}

/// Reads back a `Lexicon` from its snapshot bytes.
#[verifier::rlimit(100)]
#[verifier::spinoff_prover]
pub fn read_lexicon(data: &Vec<u8>, pos: &mut usize) -> (r: Option<crate::models::Lexicon>)
    ensures
        forall|x: crate::models::LexiconV|
            starts_with(data@, *old(pos) as int, #[trigger] enc_lexicon(x)) ==> (r matches
            Some(v) && v@ == x && *final(pos) == *old(pos) + enc_lexicon(x).len()),
{
    let ghost p0 = *pos as int;
    let ghost q0 = *pos as int;
    let v0 = match read_str(data, pos) {
        Some(v) => v,
        None => {
            proof {
                assert forall|x: crate::models::LexiconV|
                    starts_with(data@, p0, #[trigger] enc_lexicon(x)) implies false by {
                    let qs0: int = p0;
                    lemma_split(data@, qs0, enc_str(x.id), enc_str(x.label) + (enc_str(x.language) + (enc_str(x.email) + (enc_str(x.license) + (enc_str(x.version) + (enc_opt_str(x.url) + (enc_opt_str(x.citation) + (enc_opt_str(x.logo) + (enc_opt_str(x.status) + (enc_opt_str(x.dc_publisher) + (enc_opt_str(x.dc_contributor) + (enc_requires_rec_list(x.requires) + (enc_entry_list(x.lexical_entries) + (enc_synset_list(x.synsets)))))))))))))));
                    let qs1: int = qs0 + enc_str(x.id).len();
                }
            }
            return None;
        },
    };
    let ghost q1 = *pos as int;
    let v1 = match read_str(data, pos) {
        Some(v) => v,
        None => {
            proof {
                assert forall|x: crate::models::LexiconV|
                    starts_with(data@, p0, #[trigger] enc_lexicon(x)) implies false by {
                    let qs0: int = p0;
                    lemma_split(data@, qs0, enc_str(x.id), enc_str(x.label) + (enc_str(x.language) + (enc_str(x.email) + (enc_str(x.license) + (enc_str(x.version) + (enc_opt_str(x.url) + (enc_opt_str(x.citation) + (enc_opt_str(x.logo) + (enc_opt_str(x.status) + (enc_opt_str(x.dc_publisher) + (enc_opt_str(x.dc_contributor) + (enc_requires_rec_list(x.requires) + (enc_entry_list(x.lexical_entries) + (enc_synset_list(x.synsets)))))))))))))));
                    let qs1: int = qs0 + enc_str(x.id).len();
                    lemma_split(data@, qs1, enc_str(x.label), enc_str(x.language) + (enc_str(x.email) + (enc_str(x.license) + (enc_str(x.version) + (enc_opt_str(x.url) + (enc_opt_str(x.citation) + (enc_opt_str(x.logo) + (enc_opt_str(x.status) + (enc_opt_str(x.dc_publisher) + (enc_opt_str(x.dc_contributor) + (enc_requires_rec_list(x.requires) + (enc_entry_list(x.lexical_entries) + (enc_synset_list(x.synsets))))))))))))));
                    let qs2: int = qs1 + enc_str(x.label).len();
                }
            }
            return None;
        },
    };
    let ghost q2 = *pos as int;
    let v2 = match read_str(data, pos) {
        Some(v) => v,
        None => {
            proof {
                assert forall|x: crate::models::LexiconV|
                    starts_with(data@, p0, #[trigger] enc_lexicon(x)) implies false by {
                    let qs0: int = p0;
                    lemma_split(data@, qs0, enc_str(x.id), enc_str(x.label) + (enc_str(x.language) + (enc_str(x.email) + (enc_str(x.license) + (enc_str(x.version) + (enc_opt_str(x.url) + (enc_opt_str(x.citation) + (enc_opt_str(x.logo) + (enc_opt_str(x.status) + (enc_opt_str(x.dc_publisher) + (enc_opt_str(x.dc_contributor) + (enc_requires_rec_list(x.requires) + (enc_entry_list(x.lexical_entries) + (enc_synset_list(x.synsets)))))))))))))));
                    let qs1: int = qs0 + enc_str(x.id).len();
                    lemma_split(data@, qs1, enc_str(x.label), enc_str(x.language) + (enc_str(x.email) + (enc_str(x.license) + (enc_str(x.version) + (enc_opt_str(x.url) + (enc_opt_str(x.citation) + (enc_opt_str(x.logo) + (enc_opt_str(x.status) + (enc_opt_str(x.dc_publisher) + (enc_opt_str(x.dc_contributor) + (enc_requires_rec_list(x.requires) + (enc_entry_list(x.lexical_entries) + (enc_synset_list(x.synsets))))))))))))));
                    let qs2: int = qs1 + enc_str(x.label).len();
                    lemma_split(data@, qs2, enc_str(x.language), enc_str(x.email) + (enc_str(x.license) + (enc_str(x.version) + (enc_opt_str(x.url) + (enc_opt_str(x.citation) + (enc_opt_str(x.logo) + (enc_opt_str(x.status) + (enc_opt_str(x.dc_publisher) + (enc_opt_str(x.dc_contributor) + (enc_requires_rec_list(x.requires) + (enc_entry_list(x.lexical_entries) + (enc_synset_list(x.synsets)))))))))))));
                    let qs3: int = qs2 + enc_str(x.language).len();
                }
            }
            return None;
        },
    };
    let ghost q3 = *pos as int;
    let v3 = match read_str(data, pos) {
        Some(v) => v,
        None => {
            proof {
                assert forall|x: crate::models::LexiconV|
                    starts_with(data@, p0, #[trigger] enc_lexicon(x)) implies false by {
                    let qs0: int = p0;
                    lemma_split(data@, qs0, enc_str(x.id), enc_str(x.label) + (enc_str(x.language) + (enc_str(x.email) + (enc_str(x.license) + (enc_str(x.version) + (enc_opt_str(x.url) + (enc_opt_str(x.citation) + (enc_opt_str(x.logo) + (enc_opt_str(x.status) + (enc_opt_str(x.dc_publisher) + (enc_opt_str(x.dc_contributor) + (enc_requires_rec_list(x.requires) + (enc_entry_list(x.lexical_entries) + (enc_synset_list(x.synsets)))))))))))))));
                    let qs1: int = qs0 + enc_str(x.id).len();
                    lemma_split(data@, qs1, enc_str(x.label), enc_str(x.language) + (enc_str(x.email) + (enc_str(x.license) + (enc_str(x.version) + (enc_opt_str(x.url) + (enc_opt_str(x.citation) + (enc_opt_str(x.logo) + (enc_opt_str(x.status) + (enc_opt_str(x.dc_publisher) + (enc_opt_str(x.dc_contributor) + (enc_requires_rec_list(x.requires) + (enc_entry_list(x.lexical_entries) + (enc_synset_list(x.synsets))))))))))))));
                    let qs2: int = qs1 + enc_str(x.label).len();
                    lemma_split(data@, qs2, enc_str(x.language), enc_str(x.email) + (enc_str(x.license) + (enc_str(x.version) + (enc_opt_str(x.url) + (enc_opt_str(x.citation) + (enc_opt_str(x.logo) + (enc_opt_str(x.status) + (enc_opt_str(x.dc_publisher) + (enc_opt_str(x.dc_contributor) + (enc_requires_rec_list(x.requires) + (enc_entry_list(x.lexical_entries) + (enc_synset_list(x.synsets)))))))))))));
                    let qs3: int = qs2 + enc_str(x.language).len();
                    lemma_split(data@, qs3, enc_str(x.email), enc_str(x.license) + (enc_str(x.version) + (enc_opt_str(x.url) + (enc_opt_str(x.citation) + (enc_opt_str(x.logo) + (enc_opt_str(x.status) + (enc_opt_str(x.dc_publisher) + (enc_opt_str(x.dc_contributor) + (enc_requires_rec_list(x.requires) + (enc_entry_list(x.lexical_entries) + (enc_synset_list(x.synsets))))))))))));
                    let qs4: int = qs3 + enc_str(x.email).len();
                }
            }
            return None;
        },
    };
    let ghost q4 = *pos as int;
    let v4 = match read_str(data, pos) {
        Some(v) => v,
        None => {
            proof {
                assert forall|x: crate::models::LexiconV|
                    starts_with(data@, p0, #[trigger] enc_lexicon(x)) implies false by {
                    let qs0: int = p0;
                    lemma_split(data@, qs0, enc_str(x.id), enc_str(x.label) + (enc_str(x.language) + (enc_str(x.email) + (enc_str(x.license) + (enc_str(x.version) + (enc_opt_str(x.url) + (enc_opt_str(x.citation) + (enc_opt_str(x.logo) + (enc_opt_str(x.status) + (enc_opt_str(x.dc_publisher) + (enc_opt_str(x.dc_contributor) + (enc_requires_rec_list(x.requires) + (enc_entry_list(x.lexical_entries) + (enc_synset_list(x.synsets)))))))))))))));
                    let qs1: int = qs0 + enc_str(x.id).len();
                    lemma_split(data@, qs1, enc_str(x.label), enc_str(x.language) + (enc_str(x.email) + (enc_str(x.license) + (enc_str(x.version) + (enc_opt_str(x.url) + (enc_opt_str(x.citation) + (enc_opt_str(x.logo) + (enc_opt_str(x.status) + (enc_opt_str(x.dc_publisher) + (enc_opt_str(x.dc_contributor) + (enc_requires_rec_list(x.requires) + (enc_entry_list(x.lexical_entries) + (enc_synset_list(x.synsets))))))))))))));
                    let qs2: int = qs1 + enc_str(x.label).len();
                    lemma_split(data@, qs2, enc_str(x.language), enc_str(x.email) + (enc_str(x.license) + (enc_str(x.version) + (enc_opt_str(x.url) + (enc_opt_str(x.citation) + (enc_opt_str(x.logo) + (enc_opt_str(x.status) + (enc_opt_str(x.dc_publisher) + (enc_opt_str(x.dc_contributor) + (enc_requires_rec_list(x.requires) + (enc_entry_list(x.lexical_entries) + (enc_synset_list(x.synsets)))))))))))));
                    let qs3: int = qs2 + enc_str(x.language).len();
                    lemma_split(data@, qs3, enc_str(x.email), enc_str(x.license) + (enc_str(x.version) + (enc_opt_str(x.url) + (enc_opt_str(x.citation) + (enc_opt_str(x.logo) + (enc_opt_str(x.status) + (enc_opt_str(x.dc_publisher) + (enc_opt_str(x.dc_contributor) + (enc_requires_rec_list(x.requires) + (enc_entry_list(x.lexical_entries) + (enc_synset_list(x.synsets))))))))))));
                    let qs4: int = qs3 + enc_str(x.email).len();
                    lemma_split(data@, qs4, enc_str(x.license), enc_str(x.version) + (enc_opt_str(x.url) + (enc_opt_str(x.citation) + (enc_opt_str(x.logo) + (enc_opt_str(x.status) + (enc_opt_str(x.dc_publisher) + (enc_opt_str(x.dc_contributor) + (enc_requires_rec_list(x.requires) + (enc_entry_list(x.lexical_entries) + (enc_synset_list(x.synsets)))))))))));
                    let qs5: int = qs4 + enc_str(x.license).len();
                }
            }
            return None;
        },
    };
    let ghost q5 = *pos as int;
    let v5 = match read_str(data, pos) {
        Some(v) => v,
        None => {
            proof {
                assert forall|x: crate::models::LexiconV|
                    starts_with(data@, p0, #[trigger] enc_lexicon(x)) implies false by {
                    let qs0: int = p0;
                    lemma_split(data@, qs0, enc_str(x.id), enc_str(x.label) + (enc_str(x.language) + (enc_str(x.email) + (enc_str(x.license) + (enc_str(x.version) + (enc_opt_str(x.url) + (enc_opt_str(x.citation) + (enc_opt_str(x.logo) + (enc_opt_str(x.status) + (enc_opt_str(x.dc_publisher) + (enc_opt_str(x.dc_contributor) + (enc_requires_rec_list(x.requires) + (enc_entry_list(x.lexical_entries) + (enc_synset_list(x.synsets)))))))))))))));
                    let qs1: int = qs0 + enc_str(x.id).len();
                    lemma_split(data@, qs1, enc_str(x.label), enc_str(x.language) + (enc_str(x.email) + (enc_str(x.license) + (enc_str(x.version) + (enc_opt_str(x.url) + (enc_opt_str(x.citation) + (enc_opt_str(x.logo) + (enc_opt_str(x.status) + (enc_opt_str(x.dc_publisher) + (enc_opt_str(x.dc_contributor) + (enc_requires_rec_list(x.requires) + (enc_entry_list(x.lexical_entries) + (enc_synset_list(x.synsets))))))))))))));
                    let qs2: int = qs1 + enc_str(x.label).len();
                    lemma_split(data@, qs2, enc_str(x.language), enc_str(x.email) + (enc_str(x.license) + (enc_str(x.version) + (enc_opt_str(x.url) + (enc_opt_str(x.citation) + (enc_opt_str(x.logo) + (enc_opt_str(x.status) + (enc_opt_str(x.dc_publisher) + (enc_opt_str(x.dc_contributor) + (enc_requires_rec_list(x.requires) + (enc_entry_list(x.lexical_entries) + (enc_synset_list(x.synsets)))))))))))));
                    let qs3: int = qs2 + enc_str(x.language).len();
                    lemma_split(data@, qs3, enc_str(x.email), enc_str(x.license) + (enc_str(x.version) + (enc_opt_str(x.url) + (enc_opt_str(x.citation) + (enc_opt_str(x.logo) + (enc_opt_str(x.status) + (enc_opt_str(x.dc_publisher) + (enc_opt_str(x.dc_contributor) + (enc_requires_rec_list(x.requires) + (enc_entry_list(x.lexical_entries) + (enc_synset_list(x.synsets))))))))))));
                    let qs4: int = qs3 + enc_str(x.email).len();
                    lemma_split(data@, qs4, enc_str(x.license), enc_str(x.version) + (enc_opt_str(x.url) + (enc_opt_str(x.citation) + (enc_opt_str(x.logo) + (enc_opt_str(x.status) + (enc_opt_str(x.dc_publisher) + (enc_opt_str(x.dc_contributor) + (enc_requires_rec_list(x.requires) + (enc_entry_list(x.lexical_entries) + (enc_synset_list(x.synsets)))))))))));
                    let qs5: int = qs4 + enc_str(x.license).len();
                    lemma_split(data@, qs5, enc_str(x.version), enc_opt_str(x.url) + (enc_opt_str(x.citation) + (enc_opt_str(x.logo) + (enc_opt_str(x.status) + (enc_opt_str(x.dc_publisher) + (enc_opt_str(x.dc_contributor) + (enc_requires_rec_list(x.requires) + (enc_entry_list(x.lexical_entries) + (enc_synset_list(x.synsets))))))))));
                    let qs6: int = qs5 + enc_str(x.version).len();
                }
            }
            return None;
        },
    };
    let ghost q6 = *pos as int;
    let v6 = match read_opt_str(data, pos) {
        Some(v) => v,
        None => {
            proof {
                assert forall|x: crate::models::LexiconV|
                    starts_with(data@, p0, #[trigger] enc_lexicon(x)) implies false by {
                    let qs0: int = p0;
                    lemma_split(data@, qs0, enc_str(x.id), enc_str(x.label) + (enc_str(x.language) + (enc_str(x.email) + (enc_str(x.license) + (enc_str(x.version) + (enc_opt_str(x.url) + (enc_opt_str(x.citation) + (enc_opt_str(x.logo) + (enc_opt_str(x.status) + (enc_opt_str(x.dc_publisher) + (enc_opt_str(x.dc_contributor) + (enc_requires_rec_list(x.requires) + (enc_entry_list(x.lexical_entries) + (enc_synset_list(x.synsets)))))))))))))));
                    let qs1: int = qs0 + enc_str(x.id).len();
                    lemma_split(data@, qs1, enc_str(x.label), enc_str(x.language) + (enc_str(x.email) + (enc_str(x.license) + (enc_str(x.version) + (enc_opt_str(x.url) + (enc_opt_str(x.citation) + (enc_opt_str(x.logo) + (enc_opt_str(x.status) + (enc_opt_str(x.dc_publisher) + (enc_opt_str(x.dc_contributor) + (enc_requires_rec_list(x.requires) + (enc_entry_list(x.lexical_entries) + (enc_synset_list(x.synsets))))))))))))));
                    let qs2: int = qs1 + enc_str(x.label).len();
                    lemma_split(data@, qs2, enc_str(x.language), enc_str(x.email) + (enc_str(x.license) + (enc_str(x.version) + (enc_opt_str(x.url) + (enc_opt_str(x.citation) + (enc_opt_str(x.logo) + (enc_opt_str(x.status) + (enc_opt_str(x.dc_publisher) + (enc_opt_str(x.dc_contributor) + (enc_requires_rec_list(x.requires) + (enc_entry_list(x.lexical_entries) + (enc_synset_list(x.synsets)))))))))))));
                    let qs3: int = qs2 + enc_str(x.language).len();
                    lemma_split(data@, qs3, enc_str(x.email), enc_str(x.license) + (enc_str(x.version) + (enc_opt_str(x.url) + (enc_opt_str(x.citation) + (enc_opt_str(x.logo) + (enc_opt_str(x.status) + (enc_opt_str(x.dc_publisher) + (enc_opt_str(x.dc_contributor) + (enc_requires_rec_list(x.requires) + (enc_entry_list(x.lexical_entries) + (enc_synset_list(x.synsets))))))))))));
                    let qs4: int = qs3 + enc_str(x.email).len();
                    lemma_split(data@, qs4, enc_str(x.license), enc_str(x.version) + (enc_opt_str(x.url) + (enc_opt_str(x.citation) + (enc_opt_str(x.logo) + (enc_opt_str(x.status) + (enc_opt_str(x.dc_publisher) + (enc_opt_str(x.dc_contributor) + (enc_requires_rec_list(x.requires) + (enc_entry_list(x.lexical_entries) + (enc_synset_list(x.synsets)))))))))));
                    let qs5: int = qs4 + enc_str(x.license).len();
                    lemma_split(data@, qs5, enc_str(x.version), enc_opt_str(x.url) + (enc_opt_str(x.citation) + (enc_opt_str(x.logo) + (enc_opt_str(x.status) + (enc_opt_str(x.dc_publisher) + (enc_opt_str(x.dc_contributor) + (enc_requires_rec_list(x.requires) + (enc_entry_list(x.lexical_entries) + (enc_synset_list(x.synsets))))))))));
                    let qs6: int = qs5 + enc_str(x.version).len();
                    lemma_split(data@, qs6, enc_opt_str(x.url), enc_opt_str(x.citation) + (enc_opt_str(x.logo) + (enc_opt_str(x.status) + (enc_opt_str(x.dc_publisher) + (enc_opt_str(x.dc_contributor) + (enc_requires_rec_list(x.requires) + (enc_entry_list(x.lexical_entries) + (enc_synset_list(x.synsets)))))))));
                    let qs7: int = qs6 + enc_opt_str(x.url).len();
                }
            }
            return None;
        },
    };
    let ghost q7 = *pos as int;
    let v7 = match read_opt_str(data, pos) {
        Some(v) => v,
        None => {
            proof {
                assert forall|x: crate::models::LexiconV|
                    starts_with(data@, p0, #[trigger] enc_lexicon(x)) implies false by {
                    let qs0: int = p0;
                    lemma_split(data@, qs0, enc_str(x.id), enc_str(x.label) + (enc_str(x.language) + (enc_str(x.email) + (enc_str(x.license) + (enc_str(x.version) + (enc_opt_str(x.url) + (enc_opt_str(x.citation) + (enc_opt_str(x.logo) + (enc_opt_str(x.status) + (enc_opt_str(x.dc_publisher) + (enc_opt_str(x.dc_contributor) + (enc_requires_rec_list(x.requires) + (enc_entry_list(x.lexical_entries) + (enc_synset_list(x.synsets)))))))))))))));
                    let qs1: int = qs0 + enc_str(x.id).len();
                    lemma_split(data@, qs1, enc_str(x.label), enc_str(x.language) + (enc_str(x.email) + (enc_str(x.license) + (enc_str(x.version) + (enc_opt_str(x.url) + (enc_opt_str(x.citation) + (enc_opt_str(x.logo) + (enc_opt_str(x.status) + (enc_opt_str(x.dc_publisher) + (enc_opt_str(x.dc_contributor) + (enc_requires_rec_list(x.requires) + (enc_entry_list(x.lexical_entries) + (enc_synset_list(x.synsets))))))))))))));
                    let qs2: int = qs1 + enc_str(x.label).len();
                    lemma_split(data@, qs2, enc_str(x.language), enc_str(x.email) + (enc_str(x.license) + (enc_str(x.version) + (enc_opt_str(x.url) + (enc_opt_str(x.citation) + (enc_opt_str(x.logo) + (enc_opt_str(x.status) + (enc_opt_str(x.dc_publisher) + (enc_opt_str(x.dc_contributor) + (enc_requires_rec_list(x.requires) + (enc_entry_list(x.lexical_entries) + (enc_synset_list(x.synsets)))))))))))));
                    let qs3: int = qs2 + enc_str(x.language).len();
                    lemma_split(data@, qs3, enc_str(x.email), enc_str(x.license) + (enc_str(x.version) + (enc_opt_str(x.url) + (enc_opt_str(x.citation) + (enc_opt_str(x.logo) + (enc_opt_str(x.status) + (enc_opt_str(x.dc_publisher) + (enc_opt_str(x.dc_contributor) + (enc_requires_rec_list(x.requires) + (enc_entry_list(x.lexical_entries) + (enc_synset_list(x.synsets))))))))))));
                    let qs4: int = qs3 + enc_str(x.email).len();
                    lemma_split(data@, qs4, enc_str(x.license), enc_str(x.version) + (enc_opt_str(x.url) + (enc_opt_str(x.citation) + (enc_opt_str(x.logo) + (enc_opt_str(x.status) + (enc_opt_str(x.dc_publisher) + (enc_opt_str(x.dc_contributor) + (enc_requires_rec_list(x.requires) + (enc_entry_list(x.lexical_entries) + (enc_synset_list(x.synsets)))))))))));
                    let qs5: int = qs4 + enc_str(x.license).len();
                    lemma_split(data@, qs5, enc_str(x.version), enc_opt_str(x.url) + (enc_opt_str(x.citation) + (enc_opt_str(x.logo) + (enc_opt_str(x.status) + (enc_opt_str(x.dc_publisher) + (enc_opt_str(x.dc_contributor) + (enc_requires_rec_list(x.requires) + (enc_entry_list(x.lexical_entries) + (enc_synset_list(x.synsets))))))))));
                    let qs6: int = qs5 + enc_str(x.version).len();
                    lemma_split(data@, qs6, enc_opt_str(x.url), enc_opt_str(x.citation) + (enc_opt_str(x.logo) + (enc_opt_str(x.status) + (enc_opt_str(x.dc_publisher) + (enc_opt_str(x.dc_contributor) + (enc_requires_rec_list(x.requires) + (enc_entry_list(x.lexical_entries) + (enc_synset_list(x.synsets)))))))));
                    let qs7: int = qs6 + enc_opt_str(x.url).len();
                    lemma_split(data@, qs7, enc_opt_str(x.citation), enc_opt_str(x.logo) + (enc_opt_str(x.status) + (enc_opt_str(x.dc_publisher) + (enc_opt_str(x.dc_contributor) + (enc_requires_rec_list(x.requires) + (enc_entry_list(x.lexical_entries) + (enc_synset_list(x.synsets))))))));
                    let qs8: int = qs7 + enc_opt_str(x.citation).len();
                }
            }
            return None;
        },
    };
    let ghost q8 = *pos as int;
    let v8 = match read_opt_str(data, pos) {
        Some(v) => v,
        None => {
            proof {
                assert forall|x: crate::models::LexiconV|
                    starts_with(data@, p0, #[trigger] enc_lexicon(x)) implies false by {
                    let qs0: int = p0;
                    lemma_split(data@, qs0, enc_str(x.id), enc_str(x.label) + (enc_str(x.language) + (enc_str(x.email) + (enc_str(x.license) + (enc_str(x.version) + (enc_opt_str(x.url) + (enc_opt_str(x.citation) + (enc_opt_str(x.logo) + (enc_opt_str(x.status) + (enc_opt_str(x.dc_publisher) + (enc_opt_str(x.dc_contributor) + (enc_requires_rec_list(x.requires) + (enc_entry_list(x.lexical_entries) + (enc_synset_list(x.synsets)))))))))))))));
                    let qs1: int = qs0 + enc_str(x.id).len();
                    lemma_split(data@, qs1, enc_str(x.label), enc_str(x.language) + (enc_str(x.email) + (enc_str(x.license) + (enc_str(x.version) + (enc_opt_str(x.url) + (enc_opt_str(x.citation) + (enc_opt_str(x.logo) + (enc_opt_str(x.status) + (enc_opt_str(x.dc_publisher) + (enc_opt_str(x.dc_contributor) + (enc_requires_rec_list(x.requires) + (enc_entry_list(x.lexical_entries) + (enc_synset_list(x.synsets))))))))))))));
                    let qs2: int = qs1 + enc_str(x.label).len();
                    lemma_split(data@, qs2, enc_str(x.language), enc_str(x.email) + (enc_str(x.license) + (enc_str(x.version) + (enc_opt_str(x.url) + (enc_opt_str(x.citation) + (enc_opt_str(x.logo) + (enc_opt_str(x.status) + (enc_opt_str(x.dc_publisher) + (enc_opt_str(x.dc_contributor) + (enc_requires_rec_list(x.requires) + (enc_entry_list(x.lexical_entries) + (enc_synset_list(x.synsets)))))))))))));
                    let qs3: int = qs2 + enc_str(x.language).len();
                    lemma_split(data@, qs3, enc_str(x.email), enc_str(x.license) + (enc_str(x.version) + (enc_opt_str(x.url) + (enc_opt_str(x.citation) + (enc_opt_str(x.logo) + (enc_opt_str(x.status) + (enc_opt_str(x.dc_publisher) + (enc_opt_str(x.dc_contributor) + (enc_requires_rec_list(x.requires) + (enc_entry_list(x.lexical_entries) + (enc_synset_list(x.synsets))))))))))));
                    let qs4: int = qs3 + enc_str(x.email).len();
                    lemma_split(data@, qs4, enc_str(x.license), enc_str(x.version) + (enc_opt_str(x.url) + (enc_opt_str(x.citation) + (enc_opt_str(x.logo) + (enc_opt_str(x.status) + (enc_opt_str(x.dc_publisher) + (enc_opt_str(x.dc_contributor) + (enc_requires_rec_list(x.requires) + (enc_entry_list(x.lexical_entries) + (enc_synset_list(x.synsets)))))))))));
                    let qs5: int = qs4 + enc_str(x.license).len();
                    lemma_split(data@, qs5, enc_str(x.version), enc_opt_str(x.url) + (enc_opt_str(x.citation) + (enc_opt_str(x.logo) + (enc_opt_str(x.status) + (enc_opt_str(x.dc_publisher) + (enc_opt_str(x.dc_contributor) + (enc_requires_rec_list(x.requires) + (enc_entry_list(x.lexical_entries) + (enc_synset_list(x.synsets))))))))));
                    let qs6: int = qs5 + enc_str(x.version).len();
                    lemma_split(data@, qs6, enc_opt_str(x.url), enc_opt_str(x.citation) + (enc_opt_str(x.logo) + (enc_opt_str(x.status) + (enc_opt_str(x.dc_publisher) + (enc_opt_str(x.dc_contributor) + (enc_requires_rec_list(x.requires) + (enc_entry_list(x.lexical_entries) + (enc_synset_list(x.synsets)))))))));
                    let qs7: int = qs6 + enc_opt_str(x.url).len();
                    lemma_split(data@, qs7, enc_opt_str(x.citation), enc_opt_str(x.logo) + (enc_opt_str(x.status) + (enc_opt_str(x.dc_publisher) + (enc_opt_str(x.dc_contributor) + (enc_requires_rec_list(x.requires) + (enc_entry_list(x.lexical_entries) + (enc_synset_list(x.synsets))))))));
                    let qs8: int = qs7 + enc_opt_str(x.citation).len();
                    lemma_split(data@, qs8, enc_opt_str(x.logo), enc_opt_str(x.status) + (enc_opt_str(x.dc_publisher) + (enc_opt_str(x.dc_contributor) + (enc_requires_rec_list(x.requires) + (enc_entry_list(x.lexical_entries) + (enc_synset_list(x.synsets)))))));
                    let qs9: int = qs8 + enc_opt_str(x.logo).len();
                }
            }
            return None;
        },
    };
    let ghost q9 = *pos as int;
    let v9 = match read_opt_str(data, pos) {
        Some(v) => v,
        None => {
            proof {
                assert forall|x: crate::models::LexiconV|
                    starts_with(data@, p0, #[trigger] enc_lexicon(x)) implies false by {
                    let qs0: int = p0;
                    lemma_split(data@, qs0, enc_str(x.id), enc_str(x.label) + (enc_str(x.language) + (enc_str(x.email) + (enc_str(x.license) + (enc_str(x.version) + (enc_opt_str(x.url) + (enc_opt_str(x.citation) + (enc_opt_str(x.logo) + (enc_opt_str(x.status) + (enc_opt_str(x.dc_publisher) + (enc_opt_str(x.dc_contributor) + (enc_requires_rec_list(x.requires) + (enc_entry_list(x.lexical_entries) + (enc_synset_list(x.synsets)))))))))))))));
                    let qs1: int = qs0 + enc_str(x.id).len();
                    lemma_split(data@, qs1, enc_str(x.label), enc_str(x.language) + (enc_str(x.email) + (enc_str(x.license) + (enc_str(x.version) + (enc_opt_str(x.url) + (enc_opt_str(x.citation) + (enc_opt_str(x.logo) + (enc_opt_str(x.status) + (enc_opt_str(x.dc_publisher) + (enc_opt_str(x.dc_contributor) + (enc_requires_rec_list(x.requires) + (enc_entry_list(x.lexical_entries) + (enc_synset_list(x.synsets))))))))))))));
                    let qs2: int = qs1 + enc_str(x.label).len();
                    lemma_split(data@, qs2, enc_str(x.language), enc_str(x.email) + (enc_str(x.license) + (enc_str(x.version) + (enc_opt_str(x.url) + (enc_opt_str(x.citation) + (enc_opt_str(x.logo) + (enc_opt_str(x.status) + (enc_opt_str(x.dc_publisher) + (enc_opt_str(x.dc_contributor) + (enc_requires_rec_list(x.requires) + (enc_entry_list(x.lexical_entries) + (enc_synset_list(x.synsets)))))))))))));
                    let qs3: int = qs2 + enc_str(x.language).len();
                    lemma_split(data@, qs3, enc_str(x.email), enc_str(x.license) + (enc_str(x.version) + (enc_opt_str(x.url) + (enc_opt_str(x.citation) + (enc_opt_str(x.logo) + (enc_opt_str(x.status) + (enc_opt_str(x.dc_publisher) + (enc_opt_str(x.dc_contributor) + (enc_requires_rec_list(x.requires) + (enc_entry_list(x.lexical_entries) + (enc_synset_list(x.synsets))))))))))));
                    let qs4: int = qs3 + enc_str(x.email).len();
                    lemma_split(data@, qs4, enc_str(x.license), enc_str(x.version) + (enc_opt_str(x.url) + (enc_opt_str(x.citation) + (enc_opt_str(x.logo) + (enc_opt_str(x.status) + (enc_opt_str(x.dc_publisher) + (enc_opt_str(x.dc_contributor) + (enc_requires_rec_list(x.requires) + (enc_entry_list(x.lexical_entries) + (enc_synset_list(x.synsets)))))))))));
                    let qs5: int = qs4 + enc_str(x.license).len();
                    lemma_split(data@, qs5, enc_str(x.version), enc_opt_str(x.url) + (enc_opt_str(x.citation) + (enc_opt_str(x.logo) + (enc_opt_str(x.status) + (enc_opt_str(x.dc_publisher) + (enc_opt_str(x.dc_contributor) + (enc_requires_rec_list(x.requires) + (enc_entry_list(x.lexical_entries) + (enc_synset_list(x.synsets))))))))));
                    let qs6: int = qs5 + enc_str(x.version).len();
                    lemma_split(data@, qs6, enc_opt_str(x.url), enc_opt_str(x.citation) + (enc_opt_str(x.logo) + (enc_opt_str(x.status) + (enc_opt_str(x.dc_publisher) + (enc_opt_str(x.dc_contributor) + (enc_requires_rec_list(x.requires) + (enc_entry_list(x.lexical_entries) + (enc_synset_list(x.synsets)))))))));
                    let qs7: int = qs6 + enc_opt_str(x.url).len();
                    lemma_split(data@, qs7, enc_opt_str(x.citation), enc_opt_str(x.logo) + (enc_opt_str(x.status) + (enc_opt_str(x.dc_publisher) + (enc_opt_str(x.dc_contributor) + (enc_requires_rec_list(x.requires) + (enc_entry_list(x.lexical_entries) + (enc_synset_list(x.synsets))))))));
                    let qs8: int = qs7 + enc_opt_str(x.citation).len();
                    lemma_split(data@, qs8, enc_opt_str(x.logo), enc_opt_str(x.status) + (enc_opt_str(x.dc_publisher) + (enc_opt_str(x.dc_contributor) + (enc_requires_rec_list(x.requires) + (enc_entry_list(x.lexical_entries) + (enc_synset_list(x.synsets)))))));
                    let qs9: int = qs8 + enc_opt_str(x.logo).len();
                    lemma_split(data@, qs9, enc_opt_str(x.status), enc_opt_str(x.dc_publisher) + (enc_opt_str(x.dc_contributor) + (enc_requires_rec_list(x.requires) + (enc_entry_list(x.lexical_entries) + (enc_synset_list(x.synsets))))));
                    let qs10: int = qs9 + enc_opt_str(x.status).len();
                }
            }
            return None;
        },
    };
    let ghost q10 = *pos as int;
    let v10 = match read_opt_str(data, pos) {
        Some(v) => v,
        None => {
            proof {
                assert forall|x: crate::models::LexiconV|
                    starts_with(data@, p0, #[trigger] enc_lexicon(x)) implies false by {
                    let qs0: int = p0;
                    lemma_split(data@, qs0, enc_str(x.id), enc_str(x.label) + (enc_str(x.language) + (enc_str(x.email) + (enc_str(x.license) + (enc_str(x.version) + (enc_opt_str(x.url) + (enc_opt_str(x.citation) + (enc_opt_str(x.logo) + (enc_opt_str(x.status) + (enc_opt_str(x.dc_publisher) + (enc_opt_str(x.dc_contributor) + (enc_requires_rec_list(x.requires) + (enc_entry_list(x.lexical_entries) + (enc_synset_list(x.synsets)))))))))))))));
                    let qs1: int = qs0 + enc_str(x.id).len();
                    lemma_split(data@, qs1, enc_str(x.label), enc_str(x.language) + (enc_str(x.email) + (enc_str(x.license) + (enc_str(x.version) + (enc_opt_str(x.url) + (enc_opt_str(x.citation) + (enc_opt_str(x.logo) + (enc_opt_str(x.status) + (enc_opt_str(x.dc_publisher) + (enc_opt_str(x.dc_contributor) + (enc_requires_rec_list(x.requires) + (enc_entry_list(x.lexical_entries) + (enc_synset_list(x.synsets))))))))))))));
                    let qs2: int = qs1 + enc_str(x.label).len();
                    lemma_split(data@, qs2, enc_str(x.language), enc_str(x.email) + (enc_str(x.license) + (enc_str(x.version) + (enc_opt_str(x.url) + (enc_opt_str(x.citation) + (enc_opt_str(x.logo) + (enc_opt_str(x.status) + (enc_opt_str(x.dc_publisher) + (enc_opt_str(x.dc_contributor) + (enc_requires_rec_list(x.requires) + (enc_entry_list(x.lexical_entries) + (enc_synset_list(x.synsets)))))))))))));
                    let qs3: int = qs2 + enc_str(x.language).len();
                    lemma_split(data@, qs3, enc_str(x.email), enc_str(x.license) + (enc_str(x.version) + (enc_opt_str(x.url) + (enc_opt_str(x.citation) + (enc_opt_str(x.logo) + (enc_opt_str(x.status) + (enc_opt_str(x.dc_publisher) + (enc_opt_str(x.dc_contributor) + (enc_requires_rec_list(x.requires) + (enc_entry_list(x.lexical_entries) + (enc_synset_list(x.synsets))))))))))));
                    let qs4: int = qs3 + enc_str(x.email).len();
                    lemma_split(data@, qs4, enc_str(x.license), enc_str(x.version) + (enc_opt_str(x.url) + (enc_opt_str(x.citation) + (enc_opt_str(x.logo) + (enc_opt_str(x.status) + (enc_opt_str(x.dc_publisher) + (enc_opt_str(x.dc_contributor) + (enc_requires_rec_list(x.requires) + (enc_entry_list(x.lexical_entries) + (enc_synset_list(x.synsets)))))))))));
                    let qs5: int = qs4 + enc_str(x.license).len();
                    lemma_split(data@, qs5, enc_str(x.version), enc_opt_str(x.url) + (enc_opt_str(x.citation) + (enc_opt_str(x.logo) + (enc_opt_str(x.status) + (enc_opt_str(x.dc_publisher) + (enc_opt_str(x.dc_contributor) + (enc_requires_rec_list(x.requires) + (enc_entry_list(x.lexical_entries) + (enc_synset_list(x.synsets))))))))));
                    let qs6: int = qs5 + enc_str(x.version).len();
                    lemma_split(data@, qs6, enc_opt_str(x.url), enc_opt_str(x.citation) + (enc_opt_str(x.logo) + (enc_opt_str(x.status) + (enc_opt_str(x.dc_publisher) + (enc_opt_str(x.dc_contributor) + (enc_requires_rec_list(x.requires) + (enc_entry_list(x.lexical_entries) + (enc_synset_list(x.synsets)))))))));
                    let qs7: int = qs6 + enc_opt_str(x.url).len();
                    lemma_split(data@, qs7, enc_opt_str(x.citation), enc_opt_str(x.logo) + (enc_opt_str(x.status) + (enc_opt_str(x.dc_publisher) + (enc_opt_str(x.dc_contributor) + (enc_requires_rec_list(x.requires) + (enc_entry_list(x.lexical_entries) + (enc_synset_list(x.synsets))))))));
                    let qs8: int = qs7 + enc_opt_str(x.citation).len();
                    lemma_split(data@, qs8, enc_opt_str(x.logo), enc_opt_str(x.status) + (enc_opt_str(x.dc_publisher) + (enc_opt_str(x.dc_contributor) + (enc_requires_rec_list(x.requires) + (enc_entry_list(x.lexical_entries) + (enc_synset_list(x.synsets)))))));
                    let qs9: int = qs8 + enc_opt_str(x.logo).len();
                    lemma_split(data@, qs9, enc_opt_str(x.status), enc_opt_str(x.dc_publisher) + (enc_opt_str(x.dc_contributor) + (enc_requires_rec_list(x.requires) + (enc_entry_list(x.lexical_entries) + (enc_synset_list(x.synsets))))));
                    let qs10: int = qs9 + enc_opt_str(x.status).len();
                    lemma_split(data@, qs10, enc_opt_str(x.dc_publisher), enc_opt_str(x.dc_contributor) + (enc_requires_rec_list(x.requires) + (enc_entry_list(x.lexical_entries) + (enc_synset_list(x.synsets)))));
                    let qs11: int = qs10 + enc_opt_str(x.dc_publisher).len();
                }
            }
            return None;
        },
    };
    let ghost q11 = *pos as int;
    let v11 = match read_opt_str(data, pos) {
        Some(v) => v,
        None => {
            proof {
                assert forall|x: crate::models::LexiconV|
                    starts_with(data@, p0, #[trigger] enc_lexicon(x)) implies false by {
                    let qs0: int = p0;
                    lemma_split(data@, qs0, enc_str(x.id), enc_str(x.label) + (enc_str(x.language) + (enc_str(x.email) + (enc_str(x.license) + (enc_str(x.version) + (enc_opt_str(x.url) + (enc_opt_str(x.citation) + (enc_opt_str(x.logo) + (enc_opt_str(x.status) + (enc_opt_str(x.dc_publisher) + (enc_opt_str(x.dc_contributor) + (enc_requires_rec_list(x.requires) + (enc_entry_list(x.lexical_entries) + (enc_synset_list(x.synsets)))))))))))))));
                    let qs1: int = qs0 + enc_str(x.id).len();
                    lemma_split(data@, qs1, enc_str(x.label), enc_str(x.language) + (enc_str(x.email) + (enc_str(x.license) + (enc_str(x.version) + (enc_opt_str(x.url) + (enc_opt_str(x.citation) + (enc_opt_str(x.logo) + (enc_opt_str(x.status) + (enc_opt_str(x.dc_publisher) + (enc_opt_str(x.dc_contributor) + (enc_requires_rec_list(x.requires) + (enc_entry_list(x.lexical_entries) + (enc_synset_list(x.synsets))))))))))))));
                    let qs2: int = qs1 + enc_str(x.label).len();
                    lemma_split(data@, qs2, enc_str(x.language), enc_str(x.email) + (enc_str(x.license) + (enc_str(x.version) + (enc_opt_str(x.url) + (enc_opt_str(x.citation) + (enc_opt_str(x.logo) + (enc_opt_str(x.status) + (enc_opt_str(x.dc_publisher) + (enc_opt_str(x.dc_contributor) + (enc_requires_rec_list(x.requires) + (enc_entry_list(x.lexical_entries) + (enc_synset_list(x.synsets)))))))))))));
                    let qs3: int = qs2 + enc_str(x.language).len();
                    lemma_split(data@, qs3, enc_str(x.email), enc_str(x.license) + (enc_str(x.version) + (enc_opt_str(x.url) + (enc_opt_str(x.citation) + (enc_opt_str(x.logo) + (enc_opt_str(x.status) + (enc_opt_str(x.dc_publisher) + (enc_opt_str(x.dc_contributor) + (enc_requires_rec_list(x.requires) + (enc_entry_list(x.lexical_entries) + (enc_synset_list(x.synsets))))))))))));
                    let qs4: int = qs3 + enc_str(x.email).len();
                    lemma_split(data@, qs4, enc_str(x.license), enc_str(x.version) + (enc_opt_str(x.url) + (enc_opt_str(x.citation) + (enc_opt_str(x.logo) + (enc_opt_str(x.status) + (enc_opt_str(x.dc_publisher) + (enc_opt_str(x.dc_contributor) + (enc_requires_rec_list(x.requires) + (enc_entry_list(x.lexical_entries) + (enc_synset_list(x.synsets)))))))))));
                    let qs5: int = qs4 + enc_str(x.license).len();
                    lemma_split(data@, qs5, enc_str(x.version), enc_opt_str(x.url) + (enc_opt_str(x.citation) + (enc_opt_str(x.logo) + (enc_opt_str(x.status) + (enc_opt_str(x.dc_publisher) + (enc_opt_str(x.dc_contributor) + (enc_requires_rec_list(x.requires) + (enc_entry_list(x.lexical_entries) + (enc_synset_list(x.synsets))))))))));
                    let qs6: int = qs5 + enc_str(x.version).len();
                    lemma_split(data@, qs6, enc_opt_str(x.url), enc_opt_str(x.citation) + (enc_opt_str(x.logo) + (enc_opt_str(x.status) + (enc_opt_str(x.dc_publisher) + (enc_opt_str(x.dc_contributor) + (enc_requires_rec_list(x.requires) + (enc_entry_list(x.lexical_entries) + (enc_synset_list(x.synsets)))))))));
                    let qs7: int = qs6 + enc_opt_str(x.url).len();
                    lemma_split(data@, qs7, enc_opt_str(x.citation), enc_opt_str(x.logo) + (enc_opt_str(x.status) + (enc_opt_str(x.dc_publisher) + (enc_opt_str(x.dc_contributor) + (enc_requires_rec_list(x.requires) + (enc_entry_list(x.lexical_entries) + (enc_synset_list(x.synsets))))))));
                    let qs8: int = qs7 + enc_opt_str(x.citation).len();
                    lemma_split(data@, qs8, enc_opt_str(x.logo), enc_opt_str(x.status) + (enc_opt_str(x.dc_publisher) + (enc_opt_str(x.dc_contributor) + (enc_requires_rec_list(x.requires) + (enc_entry_list(x.lexical_entries) + (enc_synset_list(x.synsets)))))));
                    let qs9: int = qs8 + enc_opt_str(x.logo).len();
                    lemma_split(data@, qs9, enc_opt_str(x.status), enc_opt_str(x.dc_publisher) + (enc_opt_str(x.dc_contributor) + (enc_requires_rec_list(x.requires) + (enc_entry_list(x.lexical_entries) + (enc_synset_list(x.synsets))))));
                    let qs10: int = qs9 + enc_opt_str(x.status).len();
                    lemma_split(data@, qs10, enc_opt_str(x.dc_publisher), enc_opt_str(x.dc_contributor) + (enc_requires_rec_list(x.requires) + (enc_entry_list(x.lexical_entries) + (enc_synset_list(x.synsets)))));
                    let qs11: int = qs10 + enc_opt_str(x.dc_publisher).len();
                    lemma_split(data@, qs11, enc_opt_str(x.dc_contributor), enc_requires_rec_list(x.requires) + (enc_entry_list(x.lexical_entries) + (enc_synset_list(x.synsets))));
                    let qs12: int = qs11 + enc_opt_str(x.dc_contributor).len();
                }
            }
            return None;
        },
    };
    let ghost q12 = *pos as int;
    let v12 = match read_requires_rec_list(data, pos) {
        Some(v) => v,
        None => {
            proof {
                assert forall|x: crate::models::LexiconV|
                    starts_with(data@, p0, #[trigger] enc_lexicon(x)) implies false by {
                    let qs0: int = p0;
                    lemma_split(data@, qs0, enc_str(x.id), enc_str(x.label) + (enc_str(x.language) + (enc_str(x.email) + (enc_str(x.license) + (enc_str(x.version) + (enc_opt_str(x.url) + (enc_opt_str(x.citation) + (enc_opt_str(x.logo) + (enc_opt_str(x.status) + (enc_opt_str(x.dc_publisher) + (enc_opt_str(x.dc_contributor) + (enc_requires_rec_list(x.requires) + (enc_entry_list(x.lexical_entries) + (enc_synset_list(x.synsets)))))))))))))));
                    let qs1: int = qs0 + enc_str(x.id).len();
                    lemma_split(data@, qs1, enc_str(x.label), enc_str(x.language) + (enc_str(x.email) + (enc_str(x.license) + (enc_str(x.version) + (enc_opt_str(x.url) + (enc_opt_str(x.citation) + (enc_opt_str(x.logo) + (enc_opt_str(x.status) + (enc_opt_str(x.dc_publisher) + (enc_opt_str(x.dc_contributor) + (enc_requires_rec_list(x.requires) + (enc_entry_list(x.lexical_entries) + (enc_synset_list(x.synsets))))))))))))));
                    let qs2: int = qs1 + enc_str(x.label).len();
                    lemma_split(data@, qs2, enc_str(x.language), enc_str(x.email) + (enc_str(x.license) + (enc_str(x.version) + (enc_opt_str(x.url) + (enc_opt_str(x.citation) + (enc_opt_str(x.logo) + (enc_opt_str(x.status) + (enc_opt_str(x.dc_publisher) + (enc_opt_str(x.dc_contributor) + (enc_requires_rec_list(x.requires) + (enc_entry_list(x.lexical_entries) + (enc_synset_list(x.synsets)))))))))))));
                    let qs3: int = qs2 + enc_str(x.language).len();
                    lemma_split(data@, qs3, enc_str(x.email), enc_str(x.license) + (enc_str(x.version) + (enc_opt_str(x.url) + (enc_opt_str(x.citation) + (enc_opt_str(x.logo) + (enc_opt_str(x.status) + (enc_opt_str(x.dc_publisher) + (enc_opt_str(x.dc_contributor) + (enc_requires_rec_list(x.requires) + (enc_entry_list(x.lexical_entries) + (enc_synset_list(x.synsets))))))))))));
                    let qs4: int = qs3 + enc_str(x.email).len();
                    lemma_split(data@, qs4, enc_str(x.license), enc_str(x.version) + (enc_opt_str(x.url) + (enc_opt_str(x.citation) + (enc_opt_str(x.logo) + (enc_opt_str(x.status) + (enc_opt_str(x.dc_publisher) + (enc_opt_str(x.dc_contributor) + (enc_requires_rec_list(x.requires) + (enc_entry_list(x.lexical_entries) + (enc_synset_list(x.synsets)))))))))));
                    let qs5: int = qs4 + enc_str(x.license).len();
                    lemma_split(data@, qs5, enc_str(x.version), enc_opt_str(x.url) + (enc_opt_str(x.citation) + (enc_opt_str(x.logo) + (enc_opt_str(x.status) + (enc_opt_str(x.dc_publisher) + (enc_opt_str(x.dc_contributor) + (enc_requires_rec_list(x.requires) + (enc_entry_list(x.lexical_entries) + (enc_synset_list(x.synsets))))))))));
                    let qs6: int = qs5 + enc_str(x.version).len();
                    lemma_split(data@, qs6, enc_opt_str(x.url), enc_opt_str(x.citation) + (enc_opt_str(x.logo) + (enc_opt_str(x.status) + (enc_opt_str(x.dc_publisher) + (enc_opt_str(x.dc_contributor) + (enc_requires_rec_list(x.requires) + (enc_entry_list(x.lexical_entries) + (enc_synset_list(x.synsets)))))))));
                    let qs7: int = qs6 + enc_opt_str(x.url).len();
                    lemma_split(data@, qs7, enc_opt_str(x.citation), enc_opt_str(x.logo) + (enc_opt_str(x.status) + (enc_opt_str(x.dc_publisher) + (enc_opt_str(x.dc_contributor) + (enc_requires_rec_list(x.requires) + (enc_entry_list(x.lexical_entries) + (enc_synset_list(x.synsets))))))));
                    let qs8: int = qs7 + enc_opt_str(x.citation).len();
                    lemma_split(data@, qs8, enc_opt_str(x.logo), enc_opt_str(x.status) + (enc_opt_str(x.dc_publisher) + (enc_opt_str(x.dc_contributor) + (enc_requires_rec_list(x.requires) + (enc_entry_list(x.lexical_entries) + (enc_synset_list(x.synsets)))))));
                    let qs9: int = qs8 + enc_opt_str(x.logo).len();
                    lemma_split(data@, qs9, enc_opt_str(x.status), enc_opt_str(x.dc_publisher) + (enc_opt_str(x.dc_contributor) + (enc_requires_rec_list(x.requires) + (enc_entry_list(x.lexical_entries) + (enc_synset_list(x.synsets))))));
                    let qs10: int = qs9 + enc_opt_str(x.status).len();
                    lemma_split(data@, qs10, enc_opt_str(x.dc_publisher), enc_opt_str(x.dc_contributor) + (enc_requires_rec_list(x.requires) + (enc_entry_list(x.lexical_entries) + (enc_synset_list(x.synsets)))));
                    let qs11: int = qs10 + enc_opt_str(x.dc_publisher).len();
                    lemma_split(data@, qs11, enc_opt_str(x.dc_contributor), enc_requires_rec_list(x.requires) + (enc_entry_list(x.lexical_entries) + (enc_synset_list(x.synsets))));
                    let qs12: int = qs11 + enc_opt_str(x.dc_contributor).len();
                    lemma_split(data@, qs12, enc_requires_rec_list(x.requires), enc_entry_list(x.lexical_entries) + (enc_synset_list(x.synsets)));
                    let qs13: int = qs12 + enc_requires_rec_list(x.requires).len();
                }
            }
            return None;
        },
    };
    let ghost q13 = *pos as int;
    let v13 = match read_entry_list(data, pos) {
        Some(v) => v,
        None => {
            proof {
                assert forall|x: crate::models::LexiconV|
                    starts_with(data@, p0, #[trigger] enc_lexicon(x)) implies false by {
                    let qs0: int = p0;
                    lemma_split(data@, qs0, enc_str(x.id), enc_str(x.label) + (enc_str(x.language) + (enc_str(x.email) + (enc_str(x.license) + (enc_str(x.version) + (enc_opt_str(x.url) + (enc_opt_str(x.citation) + (enc_opt_str(x.logo) + (enc_opt_str(x.status) + (enc_opt_str(x.dc_publisher) + (enc_opt_str(x.dc_contributor) + (enc_requires_rec_list(x.requires) + (enc_entry_list(x.lexical_entries) + (enc_synset_list(x.synsets)))))))))))))));
                    let qs1: int = qs0 + enc_str(x.id).len();
                    lemma_split(data@, qs1, enc_str(x.label), enc_str(x.language) + (enc_str(x.email) + (enc_str(x.license) + (enc_str(x.version) + (enc_opt_str(x.url) + (enc_opt_str(x.citation) + (enc_opt_str(x.logo) + (enc_opt_str(x.status) + (enc_opt_str(x.dc_publisher) + (enc_opt_str(x.dc_contributor) + (enc_requires_rec_list(x.requires) + (enc_entry_list(x.lexical_entries) + (enc_synset_list(x.synsets))))))))))))));
                    let qs2: int = qs1 + enc_str(x.label).len();
                    lemma_split(data@, qs2, enc_str(x.language), enc_str(x.email) + (enc_str(x.license) + (enc_str(x.version) + (enc_opt_str(x.url) + (enc_opt_str(x.citation) + (enc_opt_str(x.logo) + (enc_opt_str(x.status) + (enc_opt_str(x.dc_publisher) + (enc_opt_str(x.dc_contributor) + (enc_requires_rec_list(x.requires) + (enc_entry_list(x.lexical_entries) + (enc_synset_list(x.synsets)))))))))))));
                    let qs3: int = qs2 + enc_str(x.language).len();
                    lemma_split(data@, qs3, enc_str(x.email), enc_str(x.license) + (enc_str(x.version) + (enc_opt_str(x.url) + (enc_opt_str(x.citation) + (enc_opt_str(x.logo) + (enc_opt_str(x.status) + (enc_opt_str(x.dc_publisher) + (enc_opt_str(x.dc_contributor) + (enc_requires_rec_list(x.requires) + (enc_entry_list(x.lexical_entries) + (enc_synset_list(x.synsets))))))))))));
                    let qs4: int = qs3 + enc_str(x.email).len();
                    lemma_split(data@, qs4, enc_str(x.license), enc_str(x.version) + (enc_opt_str(x.url) + (enc_opt_str(x.citation) + (enc_opt_str(x.logo) + (enc_opt_str(x.status) + (enc_opt_str(x.dc_publisher) + (enc_opt_str(x.dc_contributor) + (enc_requires_rec_list(x.requires) + (enc_entry_list(x.lexical_entries) + (enc_synset_list(x.synsets)))))))))));
                    let qs5: int = qs4 + enc_str(x.license).len();
                    lemma_split(data@, qs5, enc_str(x.version), enc_opt_str(x.url) + (enc_opt_str(x.citation) + (enc_opt_str(x.logo) + (enc_opt_str(x.status) + (enc_opt_str(x.dc_publisher) + (enc_opt_str(x.dc_contributor) + (enc_requires_rec_list(x.requires) + (enc_entry_list(x.lexical_entries) + (enc_synset_list(x.synsets))))))))));
                    let qs6: int = qs5 + enc_str(x.version).len();
                    lemma_split(data@, qs6, enc_opt_str(x.url), enc_opt_str(x.citation) + (enc_opt_str(x.logo) + (enc_opt_str(x.status) + (enc_opt_str(x.dc_publisher) + (enc_opt_str(x.dc_contributor) + (enc_requires_rec_list(x.requires) + (enc_entry_list(x.lexical_entries) + (enc_synset_list(x.synsets)))))))));
                    let qs7: int = qs6 + enc_opt_str(x.url).len();
                    lemma_split(data@, qs7, enc_opt_str(x.citation), enc_opt_str(x.logo) + (enc_opt_str(x.status) + (enc_opt_str(x.dc_publisher) + (enc_opt_str(x.dc_contributor) + (enc_requires_rec_list(x.requires) + (enc_entry_list(x.lexical_entries) + (enc_synset_list(x.synsets))))))));
                    let qs8: int = qs7 + enc_opt_str(x.citation).len();
                    lemma_split(data@, qs8, enc_opt_str(x.logo), enc_opt_str(x.status) + (enc_opt_str(x.dc_publisher) + (enc_opt_str(x.dc_contributor) + (enc_requires_rec_list(x.requires) + (enc_entry_list(x.lexical_entries) + (enc_synset_list(x.synsets)))))));
                    let qs9: int = qs8 + enc_opt_str(x.logo).len();
                    lemma_split(data@, qs9, enc_opt_str(x.status), enc_opt_str(x.dc_publisher) + (enc_opt_str(x.dc_contributor) + (enc_requires_rec_list(x.requires) + (enc_entry_list(x.lexical_entries) + (enc_synset_list(x.synsets))))));
                    let qs10: int = qs9 + enc_opt_str(x.status).len();
                    lemma_split(data@, qs10, enc_opt_str(x.dc_publisher), enc_opt_str(x.dc_contributor) + (enc_requires_rec_list(x.requires) + (enc_entry_list(x.lexical_entries) + (enc_synset_list(x.synsets)))));
                    let qs11: int = qs10 + enc_opt_str(x.dc_publisher).len();
                    lemma_split(data@, qs11, enc_opt_str(x.dc_contributor), enc_requires_rec_list(x.requires) + (enc_entry_list(x.lexical_entries) + (enc_synset_list(x.synsets))));
                    let qs12: int = qs11 + enc_opt_str(x.dc_contributor).len();
                    lemma_split(data@, qs12, enc_requires_rec_list(x.requires), enc_entry_list(x.lexical_entries) + (enc_synset_list(x.synsets)));
                    let qs13: int = qs12 + enc_requires_rec_list(x.requires).len();
                    lemma_split(data@, qs13, enc_entry_list(x.lexical_entries), enc_synset_list(x.synsets));
                    let qs14: int = qs13 + enc_entry_list(x.lexical_entries).len();
                }
            }
            return None;
        },
    };
    let ghost q14 = *pos as int;
    let v14 = match read_synset_list(data, pos) {
        Some(v) => v,
        None => {
            proof {
                assert forall|x: crate::models::LexiconV|
                    starts_with(data@, p0, #[trigger] enc_lexicon(x)) implies false by {
                    let qs0: int = p0;
                    lemma_split(data@, qs0, enc_str(x.id), enc_str(x.label) + (enc_str(x.language) + (enc_str(x.email) + (enc_str(x.license) + (enc_str(x.version) + (enc_opt_str(x.url) + (enc_opt_str(x.citation) + (enc_opt_str(x.logo) + (enc_opt_str(x.status) + (enc_opt_str(x.dc_publisher) + (enc_opt_str(x.dc_contributor) + (enc_requires_rec_list(x.requires) + (enc_entry_list(x.lexical_entries) + (enc_synset_list(x.synsets)))))))))))))));
                    let qs1: int = qs0 + enc_str(x.id).len();
                    lemma_split(data@, qs1, enc_str(x.label), enc_str(x.language) + (enc_str(x.email) + (enc_str(x.license) + (enc_str(x.version) + (enc_opt_str(x.url) + (enc_opt_str(x.citation) + (enc_opt_str(x.logo) + (enc_opt_str(x.status) + (enc_opt_str(x.dc_publisher) + (enc_opt_str(x.dc_contributor) + (enc_requires_rec_list(x.requires) + (enc_entry_list(x.lexical_entries) + (enc_synset_list(x.synsets))))))))))))));
                    let qs2: int = qs1 + enc_str(x.label).len();
                    lemma_split(data@, qs2, enc_str(x.language), enc_str(x.email) + (enc_str(x.license) + (enc_str(x.version) + (enc_opt_str(x.url) + (enc_opt_str(x.citation) + (enc_opt_str(x.logo) + (enc_opt_str(x.status) + (enc_opt_str(x.dc_publisher) + (enc_opt_str(x.dc_contributor) + (enc_requires_rec_list(x.requires) + (enc_entry_list(x.lexical_entries) + (enc_synset_list(x.synsets)))))))))))));
                    let qs3: int = qs2 + enc_str(x.language).len();
                    lemma_split(data@, qs3, enc_str(x.email), enc_str(x.license) + (enc_str(x.version) + (enc_opt_str(x.url) + (enc_opt_str(x.citation) + (enc_opt_str(x.logo) + (enc_opt_str(x.status) + (enc_opt_str(x.dc_publisher) + (enc_opt_str(x.dc_contributor) + (enc_requires_rec_list(x.requires) + (enc_entry_list(x.lexical_entries) + (enc_synset_list(x.synsets))))))))))));
                    let qs4: int = qs3 + enc_str(x.email).len();
                    lemma_split(data@, qs4, enc_str(x.license), enc_str(x.version) + (enc_opt_str(x.url) + (enc_opt_str(x.citation) + (enc_opt_str(x.logo) + (enc_opt_str(x.status) + (enc_opt_str(x.dc_publisher) + (enc_opt_str(x.dc_contributor) + (enc_requires_rec_list(x.requires) + (enc_entry_list(x.lexical_entries) + (enc_synset_list(x.synsets)))))))))));
                    let qs5: int = qs4 + enc_str(x.license).len();
                    lemma_split(data@, qs5, enc_str(x.version), enc_opt_str(x.url) + (enc_opt_str(x.citation) + (enc_opt_str(x.logo) + (enc_opt_str(x.status) + (enc_opt_str(x.dc_publisher) + (enc_opt_str(x.dc_contributor) + (enc_requires_rec_list(x.requires) + (enc_entry_list(x.lexical_entries) + (enc_synset_list(x.synsets))))))))));
                    let qs6: int = qs5 + enc_str(x.version).len();
                    lemma_split(data@, qs6, enc_opt_str(x.url), enc_opt_str(x.citation) + (enc_opt_str(x.logo) + (enc_opt_str(x.status) + (enc_opt_str(x.dc_publisher) + (enc_opt_str(x.dc_contributor) + (enc_requires_rec_list(x.requires) + (enc_entry_list(x.lexical_entries) + (enc_synset_list(x.synsets)))))))));
                    let qs7: int = qs6 + enc_opt_str(x.url).len();
                    lemma_split(data@, qs7, enc_opt_str(x.citation), enc_opt_str(x.logo) + (enc_opt_str(x.status) + (enc_opt_str(x.dc_publisher) + (enc_opt_str(x.dc_contributor) + (enc_requires_rec_list(x.requires) + (enc_entry_list(x.lexical_entries) + (enc_synset_list(x.synsets))))))));
                    let qs8: int = qs7 + enc_opt_str(x.citation).len();
                    lemma_split(data@, qs8, enc_opt_str(x.logo), enc_opt_str(x.status) + (enc_opt_str(x.dc_publisher) + (enc_opt_str(x.dc_contributor) + (enc_requires_rec_list(x.requires) + (enc_entry_list(x.lexical_entries) + (enc_synset_list(x.synsets)))))));
                    let qs9: int = qs8 + enc_opt_str(x.logo).len();
                    lemma_split(data@, qs9, enc_opt_str(x.status), enc_opt_str(x.dc_publisher) + (enc_opt_str(x.dc_contributor) + (enc_requires_rec_list(x.requires) + (enc_entry_list(x.lexical_entries) + (enc_synset_list(x.synsets))))));
                    let qs10: int = qs9 + enc_opt_str(x.status).len();
                    lemma_split(data@, qs10, enc_opt_str(x.dc_publisher), enc_opt_str(x.dc_contributor) + (enc_requires_rec_list(x.requires) + (enc_entry_list(x.lexical_entries) + (enc_synset_list(x.synsets)))));
                    let qs11: int = qs10 + enc_opt_str(x.dc_publisher).len();
                    lemma_split(data@, qs11, enc_opt_str(x.dc_contributor), enc_requires_rec_list(x.requires) + (enc_entry_list(x.lexical_entries) + (enc_synset_list(x.synsets))));
                    let qs12: int = qs11 + enc_opt_str(x.dc_contributor).len();
                    lemma_split(data@, qs12, enc_requires_rec_list(x.requires), enc_entry_list(x.lexical_entries) + (enc_synset_list(x.synsets)));
                    let qs13: int = qs12 + enc_requires_rec_list(x.requires).len();
                    lemma_split(data@, qs13, enc_entry_list(x.lexical_entries), enc_synset_list(x.synsets));
                    let qs14: int = qs13 + enc_entry_list(x.lexical_entries).len();
                }
            }
            return None;
        },
    };
    let out = crate::models::Lexicon {
        id: v0,
        label: v1,
        language: v2,
        email: v3,
        license: v4,
        version: v5,
        url: v6,
        citation: v7,
        logo: v8,
        status: v9,
        dc_publisher: v10,
        dc_contributor: v11,
        requires: v12,
        lexical_entries: v13,
        synsets: v14,
    };
    proof {
        assert forall|x: crate::models::LexiconV|
            starts_with(data@, p0, #[trigger] enc_lexicon(x)) implies (out@ == x && *pos
            == p0 + enc_lexicon(x).len()) by {
                    let qs0: int = p0;
                    lemma_split(data@, qs0, enc_str(x.id), enc_str(x.label) + (enc_str(x.language) + (enc_str(x.email) + (enc_str(x.license) + (enc_str(x.version) + (enc_opt_str(x.url) + (enc_opt_str(x.citation) + (enc_opt_str(x.logo) + (enc_opt_str(x.status) + (enc_opt_str(x.dc_publisher) + (enc_opt_str(x.dc_contributor) + (enc_requires_rec_list(x.requires) + (enc_entry_list(x.lexical_entries) + (enc_synset_list(x.synsets)))))))))))))));
                    let qs1: int = qs0 + enc_str(x.id).len();
                    lemma_split(data@, qs1, enc_str(x.label), enc_str(x.language) + (enc_str(x.email) + (enc_str(x.license) + (enc_str(x.version) + (enc_opt_str(x.url) + (enc_opt_str(x.citation) + (enc_opt_str(x.logo) + (enc_opt_str(x.status) + (enc_opt_str(x.dc_publisher) + (enc_opt_str(x.dc_contributor) + (enc_requires_rec_list(x.requires) + (enc_entry_list(x.lexical_entries) + (enc_synset_list(x.synsets))))))))))))));
                    let qs2: int = qs1 + enc_str(x.label).len();
                    lemma_split(data@, qs2, enc_str(x.language), enc_str(x.email) + (enc_str(x.license) + (enc_str(x.version) + (enc_opt_str(x.url) + (enc_opt_str(x.citation) + (enc_opt_str(x.logo) + (enc_opt_str(x.status) + (enc_opt_str(x.dc_publisher) + (enc_opt_str(x.dc_contributor) + (enc_requires_rec_list(x.requires) + (enc_entry_list(x.lexical_entries) + (enc_synset_list(x.synsets)))))))))))));
                    let qs3: int = qs2 + enc_str(x.language).len();
                    lemma_split(data@, qs3, enc_str(x.email), enc_str(x.license) + (enc_str(x.version) + (enc_opt_str(x.url) + (enc_opt_str(x.citation) + (enc_opt_str(x.logo) + (enc_opt_str(x.status) + (enc_opt_str(x.dc_publisher) + (enc_opt_str(x.dc_contributor) + (enc_requires_rec_list(x.requires) + (enc_entry_list(x.lexical_entries) + (enc_synset_list(x.synsets))))))))))));
                    let qs4: int = qs3 + enc_str(x.email).len();
                    lemma_split(data@, qs4, enc_str(x.license), enc_str(x.version) + (enc_opt_str(x.url) + (enc_opt_str(x.citation) + (enc_opt_str(x.logo) + (enc_opt_str(x.status) + (enc_opt_str(x.dc_publisher) + (enc_opt_str(x.dc_contributor) + (enc_requires_rec_list(x.requires) + (enc_entry_list(x.lexical_entries) + (enc_synset_list(x.synsets)))))))))));
                    let qs5: int = qs4 + enc_str(x.license).len();
                    lemma_split(data@, qs5, enc_str(x.version), enc_opt_str(x.url) + (enc_opt_str(x.citation) + (enc_opt_str(x.logo) + (enc_opt_str(x.status) + (enc_opt_str(x.dc_publisher) + (enc_opt_str(x.dc_contributor) + (enc_requires_rec_list(x.requires) + (enc_entry_list(x.lexical_entries) + (enc_synset_list(x.synsets))))))))));
                    let qs6: int = qs5 + enc_str(x.version).len();
                    lemma_split(data@, qs6, enc_opt_str(x.url), enc_opt_str(x.citation) + (enc_opt_str(x.logo) + (enc_opt_str(x.status) + (enc_opt_str(x.dc_publisher) + (enc_opt_str(x.dc_contributor) + (enc_requires_rec_list(x.requires) + (enc_entry_list(x.lexical_entries) + (enc_synset_list(x.synsets)))))))));
                    let qs7: int = qs6 + enc_opt_str(x.url).len();
                    lemma_split(data@, qs7, enc_opt_str(x.citation), enc_opt_str(x.logo) + (enc_opt_str(x.status) + (enc_opt_str(x.dc_publisher) + (enc_opt_str(x.dc_contributor) + (enc_requires_rec_list(x.requires) + (enc_entry_list(x.lexical_entries) + (enc_synset_list(x.synsets))))))));
                    let qs8: int = qs7 + enc_opt_str(x.citation).len();
                    lemma_split(data@, qs8, enc_opt_str(x.logo), enc_opt_str(x.status) + (enc_opt_str(x.dc_publisher) + (enc_opt_str(x.dc_contributor) + (enc_requires_rec_list(x.requires) + (enc_entry_list(x.lexical_entries) + (enc_synset_list(x.synsets)))))));
                    let qs9: int = qs8 + enc_opt_str(x.logo).len();
                    lemma_split(data@, qs9, enc_opt_str(x.status), enc_opt_str(x.dc_publisher) + (enc_opt_str(x.dc_contributor) + (enc_requires_rec_list(x.requires) + (enc_entry_list(x.lexical_entries) + (enc_synset_list(x.synsets))))));
                    let qs10: int = qs9 + enc_opt_str(x.status).len();
                    lemma_split(data@, qs10, enc_opt_str(x.dc_publisher), enc_opt_str(x.dc_contributor) + (enc_requires_rec_list(x.requires) + (enc_entry_list(x.lexical_entries) + (enc_synset_list(x.synsets)))));
                    let qs11: int = qs10 + enc_opt_str(x.dc_publisher).len();
                    lemma_split(data@, qs11, enc_opt_str(x.dc_contributor), enc_requires_rec_list(x.requires) + (enc_entry_list(x.lexical_entries) + (enc_synset_list(x.synsets))));
                    let qs12: int = qs11 + enc_opt_str(x.dc_contributor).len();
                    lemma_split(data@, qs12, enc_requires_rec_list(x.requires), enc_entry_list(x.lexical_entries) + (enc_synset_list(x.synsets)));
                    let qs13: int = qs12 + enc_requires_rec_list(x.requires).len();
                    lemma_split(data@, qs13, enc_entry_list(x.lexical_entries), enc_synset_list(x.synsets));
                    let qs14: int = qs13 + enc_entry_list(x.lexical_entries).len();
            assert(out@ == x);
        }
    }
    Some(out)
}

/// The snapshot bytes of a list of `Lexicon` records: a count, then each
/// record in turn.
pub open spec fn enc_lexicon_list(s: Seq<crate::models::LexiconV>) -> Seq<u8> {
    enc_u64(s.len() as u64) + s.map_values(|x: crate::models::LexiconV| enc_lexicon(x)).flatten()
}

/// Appends the snapshot bytes of a vector of `Lexicon` records.
pub fn write_lexicon_list(buf: &mut Vec<u8>, v: &Vec<crate::models::Lexicon>)
    ensures
        final(buf)@ == old(buf)@ + enc_lexicon_list(crate::models::views_of(v@)),
{
    let ghost b0 = buf@;
    let ghost vs = crate::models::views_of(v@);
    let ghost ef = |x: crate::models::LexiconV| enc_lexicon(x);
    write_u64(buf, v.len() as u64);
    proof {
        assert(vs.take(0).map_values(ef) =~= Seq::<Seq<u8>>::empty());
        assert(Seq::<Seq<u8>>::empty().flatten() =~= Seq::<u8>::empty());
        assert(buf@ =~= b0 + enc_u64(vs.len() as u64) + vs.take(0).map_values(ef).flatten());
    }
    let n = v.len();
    let mut i: usize = 0;
    while i < n
        invariant
            b0 == old(buf)@,
            vs == crate::models::views_of(v@),
            ef == (|x: crate::models::LexiconV| enc_lexicon(x)),
            n == v@.len(),
            vs.len() == n,
            i <= n,
            buf@ == b0 + enc_u64(vs.len() as u64) + vs.take(i as int).map_values(
                ef,
            ).flatten(),
        decreases n - i,
    {
        write_lexicon(buf, &v[i]);
        proof {
            lemma_take_map_flatten_step(vs, ef, i as int);
            assert(ef(vs[i as int]) == enc_lexicon(vs[i as int]));
            seq_add_assoc(
                b0 + enc_u64(vs.len() as u64),
                vs.take(i as int).map_values(ef).flatten(),
                ef(vs[i as int]),
            );
            assert(buf@ == b0 + enc_u64(vs.len() as u64) + vs.take(i as int + 1).map_values(
                ef,
            ).flatten());
        }
        i = i + 1;
    }
    proof {
        assert(vs.take(n as int) =~= vs);
        assert(buf@ =~= b0 + enc_lexicon_list(vs));
    }
}

/// Reads back a vector of `Lexicon` records from its snapshot bytes.
#[verifier::rlimit(100)]
#[verifier::spinoff_prover]
pub fn read_lexicon_list(data: &Vec<u8>, pos: &mut usize) -> (r: Option<Vec<crate::models::Lexicon>>)
    ensures
        forall|s: Seq<crate::models::LexiconV>|
            starts_with(data@, *old(pos) as int, #[trigger] enc_lexicon_list(s)) ==> (r
            matches Some(v) && crate::models::views_of(v@) == s && *final(pos) == *old(pos)
            + enc_lexicon_list(s).len()),
{
    let ghost p0 = *pos as int;
    let ghost ef = |x: crate::models::LexiconV| enc_lexicon(x);
    let n = match read_u64(data, pos) {
        Some(n) => n,
        None => {
            proof {
                assert forall|s: Seq<crate::models::LexiconV>|
                    starts_with(data@, p0, #[trigger] enc_lexicon_list(s)) implies false by {
                    lemma_split(
                        data@,
                        p0,
                        enc_u64(s.len() as u64),
                        s.map_values(ef).flatten(),
                    );
                }
            }
            return None;
        },
    };
    let dl = data.len();
    if n > (dl as u64) {
        proof {
            assert forall|s: Seq<crate::models::LexiconV>|
                starts_with(data@, p0, #[trigger] enc_lexicon_list(s)) implies false by {
                lemma_split(data@, p0, enc_u64(s.len() as u64), s.map_values(ef).flatten());
                assert forall|k: int| 0 <= k < s.map_values(ef).len() implies (
                    #[trigger] s.map_values(ef)[k]).len() >= 1 by {
                    assert(s.map_values(ef)[k] == enc_lexicon(s[k]));
                    lemma_enc_lexicon_nonempty(s[k]);
                }
                lemma_flatten_len_bound(s.map_values(ef));
            }
        }
        return None;
    }
    let count = n as usize;
    let mut out: Vec<crate::models::Lexicon> = Vec::new();
    let mut i: usize = 0;
    proof {
        assert forall|s: Seq<crate::models::LexiconV>|
            starts_with(data@, p0, #[trigger] enc_lexicon_list(s)) implies {
            &&& s.len() == count
            &&& crate::models::views_of(out@) == s.take(0)
            &&& *pos == p0 + 8 + s.take(0).map_values(ef).flatten().len()
        } by {
            lemma_split(data@, p0, enc_u64(s.len() as u64), s.map_values(ef).flatten());
            assert forall|k: int| 0 <= k < s.map_values(ef).len() implies (
                #[trigger] s.map_values(ef)[k]).len() >= 1 by {
                assert(s.map_values(ef)[k] == enc_lexicon(s[k]));
                lemma_enc_lexicon_nonempty(s[k]);
            }
            lemma_flatten_len_bound(s.map_values(ef));
            assert(s.take(0).map_values(ef) =~= Seq::<Seq<u8>>::empty());
            assert(Seq::<Seq<u8>>::empty().flatten() =~= Seq::<u8>::empty());
            assert(crate::models::views_of(out@) =~= s.take(0));
        }
    }
    while i < count
        invariant
            p0 == *old(pos) as int,
            ef == (|x: crate::models::LexiconV| enc_lexicon(x)),
            i <= count,
            out@.len() == i,
            forall|s: Seq<crate::models::LexiconV>|
                starts_with(data@, p0, #[trigger] enc_lexicon_list(s)) ==> {
                    &&& s.len() == count
                    &&& crate::models::views_of(out@) == s.take(i as int)
                    &&& *pos == p0 + 8 + s.take(i as int).map_values(ef).flatten().len()
                },
        decreases count - i,
    {
        let ghost qi = *pos as int;
        let item = match read_lexicon(data, pos) {
            Some(v) => v,
            None => {
                proof {
                    assert forall|s: Seq<crate::models::LexiconV>|
                        starts_with(data@, p0, #[trigger] enc_lexicon_list(s)) implies false by {
                        lemma_list_elem_at(data@, p0, s, ef, i as int);
                        assert(qi == p0 + 8 + s.take(i as int).map_values(ef).flatten().len());
                        assert(ef(s[i as int]) == enc_lexicon(s[i as int]));
                        assert(starts_with(data@, qi, enc_lexicon(s[i as int])));
                    }
                }
                return None;
            },
        };
        let ghost out0 = out@;
        out.push(item);
        proof {
            assert forall|s: Seq<crate::models::LexiconV>|
                starts_with(data@, p0, #[trigger] enc_lexicon_list(s)) implies {
                &&& crate::models::views_of(out@) == s.take(i as int + 1)
                &&& *pos == p0 + 8 + s.take(i as int + 1).map_values(ef).flatten().len()
            } by {
                lemma_list_elem_at(data@, p0, s, ef, i as int);
                assert(qi == p0 + 8 + s.take(i as int).map_values(ef).flatten().len());
                assert(ef(s[i as int]) == enc_lexicon(s[i as int]));
                assert(starts_with(data@, qi, enc_lexicon(s[i as int])));
                assert(crate::models::views_of(out0.push(out@.last())) =~= crate::models::views_of(
                    out0,
                ).push(out@.last()@));
                assert(crate::models::views_of(out@) =~= s.take(i as int + 1));
                lemma_take_map_flatten_step(s, ef, i as int);
            }
        }
        i = i + 1;
    }
    proof {
        assert forall|s: Seq<crate::models::LexiconV>|
            starts_with(data@, p0, #[trigger] enc_lexicon_list(s)) implies (crate::models::views_of(
            out@,
        ) == s && *pos == p0 + enc_lexicon_list(s).len()) by {
            assert(s.take(count as int) =~= s);
        }
    }
    Some(out)
}



/// The snapshot format version this library writes and accepts.
pub const SNAPSHOT_VERSION: u32 = 1;

/// The full snapshot image of a loaded resource: the format version, then
/// the serialized lexicons.
pub open spec fn enc_snapshot(lxs: Seq<crate::models::LexiconV>) -> Seq<u8> {
    enc_u32(SNAPSHOT_VERSION) + enc_lexicon_list(lxs)
}

/// Serializes the loaded records to a versioned binary snapshot.
pub fn save_snapshot(w: &crate::index::IndexedLexicon) -> (r: Vec<u8>)
    ensures
        r@ == enc_snapshot(crate::models::views_of(w.lexicons@)),
{
    let mut buf: Vec<u8> = Vec::new();
    write_u32(&mut buf, SNAPSHOT_VERSION);
    write_lexicon_list(&mut buf, &w.lexicons);
    proof {
        assert(buf@ =~= enc_snapshot(crate::models::views_of(w.lexicons@)));
    }
    buf
}

/// Deserializes a snapshot and rebuilds the index set from it.
///
/// A snapshot whose 4-byte version header is not the version this library
/// writes is rejected outright, never partially deserialized; and whatever
/// `save_snapshot` produced loads back to an index set over the very same
/// records.
#[verifier::rlimit(100)]
#[verifier::spinoff_prover]
pub fn load_snapshot(data: &Vec<u8>) -> (r: Result<crate::index::IndexedLexicon, OewnError>)
    ensures
        data@.len() >= 4 && data@.subrange(0, 4) != enc_u32(SNAPSHOT_VERSION) ==> r is Err,
        forall|lxs: Seq<crate::models::LexiconV>|
            data@ == #[trigger] enc_snapshot(lxs) ==> match r {
                Ok(w) => {
                    &&& w.wf()
                    &&& crate::models::views_of(w.lexicons@) == lxs
                    &&& crate::index::ids_unique(lxs)
                },
                Err(_) => !crate::index::ids_unique(lxs),
            },
{
    let mut pos: usize = 0;
    let ghost d = data@;
    proof {
        assert forall|lxs: Seq<crate::models::LexiconV>|
            d == #[trigger] enc_snapshot(lxs) implies starts_with(d, 0, enc_u32(SNAPSHOT_VERSION))
            && starts_with(d, 4, enc_lexicon_list(lxs)) by {
            assert(d.subrange(0, d.len() as int) =~= d);
            lemma_split(d, 0, enc_u32(SNAPSHOT_VERSION), enc_lexicon_list(lxs));
        }
    }
    let ver = match read_u32(data, &mut pos) {
        Some(v) => v,
        None => {
            return Err(OewnError::FormatError("snapshot header is unreadable".to_owned()));
        },
    };
    if ver != SNAPSHOT_VERSION {
        return Err(OewnError::FormatError("snapshot format version is not recognized".to_owned()));
    }
    let lexicons = match read_lexicon_list(data, &mut pos) {
        Some(v) => v,
        None => {
            return Err(OewnError::FormatError("snapshot payload is unreadable".to_owned()));
        },
    };
    if pos != data.len() {
        return Err(OewnError::FormatError("snapshot carries trailing bytes".to_owned()));
    }
    let resource = crate::models::LexicalResource { lexicons };
    proof {
        assert forall|lxs: Seq<crate::models::LexiconV>|
            d == #[trigger] enc_snapshot(lxs) implies crate::models::views_of(resource.lexicons@)
            == lxs by {}
    }
    match crate::index::build(&resource) {
        Ok(w) => Ok(w),
        Err(e) => Err(e),
    }
}

/// Serializing the index set and loading the snapshot back yields an index
/// set over exactly the same records: the snapshot round trip is loss-free.
pub fn reload(w: &crate::index::IndexedLexicon) -> (r: crate::index::IndexedLexicon)
    requires
        w.wf(),
    ensures
        r.wf(),
        crate::models::views_of(r.lexicons@) == crate::models::views_of(w.lexicons@),
{
    let data = save_snapshot(w);
    let ghost lxs = crate::models::views_of(w.lexicons@);
    proof {
        assert(crate::index::ids_unique(lxs));
    }
    match load_snapshot(&data) {
        Ok(w2) => w2,
        Err(_) => {
            proof {
                assert(data@ == enc_snapshot(lxs));
                assert(false);
            }
            vstd::pervasive::unreached()
        },
    }
}

} // verus!
