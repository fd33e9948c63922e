//! Varint32 length-prefix framing.
//!
//! A frame is the length of its payload written as a base-128 varint
//! (low seven bits of each byte carry data, the high bit says that another
//! byte follows; at most five bytes), followed by the payload itself.
//! Compatible with Netty's `ProtobufVarint32FrameDecoder` and
//! `ProtobufVarint32LengthFieldPrepender`.

use vstd::prelude::*;

verus! {

/// `128^n`.
pub open spec fn pow128(n: nat) -> nat
    decreases n,
{
    if n == 0 {
        1
    } else {
        128 * pow128((n - 1) as nat)
    }
}

/// The base-128 varint encoding of `v` (shortest form).
pub open spec fn varint_bytes(v: nat) -> Seq<u8>
    decreases v,
{
    if v < 128 {
        seq![v as u8]
    } else {
        seq![(v % 128 + 128) as u8] + varint_bytes(v / 128)
    }
}

/// The number that the low seven bits of the bytes of `s` spell, least
/// significant group first.
pub open spec fn varint_value(s: Seq<u8>) -> nat
    decreases s.len(),
{
    if s.len() == 0 {
        0
    } else {
        varint_value(s.drop_last()) + (s.last() % 128) as nat * pow128((s.len() - 1) as nat)
    }
}

/// One past the position of the first byte, among the first five from `i`
/// on, whose continuation bit is clear.
pub open spec fn header_end_from(buf: Seq<u8>, i: nat) -> Option<nat>
    decreases 5 - i,
{
    if i >= 5 || i >= buf.len() {
        None
    } else if buf[i as int] < 128 {
        Some(i + 1)
    } else {
        header_end_from(buf, i + 1)
    }
}

/// Length of the varint prefix of `buf`, if `buf` holds a complete one.
pub open spec fn header_end(buf: Seq<u8>) -> Option<nat> {
    header_end_from(buf, 0)
}

/// The whole frame `encode_varint32` writes for `data`: the length of `data`
/// (as a 32-bit value) in varint form, then `data`.
pub open spec fn frame_of(data: Seq<u8>) -> Seq<u8> {
    varint_bytes(data.len() % 0x1_0000_0000) + data
}

/// What `decode_varint32` gives for `buf`: the payload of the first frame and
/// what follows it, or `None` when the prefix or the payload is incomplete.
/// The payload length is the prefix's value taken modulo 2^32, as a 32-bit
/// accumulator holds it.
pub open spec fn first_frame(buf: Seq<u8>) -> Option<(Seq<u8>, Seq<u8>)> {
    match header_end(buf) {
        None => None,
        Some(h) => {
            let len = varint_value(buf.subrange(0, h as int)) % 0x1_0000_0000;
            if buf.len() < h + len {
                None
            } else {
                Some((buf.subrange(h as int, (h + len) as int), buf.subrange((h + len) as int, buf.len() as int)))
            }
        }
    }
}

proof fn lemma_pow128_pos(n: nat)
    ensures
        pow128(n) >= 1,
    decreases n,
{
    if n > 0 {
        lemma_pow128_pos((n - 1) as nat);
    }
}

/// Prepending a byte to `t` multiplies `t`'s value by 128 and adds the byte's
/// low seven bits.
proof fn lemma_varint_value_prepend(b: u8, t: Seq<u8>)
    ensures
        varint_value(seq![b] + t) == (b % 128) as nat + 128 * varint_value(t),
    decreases t.len(),
{
    let s = seq![b] + t;
    if t.len() == 0 {
        assert(s.drop_last() =~= Seq::<u8>::empty());
        assert(pow128(0) == 1);
        assert(varint_value(Seq::<u8>::empty()) == 0);
        assert(varint_value(s) == varint_value(s.drop_last()) + (s.last() % 128) as nat * pow128(0));
    } else {
        assert(s.drop_last() =~= seq![b] + t.drop_last());
        lemma_varint_value_prepend(b, t.drop_last());
        assert(s.last() == t.last());
        assert(pow128((s.len() - 1) as nat) == 128 * pow128((t.len() - 1) as nat));
        assert(128 * varint_value(t) == 128 * varint_value(t.drop_last()) + 128 * ((t.last() % 128) as nat
            * pow128((t.len() - 1) as nat))) by (nonlinear_arith)
            requires
                varint_value(t) == varint_value(t.drop_last()) + (t.last() % 128) as nat * pow128((t.len() - 1) as nat),
        ;
        assert((s.last() % 128) as nat * pow128((s.len() - 1) as nat) == 128 * ((t.last() % 128) as nat
            * pow128((t.len() - 1) as nat))) by (nonlinear_arith)
            requires
                pow128((s.len() - 1) as nat) == 128 * pow128((t.len() - 1) as nat),
                s.last() == t.last(),
        ;
        assert(varint_value(s) == varint_value(s.drop_last()) + (s.last() % 128) as nat * pow128((s.len() - 1) as nat));
        assert(varint_value(t) == varint_value(t.drop_last()) + (t.last() % 128) as nat * pow128((t.len() - 1) as nat));
    }
}

/// The shape of an encoding: every byte but the last has its continuation bit
/// set, the last has it clear, it spells `v`, and it is short when `v` is.
pub proof fn lemma_varint_bytes_shape(v: nat)
    ensures
        varint_bytes(v).len() >= 1,
        forall|i: int| 0 <= i < varint_bytes(v).len() - 1 ==> varint_bytes(v)[i] >= 128,
        varint_bytes(v).last() < 128,
        varint_value(varint_bytes(v)) == v,
        v < 0x1_0000_0000 ==> varint_bytes(v).len() <= 5,
        v < 128 ==> varint_bytes(v).len() == 1,
    decreases v,
{
    if v < 128 {
        let e = varint_bytes(v);
        assert(e.drop_last() =~= Seq::<u8>::empty());
        assert(pow128(0) == 1);
        assert(e.last() == v as u8);
        assert(varint_value(e) == varint_value(e.drop_last()) + (e.last() % 128) as nat * pow128(0));
    } else {
        lemma_varint_bytes_shape(v / 128);
        let t = varint_bytes(v / 128);
        let b = (v % 128 + 128) as u8;
        assert(varint_bytes(v) == seq![b] + t);
        lemma_varint_value_prepend(b, t);
        assert(b % 128 == v % 128);
        assert(varint_value(varint_bytes(v)) == v % 128 + 128 * (v / 128));
        if v < 0x1_0000_0000 {
            lemma_pow128_small();
            lemma_varint_bytes_len_bound(v, 5);
        }
    }
}

proof fn lemma_pow128_monotone(i: nat, j: nat)
    requires
        i <= j,
    ensures
        pow128(i) <= pow128(j),
    decreases j,
{
    if i < j {
        lemma_pow128_monotone(i, (j - 1) as nat);
        lemma_pow128_pos((j - 1) as nat);
    }
}

proof fn lemma_pow128_small()
    ensures
        pow128(1) == 128,
        pow128(4) == 0x1000_0000,
        pow128(5) == 0x8_0000_0000,
{
    reveal_with_fuel(pow128, 6);
}

proof fn lemma_varint_bytes_len_bound(v: nat, k: nat)
    requires
        1 <= k,
        v < pow128(k),
    ensures
        varint_bytes(v).len() <= k,
    decreases v,
{
    if v >= 128 {
        lemma_pow128_small();
        if k == 1 {
            assert(false);
        }
        assert(pow128(k) == 128 * pow128((k - 1) as nat));
        assert(v / 128 < pow128((k - 1) as nat));
        lemma_varint_bytes_len_bound(v / 128, (k - 1) as nat);
    }
}

proof fn lemma_header_end_from(buf: Seq<u8>, i: nat, k: nat)
    requires
        i < k <= 5,
        k <= buf.len(),
        forall|j: int| i <= j < k - 1 ==> buf[j] >= 128,
        buf[k - 1] < 128,
    ensures
        header_end_from(buf, i) == Some(k),
    decreases k - i,
{
    if i + 1 < k {
        lemma_header_end_from(buf, i + 1, k);
    }
}

/// Decoding undoes encoding: the first frame of `frame_of(data) + rest` is
/// `data`, followed by `rest`, for any payload shorter than 2^32 bytes.
pub proof fn law_frame_roundtrip(data: Seq<u8>, rest: Seq<u8>)
    requires
        data.len() < 0x1_0000_0000,
    ensures
        first_frame(frame_of(data) + rest) == Some((data, rest)),
{
    let v = data.len();
    assert(v % 0x1_0000_0000 == v);
    let e = varint_bytes(v);
    lemma_varint_bytes_shape(v);
    let buf = frame_of(data) + rest;
    assert(buf =~= e + data + rest);
    assert forall|j: int| 0 <= j < e.len() - 1 implies buf[j] >= 128 by {
        assert(buf[j] == e[j]);
    }
    assert(buf[e.len() - 1] == e.last());
    lemma_header_end_from(buf, 0, e.len());
    assert(buf.subrange(0, e.len() as int) =~= e);
    assert(buf.subrange(e.len() as int, (e.len() + v) as int) =~= data);
    assert(buf.subrange((e.len() + v) as int, buf.len() as int) =~= rest);
}

/// Prepends the varint32 length of `data` to `data`, giving one complete frame.
/// The length is taken as a 32-bit value, as the frame format fixes it.
pub fn encode_varint32(data: &[u8]) -> (frame: Vec<u8>)
    ensures
        frame@ == frame_of(data@),
{
    let len: u64 = (data.len() as u64) % 0x1_0000_0000;
    let ghost target = len as nat;
    let mut result: Vec<u8> = Vec::with_capacity(5);
    let mut value: u64 = len;
    proof {
        lemma_varint_bytes_shape(len as nat);
    }
    loop
        invariant_except_break
            value <= len,
            result@ + varint_bytes(value as nat) == varint_bytes(target),
        ensures
            result@ == varint_bytes(target),
        decreases value,
    {
        if value < 128 {
            result.push(value as u8);
            assert(varint_bytes(value as nat) == seq![value as u8]);
            assert(result@ =~= varint_bytes(target));
            break;
        }
        let ghost before = result@;
        result.push((value % 128 + 128) as u8);
        proof {
            assert(varint_bytes(value as nat) == seq![(value % 128 + 128) as u8] + varint_bytes(
                (value / 128) as nat,
            ));
            assert(result@ + varint_bytes((value / 128) as nat) =~= before + varint_bytes(
                value as nat,
            ));
        }
        value = value / 128;
    }
    let mut i: usize = 0;
    let ghost header = result@;
    while i < data.len()
        invariant
            i <= data@.len(),
            result@ == header + data@.subrange(0, i as int),
        decreases data@.len() - i,
    {
        result.push(data[i]);
        assert(data@.subrange(0, (i + 1) as int) =~= data@.subrange(0, i as int).push(data@[i as int]));
        i = i + 1;
    }
    assert(data@.subrange(0, data@.len() as int) =~= data@);
    proof {
        assert(data@.len() as u64 % 0x1_0000_0000 == data@.len() % 0x1_0000_0000);
    }
    result
}

/// Reads one frame from the front of `buffer`: returns its payload and the
/// bytes after it, or `None` when the length prefix (at most five bytes) or
/// the payload is not complete yet.
pub fn decode_varint32(buffer: &[u8]) -> (res: Option<(&[u8], &[u8])>)
    ensures
        match res {
            None => first_frame(buffer@) is None,
            Some((msg, remaining)) => first_frame(buffer@) == Some((msg@, remaining@)),
        },
{
    let n = buffer.len();
    let limit: usize = if n < 5 { n } else { 5 };
    let mut value: u64 = 0;
    let mut mult: u64 = 1;
    let mut i: usize = 0;
    while i < limit
        invariant
            limit <= n == buffer@.len(),
            limit <= 5,
            i <= limit,
            mult as nat == pow128(i as nat),
            value as nat == varint_value(buffer@.subrange(0, i as int)),
            value < mult,
            i <= 4 ==> mult <= 0x1000_0000,
            header_end(buffer@) == header_end_from(buffer@, i as nat),
        decreases limit - i,
    {
        let byte = buffer[i];
        let ghost prefix = buffer@.subrange(0, (i + 1) as int);
        proof {
            assert(prefix.drop_last() =~= buffer@.subrange(0, i as int));
            assert(prefix.last() == byte);
            lemma_pow128_small();
            assert((byte % 128) as u64 * mult <= 127 * mult) by (nonlinear_arith)
                requires
                    (byte % 128) <= 127,
            ;
        }
        value = value + (byte % 128) as u64 * mult;
        if byte < 128 {
            let header_len = i + 1;
            let msg_len: u64 = value % 0x1_0000_0000;
            proof {
                assert(header_end_from(buffer@, i as nat) == Some(header_len as nat));
            }
            if (n as u64) < (header_len as u64) + msg_len {
                return None;
            }
            let total: usize = header_len + msg_len as usize;
            let message = vstd::slice::slice_subrange(buffer, header_len, total);
            let remaining = vstd::slice::slice_subrange(buffer, total, n);
            return Some((message, remaining));
        }
        proof {
            if i + 1 <= 4 {
                lemma_pow128_monotone((i + 1) as nat, 4);
            }
        }
        mult = mult * 128;
        i = i + 1;
    }
    proof {
        assert(header_end_from(buffer@, i as nat) is None);
    }
    None
}

/// A complete varint prefix is one to five bytes long.
proof fn lemma_header_end_bounds(buf: Seq<u8>, i: nat)
    ensures
        header_end_from(buf, i) matches Some(e) ==> i + 1 <= e <= buf.len(),
    decreases 5 - i,
{
    if !(i >= 5 || i >= buf.len()) && buf[i as int] >= 128 {
        lemma_header_end_bounds(buf, i + 1);
    }
}

/// What follows a complete first frame is shorter than the buffer.
pub proof fn lemma_first_frame_shrinks(buf: Seq<u8>)
    ensures
        first_frame(buf) matches Some((m, rest)) ==> rest.len() < buf.len(),
{
    lemma_header_end_bounds(buf, 0);
}

/// The complete frames at the front of `buf`, in order, and the bytes
/// after the last of them (an incomplete frame, or nothing).
pub open spec fn split_frames(buf: Seq<u8>) -> (Seq<Seq<u8>>, Seq<u8>)
    decreases buf.len(),
{
    match first_frame(buf) {
        None => (Seq::empty(), buf),
        Some((m, rest)) => {
            proof {
                lemma_first_frame_shrinks(buf);
            }
            let (ms, r) = split_frames(rest);
            (seq![m] + ms, r)
        },
    }
}

/// Takes every complete frame off the front of `buffer` and gives their
/// payloads, in order; what remains is the start of a frame still
/// incomplete.
pub fn drain_frames(buffer: &mut Vec<u8>) -> (frames: Vec<Vec<u8>>)
    ensures
        split_frames(old(buffer)@) == (frames@.map_values(|f: Vec<u8>| f@), final(buffer)@),
        first_frame(final(buffer)@) is None,
{
    let ghost original = buffer@;
    let mut frames: Vec<Vec<u8>> = Vec::new();
    loop
        invariant
            original == old(buffer)@,
            split_frames(original) == (
                frames@.map_values(|f: Vec<u8>| f@) + split_frames(buffer@).0,
                split_frames(buffer@).1,
            ),
        decreases buffer@.len(),
    {
        let next = match decode_varint32(buffer.as_slice()) {
            Some((msg, rest)) => Some((vstd::slice::slice_to_vec(msg), vstd::slice::slice_to_vec(rest))),
            None => None,
        };
        match next {
            Some((msg, rest)) => {
                proof {
                    lemma_first_frame_shrinks(buffer@);
                }
                let ghost before = frames@.map_values(|f: Vec<u8>| f@);
                let ghost tail = split_frames(rest@);
                assert(split_frames(buffer@) == (seq![msg@] + tail.0, tail.1));
                frames.push(msg);
                assert(frames@.map_values(|f: Vec<u8>| f@) =~= before.push(msg@));
                assert(before + (seq![msg@] + tail.0) =~= before.push(msg@) + tail.0);
                *buffer = rest;
            },
            None => {
                assert(split_frames(buffer@) == (Seq::<Seq<u8>>::empty(), buffer@));
                assert(frames@.map_values(|f: Vec<u8>| f@) + Seq::<Seq<u8>>::empty() =~= frames@.map_values(
                    |f: Vec<u8>| f@,
                ));
                return frames;
            },
        }
    }
}

} // verus!
