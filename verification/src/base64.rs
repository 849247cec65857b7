//! The base64 codec used for guest-agent byte payloads.
//!
//! Encoding works on raw bytes and yields the ASCII bytes of the base64
//! text, two-padded with `=` as usual; decoding trims trailing padding and
//! rejects any byte outside the base64 alphabet.

use vstd::prelude::*;

verus! {

/// The ASCII code of the alphabet character for a 6-bit value.
pub open spec fn b64_char_of(v: u8) -> u8 {
    if v < 26 {
        (v + 65) as u8
    } else if v < 52 {
        (v + 71) as u8
    } else if v < 62 {
        (v - 4) as u8
    } else if v == 62 {
        43u8
    } else {
        47u8
    }
}

/// Whether an ASCII byte belongs to the base64 alphabet.
pub open spec fn b64_is_val(c: u8) -> bool {
    (65 <= c <= 90) || (97 <= c <= 122) || (48 <= c <= 57) || c == 43 || c == 47
}

/// The 6-bit value of an alphabet byte.
pub open spec fn b64_val_of(c: u8) -> u8 {
    if 65 <= c <= 90 {
        (c - 65) as u8
    } else if 97 <= c <= 122 {
        (c - 71) as u8
    } else if 48 <= c <= 57 {
        (c + 4) as u8
    } else if c == 43 {
        62u8
    } else {
        63u8
    }
}

/// The base64 text of a byte sequence, three input bytes to four output
/// bytes, with `=` padding closing a final short group.
pub open spec fn b64_encode(s: Seq<u8>) -> Seq<u8>
    decreases s.len(),
{
    if s.len() == 0 {
        Seq::<u8>::empty()
    } else if s.len() == 1 {
        let b1 = s[0];
        seq![
            b64_char_of(b1 >> 2),
            b64_char_of((b1 & 3) << 4),
            61u8,
            61u8,
        ]
    } else if s.len() == 2 {
        let b1 = s[0];
        let b2 = s[1];
        seq![
            b64_char_of(b1 >> 2),
            b64_char_of(((b1 & 3) << 4) | (b2 >> 4)),
            b64_char_of((b2 & 15) << 2),
            61u8,
        ]
    } else {
        let b1 = s[0];
        let b2 = s[1];
        let b3 = s[2];
        seq![
            b64_char_of(b1 >> 2),
            b64_char_of(((b1 & 3) << 4) | (b2 >> 4)),
            b64_char_of(((b2 & 15) << 2) | (b3 >> 6)),
            b64_char_of(b3 & 63),
        ] + b64_encode(s.skip(3))
    }
}

/// The bytes carried by a sequence of 6-bit values: every full run of
/// eight accumulated bits becomes one byte, leftover bits are dropped.
pub open spec fn b64_decode_vals(s: Seq<u8>) -> Seq<u8>
    decreases s.len(),
{
    if s.len() < 2 {
        Seq::<u8>::empty()
    } else if s.len() == 2 {
        seq![((s[0] << 2) | (s[1] >> 4))]
    } else if s.len() == 3 {
        seq![
            ((s[0] << 2) | (s[1] >> 4)),
            (((s[1] & 15) << 4) | (s[2] >> 2)),
        ]
    } else {
        seq![
            ((s[0] << 2) | (s[1] >> 4)),
            (((s[1] & 15) << 4) | (s[2] >> 2)),
            (((s[2] & 3) << 6) | s[3]),
        ] + b64_decode_vals(s.skip(4))
    }
}

/// The 6-bit values of a run of alphabet bytes.
pub open spec fn b64_vals(s: Seq<u8>) -> Seq<u8> {
    s.map_values(|c: u8| b64_val_of(c))
}

/// A byte sequence with its trailing `=` padding removed.
pub open spec fn b64_trim(s: Seq<u8>) -> Seq<u8>
    decreases s.len(),
{
    if s.len() > 0 && s[s.len() - 1] == 61 {
        b64_trim(s.drop_last())
    } else {
        s
    }
}

/// What a whole base64 text denotes, if anything: trim the padding, then
/// every remaining byte must come from the alphabet.
pub open spec fn b64_decode_ok(s: Seq<u8>) -> bool {
    forall|i: int| 0 <= i < b64_trim(s).len() ==> b64_is_val(#[trigger] b64_trim(s)[i])
}

/// The bytes a valid base64 text denotes.
pub open spec fn b64_decoded(s: Seq<u8>) -> Seq<u8> {
    b64_decode_vals(b64_vals(b64_trim(s)))
}

/// Encodes bytes as base64 text (the ASCII bytes of the text).
pub fn encode(input: &[u8]) -> (r: Vec<u8>)
    ensures
        r@ == b64_encode(input@),
{
    let mut result: Vec<u8> = Vec::new();
    let len = input.len();
    let mut i: usize = 0;
    while i < len
        invariant
            i <= len,
            i % 3 == 0 || i == len,
            len == input@.len(),
            result@ == b64_encode(input@.take(i as int)),
        decreases len - i,
    {
        let b1 = input[i];
        let b2 = if i + 1 < len { input[i + 1] } else { 0 };
        let b3 = if i + 2 < len { input[i + 2] } else { 0 };

        proof {
            lemma_group_bounds(b1, b2, b3);
        }
        result.push(table_byte(b1 >> 2));
        result.push(table_byte(((b1 & 3) << 4) | (b2 >> 4)));
        result.push(
            if i + 1 < len {
                table_byte(((b2 & 15) << 2) | (b3 >> 6))
            } else {
                61
            },
        );
        result.push(
            if i + 2 < len {
                table_byte(b3 & 63)
            } else {
                61
            },
        );

        let next = if len - i >= 3 { i + 3 } else { len };
        proof {
            let pre = input@.take(i as int);
            let post = input@.take(next as int);
            let group = input@.subrange(i as int, next as int);
            assert(post =~= pre + group);
            lemma_encode_append(pre, group);
            if group.len() == 3 {
                assert(group.skip(3) =~= Seq::<u8>::empty());
                assert(b64_encode(Seq::<u8>::empty()) =~= Seq::<u8>::empty());
                assert(group[0] == b1 && group[1] == b2 && group[2] == b3);
            } else if group.len() == 2 {
                assert(group[0] == b1 && group[1] == b2);
            } else {
                assert(group.len() == 1 && group[0] == b1);
            }
            assert(b64_encode(group) =~= result@.skip(result@.len() - 4));
            assert(result@ =~= b64_encode(post));
        }
        i = next;
    }
    proof {
        assert(input@.take(len as int) == input@);
    }
    result
}

/// The alphabet byte of a 6-bit value.
fn table_byte(v: u8) -> (r: u8)
    requires
        v < 64,
    ensures
        r == b64_char_of(v),
        b64_is_val(r),
        b64_val_of(r) == v,
{
    if v < 26 {
        v + 65
    } else if v < 52 {
        v + 71
    } else if v < 62 {
        v - 4
    } else if v == 62 {
        43
    } else {
        47
    }
}

/// The four 6-bit values cut from a group of three bytes stay below 64.
proof fn lemma_group_bounds(b1: u8, b2: u8, b3: u8)
    ensures
        b1 >> 2 < 64,
        (((b1 & 3) << 4) | (b2 >> 4)) < 64,
        (((b2 & 15) << 2) | (b3 >> 6)) < 64,
        (b3 & 63) < 64,
        b2 == 0 ==> (((b1 & 3) << 4) | (b2 >> 4)) == ((b1 & 3) << 4),
        b3 == 0 ==> (((b2 & 15) << 2) | (b3 >> 6)) == ((b2 & 15) << 2),
{
    assert(b1 >> 2 < 64 && (((b1 & 3) << 4) | (b2 >> 4)) < 64 && (((b2 & 15) << 2) | (b3 >> 6))
        < 64 && (b3 & 63) < 64) by (bit_vector);
    assert((b2 == 0 ==> (((b1 & 3) << 4) | (b2 >> 4)) == ((b1 & 3) << 4)) && (b3 == 0 ==> (((b2
        & 15) << 2) | (b3 >> 6)) == ((b2 & 15) << 2))) by (bit_vector);
}

/// A byte that is not base64 text: the offending byte and its position
/// in the input once the trailing padding is gone.
#[derive(Debug)]
pub struct DecodeError {
    pub byte: u8,
    pub at: usize,
}

/// Decodes base64 text (given as ASCII bytes): trims trailing `=`, then
/// folds the 6-bit values into bytes, exactly eight bits at a time.
pub fn decode(input: &[u8]) -> (r: Result<Vec<u8>, DecodeError>)
    ensures
        r is Ok <==> b64_decode_ok(input@),
        r matches Ok(v) ==> v@ == b64_decoded(input@),
        r matches Err(e) ==> {
            &&& e.at < b64_trim(input@).len()
            &&& e.byte == b64_trim(input@)[e.at as int]
            &&& !b64_is_val(e.byte)
        },
{
    let len = input.len();
    let mut end: usize = len;
    proof {
        assert(input@.take(len as int) =~= input@);
    }
    while end > 0 && input[end - 1] == 61
        invariant
            end <= len,
            len == input@.len(),
            b64_trim(input@) == b64_trim(input@.take(end as int)),
        decreases end,
    {
        proof {
            assert(input@.take(end as int).drop_last() =~= input@.take(end - 1));
        }
        end = end - 1;
    }
    let ghost trimmed = input@.take(end as int);
    proof {
        assert(b64_trim(trimmed) == trimmed);
        if end == len {
            assert(trimmed =~= input@);
        }
    }
    let ghost vals = b64_vals(trimmed);

    let mut result: Vec<u8> = Vec::new();
    let mut buffer: u32 = 0;
    let mut bits: u32 = 0;
    let mut j: usize = 0;
    while j < end
        invariant
            j <= end,
            end <= len,
            len == input@.len(),
            trimmed == input@.take(end as int),
            trimmed == b64_trim(input@),
            vals == b64_vals(trimmed),
            forall|k: int| 0 <= k < j ==> b64_is_val(#[trigger] trimmed[k]),
            result@ == b64_decode_vals(vals.take(j as int)),
            j % 4 == 0 ==> bits == 0 && buffer == 0,
            j % 4 == 1 ==> bits == 6 && buffer == b64_val_of(trimmed[j - 1]) as u32,
            j % 4 == 2 ==> bits == 4 && buffer == (b64_val_of(trimmed[j - 1]) & 15) as u32,
            j % 4 == 3 ==> bits == 2 && buffer == (b64_val_of(trimmed[j - 1]) & 3) as u32,
        decreases end - j,
    {
        let c = input[j];
        let v = match b64_value(c) {
            Some(v) => v,
            None => {
                proof {
                    assert(trimmed[j as int] == c);
                    assert(!b64_decode_ok(input@));
                }
                return Err(DecodeError { byte: c, at: j });
            },
        };
        proof {
            assert(trimmed[j as int] == c);
            assert(v == b64_val_of(trimmed[j as int]) && v < 64);
            if j % 4 >= 1 {
                assert(b64_is_val(trimmed[j - 1]));
                assert(b64_val_of(trimmed[j - 1]) < 64);
                lemma_fold_bits(b64_val_of(trimmed[j - 1]), v);
            } else {
                lemma_fold_bits(0, v);
            }
        }
        buffer = (buffer << 6) | (v as u32);
        bits = bits + 6;
        if bits >= 8 {
            bits = bits - 8;
            result.push(#[verifier::truncate] ((buffer >> bits) as u8));
            buffer = buffer & ((1u32 << bits) - 1);
        }
        proof {
            let a = 4 * ((j as int) / 4);
            assert(a + (j as int) % 4 == j as int);
            let before = vals.subrange(a, j as int);
            let after = vals.subrange(a, j + 1);
            lemma_decode_append(vals.take(a), before);
            lemma_decode_append(vals.take(a), after);
            assert(vals.take(j as int) =~= vals.take(a) + before);
            assert(vals.take(j + 1) =~= vals.take(a) + after);
            assert(after =~= before.push(v));
            assert(after[after.len() - 1] == v);
            if j % 4 == 0 {
                assert(b64_decode_vals(after) =~= b64_decode_vals(before));
            } else if j % 4 == 1 {
                assert(after[0] == b64_val_of(trimmed[j - 1]) && after[1] == v);
                assert(b64_decode_vals(after) =~= b64_decode_vals(before).push(
                    (after[0] << 2) | (after[1] >> 4)));
            } else if j % 4 == 2 {
                assert(after[1] == b64_val_of(trimmed[j - 1]) && after[2] == v);
                assert(b64_decode_vals(after) =~= b64_decode_vals(before).push(
                    ((after[1] & 15) << 4) | (after[2] >> 2)));
            } else {
                assert(after.skip(4) =~= Seq::<u8>::empty());
                assert(b64_decode_vals(Seq::<u8>::empty()) =~= Seq::<u8>::empty());
                assert(after.len() == 4);
                assert(after[2] == b64_val_of(trimmed[j - 1]) && after[3] == v);
                assert(b64_decode_vals(after) =~= b64_decode_vals(before).push(
                    ((after[2] & 3) << 6) | after[3]));
            }
            assert(result@ =~= b64_decode_vals(vals.take(j + 1)));
        }
        j = j + 1;
    }
    proof {
        assert(vals.take(j as int) =~= vals);
    }
    Ok(result)
}

/// The 6-bit value of an alphabet byte, `None` outside the alphabet.
fn b64_value(c: u8) -> (r: Option<u8>)
    ensures
        r is Some <==> b64_is_val(c),
        r matches Some(v) ==> v == b64_val_of(c) && v < 64,
{
    if 65 <= c && c <= 90 {
        Some(c - 65)
    } else if 97 <= c && c <= 122 {
        Some(c - 71)
    } else if 48 <= c && c <= 57 {
        Some(c + 4)
    } else if c == 43 {
        Some(62)
    } else if c == 47 {
        Some(63)
    } else {
        None
    }
}

/// How one more 6-bit value folds into the bit buffer, for each of the
/// three phases in which a byte is completed.
proof fn lemma_fold_bits(p: u8, v: u8)
    requires
        p < 64,
        v < 64,
    ensures
        ((((p as u32) << 6) | (v as u32)) >> 4) as u8 == ((p << 2) | (v >> 4)),
        ((((p as u32) << 6) | (v as u32)) & 15u32) == (v & 15) as u32,
        (((((p & 15) as u32) << 6) | (v as u32)) >> 2) as u8 == (((p & 15) << 4) | (v >> 2)),
        (((((p & 15) as u32) << 6) | (v as u32)) & 3u32) == (v & 3) as u32,
        (((((p & 3) as u32) << 6) | (v as u32)) >> 0) as u8 == (((p & 3) << 6) | v),
        (((((p & 3) as u32) << 6) | (v as u32)) & 0u32) == 0,
        ((0u32 << 6) | (v as u32)) == v as u32,
        (1u32 << 4u32) == 16u32,
        (1u32 << 2u32) == 4u32,
        (1u32 << 0u32) == 1u32,
{
    assert((p < 64 && v < 64) ==> {
        &&& ((((p as u32) << 6) | (v as u32)) >> 4) as u8 == ((p << 2) | (v >> 4))
        &&& ((((p as u32) << 6) | (v as u32)) & 15u32) == (v & 15) as u32
        &&& (((((p & 15) as u32) << 6) | (v as u32)) >> 2) as u8 == (((p & 15) << 4) | (v >> 2))
        &&& (((((p & 15) as u32) << 6) | (v as u32)) & 3u32) == (v & 3) as u32
        &&& (((((p & 3) as u32) << 6) | (v as u32)) >> 0) as u8 == (((p & 3) << 6) | v)
        &&& (((((p & 3) as u32) << 6) | (v as u32)) & 0u32) == 0
    }) by (bit_vector);
    assert((1u32 << 4u32) == 16u32 && (1u32 << 2u32) == 4u32 && (1u32 << 0u32) == 1u32)
        by (bit_vector);
    assert(((0u32 << 6) | (v as u32)) == v as u32) by (bit_vector);
}

/// Decoding distributes over a split at a multiple of four values.
pub proof fn lemma_decode_append(s: Seq<u8>, t: Seq<u8>)
    requires
        s.len() % 4 == 0,
    ensures
        b64_decode_vals(s + t) == b64_decode_vals(s) + b64_decode_vals(t),
    decreases s.len(),
{
    if s.len() == 0 {
        assert(s + t =~= t);
        assert(b64_decode_vals(s) + b64_decode_vals(t) =~= b64_decode_vals(t));
    } else {
        let u = s + t;
        assert(u.len() >= 4);
        assert(u[0] == s[0] && u[1] == s[1] && u[2] == s[2] && u[3] == s[3]);
        assert(u.skip(4) =~= s.skip(4) + t);
        lemma_decode_append(s.skip(4), t);
        assert(b64_decode_vals(s) + b64_decode_vals(t) =~= b64_decode_vals(u));
    }
}

/// The alphabet and the 6-bit values are inverse to one another, and the
/// alphabet never contains the padding byte.
proof fn lemma_char_val(v: u8)
    requires
        v < 64,
    ensures
        b64_is_val(b64_char_of(v)),
        b64_val_of(b64_char_of(v)) == v,
        b64_char_of(v) != 61,
{
}

/// Three bytes cut into four 6-bit values are recovered by the decoder's
/// bit folding, also when the group is short and the spare inputs are zero.
proof fn lemma_recover(b1: u8, b2: u8, b3: u8)
    ensures
        (((b1 >> 2) << 2) | ((((b1 & 3) << 4) | (b2 >> 4)) >> 4)) == b1,
        ((((((b1 & 3) << 4) | (b2 >> 4)) & 15) << 4) | ((((b2 & 15) << 2) | (b3 >> 6)) >> 2))
            == b2,
        (((((((b2 & 15) << 2) | (b3 >> 6))) & 3) << 6) | (b3 & 63)) == b3,
        (((b1 >> 2) << 2) | (((b1 & 3) << 4) >> 4)) == b1,
        ((((((b1 & 3) << 4) | (b2 >> 4)) & 15) << 4) | (((b2 & 15) << 2) >> 2)) == b2,
{
    assert((((b1 >> 2) << 2) | ((((b1 & 3) << 4) | (b2 >> 4)) >> 4)) == b1 && ((((((b1 & 3)
        << 4) | (b2 >> 4)) & 15) << 4) | ((((b2 & 15) << 2) | (b3 >> 6)) >> 2)) == b2 && (((((((b2
        & 15) << 2) | (b3 >> 6))) & 3) << 6) | (b3 & 63)) == b3 && (((b1 >> 2) << 2) | (((b1 & 3)
        << 4) >> 4)) == b1 && ((((((b1 & 3) << 4) | (b2 >> 4)) & 15) << 4) | (((b2 & 15) << 2)
        >> 2)) == b2) by (bit_vector);
}

/// Trimming the padding of a compound text only touches its tail, as long
/// as the tail does not trim away entirely.
proof fn lemma_trim_append(a: Seq<u8>, b: Seq<u8>)
    requires
        b64_trim(b).len() > 0,
    ensures
        b64_trim(a + b) == a + b64_trim(b),
    decreases b.len(),
{
    if b.len() > 0 && b[b.len() - 1] == 61 {
        assert((a + b).drop_last() =~= a + b.drop_last());
        lemma_trim_append(a, b.drop_last());
    } else {
        assert(b64_trim(b) == b);
        assert((a + b).len() > 0 && (a + b)[(a + b).len() - 1] != 61);
        assert(b64_trim(a + b) == a + b);
    }
}

/// Law: decoding undoes encoding. The base64 text of any byte sequence is
/// valid base64 and denotes exactly the original bytes.
pub proof fn lemma_round_trip(s: Seq<u8>)
    ensures
        b64_decode_ok(b64_encode(s)),
        b64_decoded(b64_encode(s)) == s,
    decreases s.len(),
{
    let e = b64_encode(s);
    if s.len() == 0 {
        assert(b64_trim(e) == e);
        assert(b64_decoded(e) =~= s);
    } else if s.len() == 1 {
        let b1 = s[0];
        let c1 = b64_char_of(b1 >> 2);
        let c2 = b64_char_of((b1 & 3) << 4);
        lemma_group_bounds(b1, 0, 0);
        lemma_char_val(b1 >> 2);
        lemma_char_val((b1 & 3) << 4);
        let t2 = seq![c1, c2];
        let t3 = seq![c1, c2, 61u8];
        assert(e =~= seq![c1, c2, 61u8, 61u8]);
        assert(e.drop_last() =~= t3);
        assert(t3.drop_last() =~= t2);
        assert(t2[1] == c2 && c2 != 61);
        assert(b64_trim(t2) == t2);
        assert(b64_trim(t3) == b64_trim(t3.drop_last()));
        assert(b64_trim(e) == b64_trim(e.drop_last()));
        assert(b64_trim(e) == t2);
        lemma_recover(b1, 0, 0);
        assert(b64_vals(t2) =~= seq![b1 >> 2, (b1 & 3) << 4]);
        assert(b64_decoded(e) =~= s);
    } else if s.len() == 2 {
        let b1 = s[0];
        let b2 = s[1];
        let c1 = b64_char_of(b1 >> 2);
        let c2 = b64_char_of(((b1 & 3) << 4) | (b2 >> 4));
        let c3 = b64_char_of((b2 & 15) << 2);
        lemma_group_bounds(b1, b2, 0);
        lemma_char_val(b1 >> 2);
        lemma_char_val(((b1 & 3) << 4) | (b2 >> 4));
        lemma_char_val((b2 & 15) << 2);
        let t3 = seq![c1, c2, c3];
        assert(e =~= seq![c1, c2, c3, 61u8]);
        assert(e.drop_last() =~= t3);
        assert(t3[2] == c3 && c3 != 61);
        assert(b64_trim(t3) == t3);
        assert(b64_trim(e) == b64_trim(e.drop_last()));
        assert(b64_trim(e) == t3);
        lemma_recover(b1, b2, 0);
        assert(b64_vals(t3) =~= seq![b1 >> 2, ((b1 & 3) << 4) | (b2 >> 4), (b2 & 15) << 2]);
        assert(b64_decoded(e) =~= s);
    } else {
        let b1 = s[0];
        let b2 = s[1];
        let b3 = s[2];
        let v1 = b1 >> 2;
        let v2 = ((b1 & 3) << 4) | (b2 >> 4);
        let v3 = ((b2 & 15) << 2) | (b3 >> 6);
        let v4 = b3 & 63;
        lemma_group_bounds(b1, b2, b3);
        lemma_char_val(v1);
        lemma_char_val(v2);
        lemma_char_val(v3);
        lemma_char_val(v4);
        let group = seq![
            b64_char_of(v1),
            b64_char_of(v2),
            b64_char_of(v3),
            b64_char_of(v4),
        ];
        let rest = b64_encode(s.skip(3));
        assert(e =~= group + rest);
        lemma_round_trip(s.skip(3));
        lemma_recover(b1, b2, b3);
        assert(seq![v1, v2, v3, v4].skip(4) =~= Seq::<u8>::empty());
        assert(b64_decode_vals(Seq::<u8>::empty()) =~= Seq::<u8>::empty());
        assert(b64_decode_vals(seq![v1, v2, v3, v4]) =~= seq![b1, b2, b3]);
        if s.len() == 3 {
            assert(rest =~= Seq::<u8>::empty());
            assert(e =~= group);
            assert(b64_trim(e) == e);
            assert(b64_vals(group) =~= seq![v1, v2, v3, v4]);
            assert(b64_vals(group).skip(4) =~= Seq::<u8>::empty());
            assert(b64_decoded(e) =~= s);
        } else {
            let rt = b64_trim(rest);
            assert(rt.len() > 0) by {
                assert(b64_decode_vals(b64_vals(rt)) == s.skip(3));
                if b64_vals(rt).len() < 2 {
                    assert(b64_decode_vals(b64_vals(rt)) =~= Seq::<u8>::empty());
                }
                assert(b64_vals(rt).len() == rt.len());
            }
            lemma_trim_append(group, rest);
            assert(b64_trim(e) == group + rt);
            assert(b64_vals(group + rt) =~= seq![v1, v2, v3, v4] + b64_vals(rt));
            lemma_decode_append(seq![v1, v2, v3, v4], b64_vals(rt));
            assert(b64_decode_vals(seq![v1, v2, v3, v4] + b64_vals(rt)) =~= seq![b1, b2, b3]
                + b64_decode_vals(b64_vals(rt)));
            assert(b64_decoded(e) =~= seq![b1, b2, b3] + s.skip(3));
            assert(b64_decoded(e) =~= s);
            assert forall|i: int| 0 <= i < b64_trim(e).len() implies b64_is_val(
                #[trigger] b64_trim(e)[i]) by {
                if i >= 4 {
                    assert(b64_trim(e)[i] == rt[i - 4]);
                    assert(b64_is_val(b64_trim(rest)[i - 4]));
                }
            }
        }
    }
}

/// Encoding distributes over a split at a multiple of three.
pub proof fn lemma_encode_append(s: Seq<u8>, t: Seq<u8>)
    requires
        s.len() % 3 == 0,
    ensures
        b64_encode(s + t) == b64_encode(s) + b64_encode(t),
    decreases s.len(),
{
    if s.len() == 0 {
        assert(s + t =~= t);
        assert(b64_encode(s) + b64_encode(t) =~= b64_encode(t));
    } else {
        let u = s + t;
        assert(u.len() >= 3);
        assert(u[0] == s[0] && u[1] == s[1] && u[2] == s[2]);
        assert(u.skip(3) =~= s.skip(3) + t);
        lemma_encode_append(s.skip(3), t);
        assert(b64_encode(s) + b64_encode(t) =~= b64_encode(u));
    }
}

} // verus!
