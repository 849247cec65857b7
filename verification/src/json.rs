//! Emission of the small JSON payloads sent to the guest agent.
//!
//! Commands are built as raw UTF-8 bytes: string content is escaped the
//! way the usual JSON serializers do it (short escapes for the common
//! control characters, `\u00..` for the rest), numbers are printed in
//! decimal, and object keys appear in sorted order.

use vstd::prelude::*;

verus! {

/// The bytes of an ASCII character sequence, one byte per character.
pub open spec fn ascii_bytes(s: Seq<char>) -> Seq<u8> {
    Seq::new(s.len(), |i: int| s[i] as u8)
}

/// The lowercase hexadecimal digit of a value below 16.
pub open spec fn hex_digit(v: u8) -> u8 {
    if v < 10 {
        (v + 48) as u8
    } else {
        (v + 87) as u8
    }
}

/// How one byte of string content is written between quotes.
pub open spec fn esc_byte(b: u8) -> Seq<u8> {
    if b == 34 {
        seq![92u8, 34u8]
    } else if b == 92 {
        seq![92u8, 92u8]
    } else if b == 8 {
        seq![92u8, 98u8]
    } else if b == 12 {
        seq![92u8, 102u8]
    } else if b == 10 {
        seq![92u8, 110u8]
    } else if b == 13 {
        seq![92u8, 114u8]
    } else if b == 9 {
        seq![92u8, 116u8]
    } else if b < 32 {
        seq![92u8, 117u8, 48u8, 48u8, hex_digit(b >> 4), hex_digit(b & 15)]
    } else {
        seq![b]
    }
}

/// The escaped form of string content.
pub open spec fn esc(s: Seq<u8>) -> Seq<u8>
    decreases s.len(),
{
    if s.len() == 0 {
        Seq::<u8>::empty()
    } else {
        esc_byte(s[0]) + esc(s.skip(1))
    }
}

/// A JSON string: quoted, escaped content.
pub open spec fn jstr(s: Seq<u8>) -> Seq<u8> {
    seq![34u8] + esc(s) + seq![34u8]
}

/// The decimal digits of a natural number.
pub open spec fn dec_digits(n: nat) -> Seq<u8>
    decreases n,
{
    if n < 10 {
        seq![(n + 48) as u8]
    } else {
        dec_digits(n / 10) + seq![(n % 10 + 48) as u8]
    }
}

/// A JSON integer: an optional minus sign and decimal digits.
pub open spec fn jint(n: int) -> Seq<u8> {
    if n < 0 {
        seq![45u8] + dec_digits((-n) as nat)
    } else {
        dec_digits(n as nat)
    }
}

/// A JSON boolean.
pub open spec fn jbool(b: bool) -> Seq<u8> {
    if b {
        ascii_bytes("true"@)
    } else {
        ascii_bytes("false"@)
    }
}

/// A JSON array of strings, in the given order.
pub open spec fn jarr_strs(items: Seq<Seq<u8>>) -> Seq<u8>
    decreases items.len(),
{
    if items.len() == 0 {
        seq![91u8, 93u8]
    } else {
        seq![91u8] + jstr(items[0]) + jarr_tail(items.skip(1)) + seq![93u8]
    }
}

/// The later elements of a string array, each with its leading comma.
pub open spec fn jarr_tail(items: Seq<Seq<u8>>) -> Seq<u8>
    decreases items.len(),
{
    if items.len() == 0 {
        Seq::<u8>::empty()
    } else {
        seq![44u8] + jstr(items[0]) + jarr_tail(items.skip(1))
    }
}

/// Escaping distributes over concatenation.
pub proof fn lemma_esc_append(a: Seq<u8>, b: Seq<u8>)
    ensures
        esc(a + b) == esc(a) + esc(b),
    decreases a.len(),
{
    if a.len() == 0 {
        assert(a + b =~= b);
        assert(esc(a) + esc(b) =~= esc(b));
    } else {
        assert((a + b).skip(1) =~= a.skip(1) + b);
        lemma_esc_append(a.skip(1), b);
        assert(esc(a) + esc(b) =~= esc_byte(a[0]) + (esc(a.skip(1)) + esc(b)));
        assert(esc(a + b) =~= esc_byte(a[0]) + esc((a + b).skip(1)));
    }
}

/// Appends the bytes of an ASCII literal.
pub fn push_literal(out: &mut Vec<u8>, s: &str)
    requires
        vstd::string::is_ascii(s),
    ensures
        final(out)@ == old(out)@ + ascii_bytes(s@),
{
    let b = s.as_bytes();
    proof {
        vstd::string::is_ascii_spec_bytes(s);
        assert(b@ =~= ascii_bytes(s@));
    }
    let len = b.len();
    let mut i: usize = 0;
    while i < len
        invariant
            i <= len,
            len == b@.len(),
            b@ == ascii_bytes(s@),
            out@ == old(out)@ + b@.take(i as int),
        decreases len - i,
    {
        out.push(b[i]);
        proof {
            assert(b@.take(i + 1) =~= b@.take(i as int).push(b@[i as int]));
            assert(out@ =~= old(out)@ + b@.take(i + 1));
        }
        i = i + 1;
    }
    proof {
        assert(b@.take(len as int) =~= b@);
    }
}

/// Appends escaped string content.
pub fn push_escaped(out: &mut Vec<u8>, s: &[u8])
    ensures
        final(out)@ == old(out)@ + esc(s@),
{
    let len = s.len();
    let mut i: usize = 0;
    while i < len
        invariant
            i <= len,
            len == s@.len(),
            out@ == old(out)@ + esc(s@.take(i as int)),
        decreases len - i,
    {
        let b = s[i];
        if b == 34 || b == 92 {
            out.push(92);
            out.push(b);
        } else if b == 8 {
            out.push(92);
            out.push(98);
        } else if b == 12 {
            out.push(92);
            out.push(102);
        } else if b == 10 {
            out.push(92);
            out.push(110);
        } else if b == 13 {
            out.push(92);
            out.push(114);
        } else if b == 9 {
            out.push(92);
            out.push(116);
        } else if b < 32 {
            proof {
                assert(b >> 4 < 16 && (b & 15) < 16) by (bit_vector);
            }
            out.push(92);
            out.push(117);
            out.push(48);
            out.push(48);
            out.push(hex_of(b >> 4));
            out.push(hex_of(b & 15));
        } else {
            out.push(b);
        }
        proof {
            let one = seq![s@[i as int]];
            assert(s@.take(i + 1) =~= s@.take(i as int) + one);
            lemma_esc_append(s@.take(i as int), one);
            assert(one.skip(1) =~= Seq::<u8>::empty());
            assert(esc(Seq::<u8>::empty()) =~= Seq::<u8>::empty());
            assert(one[0] == b);
            assert(esc(one) =~= esc_byte(b));
            assert(b >> 4 < 16 && (b & 15) < 16) by (bit_vector);
            assert(out@ =~= old(out)@ + esc(s@.take(i + 1)));
        }
        i = i + 1;
    }
    proof {
        assert(s@.take(len as int) =~= s@);
    }
}

/// The lowercase hexadecimal digit of a value below 16.
fn hex_of(v: u8) -> (r: u8)
    requires
        v < 16,
    ensures
        r == hex_digit(v),
{
    if v < 10 {
        v + 48
    } else {
        v + 87
    }
}

/// Appends a JSON string: quote, escaped content, quote.
pub fn push_quoted(out: &mut Vec<u8>, s: &[u8])
    ensures
        final(out)@ == old(out)@ + jstr(s@),
{
    out.push(34);
    push_escaped(out, s);
    out.push(34);
    proof {
        assert(out@ =~= old(out)@ + jstr(s@));
    }
}

/// Appends the decimal digits of an unsigned number.
pub fn push_dec_u64(out: &mut Vec<u8>, n: u64)
    ensures
        final(out)@ == old(out)@ + dec_digits(n as nat),
    decreases n,
{
    if n < 10 {
        out.push((n as u8) + 48);
        proof {
            assert(out@ =~= old(out)@ + dec_digits(n as nat));
        }
    } else {
        push_dec_u64(out, n / 10);
        out.push(((n % 10) as u8) + 48);
        proof {
            assert(out@ =~= old(out)@ + dec_digits(n as nat));
        }
    }
}

/// Appends a signed number in decimal.
pub fn push_dec_i64(out: &mut Vec<u8>, n: i64)
    ensures
        final(out)@ == old(out)@ + jint(n as int),
{
    if n >= 0 {
        push_dec_u64(out, n as u64);
    } else {
        out.push(45);
        let m: u64 = ((-(n + 1)) as u64) + 1;
        proof {
            assert(m as int == -(n as int));
        }
        push_dec_u64(out, m);
        proof {
            assert(out@ =~= old(out)@ + jint(n as int));
        }
    }
}

/// Appends a JSON boolean.
pub fn push_bool(out: &mut Vec<u8>, b: bool)
    ensures
        final(out)@ == old(out)@ + jbool(b),
{
    if b {
        proof {
            reveal_strlit("true");
        }
        push_literal(out, "true");
    } else {
        proof {
            reveal_strlit("false");
        }
        push_literal(out, "false");
    }
}

/// Appends a JSON array holding the given strings, in order.
pub fn push_str_array(out: &mut Vec<u8>, items: &Vec<String>)
    ensures
        final(out)@ == old(out)@ + jarr_strs(
            Seq::new(items@.len(), |i: int| vstd::utf8::encode_utf8(items@[i]@)),
        ),
{
    let ghost views = Seq::new(items@.len(), |i: int| vstd::utf8::encode_utf8(items@[i]@));
    out.push(91);
    let len = items.len();
    let mut i: usize = 0;
    while i < len
        invariant
            i <= len,
            len == items@.len(),
            views == Seq::new(items@.len(), |k: int| vstd::utf8::encode_utf8(items@[k]@)),
            i == 0 ==> out@ == old(out)@ + seq![91u8],
            i > 0 ==> out@ == old(out)@ + seq![91u8] + jstr(views[0]) + jarr_tail_upto(
                views,
                1,
                i as int,
            ),
        decreases len - i,
    {
        if i > 0 {
            out.push(44);
        }
        let item: &String = &items[i];
        push_quoted(out, item.as_str().as_bytes());
        proof {
            assert(vstd::utf8::encode_utf8(items@[i as int]@) == views[i as int]);
            if i > 0 {
                assert(jarr_tail_upto(views, 1, i + 1) =~= jarr_tail_upto(views, 1, i as int)
                    + seq![44u8] + jstr(views[i as int])) by {
                    lemma_jarr_tail_upto_snoc(views, 1, i as int);
                }
            }
            assert(i == 0 ==> out@ =~= old(out)@ + seq![91u8] + jstr(views[0]) + jarr_tail_upto(
                views, 1, 1));
        }
        i = i + 1;
    }
    out.push(93);
    proof {
        if len == 0 {
            assert(out@ =~= old(out)@ + jarr_strs(views));
        } else {
            lemma_jarr_tail_upto_full(views, 1);
            assert(views.skip(1).len() == len - 1);
            assert(out@ =~= old(out)@ + jarr_strs(views));
        }
    }
}

/// The comma-led elements of a string array between two positions.
pub open spec fn jarr_tail_upto(items: Seq<Seq<u8>>, from: int, to: int) -> Seq<u8>
    decreases to - from,
{
    if from >= to {
        Seq::<u8>::empty()
    } else {
        seq![44u8] + jstr(items[from]) + jarr_tail_upto(items, from + 1, to)
    }
}

/// One more comma-led element extends the partial tail at its end.
proof fn lemma_jarr_tail_upto_snoc(items: Seq<Seq<u8>>, from: int, to: int)
    requires
        from <= to < items.len(),
    ensures
        jarr_tail_upto(items, from, to + 1) == jarr_tail_upto(items, from, to) + seq![44u8]
            + jstr(items[to]),
    decreases to - from,
{
    if from >= to {
        assert(jarr_tail_upto(items, from, to) =~= Seq::<u8>::empty());
        assert(jarr_tail_upto(items, from + 1, to + 1) =~= Seq::<u8>::empty());
        assert(jarr_tail_upto(items, from, to + 1) =~= jarr_tail_upto(items, from, to)
            + seq![44u8] + jstr(items[to]));
    } else {
        lemma_jarr_tail_upto_snoc(items, from + 1, to);
        assert(jarr_tail_upto(items, from, to + 1) =~= jarr_tail_upto(items, from, to)
            + seq![44u8] + jstr(items[to]));
    }
}

/// The complete partial tail is the tail of the array.
proof fn lemma_jarr_tail_upto_full(items: Seq<Seq<u8>>, from: int)
    requires
        0 <= from <= items.len(),
    ensures
        jarr_tail_upto(items, from, items.len() as int) == jarr_tail(items.skip(from)),
    decreases items.len() - from,
{
    if from >= items.len() {
        assert(items.skip(from) =~= Seq::<Seq<u8>>::empty());
    } else {
        lemma_jarr_tail_upto_full(items, from + 1);
        assert(items.skip(from)[0] == items[from]);
        assert(items.skip(from).skip(1) =~= items.skip(from + 1));
        assert(jarr_tail_upto(items, from, items.len() as int) =~= jarr_tail(items.skip(from)));
    }
}

} // verus!
