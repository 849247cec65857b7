//! The big-integer arguments the embedding runtime hands over for 64-bit
//! quantities (memory sizes, bandwidths, thresholds), and the narrowing
//! guard that rejects what the native interface's width cannot carry.

use vstd::prelude::*;

verus! {

/// An arbitrary-precision integer as the embedding runtime delivers it:
/// a sign bit and little-endian 64-bit words.
pub struct Big {
    pub sign_bit: bool,
    pub words: Vec<u64>,
}

/// The natural number carried by little-endian 64-bit words.
pub open spec fn words_value(s: Seq<u64>) -> nat
    decreases s.len(),
{
    if s.len() == 0 {
        0
    } else {
        (s[0] + 0x1_0000_0000_0000_0000 * words_value(s.skip(1))) as nat
    }
}

impl Big {
    /// The integer this value denotes.
    pub open spec fn value(&self) -> int {
        if self.sign_bit {
            -(words_value(self.words@) as int)
        } else {
            words_value(self.words@) as int
        }
    }

    /// No spare leading zero word, and no sign on an empty magnitude:
    /// then the sign and the word count alone tell whether the value is
    /// an unsigned number that fits 64 bits.
    pub open spec fn wf(&self) -> bool {
        &&& self.words@.len() == 0 || self.words@[self.words@.len() - 1] != 0
        &&& self.sign_bit ==> self.words@.len() > 0
    }

    /// Wraps an unsigned 64-bit value.
    pub fn from_u64(v: u64) -> (r: Big)
        ensures
            r.value() == v as int,
            r.wf(),
            !r.sign_bit,
            r.words@.len() <= 1,
    {
        let mut words: Vec<u64> = Vec::new();
        if v > 0 {
            words.push(v);
        }
        let r = Big { sign_bit: false, words };
        proof {
            if v > 0 {
                assert(r.words@.skip(1) =~= Seq::<u64>::empty());
                assert(words_value(Seq::<u64>::empty()) == 0);
                assert(words_value(r.words@) == v);
            } else {
                assert(words_value(r.words@) == 0);
            }
        }
        r
    }

    /// Wraps a sign and magnitude given as words.
    pub fn from_words(sign_bit: bool, words: Vec<u64>) -> (r: Big)
        ensures
            r.sign_bit == sign_bit,
            r.words@ == words@,
    {
        Big { sign_bit, words }
    }

    /// What the runtime reports of the value as a 64-bit unsigned number:
    /// the sign, the lowest word, and whether that is the whole story.
    /// The narrowing guard of every 64-bit parameter rests on the last
    /// part: when it is true, the value is forwarded unchanged.
    pub fn get_u64(&self) -> (r: (bool, u64, bool))
        ensures
            r.0 == self.sign_bit,
            r.2 <==> (!self.sign_bit && self.words@.len() <= 1),
            r.2 ==> r.1 as int == self.value(),
    {
        let word: u64 = if self.words.len() > 0 {
            self.words[0]
        } else {
            0
        };
        let lossless = !self.sign_bit && self.words.len() <= 1;
        proof {
            if self.words@.len() == 0 {
                assert(words_value(self.words@) == 0);
            } else if self.words@.len() == 1 {
                assert(self.words@.skip(1) =~= Seq::<u64>::empty());
                assert(words_value(Seq::<u64>::empty()) == 0);
                assert(words_value(self.words@) == self.words@[0]);
            }
        }
        (self.sign_bit, word, lossless)
    }
}

/// Words whose top word is not zero carry a value of at least one.
proof fn lemma_words_value_positive(s: Seq<u64>)
    requires
        s.len() > 0,
        s[s.len() - 1] != 0,
    ensures
        words_value(s) >= 1,
    decreases s.len(),
{
    if s.len() == 1 {
        assert(s.skip(1) =~= Seq::<u64>::empty());
        assert(words_value(Seq::<u64>::empty()) == 0);
        assert(s[0] != 0);
    } else {
        let t = s.skip(1);
        assert(t[t.len() - 1] == s[s.len() - 1]);
        lemma_words_value_positive(t);
        assert(0x1_0000_0000_0000_0000 * words_value(t) >= 0x1_0000_0000_0000_0000) by (
        nonlinear_arith)
            requires
                words_value(t) >= 1,
        ;
    }
}

/// Law: for a well-formed value, the runtime's losslessness report is
/// exact — it holds precisely when the value is an unsigned number that
/// fits 64 bits, the width the native interface expects.
pub proof fn lemma_lossless_exact(b: Big)
    requires
        b.wf(),
    ensures
        (!b.sign_bit && b.words@.len() <= 1) <==> (0 <= b.value() <= u64::MAX),
{
    if b.words@.len() == 0 {
        assert(words_value(b.words@) == 0);
    } else if b.words@.len() == 1 {
        assert(b.words@.skip(1) =~= Seq::<u64>::empty());
        assert(words_value(Seq::<u64>::empty()) == 0);
        assert(words_value(b.words@) == b.words@[0]);
        if b.sign_bit {
            assert(b.words@[0] != 0);
        }
    } else {
        let t = b.words@.skip(1);
        assert(t[t.len() - 1] == b.words@[b.words@.len() - 1]);
        lemma_words_value_positive(t);
        assert(0x1_0000_0000_0000_0000 * words_value(t) >= 0x1_0000_0000_0000_0000) by (
        nonlinear_arith)
            requires
                words_value(t) >= 1,
        ;
        assert(words_value(b.words@) > u64::MAX);
    }
}

} // verus!
