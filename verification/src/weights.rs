use vstd::prelude::*;

use crate::errors::CollationError;

verus! {

/// A collation weight: a non-negative integer used to establish a means for
/// systematic comparison of constructed sort keys. Equality and ordering are
/// by numeric value; a weight is ignorable exactly when its value is zero.
#[derive(Debug, Clone, Copy, PartialEq, Eq, Structural, PartialOrd, Ord)]
pub struct CollationWeight(u32);

impl View for CollationWeight {
    type V = u32;

    closed spec fn view(&self) -> u32 {
        self.0
    }
}

/// Whether `c` is a hexadecimal digit (case-insensitive).
pub open spec fn is_hex_digit(c: char) -> bool {
    ||| '0' as u32 <= c as u32 <= '9' as u32
    ||| 'a' as u32 <= c as u32 <= 'f' as u32
    ||| 'A' as u32 <= c as u32 <= 'F' as u32
}

/// The numeric value of the hexadecimal digit `c`.
pub open spec fn hex_digit_value(c: char) -> nat
    recommends
        is_hex_digit(c),
{
    if '0' as u32 <= c as u32 <= '9' as u32 {
        (c as u32 - '0' as u32) as nat
    } else if 'a' as u32 <= c as u32 <= 'f' as u32 {
        (c as u32 - 'a' as u32 + 10) as nat
    } else {
        (c as u32 - 'A' as u32 + 10) as nat
    }
}

/// The value of `s` read as a big-endian sequence of hexadecimal digits;
/// the empty sequence reads as zero.
pub open spec fn hex_value(s: Seq<char>) -> nat
    decreases s.len(),
{
    if s.len() == 0 {
        0
    } else {
        hex_value(s.drop_last()) * 16 + hex_digit_value(s.last())
    }
}

/// Whether `s` is a well-formed hexadecimal numeral for a weight: non-empty,
/// hexadecimal digits only, and a value that fits the weight representation.
pub open spec fn is_hex_weight(s: Seq<char>) -> bool {
    &&& s.len() > 0
    &&& forall|i: int| 0 <= i < s.len() ==> is_hex_digit(#[trigger] s[i])
    &&& hex_value(s) <= u32::MAX
}

/// Reading one more digit can only grow the value: the value of a prefix
/// never exceeds the value of the whole numeral.
proof fn lemma_hex_value_prefix(s: Seq<char>, m: int)
    requires
        0 <= m <= s.len(),
    ensures
        hex_value(s.take(m)) <= hex_value(s),
    decreases s.len() - m,
{
    if m < s.len() {
        assert(s.take(m + 1).drop_last() =~= s.take(m));
        assert(hex_value(s.take(m + 1)) == hex_value(s.take(m)) * 16 + hex_digit_value(
            s.take(m + 1).last(),
        ));
        lemma_hex_value_prefix(s, m + 1);
        assert(s.take(s.len() as int) =~= s);
    } else {
        assert(s.take(m) =~= s);
    }
}

/// Parses the characters of `digits` as one hexadecimal numeral.
/// Returns `None` when `digits` is not a well-formed weight numeral.
pub(crate) fn parse_hex_chars(digits: &Vec<char>) -> (r: Option<u32>)
    ensures
        r is Some <==> is_hex_weight(digits@),
        r is Some ==> r->0 as nat == hex_value(digits@),
{
    if digits.len() == 0 {
        return None;
    }
    let mut acc: u32 = 0;
    let mut i: usize = 0;
    while i < digits.len()
        invariant
            0 <= i <= digits@.len(),
            forall|j: int| 0 <= j < i ==> is_hex_digit(#[trigger] digits@[j]),
            acc as nat == hex_value(digits@.take(i as int)),
        decreases digits@.len() - i,
    {
        let c = digits[i];
        let cu = c as u32;
        let d: u32 = if cu >= '0' as u32 && cu <= '9' as u32 {
            cu - '0' as u32
        } else if cu >= 'a' as u32 && cu <= 'f' as u32 {
            cu - 'a' as u32 + 10
        } else if cu >= 'A' as u32 && cu <= 'F' as u32 {
            cu - 'A' as u32 + 10
        } else {
            // A non-hexadecimal character spoils the whole numeral.
            assert(!is_hex_digit(digits@[i as int]));
            return None;
        };
        assert(is_hex_digit(digits@[i as int]) && d as nat == hex_digit_value(
            digits@[i as int],
        ));
        if acc > (u32::MAX - d) / 16 {
            // The value no longer fits; appending further digits cannot shrink it.
            proof {
                assert(digits@.take(i + 1).drop_last() =~= digits@.take(i as int));
                assert(hex_value(digits@.take(i + 1)) > u32::MAX);
                lemma_hex_value_prefix(digits@, i + 1);
            }
            return None;
        }
        proof {
            assert(digits@.take(i + 1).drop_last() =~= digits@.take(i as int));
        }
        acc = acc * 16 + d;
        i = i + 1;
    }
    proof {
        assert(digits@.take(digits@.len() as int) =~= digits@);
    }
    Some(acc)
}

impl CollationWeight {
    /// Builds a weight from its numeric value. Total: every value is a weight.
    pub fn from_integer(n: u32) -> (r: Self)
        ensures
            r@ == n,
    {
        CollationWeight(n)
    }

    /// The numeric value of this weight.
    pub fn value(&self) -> (v: u32)
        ensures
            v == self@,
    {
        self.0
    }

    /// Parses a weight from a hexadecimal numeral (case-insensitive, any
    /// width). Fails with `MalformedWeight` when `s` is empty, contains a
    /// character that is not a hexadecimal digit, or names a value too large
    /// for the weight representation.
    pub fn from_hex(s: &str) -> (r: Result<Self, CollationError>)
        ensures
            r is Ok <==> is_hex_weight(s@),
            r matches Ok(w) ==> w@ as nat == hex_value(s@),
            r matches Err(e) ==> e == CollationError::MalformedWeight,
    {
        let n = s.unicode_len();
        let mut digits: Vec<char> = Vec::new();
        let mut i: usize = 0;
        while i < n
            invariant
                0 <= i <= n,
                n == s@.len(),
                digits@ == s@.take(i as int),
            decreases n - i,
        {
            digits.push(s.get_char(i));
            proof {
                assert(digits@ =~= s@.take(i + 1));
            }
            i = i + 1;
        }
        proof {
            assert(s@.take(n as int) =~= s@);
        }
        match parse_hex_chars(&digits) {
            Some(v) => Ok(CollationWeight(v)),
            None => Err(CollationError::MalformedWeight),
        }
    }

}

} // verus!
