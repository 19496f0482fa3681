use vstd::prelude::*;

use crate::errors::CollationError;
use crate::levels::{level_ordinal, level_weight, CollationLevel};
use crate::weights::{hex_value, is_hex_weight, CollationWeight};

verus! {

/// The groups of `s` delimited by `'.'` separators, in order. A sequence
/// with no separator is one group; each separator ends the group before it,
/// so adjacent separators produce empty groups.
pub open spec fn split_on_dot(s: Seq<char>) -> Seq<Seq<char>>
    decreases s.len(),
{
    if s.len() == 0 {
        seq![Seq::<char>::empty()]
    } else {
        let groups = split_on_dot(s.drop_last());
        if s.last() == '.' {
            groups.push(Seq::<char>::empty())
        } else {
            groups.update(groups.len() - 1, groups.last().push(s.last()))
        }
    }
}

/// Splitting always yields at least one group.
pub proof fn lemma_split_on_dot_nonempty(s: Seq<char>)
    ensures
        split_on_dot(s).len() >= 1,
    decreases s.len(),
{
    if s.len() > 0 {
        lemma_split_on_dot_nonempty(s.drop_last());
    }
}

/// Whether `s` carries the bracketed weight notation's markers: an opening
/// `[.`, a closing `]`, and a non-empty body between them.
pub open spec fn notation_well_formed(s: Seq<char>) -> bool {
    &&& s.len() >= 4
    &&& s[0] == '['
    &&& s[1] == '.'
    &&& s.last() == ']'
}

/// The body of the notation: what stands between the `[.` and `]` markers.
pub open spec fn notation_body(s: Seq<char>) -> Seq<char> {
    s.subrange(2, s.len() - 1)
}

/// The dot-separated weight numerals of the notation's body.
pub open spec fn notation_groups(s: Seq<char>) -> Seq<Seq<char>> {
    split_on_dot(notation_body(s))
}

/// A collation element: an ordered list of collation weights, one per level.
/// Levels are 1-indexed: the weight at level n sits at position n - 1. The
/// list's length is not bounded at construction, but only elements of at most
/// four weights can be expanded into named levels.
#[derive(Debug, Clone)]
pub struct CollationElement(Vec<CollationWeight>);

impl View for CollationElement {
    type V = Seq<u32>;

    closed spec fn view(&self) -> Seq<u32> {
        self.0@.map_values(|w: CollationWeight| w@)
    }
}

/// A level index below 1 is clamped to 1: the defensive floor that
/// `weight_at_level_n` applies before indexing.
pub open spec fn clamp_level(n: int) -> int {
    if n < 1 {
        1
    } else {
        n
    }
}

impl PartialEq for CollationElement {
    /// Two elements are equal when they list the same weights in the same
    /// order.
    fn eq(&self, other: &CollationElement) -> (r: bool) {
        if self.0.len() != other.0.len() {
            return false;
        }
        let n = self.0.len();
        let mut i: usize = 0;
        while i < n
            invariant
                0 <= i <= n,
                n == self@.len(),
                n == other@.len(),
                forall|j: int| 0 <= j < i ==> self@[j] == other@[j],
            decreases n - i,
        {
            if self.0[i].value() != other.0[i].value() {
                proof {
                    assert(self@[i as int] != other@[i as int]);
                }
                return false;
            }
            i = i + 1;
        }
        proof {
            assert(self@ =~= other@);
        }
        true
    }
}

impl vstd::std_specs::cmp::PartialEqSpecImpl for CollationElement {
    open spec fn obeys_eq_spec() -> bool {
        true
    }

    open spec fn eq_spec(&self, other: &CollationElement) -> bool {
        self@ == other@
    }
}

impl CollationElement {
    /// Builds an element from its ordered weights. Total: any number of
    /// weights, including none, forms an element.
    pub fn new(weights: Vec<CollationWeight>) -> (r: Self)
        ensures
            r@ == weights@.map_values(|w: CollationWeight| w@),
    {
        CollationElement(weights)
    }

    /// The number of levels this element carries weights for.
    pub fn len(&self) -> (n: usize)
        ensures
            n == self@.len(),
    {
        self.0.len()
    }

    /// An exact copy of this element.
    pub fn duplicate(&self) -> (r: Self)
        ensures
            r@ == self@,
    {
        CollationElement(vstd::slice::slice_to_vec(self.0.as_slice()))
    }

    /// The weight at level `n` (1-indexed). An index below 1 is clamped to 1;
    /// an index beyond the element's length fails with `LevelOutOfRange`.
    pub fn weight_at_level_n(&self, n: usize) -> (r: Result<CollationWeight, CollationError>)
        ensures
            r is Ok <==> clamp_level(n as int) <= self@.len(),
            r matches Ok(w) ==> w@ == self@[clamp_level(n as int) - 1],
            r matches Err(e) ==> e == CollationError::LevelOutOfRange,
    {
        let m: usize = if n < 1 {
            1
        } else {
            n
        };
        if m <= self.0.len() {
            Ok(self.0[m - 1])
        } else {
            Err(CollationError::LevelOutOfRange)
        }
    }

    /// Expands the element into one level per weight: the level at position i
    /// (0-based) has ordinal i + 1 and carries that position's weight. Fails
    /// with `UnsupportedLevel` when the element has more weights than the
    /// four named levels.
    pub fn levels(&self) -> (r: Result<Vec<CollationLevel>, CollationError>)
        ensures
            r is Ok <==> self@.len() <= 4,
            r matches Ok(ls) ==> ls@.len() == self@.len() && forall|i: int|
                0 <= i < ls@.len() ==> level_ordinal(#[trigger] ls@[i]) == i + 1 && level_weight(
                    ls@[i],
                ) == self@[i],
            r matches Err(e) ==> e == CollationError::UnsupportedLevel,
    {
        if self.0.len() > 4 {
            return Err(CollationError::UnsupportedLevel);
        }
        let n = self.0.len();
        let mut out: Vec<CollationLevel> = Vec::new();
        let mut i: usize = 0;
        while i < n
            invariant
                0 <= i <= n,
                n == self@.len() <= 4,
                out@.len() == i,
                forall|j: int| 0 <= j < i ==> level_ordinal(#[trigger] out@[j]) == j + 1
                    && level_weight(out@[j]) == self@[j],
            decreases n - i,
        {
            match CollationLevel::new(i + 1, self.0[i]) {
                Ok(l) => out.push(l),
                Err(e) => {
                    // Unreachable: the ordinal i + 1 stays within 1 through 4.
                    return Err(e);
                },
            }
            i = i + 1;
        }
        Ok(out)
    }

    /// Parses the bracketed, dot-separated hexadecimal weight notation, e.g.
    /// `[.06D9.0020.0002]`. The `[.` and `]` markers are stripped, the body
    /// is split on `'.'`, and each group is parsed as one weight. Fails with
    /// `MalformedNotation` when a marker is missing or the body is empty, and
    /// with `MalformedWeight` when a group is not a valid weight numeral.
    pub fn from_notation(s: &str) -> (r: Result<Self, CollationError>)
        ensures
            r is Ok <==> notation_well_formed(s@) && (forall|i: int|
                0 <= i < notation_groups(s@).len() ==> is_hex_weight(
                    #[trigger] notation_groups(s@)[i],
                )),
            r matches Ok(e) ==> e@.len() == notation_groups(s@).len() && (forall|i: int|
                0 <= i < e@.len() ==> #[trigger] e@[i] as nat == hex_value(
                    notation_groups(s@)[i],
                )),
            !notation_well_formed(s@) ==> r == Err::<Self, _>(CollationError::MalformedNotation),
            r is Err && notation_well_formed(s@) ==> r == Err::<Self, _>(
                CollationError::MalformedWeight,
            ),
    {
        let n = s.unicode_len();
        if n < 4 {
            return Err(CollationError::MalformedNotation);
        }
        if s.get_char(0) != '[' || s.get_char(1) != '.' || s.get_char(n - 1) != ']' {
            return Err(CollationError::MalformedNotation);
        }
        let ghost body = notation_body(s@);
        let mut cur: Vec<char> = Vec::new();
        let mut weights: Vec<CollationWeight> = Vec::new();
        let mut ok: bool = true;
        let mut i: usize = 2;
        proof {
            assert(body.take(0) =~= Seq::<char>::empty());
        }
        while i < n - 1
            invariant
                2 <= i <= n - 1,
                n == s@.len(),
                notation_well_formed(s@),
                body == notation_body(s@),
                ({
                    let sp = split_on_dot(body.take(i - 2));
                    &&& sp.len() >= 1
                    &&& cur@ == sp.last()
                    &&& ok == (forall|j: int|
                        0 <= j < sp.len() - 1 ==> is_hex_weight(#[trigger] sp[j]))
                    &&& ok ==> weights@.len() == sp.len() - 1 && (forall|j: int|
                        0 <= j < sp.len() - 1 ==> #[trigger] weights@[j]@ as nat == hex_value(
                            sp[j],
                        ))
                }),
            decreases n - 1 - i,
        {
            let ghost sp = split_on_dot(body.take(i - 2));
            let c = s.get_char(i);
            proof {
                assert(body.take(i - 1).drop_last() =~= body.take(i - 2));
                assert(body.take(i - 1).last() == body[i - 2] == s@[i as int]);
                lemma_split_on_dot_nonempty(body.take(i - 1));
            }
            if c == '.' {
                if ok {
                    match crate::weights::parse_hex_chars(&cur) {
                        Some(v) => weights.push(CollationWeight::from_integer(v)),
                        None => {
                            ok = false;
                        },
                    }
                }
                cur = Vec::new();
                proof {
                    let sp1 = split_on_dot(body.take(i - 1));
                    assert(sp1 == sp.push(Seq::<char>::empty()));
                    assert(forall|j: int| 0 <= j < sp.len() ==> sp1[j] == sp[j]);
                }
            } else {
                cur.push(c);
                proof {
                    let sp1 = split_on_dot(body.take(i - 1));
                    assert(sp1 == sp.update(sp.len() - 1, sp.last().push(s@[i as int])));
                    assert(forall|j: int| 0 <= j < sp.len() - 1 ==> sp1[j] == sp[j]);
                }
            }
            i = i + 1;
        }
        proof {
            assert(body.take(n - 3) =~= body);
        }
        let ghost sp = split_on_dot(body);
        if ok {
            match crate::weights::parse_hex_chars(&cur) {
                Some(v) => weights.push(CollationWeight::from_integer(v)),
                None => {
                    ok = false;
                },
            }
        }
        proof {
            assert(notation_groups(s@) == sp);
            assert(ok == (forall|j: int| 0 <= j < sp.len() ==> is_hex_weight(#[trigger] sp[j])));
        }
        if ok {
            Ok(CollationElement(weights))
        } else {
            Err(CollationError::MalformedWeight)
        }
    }
}

/// A variable collation element: a primary collation element with a low (but
/// non-zero) value for its primary weight. Low primary weights are generally
/// reserved for punctuation and symbols; such elements are subject to special
/// rules when constructing sort keys. Which weights count as low is fixed by
/// the table in use, not by this wrapper, so the wrapper itself places no
/// bound on the weight it carries.
#[derive(Debug, Clone)]
pub struct VariableCollationElement {
    collation_element: CollationElement,
}

impl View for VariableCollationElement {
    type V = Seq<u32>;

    closed spec fn view(&self) -> Seq<u32> {
        self.collation_element@
    }
}

impl VariableCollationElement {
    /// Wraps `collation_element` as a variable collation element.
    pub fn new(collation_element: CollationElement) -> (r: Self)
        ensures
            r@ == collation_element@,
    {
        VariableCollationElement { collation_element }
    }

    /// The collation element this variable collation element wraps.
    pub fn collation_element(&self) -> (r: &CollationElement)
        ensures
            r@ == self@,
    {
        &self.collation_element
    }
}

} // verus!
