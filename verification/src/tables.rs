use vstd::prelude::*;

use crate::elements::{clamp_level, CollationElement};
use crate::errors::CollationError;
use crate::mappings::{mapping_elements, CollationElementMapping};
use crate::weights::CollationWeight;

verus! {

/// The least value in `s` (meaningful only for a non-empty `s`).
pub open spec fn seq_min(s: Seq<u32>) -> u32
    recommends
        s.len() > 0,
    decreases s.len(),
{
    if s.len() <= 1 {
        s[0]
    } else {
        let m = seq_min(s.drop_last());
        if s.last() < m {
            s.last()
        } else {
            m
        }
    }
}

/// The greatest value in `s` (meaningful only for a non-empty `s`).
pub open spec fn seq_max(s: Seq<u32>) -> u32
    recommends
        s.len() > 0,
    decreases s.len(),
{
    if s.len() <= 1 {
        s[0]
    } else {
        let m = seq_max(s.drop_last());
        if s.last() > m {
            s.last()
        } else {
            m
        }
    }
}

/// `seq_min` is a lower bound of the sequence and is attained by one of its
/// values.
pub proof fn lemma_seq_min_is_minimum(s: Seq<u32>)
    requires
        s.len() > 0,
    ensures
        forall|i: int| 0 <= i < s.len() ==> seq_min(s) <= #[trigger] s[i],
        exists|i: int| 0 <= i < s.len() && seq_min(s) == s[i],
    decreases s.len(),
{
    if s.len() > 1 {
        lemma_seq_min_is_minimum(s.drop_last());
        assert(forall|i: int| 0 <= i < s.len() - 1 ==> s.drop_last()[i] == #[trigger] s[i]);
        let j = choose|j: int| 0 <= j < s.len() - 1 && seq_min(s.drop_last()) == s.drop_last()[j];
        if s.last() < seq_min(s.drop_last()) {
            assert(seq_min(s) == s[s.len() - 1]);
        } else {
            assert(seq_min(s) == s[j]);
        }
    } else {
        assert(seq_min(s) == s[0]);
    }
}

/// `seq_max` is an upper bound of the sequence and is attained by one of its
/// values.
pub proof fn lemma_seq_max_is_maximum(s: Seq<u32>)
    requires
        s.len() > 0,
    ensures
        forall|i: int| 0 <= i < s.len() ==> #[trigger] s[i] <= seq_max(s),
        exists|i: int| 0 <= i < s.len() && seq_max(s) == s[i],
    decreases s.len(),
{
    if s.len() > 1 {
        lemma_seq_max_is_maximum(s.drop_last());
        assert(forall|i: int| 0 <= i < s.len() - 1 ==> s.drop_last()[i] == #[trigger] s[i]);
        let j = choose|j: int| 0 <= j < s.len() - 1 && seq_max(s.drop_last()) == s.drop_last()[j];
        if s.last() > seq_max(s.drop_last()) {
            assert(seq_max(s) == s[s.len() - 1]);
        } else {
            assert(seq_max(s) == s[j]);
        }
    } else {
        assert(seq_max(s) == s[0]);
    }
}

/// The weight each element of `es` carries at level `n` (after clamping an
/// index below 1 to 1).
pub open spec fn level_weights_at(es: Seq<CollationElement>, n: int) -> Seq<u32> {
    es.map_values(|e: CollationElement| e@[clamp_level(n) - 1])
}

/// Whether the representative weight of `m` at level `n` is defined: the
/// mapping carries at least one element and every element reaches level `n`.
pub open spec fn rep_defined(m: CollationElementMapping, n: int) -> bool {
    &&& mapping_elements(m).len() > 0
    &&& forall|i: int| 0 <= i < mapping_elements(m).len() ==> clamp_level(n) <= (
    #[trigger] mapping_elements(m)[i])@.len()
}

/// The representative weight of `m` at level `n`: the weight of its single
/// element at that level for the one-element shapes, and the minimum weight
/// at that level among its element sequence for the multi-element shapes. A
/// multi-element mapping is represented, for bounding purposes, by its
/// lowest-weighted constituent at each level.
pub open spec fn representative_weight(m: CollationElementMapping, n: int) -> u32
    recommends
        rep_defined(m, n),
{
    seq_min(level_weights_at(mapping_elements(m), n))
}

/// The representative weight of a mapping at a level never exceeds the
/// weight of any of the mapping's elements at that level, and equals the
/// weight of one of them.
pub proof fn lemma_representative_weight_is_minimum(m: CollationElementMapping, n: int)
    requires
        rep_defined(m, n),
    ensures
        forall|i: int| 0 <= i < mapping_elements(m).len() ==> representative_weight(m, n) <= (
        #[trigger] mapping_elements(m)[i])@[clamp_level(n) - 1],
        exists|i: int| 0 <= i < mapping_elements(m).len() && representative_weight(m, n) == (
        #[trigger] mapping_elements(m)[i])@[clamp_level(n) - 1],
{
    let es = mapping_elements(m);
    let ws = level_weights_at(es, n);
    lemma_seq_min_is_minimum(ws);
    assert forall|i: int| 0 <= i < es.len() implies representative_weight(m, n) <= (
    #[trigger] es[i])@[clamp_level(n) - 1] by {
        assert(ws[i] == es[i]@[clamp_level(n) - 1]);
    }
    let j = choose|j: int| 0 <= j < ws.len() && seq_min(ws) == ws[j];
    assert(ws[j] == es[j]@[clamp_level(n) - 1]);
}

/// The representative weights of the mappings of `ms` at level `n`, in
/// order.
pub open spec fn representative_weights(ms: Seq<CollationElementMapping>, n: int) -> Seq<u32> {
    ms.map_values(|m: CollationElementMapping| representative_weight(m, n))
}

/// Whether every mapping of `ms` has a representative weight at level `n`.
pub open spec fn table_rep_defined(ms: Seq<CollationElementMapping>, n: int) -> bool {
    forall|j: int| 0 <= j < ms.len() ==> rep_defined(#[trigger] ms[j], n)
}

impl CollationElementMapping {
    /// The representative weight of this mapping at level `n` (1-indexed; an
    /// index below 1 is clamped to 1): the weight of its single element at
    /// that level, or the minimum weight at that level among its element
    /// sequence. Fails with `LevelOutOfRange` when the mapping carries no
    /// element or one of its elements does not reach level `n`.
    pub fn weight_at_level_n(&self, n: usize) -> (r: Result<CollationWeight, CollationError>)
        ensures
            r is Ok <==> rep_defined(*self, n as int),
            r matches Ok(w) ==> w@ == representative_weight(*self, n as int),
            r matches Err(e) ==> e == CollationError::LevelOutOfRange,
    {
        match self {
            CollationElementMapping::SimpleMapping { collation_element, .. } => {
                let r = collation_element.weight_at_level_n(n);
                proof {
                    assert(mapping_elements(*self) == seq![*collation_element]);
                    assert(mapping_elements(*self)[0] == *collation_element);
                    assert(level_weights_at(mapping_elements(*self), n as int) =~= seq![
                        (*collation_element)@[clamp_level(n as int) - 1],
                    ]);
                }
                r
            },
            CollationElementMapping::ManyToOneMapping { collation_element, .. } => {
                let r = collation_element.weight_at_level_n(n);
                proof {
                    assert(mapping_elements(*self) == seq![*collation_element]);
                    assert(mapping_elements(*self)[0] == *collation_element);
                    assert(level_weights_at(mapping_elements(*self), n as int) =~= seq![
                        (*collation_element)@[clamp_level(n as int) - 1],
                    ]);
                }
                r
            },
            CollationElementMapping::Expansion { collation_elements, .. } => {
                Self::min_weight_of_elements(collation_elements, n)
            },
            CollationElementMapping::ManyToManyMapping { collation_elements, .. } => {
                Self::min_weight_of_elements(collation_elements, n)
            },
        }
    }

    /// The least weight at level `n` among `es`, or `LevelOutOfRange` when
    /// `es` is empty or one of its elements does not reach level `n`.
    fn min_weight_of_elements(es: &Vec<CollationElement>, n: usize) -> (r: Result<
        CollationWeight,
        CollationError,
    >)
        ensures
            r is Ok <==> es@.len() > 0 && (forall|i: int|
                0 <= i < es@.len() ==> clamp_level(n as int) <= (#[trigger] es@[i])@.len()),
            r matches Ok(w) ==> w@ == seq_min(level_weights_at(es@, n as int)),
            r matches Err(e) ==> e == CollationError::LevelOutOfRange,
    {
        if es.len() == 0 {
            return Err(CollationError::LevelOutOfRange);
        }
        let mut best: CollationWeight = match vstd::std_specs::vec::vec_index(
            es,
            0,
        ).weight_at_level_n(n) {
            Ok(w) => w,
            Err(e) => {
                return Err(e);
            },
        };
        proof {
            assert(level_weights_at(es@.take(1), n as int) =~= seq![
                es@[0]@[clamp_level(n as int) - 1],
            ]);
        }
        let mut i: usize = 1;
        while i < es.len()
            invariant
                1 <= i <= es@.len(),
                forall|j: int| 0 <= j < i ==> clamp_level(n as int) <= (#[trigger] es@[j])@.len(),
                best@ == seq_min(level_weights_at(es@.take(i as int), n as int)),
            decreases es@.len() - i,
        {
            let w = match vstd::std_specs::vec::vec_index(es, i).weight_at_level_n(n) {
                Ok(w) => w,
                Err(e) => {
                    return Err(e);
                },
            };
            proof {
                let prev = level_weights_at(es@.take(i as int), n as int);
                let cur = level_weights_at(es@.take(i + 1), n as int);
                assert(cur.drop_last() =~= prev);
                assert(cur.last() == es@[i as int]@[clamp_level(n as int) - 1]);
            }
            if w.value() < best.value() {
                best = w;
            }
            i = i + 1;
        }
        proof {
            assert(es@.take(es@.len() as int) =~= es@);
        }
        Ok(best)
    }
}

/// A collation element table: an ordered, read-only collection of collation
/// element mappings, with no uniqueness constraint on the mapped characters.
/// It supports extremal (minimum and maximum) representative-weight queries
/// at a given level across all entries.
#[derive(Debug)]
pub struct CollationElementTable(Vec<CollationElementMapping>);

impl View for CollationElementTable {
    type V = Seq<CollationElementMapping>;

    closed spec fn view(&self) -> Seq<CollationElementMapping> {
        self.0@
    }
}

impl CollationElementTable {
    /// Aggregates `mappings` into a table. Total: duplicates and conflicts
    /// are representable, and resolving them is an external loader's concern.
    pub fn build(mappings: Vec<CollationElementMapping>) -> (t: Self)
        ensures
            t@ == mappings@,
    {
        CollationElementTable(mappings)
    }

    /// The number of mappings in the table.
    pub fn len(&self) -> (n: usize)
        ensures
            n == self@.len(),
    {
        self.0.len()
    }

    /// The minimum representative weight at level `n` (1-indexed) across all
    /// mappings. Fails with `InvalidLevelIndex` for `n` below 1 — a caller
    /// error surfaced, not clamped — with `EmptyTable` when the table holds
    /// no mappings, and with `LevelOutOfRange` when some mapping has no
    /// representative weight at level `n`.
    pub fn min_weight_at_l_n(&self, n: usize) -> (r: Result<CollationWeight, CollationError>)
        ensures
            r is Ok <==> n >= 1 && self@.len() > 0 && table_rep_defined(self@, n as int),
            r matches Ok(w) ==> w@ == seq_min(representative_weights(self@, n as int)),
            n == 0 ==> r == Err::<CollationWeight, _>(CollationError::InvalidLevelIndex),
            n >= 1 && self@.len() == 0 ==> r == Err::<CollationWeight, _>(
                CollationError::EmptyTable,
            ),
            n >= 1 && self@.len() > 0 && !table_rep_defined(self@, n as int) ==> r == Err::<
                CollationWeight,
                _,
            >(CollationError::LevelOutOfRange),
    {
        if n < 1 {
            return Err(CollationError::InvalidLevelIndex);
        }
        if self.0.len() == 0 {
            return Err(CollationError::EmptyTable);
        }
        let mut best: CollationWeight = match vstd::std_specs::vec::vec_index(
            &self.0,
            0,
        ).weight_at_level_n(n) {
            Ok(w) => w,
            Err(e) => {
                return Err(e);
            },
        };
        proof {
            assert(representative_weights(self@.take(1), n as int) =~= seq![
                representative_weight(self@[0], n as int),
            ]);
        }
        let mut i: usize = 1;
        while i < self.0.len()
            invariant
                n >= 1,
                1 <= i <= self@.len(),
                forall|j: int| 0 <= j < i ==> rep_defined(#[trigger] self@[j], n as int),
                best@ == seq_min(representative_weights(self@.take(i as int), n as int)),
            decreases self@.len() - i,
        {
            let w = match vstd::std_specs::vec::vec_index(&self.0, i).weight_at_level_n(n) {
                Ok(w) => w,
                Err(e) => {
                    return Err(e);
                },
            };
            proof {
                let prev = representative_weights(self@.take(i as int), n as int);
                let cur = representative_weights(self@.take(i + 1), n as int);
                assert(cur.drop_last() =~= prev);
                assert(cur.last() == representative_weight(self@[i as int], n as int));
            }
            if w.value() < best.value() {
                best = w;
            }
            i = i + 1;
        }
        proof {
            assert(self@.take(self@.len() as int) =~= self@);
        }
        Ok(best)
    }

    /// The maximum representative weight at level `n` (1-indexed) across all
    /// mappings. The failure conditions are those of `min_weight_at_l_n`.
    pub fn max_weight_at_l_n(&self, n: usize) -> (r: Result<CollationWeight, CollationError>)
        ensures
            r is Ok <==> n >= 1 && self@.len() > 0 && table_rep_defined(self@, n as int),
            r matches Ok(w) ==> w@ == seq_max(representative_weights(self@, n as int)),
            n == 0 ==> r == Err::<CollationWeight, _>(CollationError::InvalidLevelIndex),
            n >= 1 && self@.len() == 0 ==> r == Err::<CollationWeight, _>(
                CollationError::EmptyTable,
            ),
            n >= 1 && self@.len() > 0 && !table_rep_defined(self@, n as int) ==> r == Err::<
                CollationWeight,
                _,
            >(CollationError::LevelOutOfRange),
    {
        if n < 1 {
            return Err(CollationError::InvalidLevelIndex);
        }
        if self.0.len() == 0 {
            return Err(CollationError::EmptyTable);
        }
        let mut best: CollationWeight = match vstd::std_specs::vec::vec_index(
            &self.0,
            0,
        ).weight_at_level_n(n) {
            Ok(w) => w,
            Err(e) => {
                return Err(e);
            },
        };
        proof {
            assert(representative_weights(self@.take(1), n as int) =~= seq![
                representative_weight(self@[0], n as int),
            ]);
        }
        let mut i: usize = 1;
        while i < self.0.len()
            invariant
                n >= 1,
                1 <= i <= self@.len(),
                forall|j: int| 0 <= j < i ==> rep_defined(#[trigger] self@[j], n as int),
                best@ == seq_max(representative_weights(self@.take(i as int), n as int)),
            decreases self@.len() - i,
        {
            let w = match vstd::std_specs::vec::vec_index(&self.0, i).weight_at_level_n(n) {
                Ok(w) => w,
                Err(e) => {
                    return Err(e);
                },
            };
            proof {
                let prev = representative_weights(self@.take(i as int), n as int);
                let cur = representative_weights(self@.take(i + 1), n as int);
                assert(cur.drop_last() =~= prev);
                assert(cur.last() == representative_weight(self@[i as int], n as int));
            }
            if w.value() > best.value() {
                best = w;
            }
            i = i + 1;
        }
        proof {
            assert(self@.take(self@.len() as int) =~= self@);
        }
        Ok(best)
    }
}

} // verus!
