use vstd::prelude::*;

use crate::elements::CollationElement;
use crate::errors::CollationError;
use crate::levels::{level_weight, CollationLevel};
use crate::weights::CollationWeight;

verus! {

/// An ignorable weight is a collation weight whose value is zero. Ignorable
/// weights are passed over by the rules that construct sort keys, so their
/// presence in collation elements does not impact comparison. Each type that
/// carries weights says, through this trait, what being ignorable means for
/// it.
pub trait Ignorable {
    /// What it means for this value to be ignorable.
    spec fn ignorable_spec(&self) -> bool;

    /// Whether this value is ignorable.
    fn is_ignorable(&self) -> (r: bool)
        ensures
            r == self.ignorable_spec(),
    ;
}

impl Ignorable for CollationWeight {
    /// A weight is ignorable exactly when its value is zero.
    open spec fn ignorable_spec(&self) -> bool {
        self@ == 0
    }

    fn is_ignorable(&self) -> (r: bool) {
        self.value() == 0
    }
}

impl Ignorable for CollationLevel {
    /// A level is ignorable exactly when the weight it carries is ignorable.
    open spec fn ignorable_spec(&self) -> bool {
        level_weight(*self) == 0
    }

    fn is_ignorable(&self) -> (r: bool) {
        self.weight().value() == 0
    }
}

/// An N collation element: one whose level-n weight is not an ignorable
/// weight. A level the element does not carry counts as non-ignorable, so an
/// element shorter than n satisfies this vacuously.
///
/// The classification predicates built on this check only the targeted
/// level's ignorability, not that every preceding level is ignorable. They
/// are therefore deliberately not mutually exclusive: an element with
/// non-ignorable weights at all four levels is at once a primary, secondary,
/// tertiary and quaternary collation element.
pub open spec fn n_collation_element(ws: Seq<u32>, n: int) -> bool
    recommends
        n >= 1,
{
    if n <= ws.len() {
        ws[n - 1] != 0
    } else {
        true
    }
}

impl CollationElement {
    /// Whether the weight at level `n` is non-ignorable (or absent).
    fn is_n_collation_element(&self, n: usize) -> (r: bool)
        requires
            n >= 1,
        ensures
            r == n_collation_element(self@, n as int),
    {
        match self.weight_at_level_n(n) {
            Ok(w) => w.value() != 0,
            Err(_) => true,
        }
    }

    /// A primary collation element: one whose level-1 weight is not an
    /// ignorable weight.
    pub fn is_primary_collation_element(&self) -> (r: bool)
        ensures
            r == n_collation_element(self@, 1),
    {
        self.is_n_collation_element(1)
    }

    /// A secondary collation element: one whose level-2 weight is not an
    /// ignorable weight.
    pub fn is_secondary_collation_element(&self) -> (r: bool)
        ensures
            r == n_collation_element(self@, 2),
    {
        self.is_n_collation_element(2)
    }

    /// A tertiary collation element: one whose level-3 weight is not an
    /// ignorable weight.
    pub fn is_tertiary_collation_element(&self) -> (r: bool)
        ensures
            r == n_collation_element(self@, 3),
    {
        self.is_n_collation_element(3)
    }

    /// A quaternary collation element: one whose level-4 weight is not an
    /// ignorable weight.
    pub fn is_quarternary_collation_element(&self) -> (r: bool)
        ensures
            r == n_collation_element(self@, 4),
    {
        self.is_n_collation_element(4)
    }

    /// A completely ignorable collation element: one with ignorable weights
    /// at all levels.
    pub fn is_completely_ignorable_collation_element(&self) -> (r: bool)
        ensures
            r == (forall|i: int| 0 <= i < self@.len() ==> self@[i] == 0),
    {
        let n = self.len();
        let mut i: usize = 0;
        while i < n
            invariant
                0 <= i <= n,
                n == self@.len(),
                forall|j: int| 0 <= j < i ==> self@[j] == 0,
            decreases n - i,
        {
            match self.weight_at_level_n(i + 1) {
                Ok(w) => {
                    if w.value() != 0 {
                        return false;
                    }
                },
                Err(_) => {
                    // Unreachable: level i + 1 exists while i < n.
                    return false;
                },
            }
            i = i + 1;
        }
        true
    }

    /// Level N ignorable: the element has an ignorable weight at level `n`
    /// but not at level `n + 1` (a level past the element's end counts as
    /// satisfying that). Fails with `InvalidLevelIndex` for `n` of zero and
    /// with `LevelOutOfRange` for `n` beyond the element's length.
    pub fn is_n_ignorable(&self, n: usize) -> (r: Result<bool, CollationError>)
        ensures
            n == 0 ==> r == Err::<bool, _>(CollationError::InvalidLevelIndex),
            n >= 1 && n > self@.len() ==> r == Err::<bool, _>(CollationError::LevelOutOfRange),
            1 <= n <= self@.len() ==> r == Ok::<_, CollationError>(
                self@[n - 1] == 0 && (n == self@.len() || self@[n as int] != 0),
            ),
    {
        if n == 0 {
            return Err(CollationError::InvalidLevelIndex);
        }
        if n > self.len() {
            return Err(CollationError::LevelOutOfRange);
        }
        let w_n = match self.weight_at_level_n(n) {
            Ok(w) => w,
            Err(e) => {
                // Unreachable: n is within the element's length.
                return Err(e);
            },
        };
        if n == self.len() {
            Ok(w_n.value() == 0)
        } else {
            let w_next = match self.weight_at_level_n(n + 1) {
                Ok(w) => w,
                Err(e) => {
                    // Unreachable: n + 1 is within the element's length.
                    return Err(e);
                },
            };
            Ok(w_n.value() == 0 && w_next.value() != 0)
        }
    }
}

impl Ignorable for CollationElement {
    /// An ignorable collation element: one that is not a primary collation
    /// element, that is, whose level-1 weight is zero (or absent).
    open spec fn ignorable_spec(&self) -> bool {
        !n_collation_element(self@, 1)
    }

    fn is_ignorable(&self) -> (r: bool) {
        !self.is_primary_collation_element()
    }
}

} // verus!
