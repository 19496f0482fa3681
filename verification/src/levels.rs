use vstd::prelude::*;

use crate::errors::CollationError;
use crate::weights::CollationWeight;

verus! {

/// A collation level: the position of a collation weight in a collation
/// element. The first position is the primary weight (level 1), then the
/// secondary (2), tertiary (3) and quaternary (4) weights. Level identity is
/// fixed by the ordinal position; ordinals outside 1 through 4 are rejected.
#[derive(Debug, Clone, Copy, PartialEq, Eq, Structural)]
pub enum CollationLevel {
    /// The first collation weight in a collation element.
    PrimaryWeight(CollationWeight),
    /// The second collation weight in a collation element.
    SecondaryWeight(CollationWeight),
    /// The third collation weight in a collation element.
    TertiaryWeight(CollationWeight),
    /// The fourth collation weight in a collation element.
    QuarternaryWeight(CollationWeight),
}

/// The ordinal position that `l` stands for: 1 for a primary weight through
/// 4 for a quaternary weight.
pub open spec fn level_ordinal(l: CollationLevel) -> int {
    match l {
        CollationLevel::PrimaryWeight(_) => 1,
        CollationLevel::SecondaryWeight(_) => 2,
        CollationLevel::TertiaryWeight(_) => 3,
        CollationLevel::QuarternaryWeight(_) => 4,
    }
}

/// The value of the weight that `l` carries.
pub open spec fn level_weight(l: CollationLevel) -> u32 {
    match l {
        CollationLevel::PrimaryWeight(w) => w@,
        CollationLevel::SecondaryWeight(w) => w@,
        CollationLevel::TertiaryWeight(w) => w@,
        CollationLevel::QuarternaryWeight(w) => w@,
    }
}

impl CollationLevel {
    /// Builds the level at `ordinal` carrying `weight`, in one step: a level
    /// never exists in a half-built state. Fails with `UnsupportedLevel` for
    /// an ordinal outside 1 through 4.
    pub fn new(ordinal: usize, weight: CollationWeight) -> (r: Result<Self, CollationError>)
        ensures
            r is Ok <==> 1 <= ordinal <= 4,
            r matches Ok(l) ==> level_ordinal(l) == ordinal && level_weight(l) == weight@,
            r matches Err(e) ==> e == CollationError::UnsupportedLevel,
    {
        match ordinal {
            1 => Ok(CollationLevel::PrimaryWeight(weight)),
            2 => Ok(CollationLevel::SecondaryWeight(weight)),
            3 => Ok(CollationLevel::TertiaryWeight(weight)),
            4 => Ok(CollationLevel::QuarternaryWeight(weight)),
            _ => Err(CollationError::UnsupportedLevel),
        }
    }

    /// Builds the level at `ordinal` with its weight initialized to zero.
    /// Fails with `UnsupportedLevel` for an ordinal outside 1 through 4.
    pub fn from_ordinal(ordinal: usize) -> (r: Result<Self, CollationError>)
        ensures
            r is Ok <==> 1 <= ordinal <= 4,
            r matches Ok(l) ==> level_ordinal(l) == ordinal && level_weight(l) == 0,
            r matches Err(e) ==> e == CollationError::UnsupportedLevel,
    {
        Self::new(ordinal, CollationWeight::from_integer(0))
    }

    /// The ordinal position of this level: 1 through 4.
    pub fn ordinal(&self) -> (n: usize)
        ensures
            n == level_ordinal(*self),
    {
        match self {
            CollationLevel::PrimaryWeight(_) => 1,
            CollationLevel::SecondaryWeight(_) => 2,
            CollationLevel::TertiaryWeight(_) => 3,
            CollationLevel::QuarternaryWeight(_) => 4,
        }
    }

    /// The weight this level carries.
    pub fn weight(&self) -> (w: CollationWeight)
        ensures
            w@ == level_weight(*self),
    {
        match self {
            CollationLevel::PrimaryWeight(w) => *w,
            CollationLevel::SecondaryWeight(w) => *w,
            CollationLevel::TertiaryWeight(w) => *w,
            CollationLevel::QuarternaryWeight(w) => *w,
        }
    }
}

} // verus!
