//! Foundational data model of the Unicode Collation Algorithm (UCA):
//! collation weights, collation elements, collation levels, the
//! ignorability predicates that classify an element, canonical mappings
//! from characters to elements, and extremal-weight queries over a table
//! of such mappings.

pub mod elements;
pub mod errors;
pub mod ignorable;
pub mod levels;
pub mod mappings;
pub mod tables;
pub mod weights;

