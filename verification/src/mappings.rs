use vstd::prelude::*;

use crate::elements::CollationElement;
use crate::errors::CollationError;

verus! {

/// A collation element mapping: an association from one or more characters
/// to one or more collation elements, in one of four canonical shapes chosen
/// by the arity of each side. Construction through `new` starts from the most
/// general shape and canonicalizes to the most specific shape the actual
/// arities permit.
#[derive(Debug, Clone)]
pub enum CollationElementMapping {
    /// A mapping from one character to one collation element.
    SimpleMapping { character: char, collation_element: CollationElement },
    /// A mapping from one character to a sequence of more than one collation
    /// element.
    Expansion { character: char, collation_elements: Vec<CollationElement> },
    /// A mapping from more than one character to one collation element.
    ManyToOneMapping { characters: Vec<char>, collation_element: CollationElement },
    /// A mapping from more than one character to a sequence of more than one
    /// collation element.
    ManyToManyMapping { characters: Vec<char>, collation_elements: Vec<CollationElement> },
}

/// The weight lists of the elements of `es`, in order.
pub open spec fn element_views(es: Seq<CollationElement>) -> Seq<Seq<u32>> {
    es.map_values(|e: CollationElement| e@)
}

/// The input characters of `m`, in order.
pub open spec fn mapping_characters(m: CollationElementMapping) -> Seq<char> {
    match m {
        CollationElementMapping::SimpleMapping { character, .. } => seq![character],
        CollationElementMapping::Expansion { character, .. } => seq![character],
        CollationElementMapping::ManyToOneMapping { characters, .. } => characters@,
        CollationElementMapping::ManyToManyMapping { characters, .. } => characters@,
    }
}

/// The output collation elements of `m`, in order.
pub open spec fn mapping_elements(m: CollationElementMapping) -> Seq<CollationElement> {
    match m {
        CollationElementMapping::SimpleMapping { collation_element, .. } => seq![
            collation_element,
        ],
        CollationElementMapping::Expansion { collation_elements, .. } => collation_elements@,
        CollationElementMapping::ManyToOneMapping { collation_element, .. } => seq![
            collation_element,
        ],
        CollationElementMapping::ManyToManyMapping { collation_elements, .. }
            => collation_elements@,
    }
}

/// Whether `m` already has the most specific shape its arities permit:
/// canonicalization leaves such a mapping unchanged.
pub open spec fn is_canonical(m: CollationElementMapping) -> bool {
    match m {
        CollationElementMapping::SimpleMapping { .. } => true,
        CollationElementMapping::Expansion { collation_elements, .. } => collation_elements@.len()
            != 1,
        CollationElementMapping::ManyToOneMapping { characters, .. } => characters@.len() != 1,
        CollationElementMapping::ManyToManyMapping { characters, collation_elements } => {
            &&& !(characters@.len() == 1 && collation_elements@.len() >= 1)
            &&& !(characters@.len() > 1 && collation_elements@.len() == 1)
        },
    }
}

/// The canonical form of `m`: the most specific shape its arities permit,
/// with the characters and elements unchanged.
pub open spec fn spec_canonicalize(m: CollationElementMapping) -> CollationElementMapping {
    match m {
        CollationElementMapping::SimpleMapping { .. } => m,
        CollationElementMapping::Expansion { character, collation_elements } => {
            if collation_elements@.len() == 1 {
                CollationElementMapping::SimpleMapping {
                    character,
                    collation_element: collation_elements@[0],
                }
            } else {
                m
            }
        },
        CollationElementMapping::ManyToOneMapping { characters, collation_element } => {
            if characters@.len() == 1 {
                CollationElementMapping::SimpleMapping {
                    character: characters@[0],
                    collation_element,
                }
            } else {
                m
            }
        },
        CollationElementMapping::ManyToManyMapping { characters, collation_elements } => {
            if characters@.len() == 1 && collation_elements@.len() == 1 {
                CollationElementMapping::SimpleMapping {
                    character: characters@[0],
                    collation_element: collation_elements@[0],
                }
            } else if characters@.len() == 1 && collation_elements@.len() > 1 {
                CollationElementMapping::Expansion { character: characters@[0], collation_elements }
            } else if characters@.len() > 1 && collation_elements@.len() == 1 {
                CollationElementMapping::ManyToOneMapping {
                    characters,
                    collation_element: collation_elements@[0],
                }
            } else {
                m
            }
        },
    }
}

/// Canonicalization preserves the characters and the elements of a mapping
/// and always reaches a canonical shape.
pub proof fn lemma_canonicalize_preserves(m: CollationElementMapping)
    ensures
        mapping_characters(spec_canonicalize(m)) == mapping_characters(m),
        mapping_elements(spec_canonicalize(m)) == mapping_elements(m),
        is_canonical(spec_canonicalize(m)),
{
    match m {
        CollationElementMapping::SimpleMapping { .. } => {},
        CollationElementMapping::Expansion { character, collation_elements } => {
            if collation_elements@.len() == 1 {
                assert(seq![collation_elements@[0]] =~= collation_elements@);
            }
        },
        CollationElementMapping::ManyToOneMapping { characters, collation_element } => {
            if characters@.len() == 1 {
                assert(seq![characters@[0]] =~= characters@);
            }
        },
        CollationElementMapping::ManyToManyMapping { characters, collation_elements } => {
            if characters@.len() == 1 {
                assert(seq![characters@[0]] =~= characters@);
            }
            if collation_elements@.len() == 1 {
                assert(seq![collation_elements@[0]] =~= collation_elements@);
            }
        },
    }
}

/// A canonical mapping is a fixed point of canonicalization.
pub proof fn lemma_canonical_fixed(m: CollationElementMapping)
    requires
        is_canonical(m),
    ensures
        spec_canonicalize(m) == m,
{
}

/// Canonicalization is idempotent: canonicalizing an already-canonical
/// result changes nothing.
pub proof fn lemma_canonicalize_idempotent(m: CollationElementMapping)
    ensures
        spec_canonicalize(spec_canonicalize(m)) == spec_canonicalize(m),
{
    lemma_canonicalize_preserves(m);
    lemma_canonical_fixed(spec_canonicalize(m));
}

/// Whether the character lists of `a` and `b` are equal.
fn chars_vec_eq(a: &Vec<char>, b: &Vec<char>) -> (r: bool)
    ensures
        r == (a@ == b@),
{
    if a.len() != b.len() {
        proof {
            assert(a@ != b@);
        }
        return false;
    }
    let n = a.len();
    let mut i: usize = 0;
    while i < n
        invariant
            0 <= i <= n,
            n == a@.len(),
            n == b@.len(),
            forall|j: int| 0 <= j < i ==> a@[j] == b@[j],
        decreases n - i,
    {
        if a[i] != b[i] {
            return false;
        }
        i = i + 1;
    }
    proof {
        assert(a@ =~= b@);
    }
    true
}

/// Whether the element lists of `a` and `b` carry the same weight lists.
fn elements_vec_eq(a: &Vec<CollationElement>, b: &Vec<CollationElement>) -> (r: bool)
    ensures
        r == (element_views(a@) == element_views(b@)),
{
    if a.len() != b.len() {
        proof {
            assert(element_views(a@).len() != element_views(b@).len());
        }
        return false;
    }
    let n = a.len();
    let mut i: usize = 0;
    while i < n
        invariant
            0 <= i <= n,
            n == a@.len(),
            n == b@.len(),
            forall|j: int| 0 <= j < i ==> a@[j]@ == b@[j]@,
        decreases n - i,
    {
        if !(vstd::std_specs::vec::vec_index(a, i) == vstd::std_specs::vec::vec_index(b, i)) {
            proof {
                assert(element_views(a@)[i as int] != element_views(b@)[i as int]);
            }
            return false;
        }
        i = i + 1;
    }
    proof {
        assert(element_views(a@) =~= element_views(b@));
    }
    true
}

impl PartialEq for CollationElementMapping {
    /// Two mappings are equal when they have the same shape, the same
    /// characters and the same elements.
    fn eq(&self, other: &CollationElementMapping) -> (r: bool) {
        match (self, other) {
            (
                CollationElementMapping::SimpleMapping { character: c1, collation_element: e1 },
                CollationElementMapping::SimpleMapping { character: c2, collation_element: e2 },
            ) => *c1 == *c2 && e1 == e2,
            (
                CollationElementMapping::Expansion { character: c1, collation_elements: es1 },
                CollationElementMapping::Expansion { character: c2, collation_elements: es2 },
            ) => *c1 == *c2 && elements_vec_eq(es1, es2),
            (
                CollationElementMapping::ManyToOneMapping {
                    characters: cs1,
                    collation_element: e1,
                },
                CollationElementMapping::ManyToOneMapping {
                    characters: cs2,
                    collation_element: e2,
                },
            ) => chars_vec_eq(cs1, cs2) && e1 == e2,
            (
                CollationElementMapping::ManyToManyMapping {
                    characters: cs1,
                    collation_elements: es1,
                },
                CollationElementMapping::ManyToManyMapping {
                    characters: cs2,
                    collation_elements: es2,
                },
            ) => chars_vec_eq(cs1, cs2) && elements_vec_eq(es1, es2),
            _ => false,
        }
    }
}

impl vstd::std_specs::cmp::PartialEqSpecImpl for CollationElementMapping {
    open spec fn obeys_eq_spec() -> bool {
        true
    }

    open spec fn eq_spec(&self, other: &CollationElementMapping) -> bool {
        match (*self, *other) {
            (
                CollationElementMapping::SimpleMapping { character: c1, collation_element: e1 },
                CollationElementMapping::SimpleMapping { character: c2, collation_element: e2 },
            ) => c1 == c2 && e1@ == e2@,
            (
                CollationElementMapping::Expansion { character: c1, collation_elements: es1 },
                CollationElementMapping::Expansion { character: c2, collation_elements: es2 },
            ) => c1 == c2 && element_views(es1@) == element_views(es2@),
            (
                CollationElementMapping::ManyToOneMapping {
                    characters: cs1,
                    collation_element: e1,
                },
                CollationElementMapping::ManyToOneMapping {
                    characters: cs2,
                    collation_element: e2,
                },
            ) => cs1@ == cs2@ && e1@ == e2@,
            (
                CollationElementMapping::ManyToManyMapping {
                    characters: cs1,
                    collation_elements: es1,
                },
                CollationElementMapping::ManyToManyMapping {
                    characters: cs2,
                    collation_elements: es2,
                },
            ) => cs1@ == cs2@ && element_views(es1@) == element_views(es2@),
            _ => false,
        }
    }
}

impl CollationElementMapping {
    /// Builds the mapping from `characters` to `collation_elements` in its
    /// canonical shape: the most general shape is assumed first and then
    /// canonicalized by arity. Fails with `InvalidArity` when either side is
    /// empty, since a zero-arity mapping is meaningless.
    pub fn new(characters: &[char], collation_elements: &[CollationElement]) -> (r: Result<
        Self,
        CollationError,
    >)
        ensures
            r is Ok <==> characters@.len() > 0 && collation_elements@.len() > 0,
            r matches Err(e) ==> e == CollationError::InvalidArity,
            r matches Ok(m) ==> {
                &&& mapping_characters(m) == characters@
                &&& element_views(mapping_elements(m)) == element_views(collation_elements@)
                &&& is_canonical(m)
                &&& (characters@.len() == 1 && collation_elements@.len() == 1 ==> m
                    is SimpleMapping)
                &&& (characters@.len() == 1 && collation_elements@.len() > 1 ==> m is Expansion)
                &&& (characters@.len() > 1 && collation_elements@.len() == 1 ==> m
                    is ManyToOneMapping)
                &&& (characters@.len() > 1 && collation_elements@.len() > 1 ==> m
                    is ManyToManyMapping)
            },
    {
        if characters.len() == 0 || collation_elements.len() == 0 {
            return Err(CollationError::InvalidArity);
        }
        let cs: Vec<char> = vstd::slice::slice_to_vec(characters);
        let mut es: Vec<CollationElement> = Vec::new();
        let mut i: usize = 0;
        while i < collation_elements.len()
            invariant
                0 <= i <= collation_elements@.len(),
                es@.len() == i,
                forall|j: int| 0 <= j < i ==> es@[j]@ == collation_elements@[j]@,
            decreases collation_elements@.len() - i,
        {
            es.push(vstd::slice::slice_index_get(collation_elements, i).duplicate());
            i = i + 1;
        }
        let ghost m0 = CollationElementMapping::ManyToManyMapping {
            characters: cs,
            collation_elements: es,
        };
        let m = (CollationElementMapping::ManyToManyMapping {
            characters: cs,
            collation_elements: es,
        }).canonicalize();
        proof {
            lemma_canonicalize_preserves(m0);
            assert(mapping_characters(m0) == characters@);
            assert(element_views(mapping_elements(m0)) =~= element_views(collation_elements@));
        }
        Ok(m)
    }

    /// A contraction: a mapping whose input is more than one character, that
    /// is, a many-to-one or many-to-many mapping.
    pub fn is_contraction(&self) -> (r: bool)
        ensures
            r == (*self is ManyToOneMapping || *self is ManyToManyMapping),
    {
        match self {
            CollationElementMapping::ManyToOneMapping { .. } => true,
            CollationElementMapping::ManyToManyMapping { .. } => true,
            _ => false,
        }
    }

    /// Rewrites the mapping into the most specific shape its arities permit,
    /// keeping the characters and elements unchanged. Total and idempotent:
    /// a canonical mapping comes back unchanged.
    pub fn canonicalize(self) -> (r: Self)
        ensures
            r == spec_canonicalize(self),
    {
        match self {
            CollationElementMapping::SimpleMapping { character, collation_element } => {
                CollationElementMapping::SimpleMapping { character, collation_element }
            },
            CollationElementMapping::Expansion { character, collation_elements } => {
                if collation_elements.len() == 1 {
                    let mut es = collation_elements;
                    let e = es.remove(0);
                    CollationElementMapping::SimpleMapping { character, collation_element: e }
                } else {
                    CollationElementMapping::Expansion { character, collation_elements }
                }
            },
            CollationElementMapping::ManyToOneMapping { characters, collation_element } => {
                if characters.len() == 1 {
                    let c = characters[0];
                    CollationElementMapping::SimpleMapping {
                        character: c,
                        collation_element,
                    }
                } else {
                    CollationElementMapping::ManyToOneMapping { characters, collation_element }
                }
            },
            CollationElementMapping::ManyToManyMapping { characters, collation_elements } => {
                if characters.len() == 1 && collation_elements.len() == 1 {
                    let c = characters[0];
                    let mut es = collation_elements;
                    let e = es.remove(0);
                    CollationElementMapping::SimpleMapping { character: c, collation_element: e }
                } else if characters.len() == 1 && collation_elements.len() > 1 {
                    let c = characters[0];
                    CollationElementMapping::Expansion { character: c, collation_elements }
                } else if characters.len() > 1 && collation_elements.len() == 1 {
                    let mut es = collation_elements;
                    let e = es.remove(0);
                    CollationElementMapping::ManyToOneMapping {
                        characters,
                        collation_element: e,
                    }
                } else {
                    CollationElementMapping::ManyToManyMapping { characters, collation_elements }
                }
            },
        }
    }
}

} // verus!
