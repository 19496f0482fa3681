use collation_definitions::elements::{CollationElement, VariableCollationElement};
use collation_definitions::errors::CollationError;
use collation_definitions::ignorable::Ignorable;
use collation_definitions::levels::CollationLevel;
use collation_definitions::mappings::CollationElementMapping;
use collation_definitions::tables::CollationElementTable;
use collation_definitions::weights::CollationWeight;

fn weight(n: u32) -> CollationWeight {
    CollationWeight::from_integer(n)
}

fn element(ws: &[u32]) -> CollationElement {
    let mut v: Vec<CollationWeight> = vec![];
    for w in ws {
        v.push(weight(*w));
    }
    CollationElement::new(v)
}

#[test]
fn hex_parsing_round_trips() {
    assert_eq!(CollationWeight::from_hex("0000").unwrap().value(), 0);
    assert_eq!(CollationWeight::from_hex("00FF").unwrap().value(), 255);
    assert_eq!(CollationWeight::from_hex("06D9").unwrap().value(), 0x06D9);
    assert_eq!(CollationWeight::from_hex("ffff").unwrap().value(), 0xFFFF);
    assert_eq!(CollationWeight::from_hex("FFFFFFFF").unwrap().value(), u32::MAX);
    assert_eq!(CollationWeight::from_hex("7").unwrap().value(), 7);
    assert_eq!(CollationWeight::from_hex("000000001C47").unwrap().value(), 0x1C47);
}

#[test]
fn hex_parsing_rejects_malformed_numerals() {
    assert_eq!(CollationWeight::from_hex(""), Err(CollationError::MalformedWeight));
    assert_eq!(CollationWeight::from_hex("0x9A"), Err(CollationError::MalformedWeight));
    assert_eq!(CollationWeight::from_hex("12G4"), Err(CollationError::MalformedWeight));
    assert_eq!(CollationWeight::from_hex(" 12"), Err(CollationError::MalformedWeight));
    // One digit past the representation's width no longer fits.
    assert_eq!(CollationWeight::from_hex("100000000"), Err(CollationError::MalformedWeight));
}

#[test]
fn weight_ignorability() {
    assert!(CollationWeight::from_hex("0000").unwrap().is_ignorable());
    assert!(!CollationWeight::from_hex("06D9").unwrap().is_ignorable());
}

#[test]
fn level_construction_carries_ordinal_and_weight() {
    let w = weight(0x20);
    let mut i: usize = 1;
    while i <= 4 {
        let l = CollationLevel::new(i, w).unwrap();
        assert_eq!(l.ordinal(), i);
        assert_eq!(l.weight(), w);
        assert!(!l.is_ignorable());
        let z = CollationLevel::from_ordinal(i).unwrap();
        assert_eq!(z.ordinal(), i);
        assert_eq!(z.weight(), weight(0));
        assert!(z.is_ignorable());
        i += 1;
    }
}

#[test]
fn level_rejects_unsupported_ordinals() {
    assert_eq!(CollationLevel::from_ordinal(0), Err(CollationError::UnsupportedLevel));
    assert_eq!(CollationLevel::from_ordinal(5), Err(CollationError::UnsupportedLevel));
    assert_eq!(CollationLevel::new(7, weight(1)), Err(CollationError::UnsupportedLevel));
}

#[test]
fn levels_of_uniform_element() {
    let a = weight(0x1C47);
    let e = CollationElement::new(vec![a, a, a, a]);
    let ls = e.levels().unwrap();
    assert_eq!(ls.len(), 4);
    for (i, l) in ls.iter().enumerate() {
        assert_eq!(l.ordinal(), i + 1);
        assert_eq!(l.weight(), a);
    }
}

#[test]
fn levels_of_overlong_element_fail() {
    let e = element(&[1, 2, 3, 4, 5]);
    assert_eq!(e.levels(), Err(CollationError::UnsupportedLevel));
}

#[test]
fn notation_rejects_missing_markers_and_empty_body() {
    assert_eq!(CollationElement::from_notation("06D9"), Err(CollationError::MalformedNotation));
    assert_eq!(CollationElement::from_notation("[.]"), Err(CollationError::MalformedNotation));
    assert_eq!(CollationElement::from_notation(""), Err(CollationError::MalformedNotation));
    assert_eq!(
        CollationElement::from_notation(".0020.0002]"),
        Err(CollationError::MalformedNotation)
    );
    assert_eq!(
        CollationElement::from_notation("[.0020.0002"),
        Err(CollationError::MalformedNotation)
    );
}

#[test]
fn notation_rejects_malformed_weights() {
    assert_eq!(CollationElement::from_notation("[..]"), Err(CollationError::MalformedWeight));
    assert_eq!(
        CollationElement::from_notation("[.06D9.00G0]"),
        Err(CollationError::MalformedWeight)
    );
    assert_eq!(
        CollationElement::from_notation("[.06D9..0002]"),
        Err(CollationError::MalformedWeight)
    );
}

#[test]
fn weight_at_level_clamps_low_indices_and_rejects_high_ones() {
    let e = element(&[0x06D9, 0x0020, 0x0002]);
    assert_eq!(e.weight_at_level_n(0).unwrap(), weight(0x06D9));
    assert_eq!(e.weight_at_level_n(1).unwrap(), weight(0x06D9));
    assert_eq!(e.weight_at_level_n(2).unwrap(), weight(0x0020));
    assert_eq!(e.weight_at_level_n(3).unwrap(), weight(0x0002));
    assert_eq!(e.weight_at_level_n(4), Err(CollationError::LevelOutOfRange));
}

#[test]
fn all_zero_element_classification() {
    let e = element(&[0, 0, 0, 0]);
    assert!(e.is_completely_ignorable_collation_element());
    assert!(e.is_ignorable());
    assert!(!e.is_primary_collation_element());
    assert!(!e.is_n_ignorable(1).unwrap());
    assert!(e.is_n_ignorable(4).unwrap());
}

#[test]
fn secondary_element_is_level_one_ignorable() {
    let e = element(&[0, 0x0020]);
    assert!(e.is_n_ignorable(1).unwrap());
    assert!(e.is_secondary_collation_element());
    assert!(e.is_ignorable());
}

#[test]
fn n_ignorable_rejects_invalid_indices() {
    let e = element(&[0, 0x0020]);
    assert_eq!(e.is_n_ignorable(0), Err(CollationError::InvalidLevelIndex));
    assert_eq!(e.is_n_ignorable(3), Err(CollationError::LevelOutOfRange));
}

#[test]
fn empty_element_counts_as_primary() {
    // A level the element does not carry counts as non-ignorable.
    let e = element(&[]);
    assert!(e.is_primary_collation_element());
    assert!(!e.is_ignorable());
    assert!(e.is_completely_ignorable_collation_element());
}

#[test]
fn variable_collation_element_wraps_an_element() {
    let e = element(&[0x0209, 0x0020, 0x0002]);
    let v = VariableCollationElement::new(e.duplicate());
    assert_eq!(*v.collation_element(), e);
}

#[test]
fn mapping_rejects_zero_arity() {
    let e = element(&[1]);
    let none: [char; 0] = [];
    let no_elements: [CollationElement; 0] = [];
    assert_eq!(
        CollationElementMapping::new(&none, &[e.duplicate()]),
        Err(CollationError::InvalidArity)
    );
    assert_eq!(CollationElementMapping::new(&['a'], &no_elements), Err(CollationError::InvalidArity));
    assert_eq!(CollationElementMapping::new(&none, &no_elements), Err(CollationError::InvalidArity));
}

#[test]
fn mapping_shapes_follow_arity() {
    let e1 = element(&[1, 2]);
    let e2 = element(&[3, 4]);

    let expansion = CollationElementMapping::new(&['a'], &[e1.duplicate(), e2.duplicate()]).unwrap();
    assert!(!expansion.is_contraction());
    assert_eq!(
        expansion,
        CollationElementMapping::Expansion {
            character: 'a',
            collation_elements: vec![e1.duplicate(), e2.duplicate()],
        }
    );

    let many_to_one = CollationElementMapping::new(&['a', 'b'], &[e1.duplicate()]).unwrap();
    assert!(many_to_one.is_contraction());
    assert_eq!(
        many_to_one,
        CollationElementMapping::ManyToOneMapping {
            characters: vec!['a', 'b'],
            collation_element: e1.duplicate(),
        }
    );

    let many_to_many =
        CollationElementMapping::new(&['a', 'b'], &[e1.duplicate(), e2.duplicate()]).unwrap();
    assert!(many_to_many.is_contraction());
    assert_eq!(
        many_to_many,
        CollationElementMapping::ManyToManyMapping {
            characters: vec!['a', 'b'],
            collation_elements: vec![e1.duplicate(), e2.duplicate()],
        }
    );
}

#[test]
fn canonicalization_is_idempotent() {
    let e = element(&[0x1C47, 0x0020, 0x0002]);
    let simple = CollationElementMapping::SimpleMapping {
        character: 'a',
        collation_element: e.duplicate(),
    };
    let canonicalized = simple.canonicalize();
    assert_eq!(
        canonicalized,
        CollationElementMapping::SimpleMapping {
            character: 'a',
            collation_element: e.duplicate(),
        }
    );
    let again = canonicalized.canonicalize();
    assert_eq!(
        again,
        CollationElementMapping::SimpleMapping {
            character: 'a',
            collation_element: e.duplicate(),
        }
    );
}

#[test]
fn canonicalization_collapses_degenerate_shapes() {
    let e = element(&[5]);
    let m = CollationElementMapping::ManyToManyMapping {
        characters: vec!['x'],
        collation_elements: vec![e.duplicate()],
    };
    assert_eq!(
        m.canonicalize(),
        CollationElementMapping::SimpleMapping {
            character: 'x',
            collation_element: e.duplicate(),
        }
    );

    let m = CollationElementMapping::ManyToOneMapping {
        characters: vec!['x'],
        collation_element: e.duplicate(),
    };
    assert_eq!(
        m.canonicalize(),
        CollationElementMapping::SimpleMapping {
            character: 'x',
            collation_element: e.duplicate(),
        }
    );
}

#[test]
fn representative_weight_of_multi_element_mapping_is_the_minimum() {
    let e1 = element(&[0x0005, 0x0030]);
    let e2 = element(&[0x0003, 0x0040]);
    let m = CollationElementMapping::new(&['a'], &[e1.duplicate(), e2.duplicate()]).unwrap();
    assert_eq!(m.weight_at_level_n(1).unwrap(), weight(0x0003));
    assert_eq!(m.weight_at_level_n(2).unwrap(), weight(0x0030));

    let simple = CollationElementMapping::new(&['a'], &[e1.duplicate()]).unwrap();
    assert_eq!(simple.weight_at_level_n(1).unwrap(), weight(0x0005));
}

#[test]
fn mapping_weight_errors() {
    let m = CollationElementMapping::Expansion {
        character: 'a',
        collation_elements: vec![],
    };
    assert_eq!(m.weight_at_level_n(1), Err(CollationError::LevelOutOfRange));

    let m = CollationElementMapping::new(&['a'], &[element(&[1]), element(&[2, 3])]).unwrap();
    assert_eq!(m.weight_at_level_n(2), Err(CollationError::LevelOutOfRange));
}

#[test]
fn empty_table_query_fails() {
    let cet = CollationElementTable::build(vec![]);
    assert_eq!(cet.min_weight_at_l_n(1), Err(CollationError::EmptyTable));
    assert_eq!(cet.max_weight_at_l_n(1), Err(CollationError::EmptyTable));
}

#[test]
fn table_rejects_level_index_zero() {
    let m = CollationElementMapping::new(&['a'], &[element(&[1])]).unwrap();
    let cet = CollationElementTable::build(vec![m]);
    assert_eq!(cet.min_weight_at_l_n(0), Err(CollationError::InvalidLevelIndex));
    assert_eq!(cet.max_weight_at_l_n(0), Err(CollationError::InvalidLevelIndex));
}

#[test]
fn table_query_propagates_missing_levels() {
    let m1 = CollationElementMapping::new(&['a'], &[element(&[1, 2])]).unwrap();
    let m2 = CollationElementMapping::new(&['b'], &[element(&[3])]).unwrap();
    let cet = CollationElementTable::build(vec![m1, m2]);
    assert_eq!(cet.min_weight_at_l_n(1).unwrap(), weight(1));
    assert_eq!(cet.min_weight_at_l_n(2), Err(CollationError::LevelOutOfRange));
}

#[test]
fn table_extremes_over_mixed_shapes() {
    // An expansion is represented by its lowest-weighted constituent.
    let expansion =
        CollationElementMapping::new(&['a'], &[element(&[7, 9]), element(&[2, 8])]).unwrap();
    let simple = CollationElementMapping::new(&['b'], &[element(&[5, 1])]).unwrap();
    let cet = CollationElementTable::build(vec![expansion, simple]);
    assert_eq!(cet.min_weight_at_l_n(1).unwrap(), weight(2));
    assert_eq!(cet.max_weight_at_l_n(1).unwrap(), weight(5));
    assert_eq!(cet.min_weight_at_l_n(2).unwrap(), weight(1));
    assert_eq!(cet.max_weight_at_l_n(2).unwrap(), weight(8));
}
