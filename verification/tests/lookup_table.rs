use add_lookup::field::FieldElement;
use add_lookup::table::LookupTable;

fn fe(v: u64) -> FieldElement {
    FieldElement::from_u64(v)
}

#[test]
fn build_yields_square_row_count() {
    let table = LookupTable::build(10);
    assert_eq!(table.rows.len(), 121);
    let table = LookupTable::build(3);
    assert_eq!(table.rows.len(), 16);
}

#[test]
fn build_smallest_domain() {
    let table = LookupTable::build(0);
    assert_eq!(table.rows.len(), 1);
    assert!(table.contains(fe(0), fe(0), fe(0)));
    assert!(!table.contains(fe(0), fe(1), fe(1)));
    assert!(!table.contains(fe(0), fe(0), fe(1)));
}

#[test]
fn every_row_is_a_valid_addition() {
    let table = LookupTable::build(10);
    for (i, row) in table.rows.iter().enumerate() {
        assert!(row.a.value <= 10);
        assert!(row.b.value <= 10);
        assert_eq!(row.c.value, row.a.value + row.b.value);
        assert_eq!(row.a.value, (i as u64) / 11);
        assert_eq!(row.b.value, (i as u64) % 11);
    }
}

#[test]
fn contains_holds_exactly_on_enumerated_rows() {
    let table = LookupTable::build(10);
    for a in 0..=10u64 {
        for b in 0..=10u64 {
            assert!(table.contains(fe(a), fe(b), fe(a + b)));
            assert!(!table.contains(fe(a), fe(b), fe(a + b + 1)));
        }
    }
    assert!(!table.contains(fe(11), fe(0), fe(11)));
    assert!(!table.contains(fe(0), fe(11), fe(11)));
    assert!(table.contains(fe(10), fe(10), fe(20)));
    assert!(!table.contains(fe(10), fe(10), fe(21)));
}
