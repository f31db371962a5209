use builder::decl::{Data, Declaration, Field, Fields};
use builder::instance::Builder;
use builder::schema::{BuilderSchema, RecordSchema};

fn schema(name: &str, fields: &[(&str, &str)]) -> BuilderSchema {
    let fields = fields
        .iter()
        .map(|(ident, ty)| Field { ident: ident.to_string(), ty: ty.to_string() })
        .collect();
    let decl = Declaration { ident: name.to_string(), data: Data::Struct(Fields::Named(fields)) };
    RecordSchema::extract(&decl).unwrap().synthesize()
}

fn point() -> BuilderSchema {
    schema("Point", &[("x", "Int"), ("y", "Int")])
}

#[test]
fn factory_gives_one_empty_slot_per_field() {
    let s = schema("R", &[("a", "A"), ("b", "B"), ("c", "C")]);
    let b: Builder<i64> = s.builder();
    assert_eq!(b.len(), 3);
    assert_eq!(b.slots, vec![None, None, None]);
    assert!(!b.is_set(0) && !b.is_set(1) && !b.is_set(2));
    assert_eq!(Builder::<i64>::new(4).slots, vec![None, None, None, None]);
}

#[test]
fn instances_are_independent() {
    let s = point();
    let mut first: Builder<i64> = s.builder();
    let mut second: Builder<i64> = s.builder();
    first.set(0, 1).set(1, 2);
    assert_eq!(second.slots, vec![None, None]);
    second.set(1, 7);
    assert_eq!(first.slots, vec![Some(1), Some(2)]);
    assert_eq!(first.build(), Some(vec![1, 2]));
    assert_eq!(second.slots, vec![None, Some(7)]);
}

#[test]
fn all_setters_in_any_order_build_the_record() {
    let s = schema("R", &[("a", "A"), ("b", "B"), ("c", "C")]);
    let orders: [[usize; 3]; 6] =
        [[0, 1, 2], [0, 2, 1], [1, 0, 2], [1, 2, 0], [2, 0, 1], [2, 1, 0]];
    for order in orders {
        let mut b: Builder<String> = s.builder();
        for slot in order {
            b.set(slot, format!("v{}", slot));
        }
        assert_eq!(b.build(), Some(vec!["v0".to_string(), "v1".to_string(), "v2".to_string()]));
        assert_eq!(b.slots, vec![None, None, None]);
    }
}

#[test]
fn the_later_of_two_values_is_used() {
    let s = point();
    let mut b: Builder<i64> = s.builder();
    b.set(0, 1).set(1, 5).set(0, 2);
    assert_eq!(b.slots, vec![Some(2), Some(5)]);
    assert_eq!(b.build(), Some(vec![2, 5]));
}

#[test]
fn a_failed_build_empties_the_slots_before_the_first_empty_one() {
    let s = schema("R", &[("a", "A"), ("b", "B"), ("c", "C"), ("d", "D")]);
    let mut b: Builder<i64> = s.builder();
    b.set(0, 10).set(1, 11).set(3, 13);
    assert_eq!(b.build(), None);
    assert_eq!(b.slots, vec![None, None, None, Some(13)]);
    assert_eq!(b.build(), None);
    assert_eq!(b.slots, vec![None, None, None, Some(13)]);
}

#[test]
fn a_failed_build_with_the_first_slot_empty_changes_nothing() {
    let s = point();
    let mut b: Builder<i64> = s.builder();
    b.set(1, 4);
    assert_eq!(b.build(), None);
    assert_eq!(b.slots, vec![None, Some(4)]);
}

#[test]
fn a_builder_without_fields_always_builds() {
    let s = schema("Empty", &[]);
    assert_eq!(s.len(), 0);
    let mut b: Builder<i64> = s.builder();
    assert_eq!(b.len(), 0);
    assert_eq!(b.build(), Some(vec![]));
    assert_eq!(b.build(), Some(vec![]));
}

#[test]
fn point_worked_example() {
    let s = point();
    let x = s.setter(&"x".to_string()).unwrap();
    let y = s.setter(&"y".to_string()).unwrap();
    let mut b: Builder<i64> = s.builder();
    assert_eq!(b.slots, vec![None, None]);
    b.set(x, 3);
    assert_eq!(b.slots, vec![Some(3), None]);
    assert_eq!(b.build(), None);
    assert_eq!(b.slots, vec![None, None]);
    b.set(y, 4);
    assert_eq!(b.slots, vec![None, Some(4)]);
    assert_eq!(b.build(), None);
    assert_eq!(b.slots, vec![None, Some(4)]);
    b.set(x, 3);
    assert_eq!(b.build(), Some(vec![3, 4]));
    assert_eq!(b.slots, vec![None, None]);
}

#[test]
fn setters_chain() {
    let mut b: Builder<u8> = Builder::new(3);
    let r = b.set(2, 9).set(0, 7).set(1, 8).build();
    assert_eq!(r, Some(vec![7, 8, 9]));
    assert!(!b.is_set(0));
}
