use iso_error::multi_error::{ErrorValue, MultiError};
use iso_error::{Cause, IsoError};

#[test]
fn new() {
    let actual = IsoError::new("MyErr", "some message");

    assert_eq!("MyErr", actual.name);
    assert_eq!("some message", actual.message);
    assert!(actual.errors.is_none());
}

#[test]
fn new_with_causes() {
    let cause = IsoError::new("Internal", "internal");
    let actual = IsoError::new_with_causes("MyErr", "some message", vec![cause]);

    assert_eq!("MyErr", actual.name);
    assert_eq!("some message", actual.message);
    assert!(actual.errors.is_some());
}

#[test]
fn source_with_no_cause() {
    let err = IsoError::new("MyErr", "some message");
    let actual = err.cause();

    assert!(actual.is_none());
}

#[test]
fn display_without_cause() {
    let err = IsoError::new("IO", "read failed");

    assert_eq!(err.display(), "read failed");
    assert!(err.cause().is_none());
}

#[test]
fn cause_of_single_cause_error() {
    let inner = IsoError::new("Inner", "inner failed");
    let outer = IsoError::new_with_cause("Outer", "outer failed", inner);

    assert_eq!(outer.display(), "outer failed");
    let cause = outer.cause().unwrap();
    assert_eq!(cause.display(), "inner failed");
}

#[test]
fn cause_of_multi_cause_error() {
    let a = IsoError::new("A", "a failed");
    let b = IsoError::new("B", "b failed");
    let batch = IsoError::new_with_causes("Batch", "batch failed", vec![a, b]);

    assert_eq!(batch.display(), "batch failed");
    let cause = batch.cause().unwrap();
    assert_eq!(cause.display(), "a failed\nb failed");
    assert!(cause.cause().is_none());
}

#[test]
fn single_cause_list_renders_one_line() {
    let only = IsoError::new("Only", "the one line");
    let err = IsoError::new_with_causes("Wrap", "wrapped", vec![only]);

    let cause = err.cause().unwrap();
    assert!(matches!(cause, Cause::Aggregate(_)));
    assert_eq!(cause.display(), "the one line");
}

#[test]
fn empty_cause_list_renders_empty() {
    let err = IsoError::new_with_causes("Empty", "no causes", vec![]);

    let cause = err.cause().unwrap();
    assert_eq!(cause.display(), "");
}

#[test]
fn empty_aggregate_display() {
    let agg = MultiError::new(vec![]);

    assert_eq!(agg.display(), "");
    assert!(agg.cause().is_none());
}

#[test]
fn aggregate_preserves_order() {
    let agg = MultiError::new(vec![
        ErrorValue::Named(IsoError::new("A", "first")),
        ErrorValue::Named(IsoError::new("B", "second")),
        ErrorValue::Named(IsoError::new("C", "third")),
    ]);

    assert_eq!(agg.display(), "first\nsecond\nthird");
}

#[test]
fn nested_aggregate_display() {
    let inner = MultiError::new(vec![
        ErrorValue::Named(IsoError::new("A", "a failed")),
        ErrorValue::Named(IsoError::new("B", "b failed")),
    ]);
    let outer = MultiError::new(vec![
        ErrorValue::Named(IsoError::new("C", "c failed")),
        ErrorValue::Multi(inner),
    ]);

    assert_eq!(outer.display(), "c failed\na failed\nb failed");
}

#[test]
fn display_is_shallow() {
    let inner = IsoError::new("Inner", "inner failed");
    let outer = IsoError::new_with_cause("Outer", "outer failed", inner);
    let plain = IsoError::new("Outer", "outer failed");

    assert_eq!(outer.display(), plain.display());
}

#[test]
fn round_trip_fields() {
    let a = IsoError::new("A", "a failed");
    let b = IsoError::new("B", "b failed");
    let err = IsoError::new_with_causes("Batch", "batch failed", vec![a, b]);

    assert_eq!(err.name, "Batch");
    assert_eq!(err.message, "batch failed");
    let causes = err.errors.as_ref().unwrap();
    assert_eq!(causes.len(), 2);
    assert_eq!(causes[0].name, "A");
    assert_eq!(causes[0].message, "a failed");
    assert_eq!(causes[1].name, "B");
    assert_eq!(causes[1].message, "b failed");
}

#[test]
fn chain_walking_stops_at_aggregate() {
    let root = IsoError::new("Root", "root failed");
    let mid = IsoError::new_with_cause("Mid", "mid failed", root);
    let top = IsoError::new_with_cause("Top", "top failed", mid);

    let first = top.cause().unwrap();
    assert_eq!(first.display(), "mid failed");
    let second = first.cause().unwrap();
    assert_eq!(second.display(), "root failed");
    assert!(second.cause().is_none());
}

#[test]
fn from_multi_wraps_each_error() {
    let errors = vec![IsoError::new("A", "a failed"), IsoError::new("B", "b failed")];
    let agg = IsoError::from_multi(&errors);

    assert_eq!(agg.display(), "a failed\nb failed");
    // The originals are untouched; the aggregate holds copies.
    assert_eq!(errors[0].message, "a failed");
    assert_eq!(errors[1].message, "b failed");
}

#[test]
fn error_value_capability() {
    let named = ErrorValue::Named(IsoError::new("A", "a failed"));
    assert_eq!(named.display(), "a failed");
    assert!(named.cause().is_none());

    let inner = IsoError::new("Inner", "inner failed");
    let outer = ErrorValue::Named(IsoError::new_with_cause("Outer", "outer failed", inner));
    assert_eq!(outer.cause().unwrap().display(), "inner failed");

    let multi = ErrorValue::Multi(MultiError::new(vec![named]));
    assert_eq!(multi.display(), "a failed");
    assert!(multi.cause().is_none());
}
