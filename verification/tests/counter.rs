use counter_roles::Counter;
use counter_roles::counter::offset_product_sum;

#[test]
fn calling_next_directly() {
    let mut counter = Counter::new();
    assert_eq!(counter.next(), Some(1));
    assert_eq!(counter.next(), Some(2));
    assert_eq!(counter.next(), Some(3));
    assert_eq!(counter.next(), Some(4));
    assert_eq!(counter.next(), Some(5));
    assert_eq!(counter.next(), None);
}

#[test]
fn using_other_iterator_trait_methods() {
    let sum: u32 = offset_product_sum(Counter::new(), Counter::new());
    assert_eq!(18, sum);
}

#[test]
fn exhaustion_is_terminal() {
    let mut counter = Counter::new();
    for _ in 0..5 {
        assert!(counter.next().is_some());
    }
    for _ in 0..10 {
        assert_eq!(counter.next(), None);
    }
}

#[test]
fn count_frozen_before_exhaustion() {
    let mut counter = Counter::new();
    counter.next();
    counter.next();
    assert_eq!(counter.count(), 2);
}

#[test]
fn count_frozen_after_exhaustion() {
    let mut counter = Counter::new();
    while counter.next().is_some() {}
    assert_eq!(counter.count(), 5);
    counter.next();
    assert_eq!(counter.count(), 5);
}
