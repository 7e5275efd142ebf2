use singly::Inner;

#[test]
fn test_if_value_is_correct() {
    let mut inner = Inner::new(10);

    assert_eq!(inner.get::<i32>().unwrap(), &10);
    assert_eq!(inner.get_mut::<i32>().unwrap(), &mut 10);
}

#[test]
fn cell_downcast_misses_other_types() {
    let inner = Inner::new(10i32);

    assert!(inner.get::<u32>().is_none());
    assert!(inner.get::<i32>().is_some());
}

#[test]
fn cell_mutation_is_observed() {
    let mut inner = Inner::new(String::from("ab"));

    inner.get_mut::<String>().unwrap().push('c');

    assert_eq!(inner.get::<String>().unwrap(), "abc");
}
