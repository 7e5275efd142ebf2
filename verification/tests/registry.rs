use singly::distinct_type_keys;
use singly::Singleton;

use std::rc::Rc;

#[test]
fn base_use() {
    let mut instance = Singleton::new();

    instance.set(32i32);
    instance.set(12f32);

    assert_eq!(instance.get::<i32>(), &32);
    assert_eq!(instance.get::<f32>(), &12f32);
}

#[test]
fn set_ref_mut_value() {
    let mut instance = Singleton::new();
    instance.set(12i32);

    let a = instance.try_get_mut::<i32>().unwrap();
    *a = 13;

    assert_eq!(instance.get::<i32>(), &13);
}

#[test]
fn set_then_get_returns_value() {
    let mut instance = Singleton::new();

    instance.set(7u64);
    instance.set(String::from("hello"));
    instance.set(());

    assert_eq!(instance.get::<u64>(), &7u64);
    assert_eq!(instance.get::<String>(), "hello");
    assert_eq!(instance.get::<()>(), &());
}

#[test]
fn overwrite_keeps_second_value() {
    let mut instance = Singleton::new();

    instance.set(1i32);
    instance.set(2i32);

    assert_eq!(instance.get::<i32>(), &2);
    assert_eq!(instance.try_get::<i32>(), Some(&2));
}

#[test]
fn overwrite_releases_previous_value() {
    let anchor: Rc<u8> = Rc::new(5);

    let mut instance = Singleton::new();
    instance.set(Rc::clone(&anchor));
    assert_eq!(Rc::strong_count(&anchor), 2);

    instance.set(Rc::new(9u8));
    assert_eq!(Rc::strong_count(&anchor), 1);

    assert_eq!(**instance.get::<Rc<u8>>(), 9u8);
}

#[test]
fn drop_releases_stored_value() {
    let anchor: Rc<u8> = Rc::new(5);

    {
        let mut instance = Singleton::new();
        instance.set(Rc::clone(&anchor));
        assert_eq!(Rc::strong_count(&anchor), 2);
    }

    assert_eq!(Rc::strong_count(&anchor), 1);
}

#[test]
fn distinct_type_keys_match_type_identity() {
    assert!(distinct_type_keys::<i32, u32>());
    assert!(distinct_type_keys::<i32, f32>());
    assert!(distinct_type_keys::<String, Vec<u8>>());
    assert!(!distinct_type_keys::<i32, i32>());
    assert!(!distinct_type_keys::<String, String>());
}

#[test]
fn distinct_types_do_not_collide() {
    let mut instance = Singleton::new();

    instance.set(10i32);
    instance.set(1.5f32);

    assert_eq!(instance.get::<i32>(), &10);
    assert_eq!(instance.get::<f32>(), &1.5f32);

    instance.set(11u32);
    assert_eq!(instance.get::<i32>(), &10);
    assert_eq!(instance.get::<u32>(), &11);
}

#[test]
fn get_mut_mutation_is_observed() {
    let mut instance = Singleton::new();

    instance.set(12i32);
    let a = instance.get_mut::<i32>();
    *a = 14;

    assert_eq!(instance.get::<i32>(), &14);
}

#[test]
fn try_get_on_absent_type_is_none() {
    let instance = Singleton::new();
    assert_eq!(instance.try_get::<i32>(), None);

    let mut populated = Singleton::new();
    populated.set(1u8);
    assert_eq!(populated.try_get::<i32>(), None);
    assert_eq!(populated.try_get::<u8>(), Some(&1u8));
}

#[test]
fn try_get_mut_on_absent_type_is_none() {
    let mut instance = Singleton::new();
    assert!(instance.try_get_mut::<String>().is_none());

    instance.set(String::from("a"));
    assert!(instance.try_get_mut::<String>().is_some());
    assert!(instance.try_get_mut::<i64>().is_none());
}

#[test]
fn with_capacity_behaves_like_new() {
    for capacity in [0usize, 2, 100] {
        let mut instance = Singleton::with_capacity(capacity);

        assert_eq!(instance.try_get::<i32>(), None);

        instance.set(32i32);
        instance.set(12f32);
        assert_eq!(instance.get::<i32>(), &32);
        assert_eq!(instance.get::<f32>(), &12f32);

        instance.set(2i32);
        assert_eq!(instance.get::<i32>(), &2);

        let a = instance.get_mut::<i32>();
        *a = 14;
        assert_eq!(instance.get::<i32>(), &14);
    }
}

#[test]
fn struct_values_round_trip() {
    #[derive(Debug, PartialEq)]
    struct Config {
        retries: u8,
        label: String,
    }

    let mut instance = Singleton::new();
    instance.set(Config { retries: 3, label: String::from("db") });

    assert_eq!(
        instance.get::<Config>(),
        &Config { retries: 3, label: String::from("db") },
    );

    instance.get_mut::<Config>().retries = 4;
    assert_eq!(instance.get::<Config>().retries, 4);
}
