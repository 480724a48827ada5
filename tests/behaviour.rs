use kubetsu::Id;
use std::collections::hash_map::DefaultHasher;
use std::hash::{Hash, Hasher};

struct User {}

fn hash_of<V: Hash>(v: &V) -> u64 {
    let mut h = DefaultHasher::new();
    v.hash(&mut h);
    h.finish()
}

#[test]
fn distinct_values_give_unequal_ids() {
    let a: Id<User, u32> = Id::new(7);
    let b: Id<User, u32> = Id::new(8);
    assert_ne!(a, b);
    assert_eq!(a, a.clone());
    assert_eq!(a, Id::new(7));
}

#[test]
fn from_builds_the_same_id() {
    let a: Id<User, i64> = Id::from(5);
    assert_eq!(a, Id::new(5));
    let b: Id<User, String> = "x".to_string().into();
    assert_eq!(b.inner(), "x");
}

#[test]
fn id_hashes_as_its_value() {
    assert_eq!(hash_of(&Id::<User, i64>::new(42)), hash_of(&42i64));
    assert_eq!(hash_of(&Id::<User, u8>::new(3)), hash_of(&3u8));
    let s = "kubetsu".to_string();
    assert_eq!(hash_of(&Id::<User, String>::new(s.clone())), hash_of(&s));
}

#[test]
fn debug_shows_the_value_alone() {
    assert_eq!(format!("{:?}", Id::<User, i64>::new(1)), "1");
    assert_eq!(format!("{:?}", Id::<User, String>::new("ab".to_string())), "\"ab\"");
}

#[test]
fn json_matches_the_bare_value() {
    let n: Id<User, i64> = Id::new(1);
    assert_eq!(n.to_json(), serde_json::to_string(&1i64).unwrap());
    let s: Id<User, String> = Id::new("1".to_string());
    assert_eq!(s.to_json(), serde_json::to_string(&"1".to_string()).unwrap());
}

#[test]
fn json_negative_and_extreme_integers() {
    assert_eq!(Id::<User, i8>::new(-128).to_json(), "-128");
    assert_eq!(Id::<User, i32>::new(-45).to_json(), "-45");
    assert_eq!(Id::<User, u16>::new(0).to_json(), "0");
    assert_eq!(
        Id::<User, u128>::new(u128::MAX).to_json(),
        "340282366920938463463374607431768211455"
    );
    assert_eq!(
        Id::<User, i128>::new(i128::MIN).to_json(),
        "-170141183460469231731687303715884105728"
    );
}

#[test]
fn json_integers_read_back() {
    for v in [i64::MIN, -1, 0, 1, i64::MAX] {
        let id: Id<User, i64> = Id::new(v);
        let back: Id<User, i64> = Id::from_json(&id.to_json()).unwrap();
        assert_eq!(back, id);
    }
    for v in [0u8, 9, 10, 255] {
        let id: Id<User, u8> = Id::new(v);
        let back: Id<User, u8> = Id::from_json(&id.to_json()).unwrap();
        assert_eq!(back, id);
    }
    let big: Id<User, i128> = Id::new(i128::MIN);
    assert_eq!(Id::<User, i128>::from_json(&big.to_json()).unwrap(), big);
    let huge: Id<User, u128> = Id::new(u128::MAX);
    assert_eq!(Id::<User, u128>::from_json(&huge.to_json()).unwrap(), huge);
    assert_eq!(*Id::<User, u16>::from_json("7").unwrap().inner(), 7);
    assert_eq!(*Id::<User, u32>::from_json("4000000000").unwrap().inner(), 4000000000);
    assert_eq!(*Id::<User, i16>::from_json("-300").unwrap().inner(), -300);
}

#[test]
fn json_string_escapes() {
    let id: Id<User, String> = Id::new("a\"b\\c\n\t\u{1}\u{8}\u{c}\r/é".to_string());
    assert_eq!(id.to_json(), "\"a\\\"b\\\\c\\n\\t\\u0001\\b\\f\\r/é\"");
    let back: Id<User, String> = Id::from_json(&id.to_json()).unwrap();
    assert_eq!(back, id);
    let empty: Id<User, String> = Id::new(String::new());
    assert_eq!(empty.to_json(), "\"\"");
    assert_eq!(Id::<User, String>::from_json("\"\"").unwrap(), empty);
}

#[test]
fn json_number_refuses_a_string() {
    let err = Id::<User, i64>::from_json("\"not i64 text\"").err().unwrap();
    assert!(err.to_string().contains("expected i64"));
    assert!(Id::<User, u8>::from_json("\"1\"").is_err());
    assert!(Id::<User, u128>::from_json("\"1\"").is_err());
    assert!(Id::<User, i128>::from_json("\"1\"").is_err());
}

#[test]
fn json_string_refuses_a_number() {
    let err = Id::<User, String>::from_json("12").err().unwrap();
    assert!(err.to_string().contains("expected a string"));
    assert!(Id::<User, String>::from_json("-1").is_err());
}

#[test]
fn json_number_out_of_range_is_refused() {
    assert!(Id::<User, u8>::from_json("256").is_err());
    assert!(Id::<User, u64>::from_json("-1").is_err());
    assert!(Id::<User, i8>::from_json("-129").is_err());
}

#[test]
fn fake_string_is_short_and_alphanumeric() {
    for _ in 0..50 {
        let id: Id<User, String> = Id::fake();
        let n = id.inner().chars().count();
        assert!((5..20).contains(&n));
        assert!(id.inner().chars().all(|c| c.is_ascii_alphanumeric()));
    }
}

#[test]
fn fake_integers_vary() {
    let draws: Vec<u64> = (0..8).map(|_| *Id::<User, u64>::fake().inner()).collect();
    assert!(draws.iter().any(|d| *d != draws[0]));
}
