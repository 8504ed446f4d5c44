use telemetry_engine::freshness::is_within;
use telemetry_engine::freshness::keep_fresh;
use telemetry_engine::ordering::is_before;
use telemetry_engine::state::AuthState;
use telemetry_engine::state::StateStore;
use telemetry_engine::text::chars_of;
use telemetry_engine::text::decimal;
use telemetry_engine::text::pad_right;
use telemetry_engine::text::push_repeated;

#[test]
fn decimal_numbers() {
    for n in [0, 1, 9, 10, 42, 99, 100, 305, 1234567890, u64::MAX] {
        assert_eq!(decimal(n), format!("{}", n));
        assert_eq!(decimal(n).parse::<u64>().unwrap(), n);
    }
}

#[test]
fn padding() {
    assert_eq!(pad_right("ab", 4), "ab  ");
    assert_eq!(pad_right("äö✔", 5), "äö✔  ");
    assert_eq!(pad_right("abcdef", 4), "abcdef");
    assert_eq!(pad_right("", 0), "");
    let mut s = "x".to_string();
    push_repeated(&mut s, '─', 3);
    assert_eq!(s, "x───");
    assert_eq!(chars_of("a°─"), vec!['a', '°', '─']);
}

/// The order of names is that of strings.
#[test]
fn order_of_names() {
    let names = ["", "A", "Z", "a", "aa", "ab", "b", "rack_a", "rack_b", "é", "─", "😀"];
    for a in names {
        for b in names {
            assert_eq!(is_before(a, b), a < b);
        }
    }
}

#[test]
fn windows() {
    assert!(is_within(10, 10, 0));
    assert!(is_within(10, 15, 5));
    assert!(!is_within(10, 16, 5));
    assert!(!is_within(10, 9, 5));
    assert_eq!(keep_fresh(None, 5, 5), None);
    assert_eq!(keep_fresh(Some(1), 6, 5), Some(1));
    assert_eq!(keep_fresh(Some(1), 7, 5), None);
    assert!(is_within(0, u64::MAX, u64::MAX));
}

#[test]
fn store_keeps_one_record_per_name() {
    let mut store = StateStore::new();
    assert_eq!(store.len(), 0);
    store.entry("a", AuthState::default()).logins.push(1);
    store.entry("b", AuthState::default()).logins.push(2);
    store.entry("a", AuthState::default()).logins.push(3);
    assert_eq!(store.len(), 2);
    assert_eq!(store.get("a").unwrap().logins, vec![1, 3]);
    assert_eq!(store.get("b").unwrap().logins, vec![2]);
    assert!(store.get("c").is_none());
    let mut names: Vec<&str> = (0..store.len()).map(|i| store.at(i).0).collect();
    names.sort();
    assert_eq!(names, vec!["a", "b"]);
}
