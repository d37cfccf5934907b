use gallog_cleaner::pairs::{find, get, store};

fn pair(name: &str, value: &str) -> (String, String) {
    (name.to_string(), value.to_string())
}

#[test]
fn find_gives_the_first_position_of_a_name() {
    let pairs = vec![pair("a", "1"), pair("b", "2"), pair("a", "3")];
    assert_eq!(find(&pairs, "a"), Some(0));
    assert_eq!(find(&pairs, "b"), Some(1));
    assert_eq!(find(&pairs, "c"), None);
    assert_eq!(find(&Vec::new(), "a"), None);
}

#[test]
fn get_gives_the_first_value_of_a_name() {
    let pairs = vec![pair("x", "0"), pair("ci_c", "first"), pair("ci_c", "second")];
    assert_eq!(get(&pairs, "ci_c"), Some(&"first".to_string()));
    assert_eq!(get(&pairs, "ci_t"), None);
}

#[test]
fn store_replaces_in_place_or_appends() {
    let mut pairs = vec![pair("a", "1"), pair("b", "2")];
    store(&mut pairs, "a".to_string(), "9".to_string());
    assert_eq!(pairs, vec![pair("a", "9"), pair("b", "2")]);
    store(&mut pairs, "c".to_string(), "3".to_string());
    assert_eq!(pairs, vec![pair("a", "9"), pair("b", "2"), pair("c", "3")]);
}

#[test]
fn store_then_get_finds_the_value_and_keeps_the_others() {
    let mut pairs = vec![pair("a", "1"), pair("b", "2")];
    store(&mut pairs, "b".to_string(), "7".to_string());
    assert_eq!(get(&pairs, "b"), Some(&"7".to_string()));
    assert_eq!(get(&pairs, "a"), Some(&"1".to_string()));
}
