use steamguard::cookies::CookieStore;

#[test]
fn header_value_joins_pairs_in_insertion_order() {
    let mut store = CookieStore::new();
    store.insert("a".to_string(), "1".to_string());
    store.insert("b".to_string(), "2".to_string());
    assert_eq!(store.header_value(), "a=1; b=2");
}

#[test]
fn insert_overwrites_in_place() {
    let mut store = CookieStore::new();
    store.insert("a".to_string(), "1".to_string());
    store.insert("b".to_string(), "2".to_string());
    store.insert("a".to_string(), "3".to_string());
    assert_eq!(store.header_value(), "a=3; b=2");
    assert_eq!(store.get("a"), Some("3".to_string()));
}

#[test]
fn apply_identity_forces_the_identity_cookies() {
    let mut store = CookieStore::new();
    store.apply_identity(None);
    assert_eq!(store.get("mobileClientVersion"), Some("0 (2.1.3)".to_string()));
    assert_eq!(store.get("mobileClient"), Some("android".to_string()));
    assert_eq!(store.get("Steam_Language"), Some("english".to_string()));
    assert_eq!(store.get("sessionid"), None);
}

#[test]
fn apply_identity_is_idempotent() {
    let sid = "XYZ".to_string();
    let mut store = CookieStore::new();
    store.insert("extra".to_string(), "kept".to_string());
    store.apply_identity(Some(&sid));
    let once = store.header_value();
    store.apply_identity(Some(&sid));
    let twice = store.header_value();
    assert_eq!(once, twice);
    assert_eq!(store.get("sessionid"), Some("XYZ".to_string()));
    assert_eq!(store.get("extra"), Some("kept".to_string()));
}

#[test]
fn merge_set_cookie_stores_each_parsed_cookie() {
    let mut store = CookieStore::new();
    let headers = vec![
        "sessionid=XYZ; Path=/; HttpOnly".to_string(),
        "steamLogin=1%7C%7CA".to_string(),
    ];
    store.merge_set_cookie(&headers);
    assert_eq!(store.get("sessionid"), Some("XYZ".to_string()));
    assert_eq!(store.get("steamLogin"), Some("1%7C%7CA".to_string()));
}

#[test]
fn merge_set_cookie_skips_malformed_values() {
    let mut store = CookieStore::new();
    let headers = vec![
        "no-name-value-pair".to_string(),
        "=emptyname".to_string(),
        "good=yes".to_string(),
    ];
    store.merge_set_cookie(&headers);
    assert_eq!(store.get("good"), Some("yes".to_string()));
    assert_eq!(store.get("no-name-value-pair"), None);
    assert_eq!(store.header_value(), "good=yes");
}

#[test]
fn merge_set_cookie_overwrites_by_name() {
    let mut store = CookieStore::new();
    store.merge_set_cookie(&vec!["sessionid=old".to_string()]);
    store.merge_set_cookie(&vec!["sessionid=new; Secure".to_string()]);
    assert_eq!(store.get("sessionid"), Some("new".to_string()));
}
