use terser_options::NameMap;

#[test]
fn a_new_map_is_empty() {
    let m: NameMap<u8> = NameMap::new();
    assert_eq!(m.len(), 0);
    assert_eq!(m.get("a"), None);
    assert_eq!(m.position("a"), None);
}

#[test]
fn insert_then_get() {
    let mut m: NameMap<u8> = NameMap::new();
    m.insert("a".to_string(), 1);
    m.insert("b".to_string(), 2);
    assert_eq!(m.len(), 2);
    assert_eq!(m.get("a"), Some(&1));
    assert_eq!(m.get("b"), Some(&2));
    assert_eq!(m.get("c"), None);
    assert_eq!(m.get(""), None);
    assert_eq!(m.get("A"), None);
    assert_eq!(m.get("ab"), None);
}

#[test]
fn the_last_value_under_a_name_wins() {
    let mut m: NameMap<u8> = NameMap::new();
    m.insert("a".to_string(), 1);
    m.insert("b".to_string(), 2);
    m.insert("a".to_string(), 3);
    assert_eq!(m.len(), 2);
    assert_eq!(m.get("a"), Some(&3));
    assert_eq!(m.get("b"), Some(&2));
    assert_eq!(m.position("a"), Some(0));
    assert_eq!(m.position("b"), Some(1));
}

#[test]
fn entries_keep_the_order_of_arrival() {
    let mut m: NameMap<u8> = NameMap::new();
    m.insert("z".to_string(), 26);
    m.insert("a".to_string(), 1);
    m.insert("m".to_string(), 13);
    assert_eq!(m.key(0), "z");
    assert_eq!(*m.value(0), 26);
    assert_eq!(m.key(2), "m");
    assert_eq!(*m.value(2), 13);
    assert_eq!(
        m.into_entries(),
        vec![("z".to_string(), 26), ("a".to_string(), 1), ("m".to_string(), 13)]
    );
}

#[test]
fn a_clone_has_the_same_entries() {
    let mut m: NameMap<String> = NameMap::new();
    m.insert("k".to_string(), "v".to_string());
    m.insert("l".to_string(), "w".to_string());
    let c = m.clone();
    assert_eq!(c.into_entries(), m.into_entries());
}
