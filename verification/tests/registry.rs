use chat_bridge::Registry;

#[test]
fn resolve_distinct_ids_gives_pairwise_distinct_names() {
    let mut reg = Registry::new();
    let mut names: Vec<String> = Vec::new();
    for id in 0u64..8 {
        names.push(reg.resolve_or_create(id));
    }
    for i in 0..names.len() {
        for j in 0..names.len() {
            if i != j {
                assert_ne!(names[i], names[j]);
            }
        }
    }
}

#[test]
fn resolve_same_id_twice_returns_same_name() {
    let mut reg = Registry::new();
    let first = reg.resolve_or_create(42);
    let second = reg.resolve_or_create(42);
    assert_eq!(first, second);
}

#[test]
fn resolve_after_remove_allocates_a_fresh_live_binding() {
    let mut reg = Registry::new();
    let first = reg.resolve_or_create(42);
    let removed = reg.remove(42);
    assert!(removed.is_some());
    assert_eq!(removed.unwrap().name(), first.as_str());
    // The id was freed, so this resolve creates a new channel; the freed name
    // is eligible again but nothing forces its reuse.
    let second = reg.resolve_or_create(42);
    assert!(reg.find_by_name(second.as_str()).is_some());
    // A different live id never shares the fresh name.
    let other = reg.resolve_or_create(7);
    assert_ne!(second, other);
}

#[test]
fn find_by_name_sees_a_channel_only_while_it_is_live() {
    let mut reg = Registry::new();
    let name = reg.resolve_or_create(1);
    let found = reg.find_by_name(name.as_str());
    assert!(found.is_some());
    assert_eq!(found.unwrap().name(), name.as_str());
    let removed = reg.remove(1);
    assert!(removed.is_some());
    assert!(reg.find_by_name(name.as_str()).is_none());
}

#[test]
fn find_by_name_is_exact_match() {
    let mut reg = Registry::new();
    let name = reg.resolve_or_create(1);
    let decorated = format!("#{}", name);
    assert!(reg.find_by_name(decorated.as_str()).is_none());
    assert!(reg.find_by_name("").is_none());
}

#[test]
fn remove_of_an_absent_id_returns_none_and_changes_nothing() {
    let mut reg = Registry::new();
    let name = reg.resolve_or_create(1);
    assert!(reg.remove(2).is_none());
    assert!(reg.find_by_name(name.as_str()).is_some());
}
