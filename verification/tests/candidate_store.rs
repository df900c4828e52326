use collection_check::candidate::Contract;

#[test]
fn map_put_then_get_returns_value() {
    let mut store = Contract::default();
    store.add_to_map("k1".to_string(), "v1".to_string());
    assert_eq!(store.get_from_map("k1".to_string()), "v1".to_string());
}

#[test]
fn map_absent_key_returns_sentinel() {
    let store = Contract::default();
    assert_eq!(
        store.get_from_map("never written".to_string()),
        "No Value Found".to_string()
    );
}

#[test]
fn map_last_write_wins() {
    let mut store = Contract::default();
    store.add_to_map("k".to_string(), "first".to_string());
    store.add_to_map("k".to_string(), "second".to_string());
    assert_eq!(store.get_from_map("k".to_string()), "second".to_string());
}

#[test]
fn map_keys_are_independent() {
    let mut store = Contract::default();
    store.add_to_map("a".to_string(), "1".to_string());
    store.add_to_map("b".to_string(), "2".to_string());
    assert_eq!(store.get_from_map("a".to_string()), "1".to_string());
    assert_eq!(store.get_from_map("b".to_string()), "2".to_string());
    assert_eq!(store.get_from_map("c".to_string()), "No Value Found".to_string());
}

#[test]
fn vector_pops_in_reverse_append_order() {
    let mut store = Contract::default();
    store.add_to_vector(1);
    store.add_to_vector(2);
    store.add_to_vector(3);
    assert_eq!(store.vector_pop_test(), 3);
    assert_eq!(store.vector_pop_test(), 2);
    assert_eq!(store.vector_pop_test(), 1);
}

#[test]
fn vector_pop_on_empty_returns_zero() {
    let mut store = Contract::default();
    assert_eq!(store.vector_pop_test(), 0);
    store.add_to_vector(5);
    assert_eq!(store.vector_pop_test(), 5);
    assert_eq!(store.vector_pop_test(), 0);
}

#[test]
fn vector_snapshot_keeps_append_order() {
    let mut store = Contract::default();
    store.add_to_vector(10);
    store.add_to_vector(20);
    store.add_to_vector(30);
    assert_eq!(store.get_full_array_test(), vec![10, 20, 30]);
}

#[test]
fn vector_replace_all_discards_prior_contents() {
    let mut store = Contract::default();
    store.add_to_vector(1);
    store.add_to_vector(2);
    store.vector_multi_add(vec![9, 8]);
    assert_eq!(store.get_full_array_test(), vec![9, 8]);
    assert_eq!(store.vector_pop_test(), 8);
}

#[test]
fn vector_replace_all_with_empty_clears() {
    let mut store = Contract::default();
    store.add_to_vector(7);
    store.vector_multi_add(vec![]);
    assert_eq!(store.get_full_array_test(), Vec::<u8>::new());
    assert_eq!(store.vector_pop_test(), 0);
}
