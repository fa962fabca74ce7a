use cloud_waiter::keys::existing_key_ids;

#[test]
fn key_ids_come_out_in_order() {
    let keys = vec![Some("b-2".to_string()), Some("a-1".to_string()), Some("b-2".to_string())];
    assert_eq!(existing_key_ids(&keys), vec!["b-2", "a-1", "b-2"]);
}

#[test]
fn no_keys_give_no_ids() {
    assert_eq!(existing_key_ids(&vec![]), Vec::<String>::new());
}

#[test]
fn empty_id_is_kept() {
    assert_eq!(existing_key_ids(&vec![Some(String::new())]), vec![""]);
}
