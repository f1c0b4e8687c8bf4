use cluster_node::node_storage::{
    load_applied_index, node_key, parse_state_value, state_value, NodeKey, NodeStateValue,
};

#[test]
fn key_is_big_endian() {
    assert_eq!(node_key(1), vec![0, 0, 0, 0, 0, 0, 0, 1]);
    assert_eq!(node_key(0x0102030405060708), vec![1, 2, 3, 4, 5, 6, 7, 8]);
    assert_eq!(state_value(256), vec![0, 0, 0, 0, 0, 0, 1, 0]);
}

#[test]
fn keys_sort_like_ids() {
    let ids = [0u64, 1, 255, 256, 65535, 1 << 32, u64::MAX - 1, u64::MAX];
    for a in ids.iter() {
        for b in ids.iter() {
            assert_eq!(a < b, node_key(*a) < node_key(*b));
        }
    }
}

#[test]
fn state_value_round_trips() {
    for n in [0u64, 1, 42, 1 << 40, u64::MAX].iter() {
        assert_eq!(parse_state_value(&state_value(*n)), Some(*n));
    }
}

#[test]
fn records_of_another_size_are_ignored() {
    assert_eq!(parse_state_value(&[]), None);
    assert_eq!(parse_state_value(&[0, 0, 0, 0, 0, 0, 0]), None);
    assert_eq!(parse_state_value(&[0, 0, 0, 0, 0, 0, 0, 0, 1]), None);
}

#[test]
fn load_applied_index_of_missing_record_is_none() {
    assert_eq!(load_applied_index(None), None);
    let v = state_value(9);
    assert_eq!(load_applied_index(Some(&v)), Some(9));
}

#[test]
fn node_key_and_state_value_bytes() {
    assert_eq!(NodeKey::new(258).as_bytes(), vec![0, 0, 0, 0, 0, 0, 1, 2]);
    assert!(NodeKey::new(1).as_bytes() < NodeKey::new(256).as_bytes());
    assert_eq!(NodeStateValue::new(7).as_bytes(), vec![0, 0, 0, 0, 0, 0, 0, 7]);
    let v = NodeStateValue::parse(&[0, 0, 0, 0, 0, 0, 2, 0]).expect("eight bytes");
    assert_eq!(v.last_applied_index(), 512);
    assert!(NodeStateValue::parse(&[1, 2, 3]).is_none());
}
