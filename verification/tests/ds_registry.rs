use minixrs::abi::errno::{EINVAL, ENOMEM, OK};
use minixrs::ds::registry::{
    check, check_in, publish, publish_in, retrieve, retrieve_in, Entry, Registry, CAP, KEY_LEN,
};

fn key(name: &str) -> [u8; KEY_LEN] {
    let mut k = [0u8; KEY_LEN];
    let b = name.as_bytes();
    k[..b.len()].copy_from_slice(b);
    k
}

#[test]
fn publish_then_retrieve_and_check() {
    let mut t = [Entry::empty(); CAP];
    assert_eq!(publish_in(&mut t, &key("vm"), 7), OK);
    assert_eq!(retrieve_in(&t, &key("vm")), Some(7));
    assert!(check_in(&t, &key("vm")));
}

#[test]
fn retrieve_and_check_absent_key() {
    let t = [Entry::empty(); CAP];
    assert_eq!(retrieve_in(&t, &key("vfs")), None);
    assert!(!check_in(&t, &key("vfs")));
}

#[test]
fn empty_key_is_einval() {
    let mut t = [Entry::empty(); CAP];
    assert_eq!(publish_in(&mut t, &[0u8; KEY_LEN], 1), EINVAL);
    assert!(!check_in(&t, &[0u8; KEY_LEN]));
}

#[test]
fn republish_updates_endpoint_in_one_slot() {
    let mut t = [Entry::empty(); CAP];
    assert_eq!(publish_in(&mut t, &key("ds"), 5), OK);
    assert_eq!(publish_in(&mut t, &key("ds"), 99), OK);
    assert_eq!(retrieve_in(&t, &key("ds")), Some(99));
    let used = t.iter().filter(|e| e.in_use).count();
    assert_eq!(used, 1);
}

#[test]
fn distinct_keys_coexist() {
    let mut t = [Entry::empty(); CAP];
    publish_in(&mut t, &key("vm"), 7);
    publish_in(&mut t, &key("vfs"), 1);
    publish_in(&mut t, &key("ds"), 5);
    assert_eq!(retrieve_in(&t, &key("vm")), Some(7));
    assert_eq!(retrieve_in(&t, &key("vfs")), Some(1));
    assert_eq!(retrieve_in(&t, &key("ds")), Some(5));
}

#[test]
fn full_table_is_enomem() {
    let mut t = [Entry::empty(); CAP];
    for i in 0..CAP {
        let mut k = [0u8; KEY_LEN];
        k[0] = b'a';
        k[1] = i as u8 + 1;
        assert_eq!(publish_in(&mut t, &k, i as i32), OK);
    }
    assert_eq!(publish_in(&mut t, &key("late"), 42), ENOMEM);
    let mut existing = [0u8; KEY_LEN];
    existing[0] = b'a';
    existing[1] = 1;
    assert_eq!(publish_in(&mut t, &existing, 1234), OK);
    assert_eq!(retrieve_in(&t, &existing), Some(1234));
}

#[test]
fn prefix_keys_are_distinct() {
    let mut t = [Entry::empty(); CAP];
    publish_in(&mut t, &key("vm"), 7);
    publish_in(&mut t, &key("vmm"), 8);
    assert_eq!(retrieve_in(&t, &key("vm")), Some(7));
    assert_eq!(retrieve_in(&t, &key("vmm")), Some(8));
}

#[test]
fn a_registry_keeps_one_endpoint_for_each_name() {
    let mut r = Registry::new();
    assert_eq!(retrieve(&r, &key("vm")), None);
    assert_eq!(publish(&mut r, &key("vm"), 7), OK);
    assert_eq!(publish(&mut r, &key("vm"), 9), OK);
    assert_eq!(retrieve(&r, &key("vm")), Some(9));
    assert!(check(&r, &key("vm")));
    assert!(!check(&r, &key("vfs")));
}

#[test]
fn a_new_registry_takes_any_name() {
    for name in ["a", "sched", "0123456789abcde"] {
        let mut r = Registry::new();
        assert_eq!(publish(&mut r, &key(name), 3), OK);
        assert_eq!(retrieve(&r, &key(name)), Some(3));
    }
}
