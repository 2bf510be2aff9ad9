use hope_scheme::schemes::she::hope::apl::AplTable;
use hope_scheme::schemes::she::hope::bplus::{Leaf, Tree};
use hope_scheme::schemes::she::hope::digits::decimal_string;
use hope_scheme::schemes::she::hope::object_id::same_object_id;
use hope_scheme::schemes::she::hope::paillier_values::{
    copy_bytes, same_bytes, PaillierCiphertext, PaillierDecryptionKey, PaillierEncryptionKey,
};
use hope_scheme::schemes::she::hope::{hope, hopeCiphertext, hopeKey};
use hope_scheme::schemes::she::hope::group::{G1Element, G2Element};
use rabe_bn::{pairing, Fr, G1};
use std::cmp::Ordering;

fn ct_bytes(b: &[u8]) -> PaillierCiphertext {
    PaillierCiphertext { bytes: b.to_vec() }
}

fn test_key() -> hopeKey {
    hopeKey::new(
        PaillierEncryptionKey { bytes: vec![1, 2, 3] },
        PaillierDecryptionKey { bytes: vec![4, 5] },
    )
}

fn test_system(with_key: bool) -> hope {
    let key = if with_key { hope::keygen(test_key()._ek, PaillierDecryptionKey { bytes: vec![4, 5] }) } else { None };
    hope::new("ciphertexts".to_string(), 4, key).expect("a fresh object id")
}

fn random_g1() -> G1Element {
    G1Element::random()
}

fn random_g2() -> G2Element {
    G2Element::random()
}

fn token_of(p: G1, m: u64) -> G1 {
    p * Fr::from_str(&m.to_string()).unwrap()
}

fn sample_ct(o: u64) -> hopeCiphertext {
    hopeCiphertext::from_id([o as u8; 12], ct_bytes(&[o as u8]), random_g1(), random_g1().pair(&random_g2()), o)
}

#[test]
fn and() {}

#[test]
fn decimal_text_of_numbers() {
    assert_eq!(decimal_string(0), "0");
    assert_eq!(decimal_string(7), "7");
    assert_eq!(decimal_string(10), "10");
    assert_eq!(decimal_string(1234567890), "1234567890");
    assert_eq!(decimal_string(u64::MAX), u64::MAX.to_string());
}

#[test]
fn byte_helpers() {
    let v = vec![9u8, 8, 7];
    assert_eq!(copy_bytes(&v), v);
    assert_eq!(copy_bytes(&vec![]), Vec::<u8>::new());
    assert!(same_bytes(&v, &vec![9, 8, 7]));
    assert!(!same_bytes(&v, &vec![9, 8]));
    assert!(!same_bytes(&v, &vec![9, 8, 6]));
    assert!(same_object_id(&[3; 12], &[3; 12]));
    let mut other = [3u8; 12];
    other[11] = 4;
    assert!(!same_object_id(&[3; 12], &other));
}

#[test]
fn fresh_object_ids_differ() {
    let g = random_g1();
    let t = g.pair(&random_g2());
    let a = hopeCiphertext::new(ct_bytes(&[1]), g, t, 0).expect("an id");
    let b = hopeCiphertext::new(ct_bytes(&[1]), g, t, 0).expect("an id");
    assert_ne!(a._id, b._id);
}

#[test]
fn lookup_table_reads_back_what_was_filed() {
    let mut t = AplTable::new();
    assert_eq!(t.get(&vec![1, 2]), None);
    assert_eq!(t.insert(vec![1, 2], [7; 12]), None);
    assert_eq!(t.get(&vec![1, 2]), Some([7; 12]));
    assert_eq!(t.get(&vec![1]), None);
    assert_eq!(t.insert(vec![1], [8; 12]), None);
    assert_eq!(t.insert(vec![1, 2], [9; 12]), Some([7; 12]));
    assert_eq!(t.get(&vec![1, 2]), Some([9; 12]));
    assert_eq!(t.get(&vec![1]), Some([8; 12]));
    assert_eq!(t.insert(vec![], [1; 12]), None);
    assert_eq!(t.get(&vec![]), Some([1; 12]));
}

#[test]
fn tree_codes_are_leaf_positions() {
    let mut t = Tree::new(3);
    assert_eq!(t.code([1; 12]), None);
    t.insert(Leaf::new([1; 12], ct_bytes(&[1])));
    t.insert(Leaf::new([2; 12], ct_bytes(&[2])));
    assert_eq!(t.code([1; 12]), Some(0));
    assert_eq!(t.code([2; 12]), Some(1));
    t.insert(Leaf::new([1; 12], ct_bytes(&[3])));
    assert_eq!(t.code([1; 12]), Some(0));
    t.insert(Leaf::new([5; 12], ct_bytes(&[5])));
    assert_eq!(t.code([5; 12]), Some(3));
    assert_eq!(t.code([2; 12]), Some(1));
    assert_eq!(t.code([9; 12]), None);
}

#[test]
fn new_system_is_empty() {
    let h = test_system(true);
    assert_eq!(h._name, "ciphertexts");
    assert_eq!(h.lookup_tree(h._id), None);
    assert!(h._key.is_some());
    let e = bincode::serialize(&h._p.value()).unwrap();
    assert_eq!(h._apl.get(&e), None);
    let other = test_system(true);
    assert!(h._p.value() != other._p.value());
    assert!(h._q.value() != other._q.value());
    assert_ne!(h._id, other._id);
}

#[test]
fn encrypt_ek_stores_and_answers_on_repeat() {
    let mut h = test_system(true);
    let g = token_of(h._p.value(), 5);
    let b = bincode::serialize(&g).unwrap();
    // the first encryption of 5 files its id; the table held nothing, so no ciphertext
    assert!(h.encrypt_ek(5, ct_bytes(&[50])).is_none());
    let first = h._apl.get(&b).expect("the token is filed");
    assert_eq!(h.lookup_tree(first), Some(0));
    // the second encryption finds the token filed and returns the new ciphertext
    let ct = h.encrypt_ek(5, ct_bytes(&[51])).expect("a ciphertext");
    assert!(ct._g.value() == g);
    assert!(ct._g.value() != h._p.value());
    assert!(ct._h == rabe_bn::pairing(g, h._q.value()));
    assert_eq!(ct._o, 1);
    assert_eq!(ct._c.bytes, vec![51]);
    assert_eq!(h.lookup_tree(ct._id), Some(1));
    assert_eq!(h._apl.get(&b), Some(ct._id));
    assert_ne!(ct._id, first);
}

#[test]
fn encrypt_never_returns_a_ciphertext() {
    let mut h = test_system(true);
    assert!(h.encrypt(3, ct_bytes(&[1])).is_none());
    assert!(h.encrypt(3, ct_bytes(&[2])).is_none());
    let b = bincode::serialize(&token_of(h._p.value(), 3)).unwrap();
    let id = h._apl.get(&b).expect("filed");
    assert_eq!(h.lookup_tree(id), Some(1));
}

#[test]
fn encrypt_without_key_changes_nothing() {
    let mut h = test_system(false);
    assert!(h.encrypt(3, ct_bytes(&[1])).is_none());
    let b = bincode::serialize(&token_of(h._p.value(), 3)).unwrap();
    assert_eq!(h._apl.get(&b), None);
}

#[test]
fn add_and_sub_use_token_sum_and_difference() {
    let mut h = test_system(true);
    let a = sample_ct(0);
    let c = sample_ct(1);
    assert!(h.add(&a, &c, ct_bytes(&[7])).is_none());
    let sum = bincode::serialize(&(a._g.value() + c._g.value())).unwrap();
    let id = h._apl.get(&sum).expect("sum token filed");
    assert_eq!(h.lookup_tree(id), Some(0));
    let again = h.add(&a, &c, ct_bytes(&[8])).expect("a ciphertext");
    assert!(again._g.value() == a._g.value() + c._g.value());
    assert!(again._g.value() != a._g.value());
    assert!(again._h == rabe_bn::pairing(a._g.value() + c._g.value(), h._q.value()));
    assert_eq!(again._o, 1);

    assert!(h.sub(&a, &c, ct_bytes(&[9])).is_none());
    let diff = bincode::serialize(&(a._g.value() - c._g.value())).unwrap();
    let id = h._apl.get(&diff).expect("difference token filed");
    assert_eq!(h.lookup_tree(id), Some(2));
    let again = h.sub(&a, &c, ct_bytes(&[10])).expect("a ciphertext");
    assert!(again._g.value() == a._g.value() - c._g.value());
    assert!(again._g.value() != a._g.value());
    assert_eq!(again._o, 3);
}

#[test]
fn add_and_sub_without_key_return_none() {
    let mut h = test_system(false);
    let a = sample_ct(0);
    let c = sample_ct(1);
    assert!(h.add(&a, &c, ct_bytes(&[7])).is_none());
    assert!(h.sub(&a, &c, ct_bytes(&[7])).is_none());
    let sum = bincode::serialize(&(a._g.value() + c._g.value())).unwrap();
    assert_eq!(h._apl.get(&sum), None);
}

#[test]
fn lookup_apl_finds_no_ciphertext() {
    let mut h = test_system(true);
    let ct = sample_ct(4);
    assert_eq!(h.insert_apl(ct.copied()), None);
    assert!(h.lookup_apl(ct._g).is_none());
    assert!(h.fetch_ct(ct._id).is_none());
    assert_eq!(h.insert_ct(ct.copied()), None);
}

#[test]
fn insert_apl_returns_previous_id() {
    let mut h = test_system(true);
    let ct = sample_ct(4);
    let mut other = ct.copied();
    other._id = [6; 12];
    assert_eq!(h.insert_apl(ct.copied()), None);
    assert_eq!(h.insert_apl(other), Some(ct._id));
    let b = bincode::serialize(&ct._g.value()).unwrap();
    assert_eq!(h._apl.get(&b), Some([6; 12]));
}

#[test]
fn insert_tree_and_lookup_tree() {
    let mut h = test_system(true);
    h.insert_tree(Leaf::new([2; 12], ct_bytes(&[1])));
    h.update_tree();
    h.insert_tree(Leaf::new([3; 12], ct_bytes(&[1])));
    assert_eq!(h.lookup_tree([2; 12]), Some(0));
    assert_eq!(h.lookup_tree([3; 12]), Some(1));
    assert_eq!(h.lookup_tree([4; 12]), None);
}

#[test]
fn keys_are_copied() {
    let h = test_system(true);
    let k = h.keys().expect("a key");
    assert_eq!(k._ek.bytes, vec![1, 2, 3]);
    assert_eq!(k._dk.unwrap().bytes, vec![4, 5]);
    assert_eq!(h.enc_key().unwrap().bytes, vec![1, 2, 3]);
    assert_eq!(h.dec_key().unwrap().bytes, vec![4, 5]);
    let n = test_system(false);
    assert!(n.keys().is_none());
    assert!(n.enc_key().is_none());
    assert!(n.dec_key().is_none());
    let without_dk = hopeKey { _dk: None, _ek: PaillierEncryptionKey { bytes: vec![1] } };
    let mut m = test_system(false);
    m._key = Some(without_dk);
    assert!(m.dec_key().is_none());
    assert_eq!(m.enc_key().unwrap().bytes, vec![1]);
}

#[test]
fn ciphertexts_compare_by_order_code() {
    let a = sample_ct(1);
    let b = sample_ct(2);
    let mut a2 = sample_ct(9);
    a2._o = 1;
    assert_eq!(a.cmp(&b), Ordering::Less);
    assert_eq!(b.cmp(&a), Ordering::Greater);
    assert_eq!(a.cmp(&a2), Ordering::Equal);
    assert!(a == a2);
    assert!(a != b);
    assert!(a < b);
    assert_eq!(a.partial_cmp(&b), Some(Ordering::Less));
    assert_eq!(b.partial_cmp(&a), Some(Ordering::Greater));
}

#[test]
fn ciphertext_constructors() {
    let g = random_g1();
    let t = g.pair(&random_g2());
    let ct = hopeCiphertext::new(ct_bytes(&[1, 2]), g, t, 12).expect("a fresh id");
    assert!(ct._g.value() == g.value() && ct._h == t);
    assert_eq!(ct._o, 12);
    assert_eq!(ct._c.bytes, vec![1, 2]);
    let c2 = hopeCiphertext::clone([4; 12], ct_bytes(&[3]), g, t, 5);
    assert_eq!(c2._id, [4; 12]);
    assert_eq!(c2._o, 5);
    let c3 = c2.copied();
    assert_eq!(c3._id, c2._id);
    assert_eq!(c3._c.bytes, c2._c.bytes);
    assert!(c3._g.value() == c2._g.value() && c3._h == c2._h);
    let k = test_key();
    assert_eq!(k._ek.bytes, vec![1, 2, 3]);
    assert_eq!(k.copied()._dk.unwrap().bytes, vec![4, 5]);
}

#[test]
fn system_from_parts() {
    let p = random_g1();
    let q = random_g2();
    let h = hope::from_parts([7; 12], "parts".to_string(), p, q, 3, Some(test_key()));
    assert_eq!(h._id, [7; 12]);
    assert_eq!(h._name, "parts");
    assert!(h._p.value() == p.value() && h._q.value() == q.value());
    assert_eq!(h.lookup_tree([7; 12]), None);
    assert_eq!(h.enc_key().unwrap().bytes, vec![1, 2, 3]);
}

#[test]
fn record_under_given_id() {
    let mut h = test_system(true);
    let g = random_g1();
    let b = bincode::serialize(&g.value()).unwrap();
    assert!(h.record_under(g, ct_bytes(&[1]), [3; 12]).is_none());
    assert_eq!(h.lookup_tree([3; 12]), Some(0));
    assert_eq!(h._apl.get(&b), Some([3; 12]));
    let ct = h.record_under(g, ct_bytes(&[2]), [4; 12]).expect("the token was filed");
    assert_eq!(ct._id, [4; 12]);
    assert_eq!(ct._o, 1);
    assert_eq!(ct._c.bytes, vec![2]);
    assert!(ct._g.value() == g.value() && ct._h == pairing(g.value(), h._q.value()));
    assert_eq!(h._apl.get(&b), Some([4; 12]));
}

#[test]
fn group_elements_and_encoding() {
    let a = random_g1();
    let b = random_g1();
    assert!(a.add(&b).value() == a.value() + b.value());
    assert!(a.sub(&b).value() == a.value() - b.value());
    let s = Fr::from_str("7").unwrap();
    assert!(a.scaled(s).value() == a.value() * s);
    let q = random_g2();
    assert!(a.pair(&q) == pairing(a.value(), q.value()));
    assert_eq!(a.encoding(), bincode::serialize(&a.value()).unwrap());
    let copy = a;
    assert!(copy.value() == a.value());
}

#[test]
fn same_element_filed_twice() {
    let mut h = test_system(true);
    let ct = sample_ct(4);
    let b = bincode::serialize(&ct._g.value()).unwrap();
    assert_eq!(h.insert_apl(ct.copied()), None);
    assert_eq!(h._apl.get(&b), Some(ct._id));
    assert_eq!(h.insert_apl(ct.copied()), Some(ct._id));
    assert_eq!(h._apl.get(&b), Some(ct._id));
}
