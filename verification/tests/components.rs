use sonic_core::crypto_components::Anonymous;
use sonic_core::crypto_components::Confidential;
use sonic_core::crypto_components::MultiCiphertexts;
use sonic_core::crypto_components::MultiEncKeys;

#[test]
fn confidential_keys_hold_recipient() {
    let keys = MultiEncKeys::<u32, Confidential>::new(7);
    assert_eq!(*keys.get_recipient(), 7);
    assert!(keys.decoys.is_none());
}

#[test]
fn anonymous_keys_hold_decoys() {
    let keys = MultiEncKeys::<u32, Anonymous>::new(7, vec![1, 2, 3]);
    assert_eq!(*keys.get_recipient(), 7);
    assert_eq!(keys.decoys, Some(vec![1, 2, 3]));
}

#[test]
fn confidential_ciphertexts_getters() {
    let c = MultiCiphertexts::<u32, Confidential>::new(10, 20, 30);
    assert_eq!(*c.get_sender(), 10);
    assert_eq!(*c.get_recipient(), 20);
    assert_eq!(*c.get_fee(), 30);
    assert!(c.decoys.is_none());
}

#[test]
fn anonymous_ciphertexts_carry_decoys() {
    let c = MultiCiphertexts::<u32, Anonymous>::new(10, 20, vec![40, 50], 30);
    assert_eq!(*c.get_sender(), 10);
    assert_eq!(*c.get_recipient(), 20);
    assert_eq!(*c.get_fee(), 30);
    assert_eq!(c.decoys, Some(vec![40, 50]));
}
