//! Tests of the two key providers and the ABI layer, run against the real
//! `ethabi` crate.

use key_server_keys::provider::acl_checker_contract_registry_name;
use key_server_keys::provider::prepare_available_keys_call;
use key_server_keys::provider::refresh_decision;
use key_server_keys::Address;
use key_server_keys::BlockId;
use key_server_keys::KeyProvider;
use key_server_keys::SecretStoreKeys;
use key_server_keys::StoringKeyProvider;

fn address_of(byte: u8) -> Address {
    Address::new(vec![byte; 20])
}

fn opt_bytes(v: &Option<Address>) -> Option<Vec<u8>> {
    v.as_ref().map(|a| a.as_bytes().clone())
}

/// ABI-encodes a contract reply listing the given 32-byte keys.
fn encoded_reply(keys: &[[u8; 32]]) -> Vec<u8> {
    let items = keys.iter().map(|k| ethabi::Token::FixedBytes(k.to_vec())).collect();
    ethabi::encode(&[ethabi::Token::Array(items)])
}

#[test]
fn registry_name_is_fixed() {
    assert_eq!(acl_checker_contract_registry_name(), "secretstore_acl_checker");
}

#[test]
fn key_server_account_is_returned() {
    let with = SecretStoreKeys::new(Some(address_of(0x42)));
    assert_eq!(
        opt_bytes(&with.key_server_account()),
        Some(vec![0x42u8; 20])
    );
    let without = SecretStoreKeys::new(None);
    assert!(without.key_server_account().is_none());
}

#[test]
fn refresh_settles_cache_and_is_idempotent() {
    let provider = SecretStoreKeys::new(None);
    assert!(provider.acl_contract().is_none());

    let resolved = Some(address_of(0xaa));
    provider.update_acl_contract(Some(address_of(0xaa)));
    let first = provider.acl_contract();
    provider.update_acl_contract(Some(address_of(0xaa)));
    let second = provider.acl_contract();

    assert_eq!(opt_bytes(&first), Some(vec![0xaau8; 20]));
    assert_eq!(opt_bytes(&first), opt_bytes(&second));
    // An unchanged resolution decides against writing.
    assert!(!refresh_decision(&first, &resolved));
    assert!(refresh_decision(&first, &None));
    assert!(refresh_decision(&None, &resolved));
    assert!(!refresh_decision(&None, &None));
}

#[test]
fn refresh_can_unset_the_cache() {
    let provider = SecretStoreKeys::new(None);
    provider.update_acl_contract(Some(address_of(0xaa)));
    provider.update_acl_contract(None);
    assert!(provider.acl_contract().is_none());
    assert!(provider.available_keys_call(&address_of(0xbb)).is_none());
}

#[test]
fn prepared_call_follows_the_snapshot() {
    let account = address_of(0xbb);
    assert!(prepare_available_keys_call(None, &account).is_none());
    let (target, data) =
        prepare_available_keys_call(Some(address_of(0xaa)), &account).expect("address is cached");
    assert_eq!(target.as_bytes(), &vec![0xaau8; 20]);
    assert_eq!(data.len(), 36);
}

#[test]
fn acl_query_scenario() {
    // Registry resolves the checker name to 0xaa..; a query for account
    // 0xbb.. must call 0xaa.. with the ABI encoding of the account, and the
    // gateway's reply listing one key maps to that key's derived address.
    let provider = SecretStoreKeys::new(None);
    provider.update_acl_contract(Some(address_of(0xaa)));

    let account = address_of(0xbb);
    let (target, data) = provider.available_keys_call(&account).expect("address is cached");
    assert_eq!(target.as_bytes(), &vec![0xaau8; 20]);

    // Call data: selector of available_keys(address), then the account
    // left-padded to one 32-byte word.
    assert_eq!(data.len(), 36);
    let selector = ethabi::short_signature("available_keys", &[ethabi::ParamType::Address]);
    assert_eq!(&data[..4], &selector[..]);
    assert_eq!(&data[4..16], &[0u8; 12][..]);
    assert_eq!(&data[16..36], &account.as_bytes()[..]);

    let key = [0xcc_u8; 32];
    let output = encoded_reply(&[key]);
    let result = provider
        .available_keys(&BlockId::Latest, &account, Some(output))
        .expect("reply decodes");
    assert_eq!(result.len(), 1);
    let mut expected = vec![0xcc_u8; 10];
    expected.extend(vec![0u8; 10]);
    assert_eq!(result[0].as_bytes(), &expected);
}

#[test]
fn empty_reply_is_an_empty_list_not_none() {
    let provider = SecretStoreKeys::new(None);
    provider.update_acl_contract(Some(address_of(0xaa)));
    let result = provider.available_keys(&BlockId::Latest, &address_of(0xbb), Some(encoded_reply(&[])));
    assert_eq!(result.map(|v| v.len()), Some(0));
}

#[test]
fn several_keys_map_in_order() {
    let provider = SecretStoreKeys::new(None);
    let mut k1 = [0u8; 32];
    let mut k2 = [0u8; 32];
    for i in 0..32 {
        k1[i] = i as u8;
        k2[i] = 0xf0 - (i as u8);
    }
    let result = provider
        .available_keys(&BlockId::Number(7), &address_of(0xbb), Some(encoded_reply(&[k1, k2])))
        .expect("reply decodes");
    assert_eq!(result.len(), 2);
    let mut e1 = k1[..10].to_vec();
    e1.extend(vec![0u8; 10]);
    let mut e2 = k2[..10].to_vec();
    e2.extend(vec![0u8; 10]);
    assert_eq!(result[0].as_bytes(), &e1);
    assert_eq!(result[1].as_bytes(), &e2);
}

#[test]
fn unregistered_name_leaves_provider_unconfigured() {
    // The registry has no entry: the refresh records "unset" and no call is
    // prepared, so the query reports no keys for any account.
    let provider = SecretStoreKeys::new(None);
    provider.update_acl_contract(None);
    assert!(provider.acl_contract().is_none());
    assert!(provider.available_keys_call(&address_of(0xbb)).is_none());
    assert!(provider.available_keys_call(&address_of(0x01)).is_none());
    assert!(provider
        .available_keys(&BlockId::Latest, &address_of(0xbb), None)
        .is_none());
}

#[test]
fn failed_call_reports_no_keys() {
    let provider = SecretStoreKeys::new(None);
    provider.update_acl_contract(Some(address_of(0xaa)));
    // The gateway failed: the caller hands in no output.
    assert!(provider
        .available_keys(&BlockId::Latest, &address_of(0xbb), None)
        .is_none());
}

#[test]
fn malformed_reply_reports_no_keys() {
    let provider = SecretStoreKeys::new(None);
    provider.update_acl_contract(Some(address_of(0xaa)));
    let garbage = vec![0x01u8, 0x02, 0x03];
    assert!(provider
        .available_keys(&BlockId::Latest, &address_of(0xbb), Some(garbage))
        .is_none());
}

#[test]
fn storing_provider_returns_stored_list() {
    let mut provider = StoringKeyProvider::default();
    assert!(provider.key_server_account().is_none());
    assert!(provider
        .available_keys(&BlockId::Latest, &address_of(0xbb), None)
        .is_none());

    let keys = vec![address_of(0x11), address_of(0x22)];
    provider.set_available_keys(&keys);

    // The stored list comes back for any account, state, or outcome, and a
    // refresh leaves it untouched.
    for (block, account) in [
        (BlockId::Latest, address_of(0xbb)),
        (BlockId::Number(3), address_of(0x77)),
    ] {
        let result = provider
            .available_keys(&block, &account, None)
            .expect("list is stored");
        assert_eq!(result.len(), 2);
        assert_eq!(result[0].as_bytes(), &vec![0x11u8; 20]);
        assert_eq!(result[1].as_bytes(), &vec![0x22u8; 20]);
    }
    provider.update_acl_contract(Some(address_of(0xaa)));
    let after = provider
        .available_keys(&BlockId::Latest, &address_of(0xbb), None)
        .expect("list is stored");
    assert_eq!(after.len(), 2);
}
