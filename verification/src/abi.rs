//! ABI layer for the ACL contract's `available_keys(address)` function.
//!
//! Encoding and decoding follow the contract ABI, a fixed external format;
//! both are delegated to the `ethabi` crate and described here by named
//! results, so that the provider's contracts can speak of them exactly.

use vstd::prelude::*;

use crate::ids::key_views;
use crate::ids::Address;
use crate::ids::KeyId;

verus! {

/// The ABI call data that asks the ACL contract which keys an account may
/// access: a function of the account's bytes alone.
pub uninterp spec fn available_keys_call_data(account: Seq<u8>) -> Seq<u8>;

/// What the ACL contract's raw reply decodes to: the listed 32-byte key
/// identifiers, or nothing where the bytes are not a well-formed reply.
/// A function of the reply's bytes alone.
pub uninterp spec fn decoded_key_list(output: Seq<u8>) -> Option<Seq<Seq<u8>>>;

/// Relies on ethabi::short_signature and ethabi::encode: the call data for
/// `available_keys(address)` is that signature's four-byte selector followed
/// by the account's bytes left-padded with zeros to one 32-byte word. Both
/// parts depend on the account alone.
#[verifier::external_body]
pub(crate) fn encode_available_keys_call(account: &Address) -> (r: Vec<u8>)
    requires
        account.wf(),
    ensures
        r@ == available_keys_call_data(account@),
        r@.len() == 36,
        r@.skip(4) == Seq::new(12, |i: int| 0u8) + account@,
{
    let mut data = ethabi::short_signature("available_keys", &[ethabi::ParamType::Address]).to_vec();
    let token = ethabi::Token::Address(ethabi::Address::from_slice(account.as_bytes()));
    data.extend(ethabi::encode(&[token]));
    data
}

/// Relies on ethabi::decode for the output type `bytes32[]`: a well-formed
/// reply decodes to a list of exactly-32-byte words, and a malformed one is
/// reported as an error, mapped to `None` here.
#[verifier::external_body]
pub(crate) fn decode_available_keys_output(output: &Vec<u8>) -> (r: Option<Vec<KeyId>>)
    ensures
        (match r {
            Some(keys) => {
                &&& decoded_key_list(output@) == Some(key_views(keys@))
                &&& forall|i: int| 0 <= i < keys@.len() ==> (#[trigger] keys@[i]).wf()
            },
            None => decoded_key_list(output@) is None,
        }),
{
    let list_of_words = ethabi::ParamType::Array(Box::new(ethabi::ParamType::FixedBytes(32)));
    let tokens = ethabi::decode(&[list_of_words], output).ok()?;
    let items = tokens.into_iter().next().and_then(|t| t.into_array())?;
    let mut keys: Vec<KeyId> = Vec::new();
    for item in items {
        keys.push(KeyId::new(item.into_fixed_bytes()?));
    }
    Some(keys)
}

} // verus!
