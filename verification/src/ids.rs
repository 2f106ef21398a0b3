//! Identifiers and the codec between them.
//!
//! A secret key is named by a 256-bit identifier; on-chain contracts and
//! accounts are named by 160-bit identifiers. The ACL contract keys its
//! namespace by an address derived from only the first ten bytes of a key
//! identifier, and the reverse direction zero-extends an address into a full
//! key width. The two directions are deliberately not inverses: existing
//! on-chain data was written under this exact scheme, so it must be kept
//! bit-for-bit.

use vstd::prelude::*;

verus! {

/// 256-bit identifier of a stored secret key, kept as 32 big-endian bytes.
pub struct KeyId {
    bytes: Vec<u8>,
}

/// 160-bit on-chain identifier, kept as 20 big-endian bytes. Used both for
/// contract addresses and for account addresses.
pub struct Address {
    bytes: Vec<u8>,
}

impl View for KeyId {
    type V = Seq<u8>;

    closed spec fn view(&self) -> Seq<u8> {
        self.bytes@
    }
}

impl View for Address {
    type V = Seq<u8>;

    closed spec fn view(&self) -> Seq<u8> {
        self.bytes@
    }
}

impl KeyId {
    /// A key identifier is exactly 32 bytes wide.
    pub open spec fn wf(&self) -> bool {
        self@.len() == 32
    }

    /// Builds a key identifier from its 32 bytes.
    pub fn new(bytes: Vec<u8>) -> (r: KeyId)
        requires
            bytes@.len() == 32,
        ensures
            r@ == bytes@,
            r.wf(),
    {
        KeyId { bytes }
    }

    /// The identifier's bytes, big-endian.
    pub fn as_bytes(&self) -> (r: &Vec<u8>)
        ensures
            r@ == self@,
    {
        &self.bytes
    }
}

impl Address {
    /// An address is exactly 20 bytes wide.
    pub open spec fn wf(&self) -> bool {
        self@.len() == 20
    }

    /// Builds an address from its 20 bytes.
    pub fn new(bytes: Vec<u8>) -> (r: Address)
        requires
            bytes@.len() == 20,
        ensures
            r@ == bytes@,
            r.wf(),
    {
        Address { bytes }
    }

    /// The address's bytes, big-endian.
    pub fn as_bytes(&self) -> (r: &Vec<u8>)
        ensures
            r@ == self@,
    {
        &self.bytes
    }
}

impl Clone for KeyId {
    fn clone(&self) -> (r: KeyId)
        ensures
            r@ == self@,
    {
        KeyId { bytes: clone_bytes(&self.bytes) }
    }
}

impl Clone for Address {
    fn clone(&self) -> (r: Address)
        ensures
            r@ == self@,
    {
        Address { bytes: clone_bytes(&self.bytes) }
    }
}

/// Byte-for-byte copy of a byte vector.
fn clone_bytes(v: &Vec<u8>) -> (r: Vec<u8>)
    ensures
        r@ == v@,
{
    let mut r: Vec<u8> = Vec::new();
    let mut i: usize = 0;
    while i < v.len()
        invariant
            i <= v@.len(),
            r@ == v@.subrange(0, i as int),
        decreases v@.len() - i,
    {
        r.push(v[i]);
        i = i + 1;
        proof {
            assert(r@ =~= v@.subrange(0, i as int));
        }
    }
    proof {
        assert(r@ =~= v@);
    }
    r
}

/// The views of a sequence of key identifiers, element for element.
pub open spec fn key_views(keys: Seq<KeyId>) -> Seq<Seq<u8>> {
    keys.map_values(|k: KeyId| k@)
}

/// The views of a sequence of addresses, element for element.
pub open spec fn addr_views(addrs: Seq<Address>) -> Seq<Seq<u8>> {
    addrs.map_values(|a: Address| a@)
}

/// The view of an optional address.
pub open spec fn opt_addr_view(v: Option<Address>) -> Option<Seq<u8>> {
    match v {
        Some(a) => Some(a@),
        None => None,
    }
}

/// Every address of an optional value is well-formed.
pub open spec fn opt_addr_wf(v: Option<Address>) -> bool {
    v matches Some(a) ==> a.wf()
}

/// The address that the ACL contract's namespace associates with a key:
/// the key's first ten bytes, padded with ten zero bytes.
pub open spec fn key_to_address_spec(key: Seq<u8>) -> Seq<u8> {
    key.subrange(0, 10) + Seq::new(10, |i: int| 0u8)
}

/// The key identifier that stands for an address: the address zero-extended
/// to the full key width, with the twelve high-order bytes zero.
pub open spec fn address_to_key_spec(addr: Seq<u8>) -> Seq<u8> {
    Seq::new(12, |i: int| 0u8) + addr
}

/// Returns the address (of the contract) that corresponds to the key.
pub fn key_to_address(key: &KeyId) -> (r: Address)
    requires
        key.wf(),
    ensures
        r.wf(),
        r@ == key_to_address_spec(key@),
{
    let key_bytes = key.as_bytes();
    let mut bytes: Vec<u8> = Vec::new();
    let mut i: usize = 0;
    while i < 10
        invariant
            i <= 10,
            key.wf(),
            key_bytes@ == key@,
            bytes@ == key@.subrange(0, i as int),
        decreases 10 - i,
    {
        bytes.push(key_bytes[i]);
        i = i + 1;
        proof {
            assert(bytes@ =~= key@.subrange(0, i as int));
        }
    }
    let mut j: usize = 0;
    while j < 10
        invariant
            j <= 10,
            key.wf(),
            bytes@ == key@.subrange(0, 10) + Seq::new(j as nat, |i: int| 0u8),
        decreases 10 - j,
    {
        bytes.push(0u8);
        j = j + 1;
        proof {
            assert(bytes@ =~= key@.subrange(0, 10) + Seq::new(j as nat, |i: int| 0u8));
        }
    }
    let r = Address { bytes };
    proof {
        assert(r@ =~= key_to_address_spec(key@));
    }
    r
}

/// Returns the key from the key server associated with the contract.
pub fn address_to_key(contract_address: &Address) -> (r: KeyId)
    requires
        contract_address.wf(),
    ensures
        r.wf(),
        r@ == address_to_key_spec(contract_address@),
{
    let addr_bytes = contract_address.as_bytes();
    let mut bytes: Vec<u8> = Vec::new();
    let mut i: usize = 0;
    while i < 12
        invariant
            i <= 12,
            bytes@ == Seq::new(i as nat, |k: int| 0u8),
        decreases 12 - i,
    {
        bytes.push(0u8);
        i = i + 1;
        proof {
            assert(bytes@ =~= Seq::new(i as nat, |k: int| 0u8));
        }
    }
    let mut j: usize = 0;
    while j < 20
        invariant
            j <= 20,
            contract_address.wf(),
            addr_bytes@ == contract_address@,
            bytes@ == Seq::new(12, |k: int| 0u8) + contract_address@.subrange(0, j as int),
        decreases 20 - j,
    {
        bytes.push(addr_bytes[j]);
        j = j + 1;
        proof {
            assert(bytes@ =~= Seq::new(12, |k: int| 0u8) + contract_address@.subrange(0, j as int));
        }
    }
    let r = KeyId { bytes };
    proof {
        assert(r@ =~= address_to_key_spec(contract_address@));
    }
    r
}

/// The address derived from a key depends only on the key's ten leading
/// bytes: two keys with the same leading bytes map to the same address, so
/// changing only the trailing bytes never changes the result. (The mapping
/// is a spec function, hence deterministic by construction.)
pub proof fn lemma_key_to_address_prefix(k1: Seq<u8>, k2: Seq<u8>)
    requires
        k1.len() == 32,
        k2.len() == 32,
        k1.subrange(0, 10) == k2.subrange(0, 10),
    ensures
        key_to_address_spec(k1) == key_to_address_spec(k2),
{
}

/// The two codec directions are not inverses: zero-extending any address
/// into a key and deriving an address back always yields the all-zero
/// address, because the extension leaves the key's ten leading bytes zero.
/// (Likewise `address_to_key_spec(key_to_address_spec(k)) == k` must not be
/// assumed for a key `k`.)
pub proof fn lemma_codec_collapses_to_zero(a: Seq<u8>)
    requires
        a.len() == 20,
    ensures
        key_to_address_spec(address_to_key_spec(a)) == Seq::new(20, |i: int| 0u8),
{
    assert(key_to_address_spec(address_to_key_spec(a)) =~= Seq::new(20, |i: int| 0u8));
}

/// Deriving an address from the key that stands for an address is exact only
/// where the address carries no information: on the all-zero address. On
/// every other address the round trip collapses to the all-zero address (see
/// `lemma_codec_collapses_to_zero`), so the general round trip does not hold.
pub proof fn lemma_round_trip_on_zero_address(a: Seq<u8>)
    requires
        a.len() == 20,
        forall|i: int| 0 <= i < 20 ==> a[i] == 0,
    ensures
        key_to_address_spec(address_to_key_spec(a)) == a,
{
    lemma_codec_collapses_to_zero(a);
    assert(a =~= Seq::new(20, |i: int| 0u8));
}

} // verus!
