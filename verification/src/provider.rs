//! Key providers: the contract-backed provider with its cached ACL contract
//! address, and the storing provider backed by a fixed list.
//!
//! The contract-backed provider holds one piece of shared mutable state, the
//! cached ACL contract address, behind a verified reader/writer lock. Readers
//! snapshot the address under a short read lock and the slow gateway call is
//! made by the caller outside any lock; a refresh snapshots under a read
//! lock, releases it, and only then takes the write lock, so it never holds
//! both at once.

use vstd::prelude::*;
use vstd::rwlock::RwLock;
use vstd::rwlock::RwLockPredicate;

use crate::abi::available_keys_call_data;
use crate::abi::decode_available_keys_output;
use crate::abi::decoded_key_list;
use crate::abi::encode_available_keys_call;
use crate::ids::addr_views;
use crate::ids::key_to_address;
use crate::ids::key_to_address_spec;
use crate::ids::key_views;
use crate::ids::opt_addr_view;
use crate::ids::opt_addr_wf;
use crate::ids::Address;
use crate::ids::KeyId;

verus! {

/// Chain-state token that fixes the view of on-chain state for a query.
/// Owned by the caller and handed through to the gateway; opaque here.
pub enum BlockId {
    /// The latest chain state.
    Latest,
    /// The chain state at a given block number.
    Number(u64),
}

/// The view of an optional address list.
pub open spec fn opt_addrs_view(v: Option<Vec<Address>>) -> Option<Seq<Seq<u8>>> {
    match v {
        Some(addrs) => Some(addr_views(addrs@)),
        None => None,
    }
}

/// Every address of an optional list is well-formed.
pub open spec fn opt_addrs_wf(v: Option<Vec<Address>>) -> bool {
    v matches Some(addrs) ==> forall|i: int|
        0 <= i < addrs@.len() ==> (#[trigger] addrs@[i]).wf()
}

/// The view of an optional byte string.
pub open spec fn opt_bytes_view(v: Option<Vec<u8>>) -> Option<Seq<u8>> {
    match v {
        Some(bytes) => Some(bytes@),
        None => None,
    }
}

/// Each listed key mapped to the address that the ACL contract's namespace
/// associates with it.
pub open spec fn keys_to_addresses_spec(keys: Seq<Seq<u8>>) -> Seq<Seq<u8>> {
    keys.map_values(|k: Seq<u8>| key_to_address_spec(k))
}

/// What an availability query returns for a given gateway outcome: nothing
/// where no call was made or the call failed, nothing where the reply does
/// not decode, and otherwise the decoded keys mapped to their addresses.
pub open spec fn available_keys_result(output: Option<Seq<u8>>) -> Option<Seq<Seq<u8>>> {
    match output {
        None => None,
        Some(bytes) => match decoded_key_list(bytes) {
            None => None,
            Some(keys) => Some(keys_to_addresses_spec(keys)),
        },
    }
}

/// Whether a refresh must replace the cached address: exactly when the
/// registry's answer differs from the cached value.
pub open spec fn refresh_writes(current: Option<Seq<u8>>, resolved: Option<Seq<u8>>) -> bool {
    current != resolved
}

/// The cache contents after one refresh whose resolution was `resolved`.
pub open spec fn refreshed_cache(current: Option<Seq<u8>>, resolved: Option<Seq<u8>>) -> Option<
    Seq<u8>,
> {
    if refresh_writes(current, resolved) {
        resolved
    } else {
        current
    }
}

/// Law: a refresh settles the cache on the registry's answer, whatever was
/// cached before, and a second refresh with an unchanged answer finds the
/// cache identical and performs no write at all, so no intermediate state is
/// ever installed for a concurrent reader to observe.
pub proof fn lemma_refresh_idempotent(current: Option<Seq<u8>>, resolved: Option<Seq<u8>>)
    ensures
        refreshed_cache(current, resolved) == resolved,
        refreshed_cache(refreshed_cache(current, resolved), resolved) == refreshed_cache(
            current,
            resolved,
        ),
        !refresh_writes(refreshed_cache(current, resolved), resolved),
{
}

/// Trait for keys server keys provider.
pub trait KeyProvider {
    /// Validity of the provider's state.
    spec fn inv(&self) -> bool;

    /// The configured key-server account, as the contracts see it.
    spec fn spec_key_server_account(&self) -> Option<Seq<u8>>;

    /// What `available_keys` returns for a given gateway outcome.
    spec fn spec_available_keys(&self, output: Option<Seq<u8>>) -> Option<Seq<Seq<u8>>>;

    /// Account that is used for communication with the key server.
    fn key_server_account(&self) -> (r: Option<Address>)
        requires
            self.inv(),
        ensures
            opt_addr_view(r) == self.spec_key_server_account(),
            opt_addr_wf(r),
    ;

    /// List of keys available for the account, given the outcome of the
    /// gateway call that the caller performed at `block` (`None` where no
    /// call was made or the call failed).
    fn available_keys(&self, block: &BlockId, account: &Address, output: Option<Vec<u8>>) -> (r:
        Option<Vec<Address>>)
        requires
            self.inv(),
            account.wf(),
        ensures
            opt_addrs_view(r) == self.spec_available_keys(opt_bytes_view(output)),
            opt_addrs_wf(r),
    ;

    /// Update the permissioning contract from the registry's resolution.
    fn update_acl_contract(&self, resolved: Option<Address>)
        requires
            self.inv(),
            opt_addr_wf(resolved),
    ;
}

/// Invariant of the cached ACL contract address: whatever is stored is a
/// well-formed address, so a reader can never observe a torn or partial one.
pub struct CachePred;

impl RwLockPredicate<Option<Address>> for CachePred {
    open spec fn inv(self, v: Option<Address>) -> bool {
        opt_addr_wf(v)
    }
}

/// Secret Store keys provider.
pub struct SecretStoreKeys {
    key_server_account: Option<Address>,
    keys_acl_contract: RwLock<Option<Address>, CachePred>,
}

/// Registry entry under which the ACL checker contract publishes its current
/// address; fixed configuration of the contract-backed provider.
pub fn acl_checker_contract_registry_name() -> (r: &'static str)
    ensures
        r@ == "secretstore_acl_checker"@,
{
    "secretstore_acl_checker"
}

/// Copy of an optional address.
fn clone_opt_address(v: &Option<Address>) -> (r: Option<Address>)
    ensures
        opt_addr_view(r) == opt_addr_view(*v),
        opt_addr_wf(*v) ==> opt_addr_wf(r),
{
    match v {
        Some(a) => Some(a.clone()),
        None => None,
    }
}

/// Element-for-element copy of an address list.
fn clone_addresses(addrs: &Vec<Address>) -> (r: Vec<Address>)
    ensures
        addr_views(r@) == addr_views(addrs@),
        (forall|i: int| 0 <= i < addrs@.len() ==> (#[trigger] addrs@[i]).wf()) ==> (forall|i: int|
            0 <= i < r@.len() ==> (#[trigger] r@[i]).wf()),
{
    let mut r: Vec<Address> = Vec::new();
    let mut i: usize = 0;
    while i < addrs.len()
        invariant
            i <= addrs@.len(),
            r@.len() == i,
            forall|j: int| 0 <= j < i ==> (#[trigger] r@[j])@ == addrs@[j]@,
        decreases addrs@.len() - i,
    {
        r.push(addrs[i].clone());
        i = i + 1;
    }
    proof {
        assert(addr_views(r@) =~= addr_views(addrs@));
    }
    r
}

/// Byte-for-byte comparison of two addresses.
fn addr_eq(a: &Address, b: &Address) -> (r: bool)
    ensures
        r == (a@ == b@),
{
    let a_bytes = a.as_bytes();
    let b_bytes = b.as_bytes();
    if a_bytes.len() != b_bytes.len() {
        return false;
    }
    let mut i: usize = 0;
    while i < a_bytes.len()
        invariant
            i <= a_bytes@.len(),
            a_bytes@.len() == b_bytes@.len(),
            a_bytes@ == a@,
            b_bytes@ == b@,
            forall|j: int| 0 <= j < i ==> a@[j] == b@[j],
        decreases a_bytes@.len() - i,
    {
        if a_bytes[i] != b_bytes[i] {
            return false;
        }
        i = i + 1;
    }
    proof {
        assert(a@ =~= b@);
    }
    true
}

/// Decides whether a refresh has to replace the cached address: exactly when
/// the registry's answer differs from the current value.
pub fn refresh_decision(current: &Option<Address>, resolved: &Option<Address>) -> (write: bool)
    ensures
        write == refresh_writes(opt_addr_view(*current), opt_addr_view(*resolved)),
{
    match current {
        None => match resolved {
            None => false,
            Some(_) => true,
        },
        Some(c) => match resolved {
            None => true,
            Some(n) => !addr_eq(c, n),
        },
    }
}

impl SecretStoreKeys {
    /// Create provider. The cached ACL contract address starts unset; the
    /// gateway and registry collaborators stay with the caller.
    pub fn new(key_server_account: Option<Address>) -> (r: SecretStoreKeys)
        requires
            opt_addr_wf(key_server_account),
        ensures
            r.inv(),
            r.spec_key_server_account() == opt_addr_view(key_server_account),
    {
        SecretStoreKeys {
            key_server_account,
            keys_acl_contract: RwLock::new(None, Ghost(CachePred)),
        }
    }

    /// Snapshot of the cached ACL contract address. The read lock is held
    /// only to copy the value out; the cache invariant guarantees that any
    /// observed value is a whole, well-formed address, never a torn one.
    pub fn acl_contract(&self) -> (r: Option<Address>)
        ensures
            opt_addr_wf(r),
    {
        let read_handle = self.keys_acl_contract.acquire_read();
        let current = clone_opt_address(read_handle.borrow());
        read_handle.release_read();
        current
    }

    /// The contract call that an availability query has to make for an
    /// account: the cached ACL contract address and the encoded call data,
    /// or nothing while no address is cached (not configured yet) — then no
    /// call is to be made. The snapshot is taken under a short read lock and
    /// the call itself happens at the caller, outside any lock; what the
    /// query makes of a snapshot is pinned by `prepare_available_keys_call`.
    pub fn available_keys_call(&self, account: &Address) -> (r: Option<(Address, Vec<u8>)>)
        requires
            account.wf(),
        ensures
            r matches Some(call) ==> call.0.wf() && call.1@ == available_keys_call_data(account@),
    {
        prepare_available_keys_call(self.acl_contract(), account)
    }

    /// Maps each listed key identifier to the address that the ACL
    /// contract's namespace associates with it; nothing maps to nothing.
    pub fn keys_to_addresses(&self, keys: Option<Vec<KeyId>>) -> (r: Option<Vec<Address>>)
        requires
            keys matches Some(ks) ==> forall|i: int|
                0 <= i < ks@.len() ==> (#[trigger] ks@[i]).wf(),
        ensures
            opt_addrs_view(r) == (match keys {
                Some(ks) => Some(keys_to_addresses_spec(key_views(ks@))),
                None => None::<Seq<Seq<u8>>>,
            }),
            opt_addrs_wf(r),
    {
        match keys {
            Some(ks) => {
                let mut addresses: Vec<Address> = Vec::new();
                let mut i: usize = 0;
                while i < ks.len()
                    invariant
                        i <= ks@.len(),
                        addresses@.len() == i,
                        forall|j: int|
                            0 <= j < ks@.len() ==> (#[trigger] ks@[j]).wf(),
                        forall|j: int|
                            0 <= j < i ==> (#[trigger] addresses@[j])@ == key_to_address_spec(
                                ks@[j]@,
                            ),
                        forall|j: int| 0 <= j < i ==> (#[trigger] addresses@[j]).wf(),
                    decreases ks@.len() - i,
                {
                    addresses.push(key_to_address(&ks[i]));
                    i = i + 1;
                }
                proof {
                    assert(addr_views(addresses@) =~= keys_to_addresses_spec(key_views(ks@)));
                }
                Some(addresses)
            },
            None => None,
        }
    }
}

/// What an availability query makes of a cache snapshot: no call while no
/// address is cached, and otherwise exactly the cached address with the ABI
/// call data for the account.
pub fn prepare_available_keys_call(cached: Option<Address>, account: &Address) -> (r: Option<
    (Address, Vec<u8>),
>)
    requires
        account.wf(),
        opt_addr_wf(cached),
    ensures
        (match r {
            Some(call) => {
                &&& cached matches Some(a) && call.0@ == a@
                &&& call.0.wf()
                &&& call.1@ == available_keys_call_data(account@)
            },
            None => cached is None,
        }),
{
    match cached {
        Some(addr) => {
            let data = encode_available_keys_call(account);
            Some((addr, data))
        },
        None => None,
    }
}

impl KeyProvider for SecretStoreKeys {
    closed spec fn inv(&self) -> bool {
        opt_addr_wf(self.key_server_account)
    }

    closed spec fn spec_key_server_account(&self) -> Option<Seq<u8>> {
        opt_addr_view(self.key_server_account)
    }

    open spec fn spec_available_keys(&self, output: Option<Seq<u8>>) -> Option<Seq<Seq<u8>>> {
        available_keys_result(output)
    }

    fn key_server_account(&self) -> (r: Option<Address>) {
        clone_opt_address(&self.key_server_account)
    }

    fn available_keys(&self, _block: &BlockId, _account: &Address, output: Option<Vec<u8>>) -> (r:
        Option<Vec<Address>>) {
        match output {
            Some(bytes) => {
                let keys = decode_available_keys_output(&bytes);
                self.keys_to_addresses(keys)
            },
            None => None,
        }
    }

    /// Refreshes the cached ACL contract address. The current value is
    /// snapshotted under a read lock that is released before anything else
    /// happens; only where the resolution differs is the write lock taken,
    /// and the resolved value is then installed whole. An unchanged
    /// resolution performs no write.
    fn update_acl_contract(&self, resolved: Option<Address>) {
        let read_handle = self.keys_acl_contract.acquire_read();
        let current = clone_opt_address(read_handle.borrow());
        read_handle.release_read();
        if refresh_decision(&current, &resolved) {
            let (_previous, write_handle) = self.keys_acl_contract.acquire_write();
            write_handle.release_write(resolved);
        }
    }
}

/// Key provider backed by a stored list instead of a live contract.
pub struct StoringKeyProvider {
    available_keys: Option<Vec<Address>>,
}

impl StoringKeyProvider {
    /// The stored key list, as the contracts see it.
    pub closed spec fn spec_stored_keys(&self) -> Option<Seq<Seq<u8>>> {
        opt_addrs_view(self.available_keys)
    }

    /// Replaces the stored list that `available_keys` hands out. An
    /// administrative operation outside the query contract.
    pub fn set_available_keys(&mut self, keys: &Vec<Address>)
        requires
            forall|i: int| 0 <= i < keys@.len() ==> (#[trigger] keys@[i]).wf(),
        ensures
            final(self).inv(),
            final(self).spec_stored_keys() == Some(addr_views(keys@)),
    {
        self.available_keys = Some(clone_addresses(keys));
    }
}

impl Default for StoringKeyProvider {
    /// A storing provider starts with no list stored.
    fn default() -> (r: StoringKeyProvider)
        ensures
            r.inv(),
            r.spec_stored_keys() == None::<Seq<Seq<u8>>>,
    {
        StoringKeyProvider { available_keys: None }
    }
}

impl KeyProvider for StoringKeyProvider {
    closed spec fn inv(&self) -> bool {
        opt_addrs_wf(self.available_keys)
    }

    open spec fn spec_key_server_account(&self) -> Option<Seq<u8>> {
        None
    }

    open spec fn spec_available_keys(&self, output: Option<Seq<u8>>) -> Option<Seq<Seq<u8>>> {
        self.spec_stored_keys()
    }

    fn key_server_account(&self) -> (r: Option<Address>) {
        None
    }

    fn available_keys(&self, _block: &BlockId, _account: &Address, _output: Option<Vec<u8>>) -> (r:
        Option<Vec<Address>>) {
        match &self.available_keys {
            Some(ks) => Some(clone_addresses(ks)),
            None => None,
        }
    }

    fn update_acl_contract(&self, _resolved: Option<Address>) {
    }
}

} // verus!
