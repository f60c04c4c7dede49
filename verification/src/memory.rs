use crate::backend::{balance_of, deposit_admissible, CapeWalletBackend, TokenAccount};
use crate::types::{
    AssetDefinition, Erc20Code, EthereumAddr, Pairing, RecordOpening, UserAddress, UserPubKey,
    WalletError,
};
use vstd::prelude::*;

verus! {

/// The map that a list of pairs stands for: where a key stands twice, the
/// later pair counts.
pub open spec fn assoc_map<K, V>(pairs: Seq<(K, V)>) -> Map<K, V>
    decreases pairs.len(),
{
    if pairs.len() == 0 {
        Map::empty()
    } else {
        assoc_map(pairs.drop_last()).insert(pairs.last().0, pairs.last().1)
    }
}

/// A pair added at the end is an insertion.
proof fn lemma_assoc_push<K, V>(pairs: Seq<(K, V)>, key: K, value: V)
    ensures
        assoc_map(pairs.push((key, value))) == assoc_map(pairs).insert(key, value),
{
    assert(pairs.push((key, value)).drop_last() =~= pairs);
}

/// A key that no pair has is not in the map.
proof fn lemma_assoc_absent<K, V>(pairs: Seq<(K, V)>, key: K)
    requires
        forall|j: int| 0 <= j < pairs.len() ==> pairs[j].0 != key,
    ensures
        !assoc_map(pairs).contains_key(key),
    decreases pairs.len(),
{
    if pairs.len() > 0 {
        lemma_assoc_absent(pairs.drop_last(), key);
    }
}

/// The last pair with a key gives the key's value.
proof fn lemma_assoc_found<K, V>(pairs: Seq<(K, V)>, key: K, i: int)
    requires
        0 <= i < pairs.len(),
        pairs[i].0 == key,
        forall|j: int| i < j < pairs.len() ==> pairs[j].0 != key,
    ensures
        assoc_map(pairs).contains_key(key),
        assoc_map(pairs)[key] == pairs[i].1,
    decreases pairs.len(),
{
    if i < pairs.len() - 1 {
        lemma_assoc_found(pairs.drop_last(), key, i);
    }
}

/// A new value in the last pair with a key is an insertion.
proof fn lemma_assoc_update<K, V>(pairs: Seq<(K, V)>, i: int, value: V)
    requires
        0 <= i < pairs.len(),
        forall|j: int| i < j < pairs.len() ==> pairs[j].0 != pairs[i].0,
    ensures
        assoc_map(pairs.update(i, (pairs[i].0, value))) == assoc_map(pairs).insert(
            pairs[i].0,
            value,
        ),
    decreases pairs.len(),
{
    let key = pairs[i].0;
    let updated = pairs.update(i, (key, value));
    if i == pairs.len() - 1 {
        assert(updated.drop_last() =~= pairs.drop_last());
        assert(assoc_map(updated) =~= assoc_map(pairs).insert(key, value));
    } else {
        lemma_assoc_update(pairs.drop_last(), i, value);
        assert(updated.drop_last() =~= pairs.drop_last().update(i, (key, value)));
        assert(updated.last() == pairs.last());
        assert(assoc_map(updated) =~= assoc_map(pairs).insert(key, value));
    }
}

/// A backend that keeps registry, keys, balances and staged records in
/// memory: a model of what a backend owes, and a stand-in where no chain is
/// at hand.
pub struct MemoryBackend {
    entries: Vec<(AssetDefinition, Pairing)>,
    keys: Vec<(UserAddress, UserPubKey)>,
    accounts: Vec<(TokenAccount, u64)>,
    staged: Vec<RecordOpening>,
}

impl MemoryBackend {
    /// A backend with nothing registered, no keys, no balances.
    pub fn new() -> (backend: Self)
        ensures
            backend.registry() == Map::<AssetDefinition, Pairing>::empty(),
            backend.known_keys() == Map::<UserAddress, UserPubKey>::empty(),
            backend.balances() == Map::<TokenAccount, u64>::empty(),
            backend.staged() == Seq::<RecordOpening>::empty(),
    {
        let backend = MemoryBackend {
            entries: Vec::new(),
            keys: Vec::new(),
            accounts: Vec::new(),
            staged: Vec::new(),
        };
        assert(backend.staged@ =~= Seq::<RecordOpening>::empty());
        backend
    }

    fn find_entry(&self, asset: &AssetDefinition) -> (found: Option<usize>)
        ensures
            found is None ==> !self.registry().contains_key(*asset),
            found matches Some(i) ==> i < self.entries@.len() && self.entries@[i as int].0
                == *asset && self.registry().contains_key(*asset) && self.registry()[*asset]
                == self.entries@[i as int].1,
    {
        let mut i: usize = self.entries.len();
        while i > 0
            invariant
                i <= self.entries@.len(),
                forall|j: int| i <= j < self.entries@.len() ==> self.entries@[j].0 != *asset,
            decreases i,
        {
            i -= 1;
            if self.entries[i].0.matches(asset) {
                proof {
                    lemma_assoc_found(self.entries@, *asset, i as int);
                }
                return Some(i);
            }
        }
        proof {
            lemma_assoc_absent(self.entries@, *asset);
        }
        None
    }

    fn find_key(&self, owner: &UserAddress) -> (found: Option<usize>)
        ensures
            found is None ==> !self.known_keys().contains_key(*owner),
            found matches Some(i) ==> i < self.keys@.len() && self.keys@[i as int].0 == *owner
                && self.known_keys().contains_key(*owner) && self.known_keys()[*owner]
                == self.keys@[i as int].1,
    {
        let mut i: usize = self.keys.len();
        while i > 0
            invariant
                i <= self.keys@.len(),
                forall|j: int| i <= j < self.keys@.len() ==> self.keys@[j].0 != *owner,
            decreases i,
        {
            i -= 1;
            if self.keys[i].0.matches(owner) {
                proof {
                    lemma_assoc_found(self.keys@, *owner, i as int);
                }
                return Some(i);
            }
        }
        proof {
            lemma_assoc_absent(self.keys@, *owner);
        }
        None
    }

    fn find_account(&self, account: &TokenAccount) -> (found: Option<usize>)
        ensures
            found is None ==> !self.balances().contains_key(*account),
            found matches Some(i) ==> i < self.accounts@.len() && self.accounts@[i as int].0
                == *account && self.balances().contains_key(*account) && self.balances()[*account]
                == self.accounts@[i as int].1 && forall|j: int|
                i < j < self.accounts@.len() ==> self.accounts@[j].0 != *account,
    {
        let mut i: usize = self.accounts.len();
        while i > 0
            invariant
                i <= self.accounts@.len(),
                forall|j: int| i <= j < self.accounts@.len() ==> self.accounts@[j].0 != *account,
            decreases i,
        {
            i -= 1;
            let listed = &self.accounts[i].0;
            if listed.erc20_code.matches(&account.erc20_code) && listed.holder.matches(
                &account.holder,
            ) {
                proof {
                    lemma_assoc_found(self.accounts@, *account, i as int);
                }
                return Some(i);
            }
        }
        proof {
            lemma_assoc_absent(self.accounts@, *account);
        }
        None
    }

    /// Makes `pub_key` the key of its address.
    pub fn add_public_key(&mut self, pub_key: UserPubKey)
        ensures
            final(self).known_keys() == old(self).known_keys().insert(pub_key.address, pub_key),
            final(self).registry() == old(self).registry(),
            final(self).balances() == old(self).balances(),
            final(self).staged() == old(self).staged(),
    {
        proof {
            lemma_assoc_push(self.keys@, pub_key.address, pub_key);
        }
        self.keys.push((pub_key.address, pub_key));
    }

    /// Sets the balance of a public account.
    pub fn set_balance(&mut self, account: TokenAccount, amount: u64)
        ensures
            final(self).balances() == old(self).balances().insert(account, amount),
            final(self).registry() == old(self).registry(),
            final(self).known_keys() == old(self).known_keys(),
            final(self).staged() == old(self).staged(),
    {
        match self.find_account(&account) {
            Some(i) => {
                proof {
                    lemma_assoc_update(self.accounts@, i as int, amount);
                }
                self.accounts.set(i, (account, amount));
            },
            None => {
                proof {
                    lemma_assoc_push(self.accounts@, account, amount);
                }
                self.accounts.push((account, amount));
            },
        }
    }

    /// The balance of a public account.
    pub fn balance(&self, account: &TokenAccount) -> (amount: u64)
        ensures
            amount == balance_of(self.balances(), *account),
    {
        match self.find_account(account) {
            Some(i) => self.accounts[i].1,
            None => 0,
        }
    }

    /// The records staged for the next block, oldest first.
    pub fn staged_records(&self) -> (records: &Vec<RecordOpening>)
        ensures
            records@ == self.staged(),
    {
        &self.staged
    }

    /// Validates a block: the staged records leave the staging area, oldest
    /// first, and from now on count as shielded balance.
    pub fn validate_block(&mut self) -> (records: Vec<RecordOpening>)
        ensures
            records@ == old(self).staged(),
            final(self).staged() == Seq::<RecordOpening>::empty(),
            final(self).registry() == old(self).registry(),
            final(self).known_keys() == old(self).known_keys(),
            final(self).balances() == old(self).balances(),
    {
        let mut records: Vec<RecordOpening> = Vec::new();
        records.append(&mut self.staged);
        assert(records@ =~= old(self).staged@);
        assert(self.staged@ =~= Seq::<RecordOpening>::empty());
        records
    }

    /// The pairing of `asset`, if it is registered.
    pub fn pairing(&self, asset: &AssetDefinition) -> (p: Option<Pairing>)
        ensures
            p is Some <==> self.registry().contains_key(*asset),
            p is Some ==> p->Some_0 == self.registry()[*asset],
    {
        match self.find_entry(asset) {
            Some(i) => Some(self.entries[i].1),
            None => None,
        }
    }
}

impl CapeWalletBackend for MemoryBackend {
    closed spec fn registry(&self) -> Map<AssetDefinition, Pairing> {
        assoc_map(self.entries@)
    }

    closed spec fn known_keys(&self) -> Map<UserAddress, UserPubKey> {
        assoc_map(self.keys@)
    }

    closed spec fn balances(&self) -> Map<TokenAccount, u64> {
        assoc_map(self.accounts@)
    }

    closed spec fn staged(&self) -> Seq<RecordOpening> {
        self.staged@
    }

    /// Registers the pairing unless the asset is registered already: here
    /// nothing else can fail.
    fn register_wrapped_asset(
        &mut self,
        asset: &AssetDefinition,
        erc20_code: Erc20Code,
        sponsor: EthereumAddr,
    ) -> (r: Result<(), WalletError>)
        ensures
            r is Ok <==> !old(self).registry().contains_key(*asset),
    {
        match self.find_entry(asset) {
            Some(_) => Err(WalletError::AssetAlreadyRegistered),
            None => {
                proof {
                    lemma_assoc_push(self.entries@, *asset, Pairing { erc20_code, sponsor });
                }
                self.entries.push((*asset, Pairing { erc20_code, sponsor }));
                Ok(())
            },
        }
    }

    /// Here a lookup succeeds exactly on the registered assets.
    fn get_wrapped_erc20_code(&self, asset: &AssetDefinition) -> (r: Result<
        Erc20Code,
        WalletError,
    >)
        ensures
            r is Ok <==> self.registry().contains_key(*asset),
    {
        match self.find_entry(asset) {
            Some(i) => Ok(self.entries[i].1.erc20_code),
            None => Err(WalletError::UnregisteredAsset),
        }
    }

    /// Here a key is resolved exactly for the known addresses.
    fn get_public_key(&self, address: &UserAddress) -> (r: Result<UserPubKey, WalletError>)
        ensures
            r is Ok <==> self.known_keys().contains_key(*address),
    {
        match self.find_key(address) {
            Some(i) => Ok(self.keys[i].1),
            None => Err(WalletError::UnknownOwner),
        }
    }

    /// Here a deposit succeeds exactly where it is admissible: an asset that
    /// does not wrap the token is reported as unregistered, a balance that
    /// is too small as a failure of the backend.
    fn wrap_erc20(&mut self, erc20_code: Erc20Code, src_addr: EthereumAddr, ro: RecordOpening) -> (r:
        Result<(), WalletError>)
        ensures
            r is Ok <==> deposit_admissible(
                old(self).registry(),
                old(self).balances(),
                erc20_code,
                src_addr,
                ro,
            ),
            !(old(self).registry().contains_key(ro.asset_def) && old(
                self,
            ).registry()[ro.asset_def].erc20_code == erc20_code) ==> r == Err::<(), WalletError>(
                WalletError::UnregisteredAsset,
            ),
            r is Err ==> *final(self) == *old(self),
    {
        let registered = match self.find_entry(&ro.asset_def) {
            Some(i) => self.entries[i].1.erc20_code.matches(&erc20_code),
            None => false,
        };
        if !registered {
            return Err(WalletError::UnregisteredAsset);
        }
        let account = TokenAccount { erc20_code, holder: src_addr };
        let held = self.balance(&account);
        if held < ro.amount {
            return Err(WalletError::Backend { msg: "insufficient balance".to_owned() });
        }
        self.set_balance(account, held - ro.amount);
        self.staged.push(ro);
        Ok(())
    }
}

} // verus!
