use crate::types::{
    AssetDefinition, Erc20Code, EthereumAddr, Pairing, RecordOpening, UserAddress, UserPubKey,
    WalletError,
};
use vstd::prelude::*;

verus! {

/// An account of a public token: the token and the address that holds it.
#[derive(Clone, Copy, Debug, PartialEq, Eq, Hash)]
pub struct TokenAccount {
    pub erc20_code: Erc20Code,
    pub holder: EthereumAddr,
}

/// The balance of `account` in `balances`; an account that is not listed
/// holds nothing.
pub open spec fn balance_of(balances: Map<TokenAccount, u64>, account: TokenAccount) -> nat {
    if balances.contains_key(account) {
        balances[account] as nat
    } else {
        0
    }
}

/// How a registration may end. An asset that is already registered is
/// refused as a conflict, and no other asset is; a refusal of any kind leaves
/// the registry as it was; a success adds exactly the new pairing.
pub open spec fn registration_outcome(
    before: Map<AssetDefinition, Pairing>,
    after: Map<AssetDefinition, Pairing>,
    asset: AssetDefinition,
    pairing: Pairing,
    result: Result<(), WalletError>,
) -> bool {
    &&& before.contains_key(asset) <==> result == Err::<(), WalletError>(
        WalletError::AssetAlreadyRegistered,
    )
    &&& result is Ok ==> after == before.insert(asset, pairing)
    &&& result is Err ==> after == before
}

/// How a lookup of an asset's token may end. An unregistered asset is
/// reported as such, and no registered one is; a token that is returned is
/// the registered one.
pub open spec fn lookup_outcome(
    registry: Map<AssetDefinition, Pairing>,
    asset: AssetDefinition,
    result: Result<Erc20Code, WalletError>,
) -> bool {
    &&& !registry.contains_key(asset) <==> result == Err::<Erc20Code, WalletError>(
        WalletError::UnregisteredAsset,
    )
    &&& result is Ok ==> registry.contains_key(asset) && result->Ok_0
        == registry[asset].erc20_code
}

/// How the resolution of an owner's key may end. An address without a key
/// is reported as an unknown owner, and no other address is; a key that is
/// returned is the one of the address.
pub open spec fn key_outcome(
    keys: Map<UserAddress, UserPubKey>,
    owner: UserAddress,
    result: Result<UserPubKey, WalletError>,
) -> bool {
    &&& !keys.contains_key(owner) <==> result == Err::<UserPubKey, WalletError>(
        WalletError::UnknownOwner,
    )
    &&& result is Ok ==> keys.contains_key(owner) && result->Ok_0 == keys[owner]
}

/// Whether a deposit of `ro` from `src_addr` in token `erc20_code` can be
/// accepted at all: the record's asset wraps that token, and the account
/// holds the amount.
pub open spec fn deposit_admissible(
    registry: Map<AssetDefinition, Pairing>,
    balances: Map<TokenAccount, u64>,
    erc20_code: Erc20Code,
    src_addr: EthereumAddr,
    ro: RecordOpening,
) -> bool {
    &&& registry.contains_key(ro.asset_def)
    &&& registry[ro.asset_def].erc20_code == erc20_code
    &&& balance_of(balances, TokenAccount { erc20_code, holder: src_addr }) >= ro.amount
}

/// An asset is registered once. Of two registrations of one asset, the second
/// in the registry that the first left, where the first succeeds the second
/// is refused as a conflict, and the registry still gives the asset the
/// pairing of the first, whatever the second offered.
pub proof fn lemma_registration_unique(
    start: Map<AssetDefinition, Pairing>,
    middle: Map<AssetDefinition, Pairing>,
    end: Map<AssetDefinition, Pairing>,
    asset: AssetDefinition,
    first: Pairing,
    second: Pairing,
    first_result: Result<(), WalletError>,
    second_result: Result<(), WalletError>,
)
    requires
        registration_outcome(start, middle, asset, first, first_result),
        registration_outcome(middle, end, asset, second, second_result),
        first_result is Ok,
    ensures
        !start.contains_key(asset),
        second_result == Err::<(), WalletError>(WalletError::AssetAlreadyRegistered),
        end == middle,
        end.contains_key(asset),
        end[asset] == first,
{
}

/// A registration leaves every other asset's pairing alone, and never takes
/// an asset out of the registry.
pub proof fn lemma_registration_keeps_others(
    before: Map<AssetDefinition, Pairing>,
    after: Map<AssetDefinition, Pairing>,
    asset: AssetDefinition,
    pairing: Pairing,
    result: Result<(), WalletError>,
    other: AssetDefinition,
)
    requires
        registration_outcome(before, after, asset, pairing, result),
        before.contains_key(other),
    ensures
        after.contains_key(other),
        after[other] == before[other],
{
}

/// After a successful registration, a lookup of the asset that returns a
/// token returns the registered one, and no lookup reports the asset as
/// unregistered.
pub proof fn lemma_lookup_after_registration(
    before: Map<AssetDefinition, Pairing>,
    after: Map<AssetDefinition, Pairing>,
    asset: AssetDefinition,
    pairing: Pairing,
    registered: Result<(), WalletError>,
    looked_up: Result<Erc20Code, WalletError>,
)
    requires
        registration_outcome(before, after, asset, pairing, registered),
        registered is Ok,
        lookup_outcome(after, asset, looked_up),
    ensures
        after.contains_key(asset),
        after[asset] == pairing,
        looked_up is Ok ==> looked_up->Ok_0 == pairing.erc20_code,
{
}

/// What a wallet needs from the party that speaks to the token contract and
/// to the ledger's asset registry.
///
/// The contracts are the obligations of an implementation: every failure
/// leaves the state as it was, a registered asset is never registered again,
/// and a deposit debits the public account at once while the shielded record
/// is only staged for the next block.
pub trait CapeWalletBackend: Sized {
    /// The registry: for each registered asset, its token and sponsor.
    spec fn registry(&self) -> Map<AssetDefinition, Pairing>;

    /// The public keys that the backend can resolve.
    spec fn known_keys(&self) -> Map<UserAddress, UserPubKey>;

    /// The balances of the linked public accounts.
    spec fn balances(&self) -> Map<TokenAccount, u64>;

    /// The records that deposits have staged for the next block, oldest
    /// first.
    spec fn staged(&self) -> Seq<RecordOpening>;

    /// Adds the pairing of `asset` with `erc20_code` to the registry. Each
    /// asset backs one token only: a second registration fails.
    fn register_wrapped_asset(
        &mut self,
        asset: &AssetDefinition,
        erc20_code: Erc20Code,
        sponsor: EthereumAddr,
    ) -> (r: Result<(), WalletError>)
        ensures
            registration_outcome(
                old(self).registry(),
                final(self).registry(),
                *asset,
                (Pairing { erc20_code, sponsor }),
                r,
            ),
            final(self).known_keys() == old(self).known_keys(),
            final(self).balances() == old(self).balances(),
            final(self).staged() == old(self).staged(),
    ;

    /// The token that `asset` wraps.
    fn get_wrapped_erc20_code(&self, asset: &AssetDefinition) -> (r: Result<
        Erc20Code,
        WalletError,
    >)
        ensures
            lookup_outcome(self.registry(), *asset, r),
    ;

    /// The public key of the owner with the given address.
    fn get_public_key(&self, address: &UserAddress) -> (r: Result<UserPubKey, WalletError>)
        ensures
            key_outcome(self.known_keys(), *address, r),
    ;

    /// Debits `ro.amount` of the token from the account of `src_addr` and
    /// stages `ro` for the next block. The shielded balance shows only once
    /// that block is validated.
    fn wrap_erc20(&mut self, erc20_code: Erc20Code, src_addr: EthereumAddr, ro: RecordOpening) -> (r:
        Result<(), WalletError>)
        ensures
            final(self).registry() == old(self).registry(),
            final(self).known_keys() == old(self).known_keys(),
            !deposit_admissible(
                old(self).registry(),
                old(self).balances(),
                erc20_code,
                src_addr,
                ro,
            ) ==> r is Err,
            r is Err ==> final(self).balances() == old(self).balances() && final(self).staged()
                == old(self).staged(),
            r is Ok ==> final(self).staged() == old(self).staged().push(ro),
            r is Ok ==> final(self).balances() == old(self).balances().insert(
                (TokenAccount { erc20_code, holder: src_addr }),
                (balance_of(old(self).balances(), (TokenAccount { erc20_code, holder: src_addr }))
                    - ro.amount) as u64,
            ),
    ;
}

} // verus!
