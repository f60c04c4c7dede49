use crate::backend::{balance_of, CapeWalletBackend, TokenAccount};
use crate::burn::{burn_request, is_burn_request, TransferRequest};
use crate::types::{
    AssetCode, AssetDefinition, Erc20Code, EthereumAddr, FreezeFlag, Pairing, RecordOpening,
    UserAddress, UserPubKey, WalletError,
};
use vstd::prelude::*;

verus! {

/// The record that a deposit stages: the amount of the asset, owned by the
/// key, not frozen, blinded by `blind`.
pub open spec fn wrap_record(
    asset: AssetDefinition,
    pub_key: UserPubKey,
    amount: u64,
    blind: [u8; 32],
) -> RecordOpening {
    RecordOpening { amount, asset_def: asset, pub_key, freeze_flag: FreezeFlag::Unfrozen, blind }
}

/// Builds the record that a deposit stages.
pub fn wrap_opening(asset: AssetDefinition, pub_key: UserPubKey, amount: u64, blind: [u8; 32]) -> (ro:
    RecordOpening)
    ensures
        ro == wrap_record(asset, pub_key, amount, blind),
{
    RecordOpening { amount, asset_def: asset, pub_key, freeze_flag: FreezeFlag::Unfrozen, blind }
}

/// The answers of the backend to a wrap come in order: the owner's key is
/// asked for only where the token was found, and the deposit is asked for
/// only where the key was found too.
pub open spec fn wrap_answers_in_order(
    looked_up: Result<Erc20Code, WalletError>,
    resolved: Option<Result<UserPubKey, WalletError>>,
    deposited: Option<Result<(), WalletError>>,
) -> bool {
    &&& resolved is Some <==> looked_up is Ok
    &&& deposited is Some <==> (resolved matches Some(Ok(_)))
}

/// What a wrap returns, given what the backend answered: the failure of the
/// first step that failed, as it came, and else the answer to the deposit.
pub fn wrap_result(
    looked_up: Result<Erc20Code, WalletError>,
    resolved: Option<Result<UserPubKey, WalletError>>,
    deposited: Option<Result<(), WalletError>>,
) -> (r: Result<(), WalletError>)
    requires
        wrap_answers_in_order(looked_up, resolved, deposited),
    ensures
        looked_up matches Err(e) ==> r == Err::<(), WalletError>(e),
        resolved matches Some(Err(e)) ==> r == Err::<(), WalletError>(e),
        deposited matches Some(answer) ==> r == answer,
{
    match looked_up {
        Err(e) => Err(e),
        Ok(_) => match resolved {
            Some(Err(e)) => Err(e),
            Some(Ok(_)) => match deposited {
                Some(answer) => answer,
                None => unreached(),
            },
            None => unreached(),
        },
    }
}

/// What a sponsor is told once the backend has answered the registration of
/// `asset`: the definition where it was registered, else the backend's
/// failure as it came.
pub fn sponsor_result(asset: AssetDefinition, registered: Result<(), WalletError>) -> (r: Result<
    AssetDefinition,
    WalletError,
>)
    ensures
        registered is Ok ==> r == Ok::<AssetDefinition, WalletError>(asset),
        registered matches Err(e) ==> r == Err::<AssetDefinition, WalletError>(e),
{
    match registered {
        Ok(()) => Ok(asset),
        Err(e) => Err(e),
    }
}

/// Every pair of the list stands in the registry, the asset with that token.
pub open spec fn listed_in(
    pairs: Seq<(AssetDefinition, Erc20Code)>,
    registry: Map<AssetDefinition, Pairing>,
) -> bool {
    forall|i: int|
        0 <= i < pairs.len() ==> registry.contains_key((#[trigger] pairs[i]).0)
            && registry[pairs[i].0].erc20_code == pairs[i].1
}

/// No asset stands twice in the list.
pub open spec fn distinct_assets(pairs: Seq<(AssetDefinition, Erc20Code)>) -> bool {
    forall|i: int, j: int|
        0 <= i < j < pairs.len() ==> (#[trigger] pairs[i]).0 != (#[trigger] pairs[j]).0
}

/// A wallet that bridges public tokens and shielded assets through a
/// backend. A caller that holds the wallet exclusively sees each operation
/// whole: it has happened or it has not.
pub struct CapeWallet<B: CapeWalletBackend> {
    backend: B,
    sponsored: Vec<(AssetDefinition, Erc20Code)>,
}

impl<B: CapeWalletBackend> CapeWallet<B> {
    /// The backend's state, as contracts see it.
    pub closed spec fn backend_view(&self) -> B {
        self.backend
    }

    /// The pairings that this wallet has registered, oldest first.
    pub closed spec fn sponsored_view(&self) -> Seq<(AssetDefinition, Erc20Code)> {
        self.sponsored@
    }

    /// Every pairing that the wallet lists stands in the registry, and no
    /// asset is listed twice.
    pub open spec fn wf(&self) -> bool {
        &&& listed_in(self.sponsored_view(), self.backend_view().registry())
        &&& distinct_assets(self.sponsored_view())
    }

    /// A wallet over `backend` that has registered nothing yet.
    pub fn new(backend: B) -> (wallet: Self)
        ensures
            wallet.wf(),
            wallet.backend_view() == backend,
            wallet.sponsored_view().len() == 0,
    {
        CapeWallet { backend, sponsored: Vec::new() }
    }

    /// The backend, to read.
    pub fn backend(&self) -> (b: &B)
        ensures
            *b == self.backend_view(),
    {
        &self.backend
    }

    /// Gives the backend back.
    pub fn into_backend(self) -> (b: B)
        ensures
            b == self.backend_view(),
    {
        self.backend
    }

    /// Registers a new shielded asset that wraps `erc20_code`, sponsored by
    /// `sponsor_addr`.
    ///
    /// `definition` is what the ledger's primitives made of the asset
    /// description and the sponsor's policy: the definition, or their reason
    /// where they refuse the policy for the derived code. A refusal is
    /// reported as a cryptographic error with that reason and reaches no
    /// backend. An asset is refused as a conflict exactly where it is
    /// registered already. Whatever fails, registry and list stay as they
    /// were; on success the registry gains exactly this pairing and the
    /// definition is returned.
    pub fn sponsor(
        &mut self,
        erc20_code: Erc20Code,
        sponsor_addr: EthereumAddr,
        definition: Result<AssetDefinition, String>,
    ) -> (r: Result<AssetDefinition, WalletError>)
        requires
            old(self).wf(),
        ensures
            final(self).wf(),
            definition matches Err(msg) ==> r == Err::<AssetDefinition, WalletError>(
                WalletError::CryptoError { msg },
            ) && *final(self) == *old(self),
            definition matches Ok(asset) ==> (r == Err::<AssetDefinition, WalletError>(
                WalletError::AssetAlreadyRegistered,
            ) <==> old(self).backend_view().registry().contains_key(asset)),
            r is Ok ==> definition is Ok && r->Ok_0 == definition->Ok_0,
            r is Ok ==> final(self).backend_view().registry() == old(
                self,
            ).backend_view().registry().insert(
                definition->Ok_0,
                (Pairing { erc20_code, sponsor: sponsor_addr }),
            ),
            r is Ok ==> final(self).sponsored_view() == old(self).sponsored_view().push(
                (definition->Ok_0, erc20_code),
            ),
            r is Err ==> final(self).backend_view().registry() == old(
                self,
            ).backend_view().registry(),
            r is Err ==> final(self).sponsored_view() == old(self).sponsored_view(),
            final(self).backend_view().known_keys() == old(self).backend_view().known_keys(),
            final(self).backend_view().balances() == old(self).backend_view().balances(),
            final(self).backend_view().staged() == old(self).backend_view().staged(),
    {
        let asset = match definition {
            Ok(asset) => asset,
            Err(msg) => {
                return Err(WalletError::CryptoError { msg });
            },
        };
        let registered = self.backend.register_wrapped_asset(&asset, erc20_code, sponsor_addr);
        if registered.is_ok() {
            self.sponsored.push((asset, erc20_code));
            proof {
                let before = old(self).sponsored_view();
                let after = self.sponsored_view();
                assert forall|i: int| 0 <= i < after.len() implies {
                    &&& self.backend_view().registry().contains_key((#[trigger] after[i]).0)
                    &&& self.backend_view().registry()[after[i].0].erc20_code == after[i].1
                } by {
                    if i < before.len() {
                        assert(after[i] == before[i]);
                        assert(old(self).backend_view().registry().contains_key(before[i].0));
                    }
                }
                assert forall|i: int, j: int| 0 <= i < j < after.len() implies (#[trigger] after[i]).0
                    != (#[trigger] after[j]).0 by {
                    assert(after[i] == before[i]);
                    if j < before.len() {
                        assert(after[j] == before[j]);
                    } else {
                        assert(old(self).backend_view().registry().contains_key(before[i].0));
                    }
                }
            }
        }
        sponsor_result(asset, registered)
    }

    /// Deposits `amount` of the token that `asset` wraps, from the public
    /// account of `src_addr`, into a new shielded record of `owner`.
    ///
    /// The backend is asked for the asset's token, then for the owner's key,
    /// then to take the deposit; the first that fails ends the wrap, and
    /// `wrap_result` says with which error. An unregistered asset or an
    /// unknown owner therefore fails before anything is asked of the token
    /// contract. The blinding factor of the record is drawn from `draw`, once,
    /// and only when both lookups have succeeded. On success the public
    /// balance is debited at once; the record is staged, and shows as
    /// shielded balance only after the next block.
    pub fn wrap<F: FnOnce() -> [u8; 32]>(
        &mut self,
        src_addr: EthereumAddr,
        asset: AssetDefinition,
        owner: UserAddress,
        amount: u64,
        draw: F,
    ) -> (r: Result<(), WalletError>)
        requires
            old(self).wf(),
            draw.requires(()),
        ensures
            final(self).wf(),
            final(self).sponsored_view() == old(self).sponsored_view(),
            final(self).backend_view().registry() == old(self).backend_view().registry(),
            final(self).backend_view().known_keys() == old(self).backend_view().known_keys(),
            !old(self).backend_view().registry().contains_key(asset) ==> r == Err::<
                (),
                WalletError,
            >(WalletError::UnregisteredAsset) && *final(self) == *old(self),
            !old(self).backend_view().known_keys().contains_key(owner) ==> r is Err && *final(self)
                == *old(self),
            old(self).backend_view().registry().contains_key(asset) && balance_of(
                old(self).backend_view().balances(),
                (TokenAccount {
                    erc20_code: old(self).backend_view().registry()[asset].erc20_code,
                    holder: src_addr,
                }),
            ) < amount ==> r is Err,
            r is Err ==> final(self).backend_view().balances() == old(
                self,
            ).backend_view().balances() && final(self).backend_view().staged() == old(
                self,
            ).backend_view().staged(),
            r is Ok ==> {
                let registry = old(self).backend_view().registry();
                let keys = old(self).backend_view().known_keys();
                let account = TokenAccount {
                    erc20_code: registry[asset].erc20_code,
                    holder: src_addr,
                };
                &&& registry.contains_key(asset)
                &&& keys.contains_key(owner)
                &&& exists|blind: [u8; 32]|
                    #[trigger] draw.ensures((), blind) && final(self).backend_view().staged()
                        == old(self).backend_view().staged().push(
                        wrap_record(asset, keys[owner], amount, blind),
                    )
                &&& final(self).backend_view().balances() == old(
                    self,
                ).backend_view().balances().insert(
                    account,
                    (balance_of(old(self).backend_view().balances(), account) - amount) as u64,
                )
            },
    {
        let looked_up = self.backend.get_wrapped_erc20_code(&asset);
        let resolved = match &looked_up {
            Ok(_) => Some(self.backend.get_public_key(&owner)),
            Err(_) => None,
        };
        let deposited = match (&looked_up, &resolved) {
            (Ok(erc20_code), Some(Ok(pub_key))) => {
                let ro = wrap_opening(asset, *pub_key, amount, draw());
                Some(self.backend.wrap_erc20(*erc20_code, src_addr, ro))
            },
            _ => None,
        };
        wrap_result(looked_up, resolved, deposited)
    }

    /// Begins a burn of `amount` of `asset` from `account`, to be paid out
    /// in the public token to `dst_addr`: the request that the transfer
    /// builder is to be handed.
    pub fn burn(
        &self,
        account: &UserAddress,
        dst_addr: EthereumAddr,
        asset: &AssetCode,
        amount: u64,
        fee: u64,
    ) -> (req: TransferRequest)
        ensures
            is_burn_request(req, *account, dst_addr, *asset, amount, fee),
    {
        burn_request(account, &dst_addr, asset, amount, fee)
    }

    /// The pairings of shielded asset and public token that this wallet has
    /// registered, oldest first. Each of them stands in the registry, and no
    /// asset comes twice.
    pub fn approved_assets(&self) -> (assets: Vec<(AssetDefinition, Erc20Code)>)
        requires
            self.wf(),
        ensures
            assets@ == self.sponsored_view(),
            listed_in(assets@, self.backend_view().registry()),
            distinct_assets(assets@),
    {
        let mut assets: Vec<(AssetDefinition, Erc20Code)> = Vec::new();
        let mut i: usize = 0;
        while i < self.sponsored.len()
            invariant
                i <= self.sponsored@.len(),
                assets@ == self.sponsored@.subrange(0, i as int),
            decreases self.sponsored@.len() - i,
        {
            assets.push(self.sponsored[i]);
            assert(assets@ =~= self.sponsored@.subrange(0, i + 1));
            i += 1;
        }
        assert(assets@ =~= self.sponsored@);
        assets
    }
}

} // verus!
