use cape_wallet::backend::{CapeWalletBackend, TokenAccount};
use cape_wallet::memory::MemoryBackend;
use cape_wallet::types::{
    AssetCode, AssetDefinition, AssetPolicy, Erc20Code, EthereumAddr, FreezeFlag, Pairing,
    RecordOpening, UserAddress, UserPubKey, WalletError,
};
use cape_wallet::wallet::{sponsor_result, wrap_opening, wrap_result, CapeWallet};
use std::cell::Cell;

fn addr(seed: u8) -> EthereumAddr {
    let mut bytes = [0u8; 20];
    for (i, b) in bytes.iter_mut().enumerate() {
        *b = seed.wrapping_add(i as u8);
    }
    EthereumAddr { bytes }
}

fn token(seed: u8) -> Erc20Code {
    Erc20Code { address: addr(seed) }
}

fn policy(seed: u8) -> AssetPolicy {
    AssetPolicy {
        auditor_key: [seed; 32],
        credential_key: [seed.wrapping_add(1); 32],
        freezer_key: [seed.wrapping_add(2); 32],
        reveal_map: 0,
        reveal_threshold: 0,
    }
}

fn asset(seed: u8) -> AssetDefinition {
    AssetDefinition { code: AssetCode { bytes: [seed; 32] }, policy: policy(seed) }
}

fn owner(seed: u8) -> UserPubKey {
    UserPubKey { address: UserAddress { bytes: [seed; 32] }, enc_key: [seed.wrapping_add(7); 32] }
}

fn funded_wallet() -> CapeWallet<MemoryBackend> {
    let mut backend = MemoryBackend::new();
    backend.add_public_key(owner(1));
    backend.set_balance(TokenAccount { erc20_code: token(10), holder: addr(50) }, 250);
    CapeWallet::new(backend)
}

#[test]
fn sponsor_registers_the_pairing_and_returns_the_definition() {
    let mut wallet = funded_wallet();
    let a1 = asset(3);
    assert_eq!(wallet.sponsor(token(10), addr(50), Ok(a1)), Ok(a1));
    assert_eq!(
        wallet.backend().pairing(&a1),
        Some(Pairing { erc20_code: token(10), sponsor: addr(50) })
    );
}

#[test]
fn second_sponsor_of_one_asset_conflicts_and_first_pairing_stays() {
    let mut wallet = funded_wallet();
    let a1 = asset(3);
    assert_eq!(wallet.sponsor(token(10), addr(50), Ok(a1)), Ok(a1));
    assert_eq!(
        wallet.sponsor(token(10), addr(50), Ok(a1)),
        Err(WalletError::AssetAlreadyRegistered)
    );
    assert_eq!(
        wallet.sponsor(token(11), addr(51), Ok(a1)),
        Err(WalletError::AssetAlreadyRegistered)
    );
    assert_eq!(
        wallet.backend().pairing(&a1),
        Some(Pairing { erc20_code: token(10), sponsor: addr(50) })
    );
    assert_eq!(wallet.approved_assets(), vec![(a1, token(10))]);
}

#[test]
fn lookup_after_registration_returns_the_token() {
    let mut backend = MemoryBackend::new();
    let a1 = asset(3);
    assert_eq!(backend.get_wrapped_erc20_code(&a1), Err(WalletError::UnregisteredAsset));
    assert_eq!(backend.register_wrapped_asset(&a1, token(10), addr(50)), Ok(()));
    assert_eq!(backend.get_wrapped_erc20_code(&a1), Ok(token(10)));
    assert_eq!(backend.get_wrapped_erc20_code(&asset(4)), Err(WalletError::UnregisteredAsset));
}

#[test]
fn one_token_may_back_several_assets() {
    let mut wallet = funded_wallet();
    assert_eq!(wallet.sponsor(token(10), addr(50), Ok(asset(3))), Ok(asset(3)));
    assert_eq!(wallet.sponsor(token(10), addr(51), Ok(asset(4))), Ok(asset(4)));
    assert_eq!(wallet.backend().get_wrapped_erc20_code(&asset(3)), Ok(token(10)));
    assert_eq!(wallet.backend().get_wrapped_erc20_code(&asset(4)), Ok(token(10)));
    assert_eq!(wallet.approved_assets(), vec![(asset(3), token(10)), (asset(4), token(10))]);
}

#[test]
fn assets_that_differ_only_in_policy_are_distinct() {
    let mut wallet = funded_wallet();
    let a = asset(3);
    let b = AssetDefinition { code: a.code, policy: policy(9) };
    assert_eq!(wallet.sponsor(token(10), addr(50), Ok(a)), Ok(a));
    assert_eq!(wallet.sponsor(token(11), addr(50), Ok(b)), Ok(b));
    assert_eq!(wallet.backend().get_wrapped_erc20_code(&a), Ok(token(10)));
    assert_eq!(wallet.backend().get_wrapped_erc20_code(&b), Ok(token(11)));
}

#[test]
fn refused_policy_is_a_crypto_error_and_registers_nothing() {
    let mut wallet = funded_wallet();
    assert_eq!(
        wallet.sponsor(token(10), addr(50), Err("dummy asset code".to_string())),
        Err(WalletError::CryptoError { msg: "dummy asset code".to_string() })
    );
    assert_eq!(wallet.approved_assets(), vec![]);
    assert_eq!(wallet.backend().pairing(&asset(3)), None);
}

#[test]
fn wrap_debits_the_account_and_stages_the_record() {
    let mut wallet = funded_wallet();
    let a1 = asset(3);
    assert_eq!(wallet.sponsor(token(10), addr(50), Ok(a1)), Ok(a1));
    assert_eq!(wallet.wrap(addr(50), a1, owner(1).address, 100, || [5u8; 32]), Ok(()));
    let account = TokenAccount { erc20_code: token(10), holder: addr(50) };
    assert_eq!(wallet.backend().balance(&account), 150);
    assert_eq!(
        wallet.backend().staged_records(),
        &vec![RecordOpening {
            amount: 100,
            asset_def: a1,
            pub_key: owner(1),
            freeze_flag: FreezeFlag::Unfrozen,
            blind: [5u8; 32],
        }]
    );
}

#[test]
fn wrap_of_an_unregistered_asset_fails_and_debits_nothing() {
    let mut wallet = funded_wallet();
    assert_eq!(
        wallet.wrap(addr(50), asset(3), owner(1).address, 100, || [5u8; 32]),
        Err(WalletError::UnregisteredAsset)
    );
    let account = TokenAccount { erc20_code: token(10), holder: addr(50) };
    assert_eq!(wallet.backend().balance(&account), 250);
    assert_eq!(wallet.backend().staged_records().len(), 0);
}

#[test]
fn wrap_for_an_unknown_owner_fails_and_debits_nothing() {
    let mut wallet = funded_wallet();
    let a1 = asset(3);
    assert_eq!(wallet.sponsor(token(10), addr(50), Ok(a1)), Ok(a1));
    assert_eq!(
        wallet.wrap(addr(50), a1, owner(2).address, 100, || [5u8; 32]),
        Err(WalletError::UnknownOwner)
    );
    let account = TokenAccount { erc20_code: token(10), holder: addr(50) };
    assert_eq!(wallet.backend().balance(&account), 250);
    assert_eq!(wallet.backend().staged_records().len(), 0);
}

#[test]
fn wrap_beyond_the_balance_is_a_backend_failure() {
    let mut wallet = funded_wallet();
    let a1 = asset(3);
    assert_eq!(wallet.sponsor(token(10), addr(50), Ok(a1)), Ok(a1));
    assert_eq!(
        wallet.wrap(addr(50), a1, owner(1).address, 251, || [5u8; 32]),
        Err(WalletError::Backend { msg: "insufficient balance".to_string() })
    );
    assert_eq!(wallet.wrap(addr(50), a1, owner(1).address, 250, || [5u8; 32]), Ok(()));
    let account = TokenAccount { erc20_code: token(10), holder: addr(50) };
    assert_eq!(wallet.backend().balance(&account), 0);
    assert_eq!(
        wallet.wrap(addr(50), a1, owner(1).address, 1, || [6u8; 32]),
        Err(WalletError::Backend { msg: "insufficient balance".to_string() })
    );
    assert_eq!(wallet.backend().staged_records().len(), 1);
}

#[test]
fn wrap_from_an_account_without_funds_fails() {
    let mut wallet = funded_wallet();
    let a1 = asset(3);
    assert_eq!(wallet.sponsor(token(10), addr(50), Ok(a1)), Ok(a1));
    assert!(wallet.wrap(addr(51), a1, owner(1).address, 1, || [5u8; 32]).is_err());
    assert_eq!(wallet.wrap(addr(51), a1, owner(1).address, 0, || [5u8; 32]), Ok(()));
    assert_eq!(
        wallet.backend().balance(&TokenAccount { erc20_code: token(10), holder: addr(51) }),
        0
    );
    assert_eq!(
        wallet.backend().balance(&TokenAccount { erc20_code: token(10), holder: addr(50) }),
        250
    );
}

#[test]
fn backend_refuses_a_deposit_under_the_wrong_token() {
    let mut backend = MemoryBackend::new();
    let a1 = asset(3);
    backend.set_balance(TokenAccount { erc20_code: token(11), holder: addr(50) }, 10);
    assert_eq!(backend.register_wrapped_asset(&a1, token(10), addr(50)), Ok(()));
    let ro = RecordOpening {
        amount: 5,
        asset_def: a1,
        pub_key: owner(1),
        freeze_flag: FreezeFlag::Unfrozen,
        blind: [0u8; 32],
    };
    assert_eq!(backend.wrap_erc20(token(11), addr(50), ro), Err(WalletError::UnregisteredAsset));
    assert_eq!(backend.balance(&TokenAccount { erc20_code: token(11), holder: addr(50) }), 10);
    assert_eq!(backend.staged_records().len(), 0);
}

#[test]
fn backend_resolves_known_keys_only() {
    let mut backend = MemoryBackend::new();
    assert_eq!(backend.get_public_key(&owner(1).address), Err(WalletError::UnknownOwner));
    backend.add_public_key(owner(1));
    backend.add_public_key(owner(2));
    assert_eq!(backend.get_public_key(&owner(1).address), Ok(owner(1)));
    assert_eq!(backend.get_public_key(&owner(2).address), Ok(owner(2)));
    assert_eq!(backend.get_public_key(&owner(3).address), Err(WalletError::UnknownOwner));
}

#[test]
fn set_balance_replaces_the_earlier_balance() {
    let mut backend = MemoryBackend::new();
    let a = TokenAccount { erc20_code: token(10), holder: addr(50) };
    let b = TokenAccount { erc20_code: token(10), holder: addr(51) };
    assert_eq!(backend.balance(&a), 0);
    backend.set_balance(a, 7);
    backend.set_balance(b, 9);
    backend.set_balance(a, 8);
    assert_eq!(backend.balance(&a), 8);
    assert_eq!(backend.balance(&b), 9);
}

#[test]
fn into_backend_hands_the_state_back() {
    let mut wallet = funded_wallet();
    assert_eq!(wallet.sponsor(token(10), addr(50), Ok(asset(3))), Ok(asset(3)));
    let backend = wallet.into_backend();
    assert_eq!(backend.get_wrapped_erc20_code(&asset(3)), Ok(token(10)));
}

#[test]
fn matches_compares_every_byte() {
    let a = addr(1);
    let mut b = addr(1);
    assert!(a.matches(&b));
    b.bytes[19] ^= 1;
    assert!(!a.matches(&b));
    assert!(asset(3).matches(&asset(3)));
    assert!(!asset(3).matches(&asset(4)));
    let mut p = policy(3);
    p.reveal_threshold = 1;
    assert!(!policy(3).matches(&p));
    assert!(token(2).matches(&token(2)));
    assert!(!token(2).matches(&token(3)));
    assert!(owner(1).address.matches(&owner(1).address));
    assert!(!owner(1).address.matches(&owner(2).address));
}

#[test]
fn staged_records_leave_with_the_next_block() {
    let mut wallet = funded_wallet();
    let a1 = asset(3);
    assert_eq!(wallet.sponsor(token(10), addr(50), Ok(a1)), Ok(a1));
    assert_eq!(wallet.wrap(addr(50), a1, owner(1).address, 100, || [5u8; 32]), Ok(()));
    assert_eq!(wallet.wrap(addr(50), a1, owner(1).address, 20, || [6u8; 32]), Ok(()));
    let mut backend = wallet.into_backend();
    let records = backend.validate_block();
    assert_eq!(records.len(), 2);
    assert_eq!(records[0].amount, 100);
    assert_eq!(records[0].blind, [5u8; 32]);
    assert_eq!(records[1].amount, 20);
    assert_eq!(backend.staged_records().len(), 0);
    assert_eq!(backend.validate_block(), vec![]);
    assert_eq!(backend.balance(&TokenAccount { erc20_code: token(10), holder: addr(50) }), 130);
    assert_eq!(backend.get_wrapped_erc20_code(&a1), Ok(token(10)));
}

#[test]
fn sponsor_result_passes_the_backend_failure_on_as_it_came() {
    assert_eq!(sponsor_result(asset(3), Ok(())), Ok(asset(3)));
    let failure = WalletError::Backend { msg: "connection lost".to_string() };
    assert_eq!(sponsor_result(asset(3), Err(failure.clone())), Err(failure));
    assert_eq!(
        sponsor_result(asset(3), Err(WalletError::AssetAlreadyRegistered)),
        Err(WalletError::AssetAlreadyRegistered)
    );
}

#[test]
fn wrap_opening_is_unfrozen_and_keeps_what_it_was_given() {
    assert_eq!(
        wrap_opening(asset(3), owner(1), 42, [9u8; 32]),
        RecordOpening {
            amount: 42,
            asset_def: asset(3),
            pub_key: owner(1),
            freeze_flag: FreezeFlag::Unfrozen,
            blind: [9u8; 32],
        }
    );
}

#[test]
fn wrap_result_is_the_first_failure_as_it_came() {
    let lost = WalletError::Backend { msg: "connection lost".to_string() };
    assert_eq!(wrap_result(Err(lost.clone()), None, None), Err(lost.clone()));
    assert_eq!(
        wrap_result(Err(WalletError::UnregisteredAsset), None, None),
        Err(WalletError::UnregisteredAsset)
    );
    assert_eq!(
        wrap_result(Ok(token(10)), Some(Err(WalletError::UnknownOwner)), None),
        Err(WalletError::UnknownOwner)
    );
    assert_eq!(wrap_result(Ok(token(10)), Some(Err(lost.clone())), None), Err(lost.clone()));
    assert_eq!(
        wrap_result(Ok(token(10)), Some(Ok(owner(1))), Some(Err(lost.clone()))),
        Err(lost)
    );
    assert_eq!(wrap_result(Ok(token(10)), Some(Ok(owner(1))), Some(Ok(()))), Ok(()));
}

#[test]
fn blinding_factor_is_drawn_only_after_both_lookups() {
    let mut wallet = funded_wallet();
    let a1 = asset(3);
    let draws = Cell::new(0u32);
    let draw = || {
        draws.set(draws.get() + 1);
        [5u8; 32]
    };
    assert_eq!(
        wallet.wrap(addr(50), a1, owner(1).address, 100, draw),
        Err(WalletError::UnregisteredAsset)
    );
    assert_eq!(draws.get(), 0);
    assert_eq!(wallet.sponsor(token(10), addr(50), Ok(a1)), Ok(a1));
    assert_eq!(
        wallet.wrap(addr(50), a1, owner(2).address, 100, draw),
        Err(WalletError::UnknownOwner)
    );
    assert_eq!(draws.get(), 0);
    assert_eq!(wallet.wrap(addr(50), a1, owner(1).address, 100, draw), Ok(()));
    assert_eq!(draws.get(), 1);
    assert!(wallet.wrap(addr(50), a1, owner(1).address, 1000, draw).is_err());
    assert_eq!(draws.get(), 2);
    assert_eq!(wallet.backend().staged_records().len(), 1);
}

#[test]
fn no_asset_is_listed_twice() {
    let mut wallet = funded_wallet();
    assert_eq!(wallet.sponsor(token(10), addr(50), Ok(asset(3))), Ok(asset(3)));
    assert!(wallet.sponsor(token(11), addr(51), Ok(asset(3))).is_err());
    assert_eq!(wallet.sponsor(token(11), addr(51), Ok(asset(4))), Ok(asset(4)));
    assert!(wallet.sponsor(token(10), addr(50), Ok(asset(4))).is_err());
    let listed = wallet.approved_assets();
    assert_eq!(listed, vec![(asset(3), token(10)), (asset(4), token(11))]);
    for i in 0..listed.len() {
        for j in (i + 1)..listed.len() {
            assert_ne!(listed[i].0, listed[j].0);
        }
    }
}
