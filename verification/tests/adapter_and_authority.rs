use vault::authority::bumps_for;
use vault::authority::custody_id_of;
use vault::authority::derive_authority;
use vault::authority::vault_id_of;
use vault::authority::verify_authority;
use vault::errors::ErrorCode;
use vault::ledger::AssetAccount;
use vault::ledger::ClaimAccount;
use vault::ledger::ClaimMint;
use vault::ledger::issue_claim;
use vault::ledger::move_asset;
use vault::ledger::redeem_claim;

#[test]
fn derivation_is_deterministic_and_verifies() {
    let vault_id = vault_id_of(11, 22);
    assert_eq!(vault_id, vault_id_of(11, 22));
    let authority = derive_authority(vault_id);
    assert_eq!(authority, derive_authority(vault_id));
    assert!(verify_authority(vault_id, authority.identity));
    assert!(!verify_authority(vault_id, authority.identity ^ 1));
    assert!(!verify_authority(vault_id ^ 1, authority.identity));
}

#[test]
fn derived_identities_are_domain_separated() {
    let vault_id = vault_id_of(11, 22);
    let authority = derive_authority(vault_id);
    let custody = custody_id_of(vault_id);
    assert_ne!(vault_id, authority.identity);
    assert_ne!(vault_id, custody);
    assert_ne!(authority.identity, custody);
}

#[test]
fn bumps_match_the_three_derivations() {
    let bumps = bumps_for(11, 22);
    let vault_id = vault_id_of(11, 22);
    assert_eq!(bumps.vault, (vault_id & 0xff) as u8);
    assert_eq!(bumps.vault_authority, derive_authority(vault_id).bump);
    assert_eq!(bumps.vault_token_account, (custody_id_of(vault_id) & 0xff) as u8);
}

#[test]
fn move_asset_moves_exactly_the_amount() {
    let mut from = AssetAccount { controller: 5, balance: 80 };
    let mut to = AssetAccount { controller: 6, balance: 7 };
    assert_eq!(move_asset(&mut from, &mut to, 5, 30), Ok(()));
    assert_eq!(from.balance, 50);
    assert_eq!(to.balance, 37);
}

#[test]
fn move_asset_rejects_a_bad_authorizer() {
    let mut from = AssetAccount { controller: 5, balance: 80 };
    let mut to = AssetAccount { controller: 6, balance: 7 };
    assert_eq!(
        move_asset(&mut from, &mut to, 6, 30),
        Err(ErrorCode::TransferRejected)
    );
    assert_eq!(from.balance, 80);
    assert_eq!(to.balance, 7);
}

#[test]
fn move_asset_rejects_an_overdraft() {
    let mut from = AssetAccount { controller: 5, balance: 80 };
    let mut to = AssetAccount { controller: 6, balance: 7 };
    assert_eq!(
        move_asset(&mut from, &mut to, 5, 81),
        Err(ErrorCode::TransferRejected)
    );
    assert_eq!(from.balance, 80);
    assert_eq!(to.balance, 7);
}

#[test]
fn move_asset_rejects_a_receiver_overflow() {
    let mut from = AssetAccount { controller: 5, balance: 80 };
    let mut to = AssetAccount { controller: 6, balance: u64::MAX - 10 };
    assert_eq!(
        move_asset(&mut from, &mut to, 5, 11),
        Err(ErrorCode::TransferRejected)
    );
    assert_eq!(from.balance, 80);
    assert_eq!(to.balance, u64::MAX - 10);
}

#[test]
fn issue_claim_needs_the_mint_authority() {
    let mut account = ClaimAccount { holder: 9, balance: 0 };
    let mut mint = ClaimMint { authority: 77, supply: 5 };
    assert_eq!(
        issue_claim(&mut account, &mut mint, 9, 10),
        Err(ErrorCode::Unauthorized)
    );
    assert_eq!(issue_claim(&mut account, &mut mint, 77, 10), Ok(()));
    assert_eq!(account.balance, 10);
    assert_eq!(mint.supply, 15);
}

#[test]
fn issue_claim_fails_closed_on_supply_overflow() {
    let mut account = ClaimAccount { holder: 9, balance: 0 };
    let mut mint = ClaimMint { authority: 77, supply: u64::MAX - 1 };
    assert_eq!(
        issue_claim(&mut account, &mut mint, 77, 2),
        Err(ErrorCode::ArithmeticOverflow)
    );
    assert_eq!(account.balance, 0);
    assert_eq!(mint.supply, u64::MAX - 1);
}

#[test]
fn redeem_claim_is_authorized_by_the_holder_not_the_mint() {
    let mut account = ClaimAccount { holder: 9, balance: 30 };
    let mut mint = ClaimMint { authority: 77, supply: 30 };
    // the mint authority may not redeem someone else's claims
    assert_eq!(
        redeem_claim(&mut account, &mut mint, 77, 10),
        Err(ErrorCode::Unauthorized)
    );
    assert_eq!(redeem_claim(&mut account, &mut mint, 9, 10), Ok(()));
    assert_eq!(account.balance, 20);
    assert_eq!(mint.supply, 20);
}

#[test]
fn redeem_claim_rejects_more_than_the_balance() {
    let mut account = ClaimAccount { holder: 9, balance: 30 };
    let mut mint = ClaimMint { authority: 77, supply: 30 };
    assert_eq!(
        redeem_claim(&mut account, &mut mint, 9, 31),
        Err(ErrorCode::InsufficientClaim)
    );
    assert_eq!(account.balance, 30);
    assert_eq!(mint.supply, 30);
}

#[test]
fn registry_lookup_tracks_registrations() {
    let mut registry = vault::state::VaultRegistry::new();
    assert!(!registry.contains_vault(1, 2));
    vault::state::initialize_vault(&mut registry, 1, 2).expect("first initialization succeeds");
    assert!(registry.contains_vault(1, 2));
    assert!(!registry.contains_vault(2, 1));
    assert!(!registry.contains_vault(1, 3));
}
