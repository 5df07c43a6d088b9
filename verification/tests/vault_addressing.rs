//! The custodial addressing scheme: determinism, collision resistance, and
//! the re-derivation authority check.

use nft_marketplace::vault::Address;
use nft_marketplace::vault::PREFIX;
use nft_marketplace::vault::derive_vault_address;
use nft_marketplace::vault::vault_bump;
use nft_marketplace::vault::verify_vault_authority;

#[test]
fn derivation_is_deterministic() {
    let first = derive_vault_address(PREFIX, 7);
    let second = derive_vault_address(PREFIX, 7);
    assert_eq!(first, second);
    assert_eq!(first.1, vault_bump(7));
}

#[test]
fn distinct_assets_get_distinct_vaults() {
    let a = derive_vault_address(PREFIX, 7).0;
    let b = derive_vault_address(PREFIX, 8).0;
    assert_ne!(a, b);
}

#[test]
fn derived_addresses_are_never_wallets() {
    let vault = derive_vault_address(PREFIX, 7).0;
    assert_ne!(vault, Address::Wallet(7));
    assert_ne!(vault, Address::Wallet(PREFIX));
}

#[test]
fn authority_check_accepts_only_the_rederived_pair() {
    let (addr, bump) = derive_vault_address(PREFIX, 7);
    assert!(verify_vault_authority(addr, 7, bump));
    // A wrong bump is rejected.
    assert!(!verify_vault_authority(addr, 7, bump.wrapping_add(1)));
    // One asset's vault never authorizes another asset's transfer.
    assert!(!verify_vault_authority(addr, 8, vault_bump(8)));
    // A keyholder address is never a vault authority.
    assert!(!verify_vault_authority(Address::Wallet(7), 7, bump));
}
