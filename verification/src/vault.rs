//! Custody-vault addressing and authorization.
//!
//! The vault that holds a listed asset is a program-derived account: its
//! address is a deterministic function of the marketplace namespace, the
//! custodial role, and the asset identity. No private key exists for such an
//! address. The program proves control of a vault at transfer time by
//! re-deriving the same address, together with a numeric adjustment (the
//! "bump"), from the same seeds — never by holding a persisted secret.

use vstd::prelude::*;

verus! {

/// The marketplace namespace tag that seeds every derived address.
pub const PREFIX: u64 = 0x4d41524b4554;

/// An account address on the ledger.
///
/// A `Wallet` address belongs to an external keyholder. A `Vault` address is
/// derived by this program from a namespace tag and an asset identity; the
/// variant itself plays the role of the fixed "vault" seed tag, so a derived
/// address can never collide with a keyholder's address, and vaults for
/// distinct assets never collide with one another.
#[derive(PartialEq, Eq, Structural, Clone, Copy, Debug)]
pub enum Address {
    /// An external, keyholder-controlled account, identified by its key.
    Wallet(u64),
    /// The custodial vault derived from a namespace tag and an asset identity.
    Vault(u64, u64),
}

/// The numeric adjustment ("bump") that accompanies a derived vault address.
/// It is a pure function of the asset identity, so the program can re-derive
/// it at authorization time and compare it with a caller-supplied value.
pub open spec fn spec_vault_bump(asset: u64) -> u8 {
    (asset % 256) as u8
}

/// Derivation of the custodial address for one asset: a pure function from
/// (namespace tag, asset identity) to (address, bump).
pub open spec fn spec_derive_vault_address(namespace: u64, asset: u64) -> (Address, u8) {
    (Address::Vault(namespace, asset), spec_vault_bump(asset))
}

/// The bump for `asset`, as executable code.
pub fn vault_bump(asset: u64) -> (b: u8)
    ensures
        b == spec_vault_bump(asset),
{
    (asset % 256) as u8
}

/// Derives the custodial vault address and bump for `asset` under
/// `namespace`. Deterministic: every call on the same inputs returns the
/// same pair, which is what lets the program reconstruct its authority over
/// the vault without storing a secret.
pub fn derive_vault_address(namespace: u64, asset: u64) -> (r: (Address, u8))
    ensures
        r == spec_derive_vault_address(namespace, asset),
{
    (Address::Vault(namespace, asset), vault_bump(asset))
}

/// Checks the program's authority over a vault: the claimed owner address
/// and the caller-supplied bump must both equal what re-derivation from the
/// seeds produces. This is the sole mechanism that authorizes a transfer out
/// of a vault, and it is scoped per asset: the derivation for one asset never
/// validates against the vault of another.
pub fn verify_vault_authority(vault_owner: Address, asset: u64, bump: u8) -> (ok: bool)
    ensures
        ok == (vault_owner == spec_derive_vault_address(PREFIX, asset).0
            && bump == spec_vault_bump(asset)),
{
    let (derived, expected_bump) = derive_vault_address(PREFIX, asset);
    let owner_matches = match (vault_owner, derived) {
        (Address::Vault(n1, a1), Address::Vault(n2, a2)) => n1 == n2 && a1 == a2,
        _ => false,
    };
    owner_matches && bump == expected_bump
}

/// Derived vault addresses are collision-resistant: within one namespace,
/// two assets share a vault address only if they are the same asset.
pub proof fn lemma_vault_address_injective(namespace: u64, asset_a: u64, asset_b: u64)
    ensures
        spec_derive_vault_address(namespace, asset_a).0
            == spec_derive_vault_address(namespace, asset_b).0 ==> asset_a == asset_b,
{
}

/// A derived vault address never coincides with a keyholder's address: no
/// external party can own, or sign for, a vault.
pub proof fn lemma_vault_address_not_wallet(namespace: u64, asset: u64, key: u64)
    ensures
        spec_derive_vault_address(namespace, asset).0 != Address::Wallet(key),
{
}

} // verus!
