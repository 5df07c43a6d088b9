//! The listing/escrow state machine: listing records, holding accounts, the
//! operation contexts, and the three marketplace operations.
//!
//! Each operation is specified twice: a total `spec` transition function that
//! maps the pre-state to the post-state and the outcome, and an executable
//! function whose contract says that it computes exactly that transition.
//! The ledger substrate runs an operation atomically, so every error outcome
//! leaves all accounts exactly as they were.

use vstd::prelude::*;

use crate::vault::Address;
use crate::vault::PREFIX;
use crate::vault::spec_derive_vault_address;
use crate::vault::spec_vault_bump;
use crate::vault::verify_vault_authority;

verus! {

/// Settlement-currency base units per whole price unit: a listing's `price`
/// is denominated in whole units and scaled by this factor when the buyer
/// pays.
pub const LAMPORTS_PER_SOL: u64 = 1_000_000_000;

/// A persistent listing record, one per sale. `seller`, `mint` and `price`
/// never change after creation; `is_active` is `true` on creation and is set
/// permanently to `false` on purchase.
#[derive(PartialEq, Eq, Structural, Clone, Copy, Debug)]
pub struct Listing {
    /// Identity of the party who deposited the asset.
    pub seller: u64,
    /// Sale price in whole settlement-currency units.
    pub price: u64,
    /// Identity of the asset being sold.
    pub mint: u64,
    /// `true` while the listing can be purchased; permanently `false` after.
    pub is_active: bool,
}

/// Why a marketplace operation was rejected. Every error aborts the whole
/// atomic operation with no persisted side effects.
#[derive(PartialEq, Eq, Structural, Clone, Copy, Debug)]
pub enum ErrorCode {
    /// The listing has already been consumed by a purchase.
    InactiveListing,
    /// The signer does not match the listing's recorded seller.
    Unauthorized,
    /// The supplied holding account's asset does not match the listing's.
    MintMismatch,
    /// A listing record already occupies the targeted storage slot.
    ListingAlreadyExists,
    /// No listing record exists at the referenced storage slot.
    ListingNotFound,
    /// The seller's holding account cannot supply one unit of the asset.
    AssetNotOwnedBySeller,
    /// The vault no longer holds the asset unit.
    AssetNotInVault,
    /// Re-derivation of the vault address and bump rejected the supplied
    /// authority proof.
    InvalidVaultAuthority,
    /// The buyer's settlement-currency balance is below the scaled price.
    InsufficientFunds,
}

/// A holding account: the balance of `owner` in the asset `mint`.
#[derive(PartialEq, Eq, Structural, Clone, Copy, Debug)]
pub struct TokenAccount {
    /// The account's owner: a keyholder's wallet, or a derived vault.
    pub owner: Address,
    /// The asset this account holds units of.
    pub mint: u64,
    /// How many units it currently holds.
    pub amount: u64,
}

/// A vault account is well formed when its owner is exactly the address the
/// program derives for the account's own asset: nothing but the program's
/// re-derivation can authorize transfers out of it.
pub open spec fn vault_wf(vault: TokenAccount) -> bool {
    vault.owner == spec_derive_vault_address(PREFIX, vault.mint).0
}

/// The escrow invariant tying a listing storage slot to its asset's vault:
/// an active listing exists exactly while the vault holds the one unit; an
/// inactive (sold) record persists with an emptied vault; and with no record
/// the vault is empty.
pub open spec fn escrow_inv(slot: Option<Listing>, vault: TokenAccount) -> bool {
    match slot {
        Some(listing) => {
            &&& listing.mint == vault.mint
            &&& listing.is_active ==> vault.amount == 1
            &&& !listing.is_active ==> vault.amount == 0
        },
        None => vault.amount == 0,
    }
}

/// What the escrow invariant says about a listing slot and the vault a
/// caller presents beside it. The caller's vault is derived from the asset
/// the caller presents, which need not be the asset the record names: a
/// record for another asset says nothing about this vault (the operation
/// rejects such a pairing), while an empty slot means the presented asset is
/// unlisted, so its vault is empty. The full `escrow_inv` implies this.
pub open spec fn presented_escrow_inv(slot: Option<Listing>, vault: TokenAccount) -> bool {
    match slot {
        Some(listing) => listing.mint == vault.mint ==> {
            &&& listing.is_active ==> vault.amount == 1
            &&& !listing.is_active ==> vault.amount == 0
        },
        None => vault.amount == 0,
    }
}

// ---------------------------------------------------------------------------
// Listing Manager: creating a listing
// ---------------------------------------------------------------------------

/// The accounts a `list_nft` operation touches.
#[derive(PartialEq, Eq, Clone, Copy, Debug)]
pub struct ListNFT {
    /// The storage slot at the new listing's address. Creation fails if a
    /// record already occupies it.
    pub listing: Option<Listing>,
    /// The seller, who co-signed the operation.
    pub seller: u64,
    /// The seller's holding account for the asset.
    pub nft_account: TokenAccount,
    /// The identity of the asset being listed.
    pub mint: u64,
    /// The custodial vault derived for `mint`.
    pub vault: TokenAccount,
}

/// The account wiring the storage layer establishes before `list_nft` runs:
/// the holding account belongs to the signing seller and carries the listed
/// asset, and the vault is the well-formed custodial account for that asset,
/// consistent with the targeted listing slot.
pub open spec fn list_ctx_wf(ctx: ListNFT) -> bool {
    &&& ctx.nft_account.owner == Address::Wallet(ctx.seller)
    &&& ctx.nft_account.mint == ctx.mint
    &&& ctx.vault.mint == ctx.mint
    &&& vault_wf(ctx.vault)
    &&& presented_escrow_inv(ctx.listing, ctx.vault)
}

/// The transition `list_nft` computes: either the error that rejects the
/// operation with the state unchanged, or the post-state in which one asset
/// unit has moved from the seller's account into the vault and an active
/// listing record fills the slot.
pub open spec fn list_step(ctx: ListNFT, price: u64) -> (ListNFT, Result<(), ErrorCode>) {
    if ctx.listing is Some {
        (ctx, Err(ErrorCode::ListingAlreadyExists))
    } else if ctx.nft_account.amount < 1 {
        (ctx, Err(ErrorCode::AssetNotOwnedBySeller))
    } else {
        (
            ListNFT {
                listing: Some(
                    Listing {
                        seller: ctx.seller,
                        price,
                        mint: ctx.mint,
                        is_active: true,
                    },
                ),
                nft_account: TokenAccount { amount: (ctx.nft_account.amount - 1) as u64, ..ctx.nft_account },
                vault: TokenAccount { amount: (ctx.vault.amount + 1) as u64, ..ctx.vault },
                ..ctx
            },
            Ok(()),
        )
    }
}

/// Creates a new listing: transfers one asset unit from the seller's holding
/// account into the custodial vault and records an active `Listing` with the
/// given `price` (any value, zero included, is accepted).
///
/// Succeeds if and only if the listing slot is empty and the seller's account
/// holds at least one unit. On any error nothing changes.
pub fn list_nft(ctx: &mut ListNFT, price: u64) -> (r: Result<(), ErrorCode>)
    requires
        list_ctx_wf(*old(ctx)),
    ensures
        (*final(ctx), r) == list_step(*old(ctx), price),
        r is Ok <==> old(ctx).listing is None && old(ctx).nft_account.amount >= 1,
        r is Err ==> *final(ctx) == *old(ctx),
        r is Ok ==> final(ctx).listing == Some(
            Listing { seller: old(ctx).seller, price, mint: old(ctx).mint, is_active: true },
        ),
        r is Ok ==> final(ctx).nft_account.amount == old(ctx).nft_account.amount - 1
            && final(ctx).vault.amount == old(ctx).vault.amount + 1,
        list_ctx_wf(*final(ctx)),
        final(ctx).nft_account.amount + final(ctx).vault.amount
            == old(ctx).nft_account.amount + old(ctx).vault.amount,
{
    if ctx.listing.is_some() {
        return Err(ErrorCode::ListingAlreadyExists);
    }
    if ctx.nft_account.amount < 1 {
        return Err(ErrorCode::AssetNotOwnedBySeller);
    }
    // The escrow invariant gives vault.amount == 0 here, so the credit fits.
    ctx.nft_account.amount = ctx.nft_account.amount - 1;
    ctx.vault.amount = ctx.vault.amount + 1;
    ctx.listing = Some(
        Listing { seller: ctx.seller, price, mint: ctx.mint, is_active: true },
    );
    Ok(())
}

// ---------------------------------------------------------------------------
// Listing Manager: cancelling a listing
// ---------------------------------------------------------------------------

/// The accounts a `remove_listed_nft` operation touches.
#[derive(PartialEq, Eq, Clone, Copy, Debug)]
pub struct RemoveListedNFT {
    /// The signer claiming to be the listing's seller.
    pub seller: u64,
    /// The signer's holding account, to which the asset unit returns.
    pub nft_account: TokenAccount,
    /// The storage slot holding the listing record to destroy.
    pub listing: Option<Listing>,
    /// The identity of the asset the caller presents.
    pub mint: u64,
    /// The custodial vault derived for `mint`.
    pub vault: TokenAccount,
}

/// The account wiring the storage layer establishes before
/// `remove_listed_nft` runs. The signer check and the asset-identity check
/// are not here: those are the operation's own decisions, surfaced as
/// `Unauthorized` and `MintMismatch`.
pub open spec fn cancel_ctx_wf(ctx: RemoveListedNFT) -> bool {
    &&& ctx.nft_account.owner == Address::Wallet(ctx.seller)
    &&& ctx.nft_account.mint == ctx.mint
    &&& ctx.vault.mint == ctx.mint
    &&& vault_wf(ctx.vault)
    &&& presented_escrow_inv(ctx.listing, ctx.vault)
}

/// Whether the cancel transition commits: a record exists, the signer is its
/// recorded seller, the presented asset matches the recorded one, and the
/// vault still holds the unit.
pub open spec fn cancel_commits(ctx: RemoveListedNFT) -> bool {
    match ctx.listing {
        Some(listing) => {
            &&& listing.seller == ctx.seller
            &&& listing.mint == ctx.mint
            &&& ctx.vault.amount >= 1
        },
        None => false,
    }
}

/// The transition `remove_listed_nft` computes: either the error that
/// rejects the operation with the state unchanged, or the post-state in
/// which the asset unit has returned from the vault to the seller's holding
/// account and the listing record is destroyed.
pub open spec fn cancel_step(ctx: RemoveListedNFT) -> (RemoveListedNFT, Result<(), ErrorCode>) {
    match ctx.listing {
        None => (ctx, Err(ErrorCode::ListingNotFound)),
        Some(listing) => {
            if listing.seller != ctx.seller {
                (ctx, Err(ErrorCode::Unauthorized))
            } else if listing.mint != ctx.mint {
                (ctx, Err(ErrorCode::MintMismatch))
            } else if ctx.vault.amount < 1 {
                (ctx, Err(ErrorCode::AssetNotInVault))
            } else {
                (
                    RemoveListedNFT {
                        listing: None,
                        nft_account: TokenAccount {
                            amount: (ctx.nft_account.amount + 1) as u64,
                            ..ctx.nft_account
                        },
                        vault: TokenAccount {
                            amount: (ctx.vault.amount - 1) as u64,
                            ..ctx.vault
                        },
                        ..ctx
                    },
                    Ok(()),
                )
            }
        },
    }
}

/// Cancels a listing: transfers the asset unit from the vault back to the
/// seller's holding account, authorized by the vault's program-derived
/// address, then destroys the listing record.
///
/// Succeeds if and only if a record exists, the signer is the recorded
/// seller, the presented asset identity matches the recorded one, and the
/// vault still holds the unit. On any error nothing changes: an impostor
/// gets `Unauthorized`, a wrong asset gets `MintMismatch`, and a listing
/// already consumed by a purchase gets `AssetNotInVault`.
pub fn remove_listed_nft(ctx: &mut RemoveListedNFT) -> (r: Result<(), ErrorCode>)
    requires
        cancel_ctx_wf(*old(ctx)),
        cancel_commits(*old(ctx)) ==> old(ctx).nft_account.amount < u64::MAX,
    ensures
        (*final(ctx), r) == cancel_step(*old(ctx)),
        r is Ok <==> cancel_commits(*old(ctx)),
        r is Err ==> *final(ctx) == *old(ctx),
        r is Ok ==> final(ctx).listing is None
            && final(ctx).nft_account.amount == old(ctx).nft_account.amount + 1
            && final(ctx).vault.amount == old(ctx).vault.amount - 1,
        cancel_ctx_wf(*final(ctx)),
        final(ctx).nft_account.amount + final(ctx).vault.amount
            == old(ctx).nft_account.amount + old(ctx).vault.amount,
{
    let listing = match ctx.listing {
        None => {
            return Err(ErrorCode::ListingNotFound);
        },
        Some(listing) => listing,
    };
    if listing.seller != ctx.seller {
        return Err(ErrorCode::Unauthorized);
    }
    if listing.mint != ctx.mint {
        return Err(ErrorCode::MintMismatch);
    }
    if ctx.vault.amount < 1 {
        return Err(ErrorCode::AssetNotInVault);
    }
    ctx.vault.amount = ctx.vault.amount - 1;
    ctx.nft_account.amount = ctx.nft_account.amount + 1;
    ctx.listing = None;
    Ok(())
}

// ---------------------------------------------------------------------------
// Settlement Coordinator: buying
// ---------------------------------------------------------------------------

/// The accounts a `buy_nft` operation touches.
#[derive(PartialEq, Eq, Clone, Copy, Debug)]
pub struct BuyNFT {
    /// The storage slot holding the listing record being purchased.
    pub listing: Option<Listing>,
    /// The buyer, who co-signed the operation.
    pub buyer: u64,
    /// The recorded seller, recipient of the payment.
    pub seller: u64,
    /// The buyer's settlement-currency balance.
    pub buyer_lamports: u64,
    /// The seller's settlement-currency balance.
    pub seller_lamports: u64,
    /// The custodial vault derived for the listed asset.
    pub vault: TokenAccount,
    /// The buyer's holding account for the listed asset.
    pub buyer_token_account: TokenAccount,
}

/// The scaled payment a purchase moves: the listed price in whole units
/// times the settlement currency's base-unit factor.
pub open spec fn payment_of(price: u64) -> int {
    price * LAMPORTS_PER_SOL
}

/// The account wiring the storage layer establishes before `buy_nft` runs:
/// the seller account is the recorded seller's, the buyer's holding account
/// carries the listed asset, the vault is the well-formed custodial account
/// consistent with the record, and buyer and seller are distinct parties
/// (their currency balances are separate accounts).
pub open spec fn buy_ctx_wf(ctx: BuyNFT) -> bool {
    &&& vault_wf(ctx.vault)
    &&& escrow_inv(ctx.listing, ctx.vault)
    &&& ctx.buyer_token_account.owner == Address::Wallet(ctx.buyer)
    &&& ctx.buyer_token_account.mint == ctx.vault.mint
    &&& ctx.buyer != ctx.seller
    &&& match ctx.listing {
        Some(listing) => listing.seller == ctx.seller,
        None => true,
    }
}

/// Whether the buy transition commits: an active record exists, the buyer
/// can pay the scaled price, and the supplied bump re-derives correctly.
pub open spec fn buy_commits(ctx: BuyNFT, vault_bump: u8) -> bool {
    match ctx.listing {
        Some(listing) => {
            &&& listing.is_active
            &&& ctx.buyer_lamports >= payment_of(listing.price)
            &&& vault_bump == spec_vault_bump(ctx.vault.mint)
        },
        None => false,
    }
}

/// The machine limits a committing purchase must respect: the seller's
/// credited balance and the buyer's incremented holding still fit in their
/// fixed-width accounts. Vacuous whenever the purchase is rejected.
pub open spec fn buy_fits(ctx: BuyNFT, vault_bump: u8) -> bool {
    buy_commits(ctx, vault_bump) ==> {
        &&& ctx.seller_lamports + payment_of(ctx.listing->Some_0.price) <= u64::MAX
        &&& ctx.buyer_token_account.amount < u64::MAX
    }
}

/// The transition `buy_nft` computes: either the error that rejects the
/// purchase with the state unchanged, or the post-state in which the scaled
/// price has moved from buyer to seller, the asset unit has moved from the
/// vault to the buyer's holding account, and the record is permanently
/// inactive.
pub open spec fn buy_step(ctx: BuyNFT, vault_bump: u8) -> (BuyNFT, Result<(), ErrorCode>) {
    match ctx.listing {
        None => (ctx, Err(ErrorCode::ListingNotFound)),
        Some(listing) => {
            if !listing.is_active {
                (ctx, Err(ErrorCode::InactiveListing))
            } else if ctx.buyer_lamports < payment_of(listing.price) {
                (ctx, Err(ErrorCode::InsufficientFunds))
            } else if vault_bump != spec_vault_bump(ctx.vault.mint) {
                (ctx, Err(ErrorCode::InvalidVaultAuthority))
            } else {
                (
                    BuyNFT {
                        listing: Some(Listing { is_active: false, ..listing }),
                        buyer_lamports: (ctx.buyer_lamports - payment_of(listing.price)) as u64,
                        seller_lamports: (ctx.seller_lamports + payment_of(listing.price)) as u64,
                        vault: TokenAccount { amount: (ctx.vault.amount - 1) as u64, ..ctx.vault },
                        buyer_token_account: TokenAccount {
                            amount: (ctx.buyer_token_account.amount + 1) as u64,
                            ..ctx.buyer_token_account
                        },
                        ..ctx
                    },
                    Ok(()),
                )
            }
        },
    }
}

/// Executes a purchase as one atomic operation: re-validates that the
/// listing is active, transfers `price` scaled by the base-unit factor from
/// the buyer's to the seller's currency balance, transfers the asset unit
/// from the vault to the buyer's holding account under the vault's
/// re-derived authority, and sets the listing permanently inactive.
///
/// Succeeds if and only if the record exists and is active, the buyer's
/// balance covers the scaled price, and the supplied `vault_bump` matches
/// re-derivation for the vault's asset. On any error nothing changes: a
/// consumed listing gets `InactiveListing`, a short balance gets
/// `InsufficientFunds` (a price whose scaling exceeds the balance's width
/// can never be covered), and a bad authority proof gets
/// `InvalidVaultAuthority`.
pub fn buy_nft(ctx: &mut BuyNFT, vault_bump: u8) -> (r: Result<(), ErrorCode>)
    requires
        buy_ctx_wf(*old(ctx)),
        buy_fits(*old(ctx), vault_bump),
    ensures
        (*final(ctx), r) == buy_step(*old(ctx), vault_bump),
        r is Ok <==> buy_commits(*old(ctx), vault_bump),
        r is Err ==> *final(ctx) == *old(ctx),
        r is Ok ==> final(ctx).listing == Some(
            Listing { is_active: false, ..old(ctx).listing->Some_0 },
        ),
        r is Ok ==> final(ctx).buyer_lamports
            == old(ctx).buyer_lamports - payment_of(old(ctx).listing->Some_0.price)
            && final(ctx).seller_lamports
                == old(ctx).seller_lamports + payment_of(old(ctx).listing->Some_0.price),
        r is Ok ==> final(ctx).vault.amount == old(ctx).vault.amount - 1
            && final(ctx).buyer_token_account.amount == old(ctx).buyer_token_account.amount + 1,
        buy_ctx_wf(*final(ctx)),
        final(ctx).vault.amount + final(ctx).buyer_token_account.amount
            == old(ctx).vault.amount + old(ctx).buyer_token_account.amount,
        final(ctx).buyer_lamports + final(ctx).seller_lamports
            == old(ctx).buyer_lamports + old(ctx).seller_lamports,
{
    let listing = match ctx.listing {
        None => {
            return Err(ErrorCode::ListingNotFound);
        },
        Some(listing) => listing,
    };
    // Re-validate that the listing is still open for purchase.
    if !listing.is_active {
        return Err(ErrorCode::InactiveListing);
    }
    // The payment in base units. A price whose scaling overflows the balance
    // width cannot be covered by any buyer balance, so it is the same
    // insufficient-funds rejection the currency transfer would report.
    let payment = match listing.price.checked_mul(LAMPORTS_PER_SOL) {
        None => {
            return Err(ErrorCode::InsufficientFunds);
        },
        Some(payment) => payment,
    };
    if ctx.buyer_lamports < payment {
        return Err(ErrorCode::InsufficientFunds);
    }
    // Prove authority over the vault by re-deriving its address and bump.
    if !verify_vault_authority(ctx.vault.owner, ctx.vault.mint, vault_bump) {
        return Err(ErrorCode::InvalidVaultAuthority);
    }
    // All checks passed: apply the whole batch of effects.
    ctx.buyer_lamports = ctx.buyer_lamports - payment;
    ctx.seller_lamports = ctx.seller_lamports + payment;
    ctx.vault.amount = ctx.vault.amount - 1;
    ctx.buyer_token_account.amount = ctx.buyer_token_account.amount + 1;
    ctx.listing = Some(Listing { is_active: false, ..listing });
    Ok(())
}

} // verus!
