//! End-to-end scenarios and error cases for the marketplace operations.

use nft_marketplace::market::BuyNFT;
use nft_marketplace::market::ErrorCode;
use nft_marketplace::market::LAMPORTS_PER_SOL;
use nft_marketplace::market::ListNFT;
use nft_marketplace::market::Listing;
use nft_marketplace::market::RemoveListedNFT;
use nft_marketplace::market::TokenAccount;
use nft_marketplace::market::buy_nft;
use nft_marketplace::market::list_nft;
use nft_marketplace::market::remove_listed_nft;
use nft_marketplace::vault::Address;
use nft_marketplace::vault::PREFIX;
use nft_marketplace::vault::derive_vault_address;
use nft_marketplace::vault::vault_bump;

const SELLER: u64 = 11;
const BUYER: u64 = 22;
const OTHER_BUYER: u64 = 33;
const STRANGER: u64 = 44;
const MINT: u64 = 7;
const OTHER_MINT: u64 = 8;

fn holding(owner: u64, mint: u64, amount: u64) -> TokenAccount {
    TokenAccount { owner: Address::Wallet(owner), mint, amount }
}

fn empty_vault(mint: u64) -> TokenAccount {
    TokenAccount { owner: derive_vault_address(PREFIX, mint).0, mint, amount: 0 }
}

fn fresh_list_ctx(price_holder_amount: u64) -> ListNFT {
    ListNFT {
        listing: None,
        seller: SELLER,
        nft_account: holding(SELLER, MINT, price_holder_amount),
        mint: MINT,
        vault: empty_vault(MINT),
    }
}

fn listed_ctx() -> ListNFT {
    let mut ctx = fresh_list_ctx(1);
    let r = list_nft(&mut ctx, 10);
    assert!(r.is_ok());
    ctx
}

#[test]
fn list_creates_active_listing_and_escrows_asset() {
    let mut ctx = fresh_list_ctx(1);
    let r = list_nft(&mut ctx, 10);
    assert!(r.is_ok());
    assert_eq!(
        ctx.listing,
        Some(Listing { seller: SELLER, price: 10, mint: MINT, is_active: true })
    );
    assert_eq!(ctx.nft_account.amount, 0);
    assert_eq!(ctx.vault.amount, 1);
}

#[test]
fn list_rejects_occupied_slot() {
    let mut ctx = listed_ctx();
    // The seller somehow holds another unit and targets the same slot again.
    ctx.nft_account.amount = 1;
    let before = ctx;
    let r = list_nft(&mut ctx, 25);
    assert_eq!(r, Err(ErrorCode::ListingAlreadyExists));
    assert_eq!(ctx, before);
}

#[test]
fn list_rejects_seller_without_the_asset() {
    let mut ctx = fresh_list_ctx(0);
    let before = ctx;
    let r = list_nft(&mut ctx, 10);
    assert_eq!(r, Err(ErrorCode::AssetNotOwnedBySeller));
    assert_eq!(ctx, before);
}

#[test]
fn zero_price_listing_is_accepted() {
    let mut ctx = fresh_list_ctx(1);
    let r = list_nft(&mut ctx, 0);
    assert!(r.is_ok());
    assert_eq!(ctx.listing.unwrap().price, 0);
}

#[test]
fn list_then_cancel_restores_everything() {
    // Scenario: the seller lists the asset, then cancels: the seller regains
    // the asset, the vault balance returns to zero, and no record remains.
    let listed = listed_ctx();
    let mut ctx = RemoveListedNFT {
        seller: SELLER,
        nft_account: listed.nft_account,
        listing: listed.listing,
        mint: MINT,
        vault: listed.vault,
    };
    let r = remove_listed_nft(&mut ctx);
    assert!(r.is_ok());
    assert_eq!(ctx.listing, None);
    assert_eq!(ctx.nft_account, holding(SELLER, MINT, 1));
    assert_eq!(ctx.vault, empty_vault(MINT));
}

#[test]
fn cancel_by_stranger_fails_unauthorized() {
    let listed = listed_ctx();
    let mut ctx = RemoveListedNFT {
        seller: STRANGER,
        nft_account: holding(STRANGER, MINT, 0),
        listing: listed.listing,
        mint: MINT,
        vault: listed.vault,
    };
    let before = ctx;
    let r = remove_listed_nft(&mut ctx);
    assert_eq!(r, Err(ErrorCode::Unauthorized));
    assert_eq!(ctx, before);
}

#[test]
fn cancel_with_wrong_asset_fails_mint_mismatch() {
    let listed = listed_ctx();
    // The seller presents a holding account (and thus a vault) for a
    // different asset than the one the listing records.
    let mut ctx = RemoveListedNFT {
        seller: SELLER,
        nft_account: holding(SELLER, OTHER_MINT, 0),
        listing: listed.listing,
        mint: OTHER_MINT,
        vault: empty_vault(OTHER_MINT),
    };
    let before = ctx;
    let r = remove_listed_nft(&mut ctx);
    assert_eq!(r, Err(ErrorCode::MintMismatch));
    assert_eq!(ctx, before);
}

#[test]
fn cancel_without_record_fails_listing_not_found() {
    let mut ctx = RemoveListedNFT {
        seller: SELLER,
        nft_account: holding(SELLER, MINT, 1),
        listing: None,
        mint: MINT,
        vault: empty_vault(MINT),
    };
    let before = ctx;
    let r = remove_listed_nft(&mut ctx);
    assert_eq!(r, Err(ErrorCode::ListingNotFound));
    assert_eq!(ctx, before);
}

fn buy_ctx_after_listing(buyer: u64, buyer_lamports: u64) -> BuyNFT {
    let listed = listed_ctx();
    BuyNFT {
        listing: listed.listing,
        buyer,
        seller: SELLER,
        buyer_lamports,
        seller_lamports: 0,
        vault: listed.vault,
        buyer_token_account: holding(buyer, MINT, 0),
    }
}

#[test]
fn buy_scenario_pays_seller_and_delivers_asset() {
    // Scenario: the seller lists the asset at price 10; a buyer whose
    // balance covers 10 whole units buys it. The seller's currency balance
    // rises by the scaled price, the buyer holds the asset, and the listing
    // is permanently inactive.
    let mut ctx = buy_ctx_after_listing(BUYER, 12 * LAMPORTS_PER_SOL);
    let r = buy_nft(&mut ctx, vault_bump(MINT));
    assert!(r.is_ok());
    assert_eq!(ctx.seller_lamports, 10 * LAMPORTS_PER_SOL);
    assert_eq!(ctx.buyer_lamports, 2 * LAMPORTS_PER_SOL);
    assert_eq!(ctx.buyer_token_account, holding(BUYER, MINT, 1));
    assert_eq!(ctx.vault.amount, 0);
    assert_eq!(
        ctx.listing,
        Some(Listing { seller: SELLER, price: 10, mint: MINT, is_active: false })
    );

    // A second buyer re-attempts the purchase of the same listing: it fails
    // with InactiveListing and that buyer's balance is unchanged.
    let mut second = BuyNFT {
        listing: ctx.listing,
        buyer: OTHER_BUYER,
        seller: SELLER,
        buyer_lamports: 50 * LAMPORTS_PER_SOL,
        seller_lamports: ctx.seller_lamports,
        vault: ctx.vault,
        buyer_token_account: holding(OTHER_BUYER, MINT, 0),
    };
    let before = second;
    let r2 = buy_nft(&mut second, vault_bump(MINT));
    assert_eq!(r2, Err(ErrorCode::InactiveListing));
    assert_eq!(second, before);
    assert_eq!(second.buyer_lamports, 50 * LAMPORTS_PER_SOL);
}

#[test]
fn buy_with_insufficient_funds_changes_nothing() {
    let mut ctx = buy_ctx_after_listing(BUYER, 10 * LAMPORTS_PER_SOL - 1);
    let before = ctx;
    let r = buy_nft(&mut ctx, vault_bump(MINT));
    assert_eq!(r, Err(ErrorCode::InsufficientFunds));
    assert_eq!(ctx, before);
    // The asset stays in the vault and the listing stays active.
    assert_eq!(ctx.vault.amount, 1);
    assert!(ctx.listing.unwrap().is_active);
}

#[test]
fn buy_with_wrong_bump_fails_authority_check() {
    let mut ctx = buy_ctx_after_listing(BUYER, 20 * LAMPORTS_PER_SOL);
    let before = ctx;
    let bad_bump = vault_bump(MINT).wrapping_add(1);
    let r = buy_nft(&mut ctx, bad_bump);
    assert_eq!(r, Err(ErrorCode::InvalidVaultAuthority));
    assert_eq!(ctx, before);
}

#[test]
fn buy_without_record_fails_listing_not_found() {
    let mut ctx = BuyNFT {
        listing: None,
        buyer: BUYER,
        seller: SELLER,
        buyer_lamports: LAMPORTS_PER_SOL,
        seller_lamports: 0,
        vault: empty_vault(MINT),
        buyer_token_account: holding(BUYER, MINT, 0),
    };
    let before = ctx;
    let r = buy_nft(&mut ctx, vault_bump(MINT));
    assert_eq!(r, Err(ErrorCode::ListingNotFound));
    assert_eq!(ctx, before);
}

#[test]
fn unpayable_scaled_price_is_insufficient_funds() {
    // A price whose scaling exceeds the balance width can never be covered.
    let listed_price = u64::MAX / LAMPORTS_PER_SOL + 1;
    let mut list_ctx = fresh_list_ctx(1);
    assert!(list_nft(&mut list_ctx, listed_price).is_ok());
    let mut ctx = BuyNFT {
        listing: list_ctx.listing,
        buyer: BUYER,
        seller: SELLER,
        buyer_lamports: u64::MAX,
        seller_lamports: 0,
        vault: list_ctx.vault,
        buyer_token_account: holding(BUYER, MINT, 0),
    };
    let before = ctx;
    let r = buy_nft(&mut ctx, vault_bump(MINT));
    assert_eq!(r, Err(ErrorCode::InsufficientFunds));
    assert_eq!(ctx, before);
}

#[test]
fn cancel_after_sale_cannot_reclaim_the_asset() {
    // A cancel racing a completed purchase fails cleanly: the asset is no
    // longer in the vault.
    let mut bought = buy_ctx_after_listing(BUYER, 10 * LAMPORTS_PER_SOL);
    assert!(buy_nft(&mut bought, vault_bump(MINT)).is_ok());
    let mut ctx = RemoveListedNFT {
        seller: SELLER,
        nft_account: holding(SELLER, MINT, 0),
        listing: bought.listing,
        mint: MINT,
        vault: bought.vault,
    };
    let before = ctx;
    let r = remove_listed_nft(&mut ctx);
    assert_eq!(r, Err(ErrorCode::AssetNotInVault));
    assert_eq!(ctx, before);
}

#[test]
fn asset_count_is_conserved_across_a_full_history() {
    // list, cancel, list again, buy: at every point the units held by
    // seller, vault and buyer together stay at one.
    let mut list1 = fresh_list_ctx(1);
    assert!(list_nft(&mut list1, 5).is_ok());
    assert_eq!(list1.nft_account.amount + list1.vault.amount, 1);

    let mut cancel = RemoveListedNFT {
        seller: SELLER,
        nft_account: list1.nft_account,
        listing: list1.listing,
        mint: MINT,
        vault: list1.vault,
    };
    assert!(remove_listed_nft(&mut cancel).is_ok());
    assert_eq!(cancel.nft_account.amount + cancel.vault.amount, 1);

    let mut list2 = ListNFT {
        listing: cancel.listing,
        seller: SELLER,
        nft_account: cancel.nft_account,
        mint: MINT,
        vault: cancel.vault,
    };
    assert!(list_nft(&mut list2, 9).is_ok());

    let mut buy = BuyNFT {
        listing: list2.listing,
        buyer: BUYER,
        seller: SELLER,
        buyer_lamports: 9 * LAMPORTS_PER_SOL,
        seller_lamports: 1,
        vault: list2.vault,
        buyer_token_account: holding(BUYER, MINT, 0),
    };
    assert!(buy_nft(&mut buy, vault_bump(MINT)).is_ok());
    assert_eq!(
        list2.nft_account.amount + buy.vault.amount + buy.buyer_token_account.amount,
        1
    );
    assert_eq!(buy.seller_lamports, 9 * LAMPORTS_PER_SOL + 1);
    assert_eq!(buy.buyer_lamports, 0);
}
