//! Marketplace-wide laws, proved over the same transition functions that the
//! executable operations are specified against.
//!
//! Laws about a single operation are stated directly over that operation's
//! transition. Laws that relate several operations, or whole histories, are
//! stated over a closed two-party world — one seller, one buyer, one asset —
//! whose step function applies the operations' own transitions.

use vstd::prelude::*;

use crate::vault::Address;
use crate::market::BuyNFT;
use crate::market::ErrorCode;
use crate::market::ListNFT;
use crate::market::Listing;
use crate::market::RemoveListedNFT;
use crate::market::TokenAccount;
use crate::market::buy_commits;
use crate::market::buy_step;
use crate::market::cancel_step;
use crate::market::escrow_inv;
use crate::market::list_step;
use crate::market::payment_of;
use crate::market::vault_wf;

verus! {

// ---------------------------------------------------------------------------
// Single-operation laws
// ---------------------------------------------------------------------------

/// Cancellation by any identity other than the recorded seller always fails
/// with `Unauthorized` and changes nothing.
pub proof fn lemma_cancel_unauthorized(ctx: RemoveListedNFT)
    requires
        ctx.listing is Some,
        ctx.listing->Some_0.seller != ctx.seller,
    ensures
        cancel_step(ctx) == (ctx, Err::<(), ErrorCode>(ErrorCode::Unauthorized)),
{
}

/// A purchase by a buyer whose currency balance is below the scaled price
/// fails entirely with `InsufficientFunds`: the asset stays in the vault and
/// the listing stays active, because nothing changes at all.
pub proof fn lemma_buy_insufficient_funds(ctx: BuyNFT, vault_bump: u8)
    requires
        ctx.listing is Some,
        ctx.listing->Some_0.is_active,
        ctx.buyer_lamports < payment_of(ctx.listing->Some_0.price),
    ensures
        buy_step(ctx, vault_bump) == (ctx, Err::<(), ErrorCode>(ErrorCode::InsufficientFunds)),
{
}

/// A purchase succeeds exactly once. After a committing purchase, a second
/// purchase against the same listing — with any authority proof — always
/// fails with `InactiveListing` and moves no currency and no asset.
pub proof fn lemma_buy_succeeds_exactly_once(ctx: BuyNFT, bump_first: u8, bump_second: u8)
    requires
        buy_commits(ctx, bump_first),
    ensures
        buy_step(ctx, bump_first).1 == Ok::<(), ErrorCode>(()),
        buy_step(buy_step(ctx, bump_first).0, bump_second) == (
            buy_step(ctx, bump_first).0,
            Err::<(), ErrorCode>(ErrorCode::InactiveListing),
        ),
{
}

/// Once a record is inactive, every purchase attempt against it — whatever
/// buyer, balances, vault or authority proof the attempt presents — fails
/// with `InactiveListing` and changes nothing. Together with
/// `lemma_buy_succeeds_exactly_once` this makes a sold listing terminal for
/// every later caller, not only the one who bought it.
pub proof fn lemma_inactive_listing_rejects_buy(ctx: BuyNFT, vault_bump: u8)
    requires
        ctx.listing is Some,
        !ctx.listing->Some_0.is_active,
    ensures
        buy_step(ctx, vault_bump) == (ctx, Err::<(), ErrorCode>(ErrorCode::InactiveListing)),
{
}

// ---------------------------------------------------------------------------
// The closed two-party world
// ---------------------------------------------------------------------------

/// A complete two-party world: one seller, one distinct buyer, one asset,
/// the asset's vault and listing slot, and both parties' balances.
#[derive(PartialEq, Eq, Clone, Copy, Debug)]
pub struct MarketState {
    /// The seller's identity.
    pub seller: u64,
    /// The buyer's identity.
    pub buyer: u64,
    /// The asset everyone is trading.
    pub mint: u64,
    /// The storage slot for the asset's listing record.
    pub listing: Option<Listing>,
    /// The seller's holding account for the asset.
    pub seller_nft: TokenAccount,
    /// The buyer's holding account for the asset.
    pub buyer_nft: TokenAccount,
    /// The custodial vault derived for the asset.
    pub vault: TokenAccount,
    /// The seller's settlement-currency balance.
    pub seller_lamports: u64,
    /// The buyer's settlement-currency balance.
    pub buyer_lamports: u64,
}

/// One operation submitted to the world.
#[derive(PartialEq, Eq, Clone, Copy, Debug)]
pub enum MarketOp {
    /// The seller lists the asset at this price.
    List(u64),
    /// The named identity attempts to cancel the listing.
    CancelBy(u64),
    /// The buyer attempts a purchase, presenting this vault bump.
    Buy(u8),
}

/// Well-formedness of the world: accounts are wired to their owners and the
/// asset, the escrow invariant ties slot and vault, any recorded listing was
/// made by the world's seller, and the account totals fit their fixed-width
/// balances (an account can never exceed the machine's balance width, so the
/// combined holdings cannot either).
pub open spec fn market_wf(st: MarketState) -> bool {
    &&& st.seller != st.buyer
    &&& st.seller_nft.owner == Address::Wallet(st.seller)
    &&& st.seller_nft.mint == st.mint
    &&& st.buyer_nft.owner == Address::Wallet(st.buyer)
    &&& st.buyer_nft.mint == st.mint
    &&& st.vault.mint == st.mint
    &&& vault_wf(st.vault)
    &&& escrow_inv(st.listing, st.vault)
    &&& match st.listing {
        Some(listing) => listing.seller == st.seller,
        None => true,
    }
    &&& st.seller_nft.amount + st.buyer_nft.amount + st.vault.amount <= u64::MAX
    &&& st.seller_lamports + st.buyer_lamports <= u64::MAX
}

/// The listing context the world hands to the list transition.
pub open spec fn list_ctx_of(st: MarketState) -> ListNFT {
    ListNFT {
        listing: st.listing,
        seller: st.seller,
        nft_account: st.seller_nft,
        mint: st.mint,
        vault: st.vault,
    }
}

/// The cancel context the world hands to the cancel transition. The signer
/// may be anyone; the receiving account is the seller's, because only the
/// recorded seller's cancellation ever commits.
pub open spec fn cancel_ctx_of(st: MarketState, signer: u64) -> RemoveListedNFT {
    RemoveListedNFT {
        seller: signer,
        nft_account: st.seller_nft,
        listing: st.listing,
        mint: st.mint,
        vault: st.vault,
    }
}

/// The buy context the world hands to the buy transition.
pub open spec fn buy_ctx_of(st: MarketState) -> BuyNFT {
    BuyNFT {
        listing: st.listing,
        buyer: st.buyer,
        seller: st.seller,
        buyer_lamports: st.buyer_lamports,
        seller_lamports: st.seller_lamports,
        vault: st.vault,
        buyer_token_account: st.buyer_nft,
    }
}

/// One atomic step of the world: the submitted operation's own transition,
/// with its touched accounts written back.
pub open spec fn market_step(st: MarketState, op: MarketOp) -> MarketState {
    match op {
        MarketOp::List(price) => {
            let ctx = list_step(list_ctx_of(st), price).0;
            MarketState {
                listing: ctx.listing,
                seller_nft: ctx.nft_account,
                vault: ctx.vault,
                ..st
            }
        },
        MarketOp::CancelBy(signer) => {
            let ctx = cancel_step(cancel_ctx_of(st, signer)).0;
            MarketState {
                listing: ctx.listing,
                seller_nft: ctx.nft_account,
                vault: ctx.vault,
                ..st
            }
        },
        MarketOp::Buy(vault_bump) => {
            let ctx = buy_step(buy_ctx_of(st), vault_bump).0;
            MarketState {
                listing: ctx.listing,
                buyer_nft: ctx.buyer_token_account,
                vault: ctx.vault,
                seller_lamports: ctx.seller_lamports,
                buyer_lamports: ctx.buyer_lamports,
                ..st
            }
        },
    }
}

/// A whole history: the world after submitting `ops` in order.
pub open spec fn run_market(st: MarketState, ops: Seq<MarketOp>) -> MarketState
    decreases ops.len(),
{
    if ops.len() == 0 {
        st
    } else {
        run_market(market_step(st, ops[0]), ops.subrange(1, ops.len() as int))
    }
}

/// The asset units held by seller, vault and buyer together.
pub open spec fn asset_total(st: MarketState) -> int {
    st.seller_nft.amount + st.vault.amount + st.buyer_nft.amount
}

/// The settlement currency held by seller and buyer together.
pub open spec fn lamport_total(st: MarketState) -> int {
    st.seller_lamports + st.buyer_lamports
}

/// Every single step preserves well-formedness and conserves both the asset
/// units and the settlement currency: an operation only relocates value.
pub proof fn lemma_step_preserves(st: MarketState, op: MarketOp)
    requires
        market_wf(st),
    ensures
        market_wf(market_step(st, op)),
        asset_total(market_step(st, op)) == asset_total(st),
        lamport_total(market_step(st, op)) == lamport_total(st),
{
}

/// Conservation across every history: over any sequence of list, cancel and
/// buy operations — successful or rejected, honest or adversarial — the
/// asset unit count in (seller + vault + buyer) and the combined currency
/// balance are never created or destroyed, only relocated, and the world
/// stays well formed.
pub proof fn lemma_run_conserves(st: MarketState, ops: Seq<MarketOp>)
    requires
        market_wf(st),
    ensures
        market_wf(run_market(st, ops)),
        asset_total(run_market(st, ops)) == asset_total(st),
        lamport_total(run_market(st, ops)) == lamport_total(st),
    decreases ops.len(),
{
    if ops.len() > 0 {
        lemma_step_preserves(st, ops[0]);
        lemma_run_conserves(market_step(st, ops[0]), ops.subrange(1, ops.len() as int));
    }
}

/// Listing and then immediately cancelling restores the world exactly: the
/// seller's asset balance returns to its pre-listing value, the vault
/// empties, and no listing record remains.
pub proof fn lemma_list_then_cancel_restores(st: MarketState, price: u64)
    requires
        market_wf(st),
        st.listing is None,
        st.seller_nft.amount >= 1,
    ensures
        market_step(st, MarketOp::List(price)).listing == Some(
            Listing { seller: st.seller, price, mint: st.mint, is_active: true },
        ),
        market_step(market_step(st, MarketOp::List(price)), MarketOp::CancelBy(st.seller)) == st,
{
}

/// A recorded listing's seller, price and asset never change, and activity
/// is never regained: any step either leaves the record as it is, destroys
/// it (cancellation), or clears its active flag (purchase). In particular no
/// transition leads out of the inactive terminal state.
pub proof fn lemma_listing_record_immutable(st: MarketState, op: MarketOp)
    requires
        market_wf(st),
        st.listing is Some,
    ensures
        ({
            let before = st.listing->Some_0;
            let after = market_step(st, op).listing;
            after is Some ==> {
                &&& after->Some_0.seller == before.seller
                &&& after->Some_0.price == before.price
                &&& after->Some_0.mint == before.mint
                &&& after->Some_0.is_active ==> before.is_active
            }
        }),
{
}

} // verus!

