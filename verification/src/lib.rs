//! An escrow-backed marketplace for transferring ownership of a unique,
//! indivisible digital asset between two parties, mediated by a
//! program-controlled custodial vault and a persistent listing record.
//!
//! The marketplace is a state machine over two persistent record kinds: a
//! `Listing` (seller, asset identity, price, active flag) and token holding
//! accounts. Three operations exist: `list_nft` moves one asset unit from the
//! seller into the vault and creates an active listing; `remove_listed_nft`
//! returns the unit to the seller and destroys the listing; `buy_nft` moves
//! settlement currency from buyer to seller, moves the unit from the vault to
//! the buyer, and flips the listing to its terminal inactive state. The
//! underlying ledger runs each operation atomically: every function here
//! either applies all of its effects or returns an error and changes nothing.

pub mod vault;
pub mod market;
pub mod laws;
