//! A marketplace escrow ledger.
//!
//! Farmers list products, a consumer places a bid, the farmer accepts it,
//! the sale is marked complete, funds move through an escrow balance, and
//! disputes may pause or redirect settlement.  The crate models the whole
//! ledger as one [`market::Marketplace`] value: an identifier allocator,
//! a store of active listings, and an append-only archive of settled sales.
//! Every operation is specified by the state it requires and the exact
//! transition it performs, over the ghost model in [`model`].

pub mod errors;
pub mod laws;
pub mod listing;
pub mod market;
pub mod model;
