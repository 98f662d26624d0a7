use vstd::prelude::*;

verus! {

/// Everything that can go wrong in a marketplace operation.
///
/// Every guard violation is detected before any mutation, so an operation
/// that returns one of these leaves the ledger exactly as it found it.
#[derive(Clone, Copy, Debug, PartialEq, Eq, Structural)]
pub enum Error {
    /// The addressed listing id was never allocated.
    NotFound { id: u64 },
    /// A second bid was attempted while one is already pending.
    AlreadyBidOn,
    /// Bid acceptance was attempted with no pending bid.
    NoBidToAccept,
    /// Sale completion was attempted with no accepted consumer.
    NoConsumerToSellTo,
    /// A withdrawal exceeds the current escrow balance.
    InsufficientFundsInEscrow,
    /// Dispute resolution with no active dispute, or a release attempted
    /// while the listing is unsold, disputed, or already settled.
    InvalidDisputeResolution,
    /// Escrow addition or identifier allocation would overflow the counter's
    /// width; reported rather than silently wrapped.
    Overflow,
}

} // verus!
