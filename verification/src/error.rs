use vstd::prelude::*;

verus! {

/// Why a request was refused. A refused request changes nothing.
#[derive(Clone, Copy, Debug, PartialEq, Eq, Structural)]
pub enum TicketError {
    /// A ticket is already stored where the new one was to be issued.
    DuplicateRecord,
    /// The ticket was issued as not resalable.
    ResaleNotAllowed,
    /// The caller is not the ticket's current owner.
    NotOwner,
    /// The asking price is above the ticket's markup ceiling.
    ExceedsMaxMarkup,
    /// The ticket is not on offer.
    TicketNotListed,
    /// The buyer's balance does not cover the price.
    InsufficientFunds,
    /// No ticket is stored where the request looked for one.
    RecordNotFound,
}

} // verus!
