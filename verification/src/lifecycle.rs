//! What holds of a ticket over several requests in a row.

use crate::error::TicketError;
use crate::issuance::CreateTicket;
use crate::listing::ListTicket;
use crate::principal::Principal;
use crate::purchase::BuyTicket;
use crate::ticket::markup_ceiling;
use anchor_lang::prelude::Pubkey;
use vstd::prelude::*;

verus! {

/// A ticket that was issued and never listed cannot be bought: whoever
/// tries, with whatever balance, is refused as the ticket is not on offer.
pub proof fn no_purchase_before_a_listing(
    issue: CreateTicket,
    price: u64,
    resale_allowed: bool,
    max_markup: u8,
    mint: Pubkey,
    purchase: BuyTicket,
)
    requires
        issue.refusal() is None,
        purchase.ticket == issue.served(price, resale_allowed, max_markup, mint).ticket,
    ensures
        purchase.refusal() == Some(TicketError::TicketNotListed),
        purchase.served() == purchase,
{
}

/// A ticket goes round: issued to its organizer as resalable, listed by the
/// organizer within the ceiling and bought by `first`, it is `first`'s and
/// off the market; listed again by `first` within the ceiling and bought by
/// `second`, it is `second`'s. Each buyer covers the price asked of it, and
/// each seller's balance has room for it.
pub proof fn ticket_changes_hands_twice(
    organizer: Principal,
    price: u64,
    max_markup: u8,
    mint: Pubkey,
    first_ask: u64,
    first: Principal,
    second_ask: u64,
    second: Principal,
)
    requires
        first_ask <= markup_ceiling(price as int, max_markup as int),
        second_ask <= markup_ceiling(price as int, max_markup as int),
        first_ask <= first.lamports,
        second_ask <= second.lamports,
        first.key != organizer.key ==> organizer.lamports + first_ask <= u64::MAX,
        second.key != first.key ==> (if first.key == organizer.key {
            first.lamports + second_ask
        } else {
            first.lamports - first_ask + second_ask
        }) <= u64::MAX,
    ensures
        ({
            let issued = CreateTicket { ticket: None, organizer }.served(
                price,
                true,
                max_markup,
                mint,
            );
            let listing = ListTicket { ticket: issued.ticket, owner: organizer };
            let purchase = BuyTicket {
                ticket: listing.served(first_ask).ticket,
                owner: organizer,
                buyer: first,
            };
            let holder = if first.key == organizer.key {
                first
            } else {
                first.debited(first_ask)
            };
            let relisting = ListTicket { ticket: purchase.served().ticket, owner: holder };
            let repurchase = BuyTicket {
                ticket: relisting.served(second_ask).ticket,
                owner: holder,
                buyer: second,
            };
            &&& listing.refusal(first_ask) is None
            &&& purchase.well_formed()
            &&& purchase.refusal() is None
            &&& purchase.served().ticket is Some
            &&& purchase.served().ticket->0.owner == first.key
            &&& !purchase.served().ticket->0.is_listed
            &&& purchase.served().buyer == holder
            &&& relisting.refusal(second_ask) is None
            &&& repurchase.well_formed()
            &&& repurchase.refusal() is None
            &&& repurchase.served().ticket is Some
            &&& repurchase.served().ticket->0.owner == second.key
            &&& !repurchase.served().ticket->0.is_listed
        }),
{
}

} // verus!
