use crate::error::TicketError;
use crate::principal::Principal;
use crate::ticket::Ticket;
use anchor_lang::prelude::Pubkey;
use vstd::prelude::*;

verus! {

/// The accounts of an issuance.
#[derive(Clone, Copy, Debug, PartialEq, Eq)]
pub struct CreateTicket {
    /// What is stored where the new ticket is to go: `None` where nothing
    /// is, as issuance needs it.
    pub ticket: Option<Ticket>,
    /// The caller, who issues the ticket and is its first owner.
    pub organizer: Principal,
}

impl CreateTicket {
    /// Why the issuance is refused, if it is: a ticket is there already.
    pub open spec fn refusal(self) -> Option<TicketError> {
        if self.ticket is Some {
            Some(TicketError::DuplicateRecord)
        } else {
            None
        }
    }

    /// The accounts after the issuance: as they were where it is refused,
    /// else holding the new ticket.
    pub open spec fn served(
        self,
        price: u64,
        resale_allowed: bool,
        max_markup: u8,
        mint: Pubkey,
    ) -> CreateTicket {
        if self.refusal() is Some {
            self
        } else {
            CreateTicket {
                ticket: Some(
                    Ticket::issued(self.organizer.key, price, resale_allowed, max_markup, mint),
                ),
                ..self
            }
        }
    }
}

/// Issues a ticket for the asset `mint` to its organizer, at `price`. Whether
/// it may be resold, and at what markup in percent, is fixed here for good.
/// Neither the price nor the markup is held to any range.
pub fn create_ticket(
    ctx: &mut CreateTicket,
    price: u64,
    resale_allowed: bool,
    max_markup: u8,
    mint: Pubkey,
) -> (result: Result<(), TicketError>)
    ensures
        result == match old(ctx).refusal() {
            Some(error) => Err::<(), TicketError>(error),
            None => Ok(()),
        },
        *final(ctx) == old(ctx).served(price, resale_allowed, max_markup, mint),
        result is Err ==> *final(ctx) == *old(ctx),
{
    if ctx.ticket.is_some() {
        return Err(TicketError::DuplicateRecord);
    }
    ctx.ticket = Some(
        Ticket {
            owner: ctx.organizer.key,
            price,
            resale_allowed,
            max_markup,
            original_price: price,
            is_listed: false,
            mint,
        },
    );
    Ok(())
}

/// Issuance into an empty place goes through and leaves there a ticket held
/// by its organizer, priced at its original price and not on offer, which is
/// well formed. Elsewhere it is refused, and nothing changes. The caller's
/// account stays either way.
pub proof fn issuance_creates_an_unlisted_ticket(
    ctx: CreateTicket,
    price: u64,
    resale_allowed: bool,
    max_markup: u8,
    mint: Pubkey,
)
    ensures
        ctx.refusal() is None <==> ctx.ticket is None,
        ctx.refusal() is Some ==> ctx.served(price, resale_allowed, max_markup, mint) == ctx,
        ctx.served(price, resale_allowed, max_markup, mint).organizer == ctx.organizer,
        ctx.refusal() is None ==> {
            let minted = ctx.served(price, resale_allowed, max_markup, mint).ticket->0;
            &&& ctx.served(price, resale_allowed, max_markup, mint).ticket is Some
            &&& minted.owner == ctx.organizer.key
            &&& minted.price == price
            &&& minted.original_price == price
            &&& minted.resale_allowed == resale_allowed
            &&& minted.max_markup == max_markup
            &&& minted.mint == mint
            &&& !minted.is_listed
            &&& minted.well_formed()
        },
{
}

} // verus!
