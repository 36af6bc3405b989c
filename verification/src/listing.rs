use crate::error::TicketError;
use crate::principal::{same_key, Principal};
use crate::ticket::Ticket;
use vstd::prelude::*;

verus! {

/// The accounts of a listing request.
#[derive(Clone, Copy, Debug, PartialEq, Eq)]
pub struct ListTicket {
    /// What is stored where the request looks for its ticket: `None` where
    /// nothing is.
    pub ticket: Option<Ticket>,
    /// The caller, who claims to own the ticket.
    pub owner: Principal,
}

impl ListTicket {
    /// Why the request to list at `new_price` is refused, if it is. The
    /// checks are made in this order, and the first that fails decides.
    pub open spec fn refusal(self, new_price: u64) -> Option<TicketError> {
        match self.ticket {
            None => Some(TicketError::RecordNotFound),
            Some(ticket) => if !ticket.resale_allowed {
                Some(TicketError::ResaleNotAllowed)
            } else if ticket.owner != self.owner.key {
                Some(TicketError::NotOwner)
            } else if new_price > ticket.ceiling() {
                Some(TicketError::ExceedsMaxMarkup)
            } else {
                None
            },
        }
    }

    /// The accounts after the request: as they were where it is refused,
    /// else with the ticket on offer at `new_price`.
    pub open spec fn served(self, new_price: u64) -> ListTicket {
        match (self.ticket, self.refusal(new_price)) {
            (Some(ticket), None) => ListTicket { ticket: Some(ticket.listed_at(new_price)), ..self },
            _ => self,
        }
    }
}

/// Puts the ticket on offer at `new_price`, or changes its asking price if it
/// is on offer already. Only the owner of a resalable ticket may do so, and
/// only up to the ticket's markup ceiling. No value moves.
pub fn list_ticket(ctx: &mut ListTicket, new_price: u64) -> (result: Result<(), TicketError>)
    ensures
        result == match old(ctx).refusal(new_price) {
            Some(error) => Err::<(), TicketError>(error),
            None => Ok(()),
        },
        *final(ctx) == old(ctx).served(new_price),
        result is Err ==> *final(ctx) == *old(ctx),
{
    match ctx.ticket {
        None => Err(TicketError::RecordNotFound),
        Some(ticket) => {
            if !ticket.resale_allowed {
                return Err(TicketError::ResaleNotAllowed);
            }
            if !same_key(&ticket.owner, &ctx.owner.key) {
                return Err(TicketError::NotOwner);
            }
            let max_allowed_price: u128 = ticket.max_allowed_price();
            if new_price as u128 > max_allowed_price {
                return Err(TicketError::ExceedsMaxMarkup);
            }
            ctx.ticket = Some(Ticket { price: new_price, is_listed: true, ..ticket });
            Ok(())
        },
    }
}

/// A ticket issued as not resalable is never listed: whoever asks, and at
/// whatever price, is refused for that reason, and nothing changes.
pub proof fn no_listing_where_resale_is_forbidden(ctx: ListTicket, new_price: u64)
    requires
        ctx.ticket matches Some(ticket) && !ticket.resale_allowed,
    ensures
        ctx.refusal(new_price) == Some(TicketError::ResaleNotAllowed),
        ctx.served(new_price) == ctx,
{
}

/// A caller who does not own the ticket cannot list it, and nothing changes.
/// Of a ticket that is not resalable the caller is told so instead, as that
/// check comes first.
pub proof fn no_listing_by_another_than_the_owner(ctx: ListTicket, new_price: u64)
    requires
        ctx.ticket matches Some(ticket) && ticket.resale_allowed && ticket.owner != ctx.owner.key,
    ensures
        ctx.refusal(new_price) == Some(TicketError::NotOwner),
        ctx.served(new_price) == ctx,
{
}

/// The owner of a resalable ticket who asks exactly the ceiling is served,
/// and who asks one more than the ceiling is refused as beyond the markup.
/// In general a price is taken if and only if it is not above the ceiling,
/// and a price above it is refused for that reason and no other.
pub proof fn listing_is_bounded_by_the_ceiling(ctx: ListTicket, new_price: u64)
    requires
        ctx.ticket matches Some(ticket) && ticket.resale_allowed && ticket.owner == ctx.owner.key,
    ensures
        new_price == ctx.ticket->0.ceiling() ==> ctx.refusal(new_price) is None,
        new_price == ctx.ticket->0.ceiling() + 1 ==> ctx.refusal(new_price) == Some(
            TicketError::ExceedsMaxMarkup,
        ),
        ctx.refusal(new_price) is None <==> new_price <= ctx.ticket->0.ceiling(),
        ctx.refusal(new_price) is None ==> ctx.served(new_price).ticket == Some(
            ctx.ticket->0.listed_at(new_price),
        ),
        ctx.refusal(new_price) is Some ==> ctx.refusal(new_price) == Some(
            TicketError::ExceedsMaxMarkup,
        ) && ctx.served(new_price) == ctx,
{
}

/// Listing touches the asking price and the offer and nothing else: the
/// owner stays, what issuance fixed stays, the caller's account stays, and a
/// refused request changes nothing at all. A ticket that leaves a listing on
/// offer asks no more than its ceiling; one that was well formed stays so.
pub proof fn listing_keeps_owner_and_issue(ctx: ListTicket, new_price: u64)
    ensures
        ctx.served(new_price).owner == ctx.owner,
        ctx.served(new_price).ticket is Some <==> ctx.ticket is Some,
        ctx.refusal(new_price) is Some ==> ctx.served(new_price) == ctx,
        ctx.ticket matches Some(ticket) ==> {
            let after = ctx.served(new_price).ticket->0;
            &&& after.owner == ticket.owner
            &&& ticket.same_issue(after)
            &&& ctx.refusal(new_price) is None ==> after.is_listed && after.price == new_price
                && after.well_formed()
            &&& ticket.well_formed() ==> after.well_formed()
        },
{
}

} // verus!
