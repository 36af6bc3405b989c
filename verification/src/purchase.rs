use crate::error::TicketError;
use crate::principal::{same_key, Principal};
use crate::ticket::Ticket;
use anchor_lang::prelude::Pubkey;
use vstd::prelude::*;

verus! {

/// A ledger of balances by party, once `amount` has moved from `from` to
/// `to`. Moved from a party to itself, it leaves the ledger as it was.
pub open spec fn transfer(
    ledger: Map<Pubkey, int>,
    from: Pubkey,
    to: Pubkey,
    amount: int,
) -> Map<Pubkey, int>
    recommends
        ledger.dom().contains(from),
        ledger.dom().contains(to),
{
    let debited = ledger.insert(from, ledger[from] - amount);
    debited.insert(to, debited[to] + amount)
}

/// The accounts of a purchase.
#[derive(Clone, Copy, Debug, PartialEq, Eq)]
pub struct BuyTicket {
    /// What is stored where the request looks for its ticket: `None` where
    /// nothing is.
    pub ticket: Option<Ticket>,
    /// The seller: the account of the ticket's current owner, who is paid.
    pub owner: Principal,
    /// The caller, who pays and gets the ticket.
    pub buyer: Principal,
}

impl BuyTicket {
    /// Why the purchase is refused, if it is. The checks are made in this
    /// order, and the first that fails decides.
    pub open spec fn refusal(self) -> Option<TicketError> {
        match self.ticket {
            None => Some(TicketError::RecordNotFound),
            Some(ticket) => if !ticket.is_listed {
                Some(TicketError::TicketNotListed)
            } else if self.buyer.lamports < ticket.price {
                Some(TicketError::InsufficientFunds)
            } else {
                None
            },
        }
    }

    /// Whether the accounts fit together: the seller's account is that of the
    /// ticket's owner, and where the price is to move to another party, the
    /// seller's balance with the price added still fits its 64 bits.
    pub open spec fn well_formed(self) -> bool {
        self.ticket matches Some(ticket) ==> {
            &&& self.owner.key == ticket.owner
            &&& self.refusal() is None && self.buyer.key != self.owner.key
                ==> self.owner.lamports + ticket.price <= u64::MAX
        }
    }

    /// The accounts after the purchase: as they were where it is refused,
    /// else with the ticket the buyer's and off the market, and the price
    /// moved from the buyer to the seller. A buyer who is the seller pays
    /// itself: both balances stay.
    pub open spec fn served(self) -> BuyTicket
        recommends
            self.well_formed(),
    {
        match (self.ticket, self.refusal()) {
            (Some(ticket), None) => if self.buyer.key == self.owner.key {
                BuyTicket { ticket: Some(ticket.sold_to(self.buyer.key)), ..self }
            } else {
                BuyTicket {
                    ticket: Some(ticket.sold_to(self.buyer.key)),
                    owner: self.owner.credited(ticket.price),
                    buyer: self.buyer.debited(ticket.price),
                }
            },
            _ => self,
        }
    }

    /// The balances that these accounts hold, by party. Buyer and seller may
    /// be one party, which then has the balance of the buyer's account.
    pub open spec fn balances(self) -> Map<Pubkey, int> {
        Map::<Pubkey, int>::empty().insert(self.owner.key, self.owner.lamports as int).insert(
            self.buyer.key,
            self.buyer.lamports as int,
        )
    }

    /// Tells whether the accounts fit together.
    pub fn is_well_formed(&self) -> (fit: bool)
        ensures
            fit == self.well_formed(),
    {
        match self.ticket {
            None => true,
            Some(ticket) => {
                if !same_key(&self.owner.key, &ticket.owner) {
                    return false;
                }
                if !ticket.is_listed || self.buyer.lamports < ticket.price || same_key(
                    &self.buyer.key,
                    &self.owner.key,
                ) {
                    return true;
                }
                ticket.price <= u64::MAX - self.owner.lamports
            },
        }
    }
}

/// Sells the ticket to the caller at its asking price: the price moves from
/// the buyer to the seller, whole and at once, the ticket becomes the
/// buyer's, and it is no longer on offer. A ticket that is not on offer, or
/// a buyer whose balance does not cover the price, is refused, and then
/// nothing changes. An owner may buy its own ticket: it needs the funds, and
/// keeps them.
pub fn buy_ticket(ctx: &mut BuyTicket) -> (result: Result<(), TicketError>)
    requires
        old(ctx).well_formed(),
    ensures
        result == match old(ctx).refusal() {
            Some(error) => Err::<(), TicketError>(error),
            None => Ok(()),
        },
        *final(ctx) == old(ctx).served(),
        result is Err ==> *final(ctx) == *old(ctx),
        result is Ok && old(ctx).buyer.key != old(ctx).owner.key ==> {
            &&& final(ctx).owner.lamports == old(ctx).owner.lamports + old(ctx).ticket->0.price
            &&& final(ctx).buyer.lamports == old(ctx).buyer.lamports - old(ctx).ticket->0.price
        },
        result is Ok && old(ctx).buyer.key == old(ctx).owner.key ==> {
            &&& final(ctx).owner.lamports == old(ctx).owner.lamports
            &&& final(ctx).buyer.lamports == old(ctx).buyer.lamports
        },
{
    match ctx.ticket {
        None => Err(TicketError::RecordNotFound),
        Some(ticket) => {
            if !ticket.is_listed {
                return Err(TicketError::TicketNotListed);
            }
            if ctx.buyer.lamports < ticket.price {
                return Err(TicketError::InsufficientFunds);
            }
            if !same_key(&ctx.buyer.key, &ctx.owner.key) {
                ctx.buyer.lamports = ctx.buyer.lamports - ticket.price;
                ctx.owner.lamports = ctx.owner.lamports + ticket.price;
            }
            ctx.ticket = Some(Ticket { owner: ctx.buyer.key, is_listed: false, ..ticket });
            Ok(())
        },
    }
}

/// A transfer changes two balances and no third: the payer has `amount`
/// less, the payee `amount` more, and every other party what it had, an
/// account or none. Paid to itself, a party has what it had.
pub proof fn transfer_moves_exactly_the_amount(
    ledger: Map<Pubkey, int>,
    from: Pubkey,
    to: Pubkey,
    amount: int,
    who: Pubkey,
)
    ensures
        from != to ==> transfer(ledger, from, to, amount)[from] == ledger[from] - amount,
        from != to ==> transfer(ledger, from, to, amount)[to] == ledger[to] + amount,
        from == to ==> transfer(ledger, from, to, amount)[from] == ledger[from],
        who != from && who != to ==> transfer(ledger, from, to, amount)[who] == ledger[who],
        who != from && who != to ==> (transfer(ledger, from, to, amount).dom().contains(who)
            <==> ledger.dom().contains(who)),
{
}

/// After a purchase that went through, the ticket is the buyer's and off the
/// market, all else of it as before, and the balances are those of one
/// transfer of the asking price from the buyer to the seller: the seller has
/// exactly the price more and the buyer exactly the price less, unless they
/// are one party, which has what it had.
pub proof fn purchase_pays_the_seller_and_hands_over_the_ticket(ctx: BuyTicket)
    requires
        ctx.well_formed(),
        ctx.refusal() is None,
    ensures
        ctx.served().ticket == Some(ctx.ticket->0.sold_to(ctx.buyer.key)),
        ctx.served().ticket->0.owner == ctx.buyer.key,
        !ctx.served().ticket->0.is_listed,
        ctx.served().buyer.key == ctx.buyer.key,
        ctx.served().owner.key == ctx.owner.key,
        ctx.served().balances() == transfer(
            ctx.balances(),
            ctx.buyer.key,
            ctx.owner.key,
            ctx.ticket->0.price as int,
        ),
        ctx.buyer.key != ctx.owner.key ==> {
            &&& ctx.served().owner.lamports == ctx.owner.lamports + ctx.ticket->0.price
            &&& ctx.served().buyer.lamports == ctx.buyer.lamports - ctx.ticket->0.price
        },
        ctx.buyer.key == ctx.owner.key ==> {
            &&& ctx.served().owner.lamports == ctx.owner.lamports
            &&& ctx.served().buyer.lamports == ctx.buyer.lamports
        },
{
    let price = ctx.ticket->0.price as int;
    assert(ctx.served().balances() =~= transfer(
        ctx.balances(),
        ctx.buyer.key,
        ctx.owner.key,
        price,
    ));
}

/// A purchase is refused unless the ticket is on offer, and a refused
/// purchase changes nothing: neither the ticket nor a balance.
pub proof fn no_purchase_of_a_ticket_not_on_offer(ctx: BuyTicket)
    ensures
        ctx.ticket matches Some(ticket) && !ticket.is_listed ==> ctx.refusal() == Some(
            TicketError::TicketNotListed,
        ),
        ctx.refusal() is Some ==> ctx.served() == ctx,
{
}

/// A ticket that was bought is off the market: whoever tries to buy it next,
/// before it is listed again, is refused.
pub proof fn no_second_purchase_without_a_listing(first: BuyTicket, second: BuyTicket)
    requires
        first.refusal() is None,
        second.ticket == first.served().ticket,
    ensures
        second.refusal() == Some(TicketError::TicketNotListed),
        second.served() == second,
{
}

/// A purchase touches the owner and the offer and nothing else of the
/// ticket: what issuance fixed stays, and so does the asking price. The
/// owner changes only where the ticket was on offer. A ticket that was well
/// formed stays so.
pub proof fn purchase_keeps_issue_and_price(ctx: BuyTicket)
    ensures
        ctx.served().ticket is Some <==> ctx.ticket is Some,
        ctx.ticket matches Some(ticket) ==> {
            let after = ctx.served().ticket->0;
            &&& ticket.same_issue(after)
            &&& after.price == ticket.price
            &&& after.owner != ticket.owner ==> ticket.is_listed && after.owner == ctx.buyer.key
            &&& ticket.well_formed() ==> after.well_formed()
        },
{
}

} // verus!
