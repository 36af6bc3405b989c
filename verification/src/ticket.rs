use anchor_lang::prelude::Pubkey;
use vstd::prelude::*;

verus! {

/// The highest price at which a ticket first sold at `original_price` may be
/// offered when its markup is capped at `max_markup` percent: the original
/// price and that percentage of it, rounded down.
pub open spec fn markup_ceiling(original_price: int, max_markup: int) -> int {
    original_price + original_price * max_markup / 100
}

/// One minted ticket, as the ledger stores it.
#[derive(Clone, Copy, Debug, PartialEq, Eq)]
pub struct Ticket {
    /// Who holds the ticket, and sells it while it is listed.
    pub owner: Pubkey,
    /// The asking price; it counts only while the ticket is listed.
    pub price: u64,
    /// Whether the ticket may be resold at all. Fixed at issuance.
    pub resale_allowed: bool,
    /// The markup allowed on resale, in percent. Fixed at issuance.
    pub max_markup: u8,
    /// The price at issuance, from which the ceiling is taken. Fixed at issuance.
    pub original_price: u64,
    /// Whether the ticket is on offer.
    pub is_listed: bool,
    /// The asset that the ticket stands for. Fixed at issuance.
    pub mint: Pubkey,
}

impl Ticket {
    /// The ticket that issuance creates: held by its issuer, priced at its
    /// original price, not on offer.
    pub open spec fn issued(
        issuer: Pubkey,
        price: u64,
        resale_allowed: bool,
        max_markup: u8,
        mint: Pubkey,
    ) -> Ticket {
        Ticket {
            owner: issuer,
            price,
            resale_allowed,
            max_markup,
            original_price: price,
            is_listed: false,
            mint,
        }
    }

    /// This ticket once it is on offer at `new_price`.
    pub open spec fn listed_at(self, new_price: u64) -> Ticket {
        Ticket { price: new_price, is_listed: true, ..self }
    }

    /// This ticket once `buyer` has bought it: theirs, and off the market.
    pub open spec fn sold_to(self, buyer: Pubkey) -> Ticket {
        Ticket { owner: buyer, is_listed: false, ..self }
    }

    /// The markup ceiling of this ticket.
    pub open spec fn ceiling(self) -> int {
        markup_ceiling(self.original_price as int, self.max_markup as int)
    }

    /// What holds of every ticket that the market's operations produce: one
    /// on offer is resalable and asks no more than its ceiling.
    pub open spec fn well_formed(self) -> bool {
        self.is_listed ==> self.resale_allowed && self.price <= self.ceiling()
    }

    /// Whether `other` agrees with this ticket in all that issuance fixes.
    pub open spec fn same_issue(self, other: Ticket) -> bool {
        &&& other.resale_allowed == self.resale_allowed
        &&& other.max_markup == self.max_markup
        &&& other.original_price == self.original_price
        &&& other.mint == self.mint
    }

    /// Computes the markup ceiling. It can exceed `u64`, so it is taken in
    /// 128 bits, where neither the product nor the sum can overflow.
    pub fn max_allowed_price(&self) -> (ceiling: u128)
        ensures
            ceiling == self.ceiling(),
    {
        let original: u128 = self.original_price as u128;
        let percent: u128 = self.max_markup as u128;
        assert(original * percent <= 0xffff_ffff_ffff_ffff * 0xff) by (nonlinear_arith)
            requires
                original <= 0xffff_ffff_ffff_ffff,
                percent <= 0xff,
        ;
        original + original * percent / 100
    }
}

} // verus!
