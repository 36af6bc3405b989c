use anchor_lang::prelude::Pubkey;
use ticket_market::{create_ticket, CreateTicket, Principal, Ticket, TicketError};

fn key(byte: u8) -> Pubkey {
    Pubkey::new_from_array([byte; 32])
}

fn sample(owner: Pubkey) -> Ticket {
    Ticket {
        owner,
        price: 70,
        resale_allowed: true,
        max_markup: 10,
        original_price: 50,
        is_listed: true,
        mint: key(8),
    }
}

#[test]
fn issuance_stores_its_arguments_verbatim() {
    let organizer = Principal { key: key(1), lamports: 42 };
    let mut ctx = CreateTicket { ticket: None, organizer };
    assert_eq!(create_ticket(&mut ctx, 250, false, 255, key(7)), Ok(()));
    assert_eq!(
        ctx.ticket,
        Some(Ticket {
            owner: key(1),
            price: 250,
            resale_allowed: false,
            max_markup: 255,
            original_price: 250,
            is_listed: false,
            mint: key(7),
        })
    );
    assert_eq!(ctx.organizer, organizer);
}

#[test]
fn issuance_takes_a_price_of_zero() {
    let mut ctx = CreateTicket { ticket: None, organizer: Principal { key: key(1), lamports: 0 } };
    assert_eq!(create_ticket(&mut ctx, 0, true, 0, key(7)), Ok(()));
    let minted = ctx.ticket.unwrap();
    assert_eq!(minted.price, 0);
    assert_eq!(minted.original_price, 0);
    assert_eq!(minted.max_allowed_price(), 0);
}

#[test]
fn issuance_into_an_occupied_place_is_a_duplicate() {
    let there = sample(key(3));
    let organizer = Principal { key: key(1), lamports: 42 };
    let mut ctx = CreateTicket { ticket: Some(there), organizer };
    assert_eq!(create_ticket(&mut ctx, 250, true, 20, key(7)), Err(TicketError::DuplicateRecord));
    assert_eq!(ctx, CreateTicket { ticket: Some(there), organizer });
}

#[test]
fn a_second_issuance_in_the_same_place_is_a_duplicate() {
    let mut ctx = CreateTicket { ticket: None, organizer: Principal { key: key(1), lamports: 0 } };
    assert_eq!(create_ticket(&mut ctx, 100, true, 20, key(7)), Ok(()));
    let first = ctx.ticket;
    assert_eq!(create_ticket(&mut ctx, 999, false, 1, key(6)), Err(TicketError::DuplicateRecord));
    assert_eq!(ctx.ticket, first);
}

#[test]
fn ceiling_is_the_price_and_its_percentage_rounded_down() {
    let with = |original_price: u64, max_markup: u8| Ticket {
        owner: key(1),
        price: 0,
        resale_allowed: true,
        max_markup,
        original_price,
        is_listed: false,
        mint: key(2),
    };
    assert_eq!(with(100, 20).max_allowed_price(), 120);
    assert_eq!(with(99, 20).max_allowed_price(), 118);
    assert_eq!(with(1, 99).max_allowed_price(), 1);
    assert_eq!(with(100, 0).max_allowed_price(), 100);
    assert_eq!(with(100, 100).max_allowed_price(), 200);
    assert_eq!(with(250, 255).max_allowed_price(), 887);
    assert_eq!(with(0, 255).max_allowed_price(), 0);
}

#[test]
fn ceiling_may_lie_beyond_sixty_four_bits() {
    let ticket = Ticket {
        owner: key(1),
        price: 0,
        resale_allowed: true,
        max_markup: 255,
        original_price: u64::MAX,
        is_listed: false,
        mint: key(2),
    };
    assert_eq!(ticket.max_allowed_price(), 65485941461668908233u128);
    let slight = Ticket { max_markup: 1, ..ticket };
    assert_eq!(slight.max_allowed_price(), 18631211514446647131u128);
}
