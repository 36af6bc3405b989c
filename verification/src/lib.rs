//! The state machine of a ticket market.
//!
//! A ticket is minted by an organizer, may be offered for resale by whoever
//! owns it, within the markup its organizer allowed, and changes hands when a
//! buyer pays the asking price. Each operation takes the accounts it works on
//! as plain values; the host that stores them reads and writes them back.

pub mod error;
pub mod issuance;
pub mod lifecycle;
pub mod listing;
pub mod principal;
pub mod purchase;
pub mod ticket;

pub use error::TicketError;
pub use issuance::{create_ticket, CreateTicket};
pub use listing::{list_ticket, ListTicket};
pub use principal::Principal;
pub use purchase::{buy_ticket, transfer, BuyTicket};
pub use ticket::{markup_ceiling, Ticket};
