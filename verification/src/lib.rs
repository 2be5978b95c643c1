//! Escrowed freelance invoices: the rules by which an invoice is created,
//! funded, delivered, approved, paid out or cancelled, with the events and
//! token movements that each step produces.

pub mod constants;
pub mod party;
pub mod events;
pub mod invoice;
pub mod lifecycle;
pub mod laws;
