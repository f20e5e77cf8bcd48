//! A sealed-bid auction whose bid processing is written as data-oblivious
//! state transitions: first-price and second-price (Vickrey) variants, the
//! final reveal, and the guards that the on-chain orchestrator applies.

pub mod oblivious;
pub mod auction;
pub mod vickrey;
pub mod program;
