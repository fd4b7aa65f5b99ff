//! A fundraiser-style lottery: a creator escrows a prize, participants buy
//! numbered tickets, and after a deadline a winner is drawn with an index
//! obtained from an independent randomness service, after which the prize
//! and the ticket proceeds are paid out exactly once.
//!
//! The library is the lottery's ledger and state machine over plain values.
//! Everything the hosting platform does on its own — holding storage,
//! moving funds, delivering the asynchronous randomness reply — is handed
//! in and out as values: entry points take the current timestamp, the
//! caller and the attached payment as arguments, and return the transfers
//! and the randomness request that the host must perform as [`types::Transfer`]
//! and [`types::TriggerAction`] values.

pub mod types;
pub mod lottery;
pub mod laws;
