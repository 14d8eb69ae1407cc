//! A verified core for a wagering, turn-based two-player hand game.
//!
//! Players stake funds, get matched either through a single public lobby
//! slot or a private shared-secret token, alternate submitting hands
//! across rounds until one side reaches the win threshold, and the escrow
//! is released to the winner. If a matched opponent goes silent, the
//! waiting player may claim the full escrow after a deadline; an
//! unmatched waiting player may reclaim their own stake.
//!
//! The host ledger (fund transfers, storage persistence, message
//! encoding, sender authentication) is an external collaborator: this
//! crate computes state transitions and payout instructions as plain
//! values.

pub mod conf;
pub mod contract;
pub mod laws;
pub mod msg;
pub mod state;
pub mod token;

