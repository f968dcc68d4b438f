//! Single-asset ascending-price auction core.
//!
//! Bidders escrow funds over successive rounds, the highest cumulative
//! contributor wins, and on closing the owner is paid the winning amount
//! while losing bidders reclaim their escrow minus a commission.
//!
//! The library holds the auction state machine itself: coin arithmetic,
//! bid validation and acceptance, highest-bid tracking, the close
//! transition, and the post-close retraction logic. Persistence, message
//! decoding and the actual movement of funds belong to the host around it;
//! every operation here takes the auction record and the escrow ledger as
//! explicit values and returns the transfer instructions it computed.

use vstd::prelude::*;

pub mod contract;
pub mod error;
pub mod helper;
pub mod model;
pub mod msg;
pub mod response;
pub mod state;

verus! {

/// The single denomination the auction accepts.
pub const ATOM_DENOM: &'static str = "atom";

} // verus!
