//! What each endpoint decides: how a request is validated, compiled and keyed, and how the
//! rows that come back are assembled into a response.

pub mod constituents;
pub mod exposure;
pub mod health;
pub mod instruments;
pub mod listing;
pub mod pivot;
pub mod pnl;
