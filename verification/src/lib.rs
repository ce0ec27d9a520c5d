//! Verified core of two small immediate-mode desktop sketches: a todo list
//! whose items are checked out one at a time into an exclusive edit slot, and
//! a window-layout demo that places each surface exactly once on the frame
//! after it is opened.
//!
//! The rendering layer is kept outside: these modules hold the state
//! containers and the per-frame transition logic on plain values, with
//! contracts that pin each transition down.

pub mod layout;
pub mod todo;
