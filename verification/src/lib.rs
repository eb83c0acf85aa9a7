//! A record store for task items.
//!
//! Every task belongs to the address that created it. A task is created once,
//! its completion flag can then be set, toggled or forced to `true` (a soft
//! delete), and every such change is reserved to the author and stamped with
//! the time at which it was made.

pub mod address;
pub mod error;
pub mod task;
pub mod layout;
pub mod laws;
