//! Capabilities: the requests that the core hands to its host shell, and
//! the results that the shell hands back.

pub mod holder;
pub mod key;
pub mod memory;
pub mod store;
