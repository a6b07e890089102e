//! What the subnet actor knows of the other actors it sends messages to.

pub mod account;
pub mod sca;
