//! Message shapes of a fungible token and the acceptance rules for the
//! request that creates one.

pub mod chain;
pub mod error;
pub mod msg;
pub mod rules;
