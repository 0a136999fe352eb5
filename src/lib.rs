//! A peer-to-peer rental marketplace: an item catalog and a rental escrow
//! engine whose price computation, fee split, authorization rules and state
//! transitions are stated and proved.

pub mod key;
pub mod pricing;
pub mod fees;
pub mod item_registration;
pub mod rental_flow;
