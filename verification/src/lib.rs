//! Fixed-point option pricing and the lifecycle of a bilateral option contract.

pub mod accounts;
pub mod errors;
pub mod escrow;
pub mod lifecycle;
pub mod math;
pub mod roots;
