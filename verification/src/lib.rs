//! A verified take-home-pay engine for a progressive tax and
//! social-insurance regime.
//!
//! Gross annual income, a dependent count and an optional recurring-cost
//! policy go in; a fully itemized breakdown of national tax, local tax and
//! the three insurance premiums comes out. All currency arithmetic is
//! whole-yen integer arithmetic with truncating division; every public
//! function carries a contract that pins its result down exactly, and the
//! bracket tables are validated at construction so that a malformed table
//! can never reach a calculation.

pub mod aggregate;
pub mod arith;
pub mod deduction;
pub mod insurance;
pub mod regime;
pub mod report;
pub mod tables;
pub mod tax;
