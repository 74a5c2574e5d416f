//! The judging core of a haggling merchant game: customers ask for a mix of
//! goods, the player assembles it on a two-pan balance (with genuine and
//! counterfeit weights), and the customer pays, sends the player back to the
//! scale, or storms off.
//!
//! Masses are whole decigrams (a tenth of a gram); prices and gold are whole
//! tenths of a gold piece; times are whole milliseconds.

pub mod attention;
mod chance;
pub mod customer;
pub mod goods;
pub mod ledger;
pub mod scales;
pub mod shop;
