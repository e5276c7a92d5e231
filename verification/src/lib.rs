//! Usage reports for Codex: who used how many tokens, what they are charged at, and how
//! the report is written as JSON or laid out as a table.
//!
//! [`usage`] holds what was used, [`pricing`] what models cost, and [`billing`] which
//! tokens are charged at which rate. [`report`] writes the JSON, [`table`] lays out the
//! table. [`rates`], [`rows`] and [`cells`] state what each of these gives in terms of the
//! recorded usage alone, [`costs`] and [`consistency`] what holds across them.

pub mod billing;
pub mod cells;
pub mod consistency;
pub mod costs;
pub mod json;
pub mod names;
pub mod pricing;
pub mod rates;
pub mod report;
pub mod rows;
pub mod table;
pub mod totals;
pub mod usage;
