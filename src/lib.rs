//! Incremental collection of daily trading records for the securities of a
//! stock exchange: window planning, page decoding, reconciliation with what is
//! already stored.

mod date;
pub mod page;
pub mod reconcile;
pub mod record;
pub mod securities;
pub mod plan;

pub use date::{day_text, parse_dmy, DMY_PATTERN, ISO_PATTERN};
