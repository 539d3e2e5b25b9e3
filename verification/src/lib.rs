//! A time-locked, two-party fund escrow.
//!
//! A donor deposits funds for a claimer, subject to three ordered deadlines.
//! After the first deadline the claimer may take half of the funds; after the
//! second, the remainder; after the third (reclaim) deadline the donor may
//! recover whatever is left. The escrow state machine here is pure: the host
//! that embeds it supplies the current epoch and the caller's identity as
//! arguments and performs the asset transfers that successful calls report.

pub mod deal;
pub mod laws;
pub mod sc;
