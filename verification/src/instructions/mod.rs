//! The program's instructions, each a verified step over plain account data.

pub mod check_status;
pub mod cancel_challenge;
pub mod initialize;
pub mod start_challenge;
pub mod withdraw;
