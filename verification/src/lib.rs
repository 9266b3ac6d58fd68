//! Verified core of a charity / crowdfunding program: campaigns that collect
//! donations, let their owner withdraw what was raised, and let donors reclaim
//! their donation in full while the campaign still holds it.
//!
//! Every instruction is a function from the accounts it touches (as plain
//! values) to the accounts it leaves behind, with the exact rule for each
//! refusal. The runtime glue (reading the clock, moving lamports through the
//! system program, account (de)serialisation) lives outside this crate.

pub mod address;
pub mod error;
pub mod state;
pub mod instructions;
pub mod pda;
pub mod laws;
pub mod outcomes;

pub use address::Address;
pub use error::CharityError;
pub use instructions::{close_campaign, donate, initialize_campaign, request_refund, withdraw};
pub use pda::{campaign_pda, donation_record_pda, program_id};
pub use state::{Campaign, DonationRecord};
