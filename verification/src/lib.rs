//! The client that answers Ethereum requests from the Kakarot contracts on Starknet.
//!
//! The methods of `client::KakarotClient` start its operations. How an operation proceeds from
//! there is told in `step`.
pub mod account;
pub mod address;
pub mod block;
pub mod blocks;
pub mod bytes;
pub mod client;
pub mod config;
pub mod error;
pub mod estimate;
pub mod events;
pub mod fees;
pub mod felt;
pub mod gateway;
pub mod helpers;
pub mod laws;
pub mod simulation;
pub mod step;
pub mod submission;
pub mod text;
pub mod tokens;
pub mod transaction;
pub mod uint;
