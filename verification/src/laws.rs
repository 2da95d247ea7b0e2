//! What the operations of the client come to.
//!
//! Each law speaks of calls of the functions themselves and says what holds of their results, over
//! the fields of what goes in and what comes out. The laws on numbers and texts say what the
//! words are that the others use.
pub mod accounts;
pub mod blocks;
pub mod estimates;
pub mod events;
pub mod fees;
pub mod numbers;
pub mod simulations;
pub mod submissions;
pub mod texts;
