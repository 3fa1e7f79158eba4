//! Wire types the library's logic reads.

pub mod decisions;
pub mod policies;
pub mod pep;
pub mod agent;
pub mod hitl;
