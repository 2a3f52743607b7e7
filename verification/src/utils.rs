//! Data types and rules shared by the request handlers.

pub mod board_theorems;
pub mod cargo_manifest;
pub mod connect_four;
pub mod error_handling;
pub mod error_responses;
pub mod network_address;
pub mod reply;
pub mod seeded_rng;
pub mod text;
