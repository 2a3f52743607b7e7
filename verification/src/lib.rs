//! Verified building blocks of a small holiday puzzle service.
//!
//! The heart of it is a four-by-four drop-token game for two players:
//! [`utils::connect_four`] holds the board and its rules,
//! [`utils::board_theorems`] what is proved of them, and
//! [`modules::day_twelve`] the one game session that the service keeps,
//! with what each game request does to it and answers. The seeded generator
//! behind synthetic boards is wrapped in [`utils::seeded_rng`].
//!
//! Around it stand stateless helpers, one module for each puzzle: address
//! arithmetic, gift orders read from a manifest, a milk counter, the pages
//! of a quote book, and a decorated page with presents, ornaments and the
//! dots of a lockfile.
//!
//! Nothing in this library waits, locks, or reads from a network or a disk.
//! Every function takes plain values and hands plain values back.

pub mod modules;
pub mod utils;
