//! Core of a contest leaderboard: submissions discovered from a syndication
//! feed, their engagement (clap) counts refreshed on a schedule, and the
//! read/write operations the presentation layer uses.
//!
//! The library is pure: network, database and clock stay with the caller,
//! which hands fetched values in and carries out the store writes reported back.
pub mod error;
pub mod models;
pub mod graphql;
pub mod feed;
pub mod store;
pub mod discovery;
pub mod engagement;
pub mod leaderboard;
pub mod schedule;
