//! Keeps the address records of a DNS zone pointed at the caller's public
//! address: the rules of a dynamic-DNS update, with the calls themselves left
//! to the program that drives them.

pub mod config;
pub mod endpoints;
pub mod laws;
pub mod messages;
pub mod model;
pub mod protocol;
pub mod records;
pub mod status;
pub mod text;
pub mod trace;
pub mod updater;
