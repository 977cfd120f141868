//! Verified core of a companion daemon for an ACME certificate manager.

pub mod args;
pub mod bootstrap;
pub mod chall;
pub mod config;
pub mod daemon;
pub mod document;
pub mod names;
pub mod setup;
