//! Configuration model of a dotfiles manager: a versioned, user-authored
//! schema whose values may differ per operating system, and its resolution
//! into one concrete model for the platform at hand.

pub mod config;
pub mod platform;
