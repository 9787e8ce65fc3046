//! A bitcoin faucet's core: the request shapes and their normalisation, the
//! choice of the signing key, and the funding session that decides when to
//! mine, build, sign, broadcast and confirm.
pub mod cli;
pub mod config;
pub mod funder;
pub mod keys;
pub mod request;
