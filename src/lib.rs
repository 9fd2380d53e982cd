//! Core of a small secret-distribution daemon: the environment store, its
//! persisted TOML form, the command policy and the request protocol, together
//! with the configuration logic of the command-line client.

use vstd::prelude::*;

pub mod text;
pub mod policy;
pub mod pairs;
pub mod environment;
pub mod store;
pub mod document;
pub mod protocol;
pub mod commands;
pub mod config;
pub mod gui;

verus! {

/// Sum of two integers; the caller guarantees that it fits.
pub fn add(left: u64, right: u64) -> (r: u64)
    requires
        left + right <= u64::MAX,
    ensures
        r == left + right,
{
    left + right
}

} // verus!
