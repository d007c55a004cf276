//! Client library for the TCP control protocol of the BouyomiChan
//! text-to-speech application.
//!
//! The library builds the exact bytes of each command packet, interprets the
//! single-byte replies of the status queries, and decides the steps of the
//! blocking wait. Opening connections and moving the bytes is left to the
//! caller, who hands the outcome of each exchange back to the library.
use vstd::prelude::*;

pub mod client;
pub mod config;
pub mod error;
pub mod protocol;
pub mod wait;

verus! {

} // verus!
