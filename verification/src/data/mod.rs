//! Data exchanged by the FizzBuzz demonstration client and server.

pub mod fizz_buzz;

pub use fizz_buzz::{FizzBuzzCounter, FizzBuzzLine};
