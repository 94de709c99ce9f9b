//! Databases that speak `StateMachine`.

pub mod key_value_store;
