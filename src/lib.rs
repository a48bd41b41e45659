//! A node in a chain of cooperating processes: it receives a vector of
//! samples, transforms it with a configured function, keeps the result as its
//! state and pushes that state to its downstream peers.
//!
//! A sample is held here as the bit pattern of an IEEE-754 single-precision
//! value, so that every byte that crosses the wire is accounted for exactly.
pub mod event;
pub mod function;
pub mod node;
