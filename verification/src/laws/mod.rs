//! What the library promises, stated of calls.
//!
//! A law here takes the arguments and the results of one or more calls (`call_ensures`) and says
//! how they are related, in the numbers and texts that a caller sees.
pub mod activation;
pub mod calls;
pub mod config;
pub mod creation;
pub mod device;
pub mod features;
pub mod lifecycle;
pub mod requests;
pub mod setup;
pub mod window;
