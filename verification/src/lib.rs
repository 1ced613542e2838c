//! Command encoding for the ST7565 family of LCD controllers.
//!
//! The controller is driven by one- and two-byte commands. This crate holds
//! the command set as plain data ([`command`]), the mapping from a command to
//! the bytes that go over the bus ([`frame`]), with the properties of that
//! mapping that a driver relies on ([`laws`]), and the send operation that
//! hands an encoded command to a transport ([`send`]).

pub mod command;
pub mod frame;
pub mod laws;
pub mod send;
