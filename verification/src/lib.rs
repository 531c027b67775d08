//! Turns a block of markdown into one rendered picture: the decisions of the
//! conversion, from the synthesised document to the negotiation with the
//! rendering engine, as verified functions on plain values.

pub mod coordinator;
pub mod document;
pub mod error;
pub mod input;
pub mod locator;
pub mod naming;
pub mod session;
pub mod settle;
pub mod text;
pub mod viewport;
