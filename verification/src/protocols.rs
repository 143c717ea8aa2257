//! Handlers for the addresses that the browser answers by itself.

pub mod moto;
pub mod urlinfo;
