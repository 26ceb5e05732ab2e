//! A driver core for the NRF24L01 and NRF24L01+ radio devices, written so that
//! the host performs every bus exchange and the library decides every byte.

pub mod base;
pub mod common;
pub mod model;
pub mod rx;
