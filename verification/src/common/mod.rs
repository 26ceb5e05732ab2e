//! Common abstractions for the NRF24 radio.

mod command;
mod crc;
mod datarate;
mod gain;
mod pipe;
mod power;
mod register;
mod state;
mod status;
mod width;

pub use command::Command;
pub use crc::CRCBytes;
pub use datarate::DataRate;
pub use gain::Gain;
pub use pipe::PipeConfig;
pub use power::PowerState;
pub use register::{BlockRegister, Register};
pub use state::State;
pub use status::Status;
pub use width::AddressWidth;
