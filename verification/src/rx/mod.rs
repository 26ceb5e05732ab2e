//! Receiver configuration of NRF24L01(+) devices.

mod config;
mod laws;
mod lifecycle;
mod payload;
mod pipe;
mod receiver;

pub use config::{flag_bit, gain_code, mask_of, rate_bits, width_code, Config, PipeTables};
pub use laws::{
    lemma_addrwidth_bijection, lemma_config_bits, lemma_mask_bit, lemma_pipe_masks,
    lemma_pipe_tables, lemma_rfsetup_gain,
};
pub use lifecycle::{
    coherent, lemma_begin_is_coherent, lemma_listen_from_power_down,
    lemma_listen_when_listening, lemma_receive_nothing, lemma_state_only_advances,
    lemma_unlisten_keeps_state, rank,
};
pub use payload::Payload;
pub use pipe::Pipe;
pub use receiver::{
    is_setup_write, setup_register, setup_value, Action, Goal, Machine, Outcome, Phase, Receiver,
    CLEAR_IRQ, POWER_UP,
};
