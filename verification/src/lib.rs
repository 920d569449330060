//! LinMic: the verified core of a network microphone that carries Android
//! audio to a Linux PipeWire source.
pub mod be;
pub mod codec;
pub mod config;
pub mod control;
pub mod crypto;
pub mod handshake;
pub mod hotkeys;
pub mod jitter;
pub mod monitor;
pub mod network;
pub mod pairing;
pub mod protocol;
pub mod receiver;
pub mod text;
pub mod ui;
