//! The verified core of a one-shot command publisher: it reads broker
//! settings from a TOML text and decides, step by step, what a run that
//! connects, subscribes and publishes one command does next.

pub mod document;
pub mod publisher;
pub mod settings;
