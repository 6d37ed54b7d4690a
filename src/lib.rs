//! Process orchestration core of a disposable local regtest network: port
//! allocation, configuration rendering, process lifecycles, readiness polling
//! and the ordered launch and teardown of a validator and an indexer.

pub mod config;
pub mod lifecycle;
pub mod localnet;
pub mod network;
pub mod ports;
pub mod text;
