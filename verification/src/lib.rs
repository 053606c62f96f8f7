//! A process-lifecycle harness: it owns one service and one fixed-size worker
//! pool, blocks until the first termination signal, then drives the single
//! shutdown sequence — service first, then pool — and hands control back.

pub mod errors;
pub mod pool;
pub mod service;
pub mod signals;
pub mod host;
