//! One-shot smart-card probe: classifies a card by its answer-to-reset
//! signature, drives the contactless polling handshake and the e-money
//! balance-extraction protocol (or a generic identifier read), and yields a
//! single result record. Byte exchange with the reader is left to the caller:
//! the driver hands out command buffers and consumes response buffers.

pub mod atr;
pub mod balance;
pub mod driver;
pub mod generic;
pub mod polling;
