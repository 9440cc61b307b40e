//! A small 8-bit microprocessor emulator: a flat byte-addressable memory
//! image, a register/flag/clock record, and a decode-execute engine that
//! runs one instruction per `step` call and hands back immutable snapshots
//! of the processor state and a bounded memory window.

pub mod computer;
pub mod lemmas;
pub mod processor;
pub mod semantics;
