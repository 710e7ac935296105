//! Bring-up of a quad-SPI PSRAM chip behind a memory-mapped QSPI controller:
//! chip identification, timing derivation and the register programming
//! protocol, each as plain functions over plain values. The caller owns the
//! hardware: it carries out one register access at a time and hands back
//! what it read.

pub mod bringup;
pub mod console;
pub mod probe;
pub mod protocol;
pub mod regs;
pub mod sbi;
pub mod serial;
pub mod timing;
