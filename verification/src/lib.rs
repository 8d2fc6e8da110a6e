//! Configuration and resource management for a CAN-FD bus controller.
//!
//! The crate models the controller's register block as plain values, computes
//! nominal bit-timing register fields from integer clock parameters, plans the
//! placement of the message-RAM regions inside a 64 KiB-addressable window,
//! and gates configuration-only operations behind a two-state handle pair.

use vstd::prelude::*;

pub mod bus;
pub mod config;
pub mod ram;
pub mod reg;
pub mod status;
pub mod timing;

verus! {

/// Errors that may arise during configuration.
#[derive(Debug, PartialEq, Eq, Structural, Clone, Copy)]
pub enum ConfigurationError {
    /// Divider is too large for the peripheral; carries the truncated divider.
    InvalidDivider(u32),
    /// Generating the bitrate would require a division by less than one.
    ZeroDivider,
    /// Input clock / divider yields a poor integer division; carries the
    /// achieved output frequency in Hz.
    BitTimeRounding(u32),
    /// Output clock is not supposed to be running.
    StoppedOutputClock,
    /// The bit-time quanta is zero.
    ZeroQuanta,
    /// Divider is not a number.
    DividerIsNaN,
    /// Divider is infinite.
    DividerIsInf,
    /// Time stamp prescaler value is not in the range [1, 16].
    InvalidTimeStampPrescaler,
    /// The provided memory is not addressable by the peripheral.
    MemoryNotAddressable,
}

/// Index is out of bounds.
#[derive(Debug, PartialEq, Eq, Structural, Clone, Copy)]
pub struct OutOfBounds;

/// Token for identifying a bus during runtime.
#[derive(Clone, Copy, Debug, Eq, PartialEq, Structural)]
pub enum BusSlot {
    /// Peripheral 0
    Can0,
    /// Peripheral 1
    Can1,
}

} // verus!
