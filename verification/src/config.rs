//! Configuration values supplied by the caller: bus timing, CAN-FD options
//! and the runtime parameters of the message-RAM regions.

use vstd::prelude::*;

verus! {

/// Source feeding the timestamp counter.
#[derive(Clone, Copy, Debug, PartialEq, Eq, Structural)]
pub enum TimestampSelect {
    /// Counter always reads zero.
    Zero,
    /// Counter increments once per prescaled bit time.
    Increment,
    /// Counter follows an external timestamp unit.
    External,
}

impl TimestampSelect {
    /// Register encoding of the source select.
    pub open spec fn code_spec(self) -> u8 {
        match self {
            TimestampSelect::Zero => 0,
            TimestampSelect::Increment => 1,
            TimestampSelect::External => 2,
        }
    }

    /// Register encoding of the source select.
    pub fn code(self) -> (r: u8)
        ensures
            r == self.code_spec(),
    {
        match self {
            TimestampSelect::Zero => 0,
            TimestampSelect::Increment => 1,
            TimestampSelect::External => 2,
        }
    }
}

/// Whether CAN-FD frames may be used once operational.
#[derive(Clone, Copy, Debug, PartialEq, Eq, Structural)]
pub enum CanFdMode {
    /// Classic CAN frames only.
    Classic,
    /// CAN-FD frames allowed.
    Fd,
}

impl CanFdMode {
    /// The FD-operation-enable register bit.
    pub open spec fn bit_spec(self) -> bool {
        self is Fd
    }

    /// The FD-operation-enable register bit.
    pub fn bit(self) -> (r: bool)
        ensures
            r == self.bit_spec(),
    {
        match self {
            CanFdMode::Classic => false,
            CanFdMode::Fd => true,
        }
    }
}

/// Test/loopback mode of the controller.
#[derive(Clone, Copy, Debug, PartialEq, Eq, Structural)]
pub enum TestMode {
    /// Normal operation.
    Disabled,
    /// Internal loopback for self-test.
    Loopback,
}

/// What the controller does with frames that match no acceptance filter.
#[derive(Clone, Copy, Debug, PartialEq, Eq, Structural)]
pub enum NonMatchingFrames {
    /// Store the frame in receive FIFO 0.
    IntoFifo0,
    /// Store the frame in receive FIFO 1.
    IntoFifo1,
    /// Reject the frame.
    Reject,
}

impl NonMatchingFrames {
    /// Register encoding of the policy.
    pub open spec fn code_spec(self) -> u8 {
        match self {
            NonMatchingFrames::IntoFifo0 => 0,
            NonMatchingFrames::IntoFifo1 => 1,
            NonMatchingFrames::Reject => 2,
        }
    }

    /// Register encoding of the policy.
    pub fn code(self) -> (r: u8)
        ensures
            r == self.code_spec(),
    {
        match self {
            NonMatchingFrames::IntoFifo0 => 0,
            NonMatchingFrames::IntoFifo1 => 1,
            NonMatchingFrames::Reject => 2,
        }
    }
}

/// Nominal bit-timing parameters and the timestamp configuration.
///
/// One bit time on the bus is `1 + phase_seg_1 + phase_seg_2` clock quanta:
/// the fixed synchronization quantum plus the two phase segments.
#[derive(Clone, Copy, Debug, PartialEq, Eq, Structural)]
pub struct BitTiming {
    /// (Re)synchronization jump width in quanta.
    pub sjw: u8,
    /// Phase segment before the sample point, in quanta.
    pub phase_seg_1: u8,
    /// Phase segment after the sample point, in quanta.
    pub phase_seg_2: u8,
    /// Timestamp prescaler; valid values are 1 through 16.
    pub ts_prescale: u8,
    /// Timestamp counter source.
    pub ts_select: TimestampSelect,
}

impl BitTiming {
    /// Quanta per bit time: one synchronization quantum plus the segments.
    pub open spec fn quanta_spec(self) -> u16 {
        (1 + self.phase_seg_1 + self.phase_seg_2) as u16
    }

    /// Quanta per bit time: one synchronization quantum plus the segments.
    pub fn quanta(&self) -> (r: u16)
        ensures
            r == self.quanta_spec(),
    {
        1 + (self.phase_seg_1 as u16) + (self.phase_seg_2 as u16)
    }
}

/// Full bus configuration applied while the controller is configurable.
#[derive(Clone, Copy, Debug, PartialEq, Eq, Structural)]
pub struct CanConfig {
    /// Nominal bit timing and timestamping.
    pub timing: BitTiming,
    /// Classic CAN or CAN-FD operation.
    pub fd_mode: CanFdMode,
    /// Bit-rate switching for the data phase of CAN-FD frames.
    pub bit_rate_switching: bool,
    /// Policy for non-matching frames with standard IDs.
    pub nm_std: NonMatchingFrames,
    /// Policy for non-matching frames with extended IDs.
    pub nm_ext: NonMatchingFrames,
    /// Test/loopback mode.
    pub test: TestMode,
}

/// Operating mode of a receive FIFO when it is full.
#[derive(Clone, Copy, Debug, PartialEq, Eq, Structural)]
pub enum RxFifoMode {
    /// New frames are dropped while the FIFO is full.
    Blocking,
    /// New frames overwrite the oldest entry.
    Overwrite,
}

/// Runtime parameters of one receive FIFO.
#[derive(Clone, Copy, Debug, PartialEq, Eq, Structural)]
pub struct RxFifoConfig {
    /// Full-FIFO behaviour.
    pub mode: RxFifoMode,
    /// Watermark level for the watermark interrupt.
    pub watermark: u8,
}

/// Ordering discipline of the shared transmit slots.
#[derive(Clone, Copy, Debug, PartialEq, Eq, Structural)]
pub enum TxQueueMode {
    /// Transmit in FIFO order.
    Fifo,
    /// Transmit in priority (queue) order.
    Queue,
}

/// Runtime parameters of the transmit buffer section.
#[derive(Clone, Copy, Debug, PartialEq, Eq, Structural)]
pub struct TxBufferConfig {
    /// FIFO or priority-queue ordering of the shared slots.
    pub mode: TxQueueMode,
}

/// Runtime parameters of the transmit event FIFO.
#[derive(Clone, Copy, Debug, PartialEq, Eq, Structural)]
pub struct TxEventFifoConfig {
    /// Watermark level for the watermark interrupt.
    pub watermark: u8,
}

/// Runtime parameters of all message-RAM regions.
#[derive(Clone, Copy, Debug, PartialEq, Eq, Structural)]
pub struct RamConfig {
    /// Receive FIFO 0 parameters.
    pub rxf0: RxFifoConfig,
    /// Receive FIFO 1 parameters.
    pub rxf1: RxFifoConfig,
    /// Transmit buffer parameters.
    pub txbc: TxBufferConfig,
    /// Transmit event FIFO parameters.
    pub txefc: TxEventFifoConfig,
}

} // verus!
