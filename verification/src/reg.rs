//! Model of the controller's register block.
//!
//! Each register is a struct of plain field values. The crate computes and
//! writes these values; a hardware binding copies them into the memory-mapped
//! block. Reset values follow the controller's documented defaults: the
//! initialization request bit starts set, everything else starts cleared.

use vstd::prelude::*;

verus! {

/// Description of a single hardware register: the width of its raw value.
pub trait RegisterSpec {
    /// Raw register type (the full word read from or written to hardware).
    type Ux;
}

/// Message RAM Configuration register.
pub struct MRCFG_SPEC;

impl RegisterSpec for MRCFG_SPEC {
    type Ux = u32;
}

/// CC control register: mode bits and CAN-FD options.
#[derive(Clone, Copy, Debug, PartialEq, Eq, Structural)]
pub struct Cccr {
    /// Initialization request; while set, the bus neither sends nor receives.
    pub init: bool,
    /// Configuration change enable; gates writes to protected registers.
    pub cce: bool,
    /// CAN-FD operation enable.
    pub fdoe: bool,
    /// Bit-rate switching enable.
    pub brse: bool,
    /// Test mode enable.
    pub test: bool,
}

/// Nominal bit timing and prescaler register.
#[derive(Clone, Copy, Debug, PartialEq, Eq, Structural)]
pub struct Nbtp {
    /// Nominal (re)synchronization jump width.
    pub nsjw: u8,
    /// Nominal time segment before the sample point.
    pub ntseg1: u8,
    /// Nominal time segment after the sample point.
    pub ntseg2: u8,
    /// Nominal bit-rate prescaler, zero-based (hardware divides by this + 1).
    pub nbrp: u16,
}

/// Timestamp counter configuration register.
#[derive(Clone, Copy, Debug, PartialEq, Eq, Structural)]
pub struct Tscc {
    /// Timestamp source select.
    pub tss: u8,
    /// Timestamp counter prescaler, zero-based (counts every this + 1 quanta).
    pub tcp: u8,
}

/// Data bit timing and prescaler register.
#[derive(Clone, Copy, Debug, PartialEq, Eq, Structural)]
pub struct Dbtp {
    /// Data bit-rate prescaler.
    pub dbrp: u8,
}

/// Global filter configuration register.
#[derive(Clone, Copy, Debug, PartialEq, Eq, Structural)]
pub struct Gfc {
    /// Behaviour for non-matching standard frames.
    pub anfs: u8,
    /// Behaviour for non-matching extended frames.
    pub anfe: u8,
}

/// Test register.
#[derive(Clone, Copy, Debug, PartialEq, Eq, Structural)]
pub struct TestReg {
    /// Loopback mode enable.
    pub lbck: bool,
}

/// Standard message ID filter configuration register.
#[derive(Clone, Copy, Debug, PartialEq, Eq, Structural)]
pub struct Sidfc {
    /// Filter list standard start address.
    pub flssa: u16,
    /// List size of standard filters.
    pub lss: u8,
}

/// Extended message ID filter configuration register.
#[derive(Clone, Copy, Debug, PartialEq, Eq, Structural)]
pub struct Xidfc {
    /// Filter list extended start address.
    pub flesa: u16,
    /// List size of extended filters.
    pub lse: u8,
}

/// Receive buffer configuration register.
#[derive(Clone, Copy, Debug, PartialEq, Eq, Structural)]
pub struct Rxbc {
    /// Receive buffer start address.
    pub rbsa: u16,
}

/// Receive buffer / FIFO element size configuration register.
#[derive(Clone, Copy, Debug, PartialEq, Eq, Structural)]
pub struct Rxesc {
    /// Receive buffer data field size code.
    pub rbds: u8,
    /// Receive FIFO 0 data field size code.
    pub f0ds: u8,
    /// Receive FIFO 1 data field size code.
    pub f1ds: u8,
}

/// Receive FIFO configuration register (one per FIFO).
#[derive(Clone, Copy, Debug, PartialEq, Eq, Structural)]
pub struct RxFifoCfg {
    /// FIFO operation mode: true for overwrite, false for blocking.
    pub fom: bool,
    /// FIFO watermark level.
    pub fwm: u8,
    /// FIFO size in elements.
    pub fs: u8,
    /// FIFO start address.
    pub fsa: u16,
}

/// Transmit buffer configuration register.
#[derive(Clone, Copy, Debug, PartialEq, Eq, Structural)]
pub struct Txbc {
    /// Transmit queue mode: true for queue, false for FIFO.
    pub tfqm: bool,
    /// Transmit FIFO/queue size in elements.
    pub tfqs: u8,
    /// Number of dedicated transmit buffers.
    pub ndtb: u8,
    /// Transmit buffers start address.
    pub tbsa: u16,
}

/// Transmit buffer element size configuration register.
#[derive(Clone, Copy, Debug, PartialEq, Eq, Structural)]
pub struct Txesc {
    /// Transmit buffer data field size code.
    pub tbds: u8,
}

/// Transmit event FIFO configuration register.
#[derive(Clone, Copy, Debug, PartialEq, Eq, Structural)]
pub struct Txefc {
    /// Event FIFO watermark level.
    pub efwm: u8,
    /// Event FIFO size in elements.
    pub efs: u8,
    /// Event FIFO start address.
    pub efsa: u16,
}

/// The whole register block of one controller instance.
///
/// Read-only hardware status (`psr`, `ecr`, `tscv`) is held as the raw word
/// the controller would present; the crate only decodes it.
#[derive(Clone, Copy, Debug, PartialEq, Eq, Structural)]
pub struct RegisterBlock {
    /// CC control register.
    pub cccr: Cccr,
    /// Nominal bit timing and prescaler.
    pub nbtp: Nbtp,
    /// Timestamp counter configuration.
    pub tscc: Tscc,
    /// Data bit timing and prescaler.
    pub dbtp: Dbtp,
    /// Global filter configuration.
    pub gfc: Gfc,
    /// Test register.
    pub test: TestReg,
    /// Standard filter list configuration.
    pub sidfc: Sidfc,
    /// Extended filter list configuration.
    pub xidfc: Xidfc,
    /// Receive buffer configuration.
    pub rxbc: Rxbc,
    /// Receive element size configuration.
    pub rxesc: Rxesc,
    /// Receive FIFO 0 configuration.
    pub rxf0c: RxFifoCfg,
    /// Receive FIFO 1 configuration.
    pub rxf1c: RxFifoCfg,
    /// Transmit buffer configuration.
    pub txbc: Txbc,
    /// Transmit element size configuration.
    pub txesc: Txesc,
    /// Transmit event FIFO configuration.
    pub txefc: Txefc,
    /// Message RAM configuration (device-specific QoS setting).
    pub mrcfg: u32,
    /// Raw protocol status register word.
    pub psr: u32,
    /// Raw error counter register word.
    pub ecr: u32,
    /// Free-running timestamp counter value.
    pub tscv: u16,
}

impl RegisterBlock {
    /// The block as the controller presents it after reset.
    pub open spec fn reset() -> RegisterBlock {
        RegisterBlock {
            cccr: Cccr { init: true, cce: false, fdoe: false, brse: false, test: false },
            nbtp: Nbtp { nsjw: 0, ntseg1: 0, ntseg2: 0, nbrp: 0 },
            tscc: Tscc { tss: 0, tcp: 0 },
            dbtp: Dbtp { dbrp: 0 },
            gfc: Gfc { anfs: 0, anfe: 0 },
            test: TestReg { lbck: false },
            sidfc: Sidfc { flssa: 0, lss: 0 },
            xidfc: Xidfc { flesa: 0, lse: 0 },
            rxbc: Rxbc { rbsa: 0 },
            rxesc: Rxesc { rbds: 0, f0ds: 0, f1ds: 0 },
            rxf0c: RxFifoCfg { fom: false, fwm: 0, fs: 0, fsa: 0 },
            rxf1c: RxFifoCfg { fom: false, fwm: 0, fs: 0, fsa: 0 },
            txbc: Txbc { tfqm: false, tfqs: 0, ndtb: 0, tbsa: 0 },
            txesc: Txesc { tbds: 0 },
            txefc: Txefc { efwm: 0, efs: 0, efsa: 0 },
            mrcfg: 0,
            psr: 0,
            ecr: 0,
            tscv: 0,
        }
    }

    /// Build a fresh block holding the reset values.
    pub fn new() -> (r: RegisterBlock)
        ensures
            r == RegisterBlock::reset(),
    {
        RegisterBlock {
            cccr: Cccr { init: true, cce: false, fdoe: false, brse: false, test: false },
            nbtp: Nbtp { nsjw: 0, ntseg1: 0, ntseg2: 0, nbrp: 0 },
            tscc: Tscc { tss: 0, tcp: 0 },
            dbtp: Dbtp { dbrp: 0 },
            gfc: Gfc { anfs: 0, anfe: 0 },
            test: TestReg { lbck: false },
            sidfc: Sidfc { flssa: 0, lss: 0 },
            xidfc: Xidfc { flesa: 0, lse: 0 },
            rxbc: Rxbc { rbsa: 0 },
            rxesc: Rxesc { rbds: 0, f0ds: 0, f1ds: 0 },
            rxf0c: RxFifoCfg { fom: false, fwm: 0, fs: 0, fsa: 0 },
            rxf1c: RxFifoCfg { fom: false, fwm: 0, fs: 0, fsa: 0 },
            txbc: Txbc { tfqm: false, tfqs: 0, ndtb: 0, tbsa: 0 },
            txesc: Txesc { tbds: 0 },
            txefc: Txefc { efwm: 0, efs: 0, efsa: 0 },
            mrcfg: 0,
            psr: 0,
            ecr: 0,
            tscv: 0,
        }
    }
}

} // verus!
