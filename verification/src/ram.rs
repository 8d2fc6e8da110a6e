//! Message-RAM layout planner.
//!
//! The controller addresses its message RAM through a 16-bit bus, so the
//! whole memory window must live inside the first 64 KiB of system RAM.
//! The planner derives each region's base address from the window's base and
//! the build-time capacities, validates addressability, and programs the
//! per-region registers. A window that is not addressable is rejected before
//! any register is touched.

use vstd::prelude::*;
use crate::ConfigurationError;
use crate::config::{RamConfig, RxFifoMode, TxQueueMode};
use crate::reg::{RegisterBlock, RxFifoCfg, Rxbc, Rxesc, Sidfc, Txbc, Txefc, Txesc, Xidfc};

verus! {

/// Data field size of one message element, as the hardware size classes.
#[derive(Clone, Copy, Debug, PartialEq, Eq, Structural)]
pub enum DataFieldSize {
    /// 8 data bytes.
    B8,
    /// 12 data bytes.
    B12,
    /// 16 data bytes.
    B16,
    /// 20 data bytes.
    B20,
    /// 24 data bytes.
    B24,
    /// 32 data bytes.
    B32,
    /// 48 data bytes.
    B48,
    /// 64 data bytes.
    B64,
}

impl DataFieldSize {
    /// Register encoding of the size class.
    pub open spec fn code_spec(self) -> u8 {
        match self {
            DataFieldSize::B8 => 0,
            DataFieldSize::B12 => 1,
            DataFieldSize::B16 => 2,
            DataFieldSize::B20 => 3,
            DataFieldSize::B24 => 4,
            DataFieldSize::B32 => 5,
            DataFieldSize::B48 => 6,
            DataFieldSize::B64 => 7,
        }
    }

    /// Register encoding of the size class.
    pub fn code(self) -> (r: u8)
        ensures
            r == self.code_spec(),
    {
        match self {
            DataFieldSize::B8 => 0,
            DataFieldSize::B12 => 1,
            DataFieldSize::B16 => 2,
            DataFieldSize::B20 => 3,
            DataFieldSize::B24 => 4,
            DataFieldSize::B32 => 5,
            DataFieldSize::B48 => 6,
            DataFieldSize::B64 => 7,
        }
    }

    /// Number of data bytes the class stands for.
    pub open spec fn bytes_spec(self) -> u32 {
        match self {
            DataFieldSize::B8 => 8,
            DataFieldSize::B12 => 12,
            DataFieldSize::B16 => 16,
            DataFieldSize::B20 => 20,
            DataFieldSize::B24 => 24,
            DataFieldSize::B32 => 32,
            DataFieldSize::B48 => 48,
            DataFieldSize::B64 => 64,
        }
    }

    /// Number of data bytes the class stands for.
    pub fn bytes(self) -> (r: u32)
        ensures
            r == self.bytes_spec(),
    {
        match self {
            DataFieldSize::B8 => 8,
            DataFieldSize::B12 => 12,
            DataFieldSize::B16 => 16,
            DataFieldSize::B20 => 20,
            DataFieldSize::B24 => 24,
            DataFieldSize::B32 => 32,
            DataFieldSize::B48 => 48,
            DataFieldSize::B64 => 64,
        }
    }

    /// Bytes of one message element: an 8-byte header plus the data field.
    pub open spec fn element_bytes_spec(self) -> u32 {
        (8 + self.bytes_spec()) as u32
    }

    /// Bytes of one message element: an 8-byte header plus the data field.
    pub fn element_bytes(self) -> (r: u32)
        ensures
            r == self.element_bytes_spec(),
    {
        8 + self.bytes()
    }
}

/// Build-time element counts and element widths of every message-RAM region.
#[derive(Clone, Copy, Debug, PartialEq, Eq, Structural)]
pub struct Capacities {
    /// Number of standard (11-bit ID) acceptance filters; 4 bytes each.
    pub standard_filters: u8,
    /// Number of extended (29-bit ID) acceptance filters; 8 bytes each.
    pub extended_filters: u8,
    /// Number of dedicated receive buffers.
    pub rx_dedicated_buffers: u8,
    /// Number of receive FIFO 0 elements.
    pub rx_fifo_0: u8,
    /// Number of receive FIFO 1 elements.
    pub rx_fifo_1: u8,
    /// Total number of transmit slots, dedicated and queued together.
    pub tx_buffers: u8,
    /// How many of the transmit slots are dedicated buffers; the rest feed
    /// the transmit FIFO/queue.
    pub dedicated_tx_buffers: u8,
    /// Number of transmit event FIFO elements; 8 bytes each.
    pub tx_event_fifo: u8,
    /// Data field size of a dedicated receive buffer element.
    pub rx_buffer_message: DataFieldSize,
    /// Data field size of a receive FIFO 0 element.
    pub rx_fifo_0_message: DataFieldSize,
    /// Data field size of a receive FIFO 1 element.
    pub rx_fifo_1_message: DataFieldSize,
    /// Data field size of a transmit element.
    pub tx_message: DataFieldSize,
}

impl Capacities {
    /// The dedicated transmit slots must be a subset of all transmit slots.
    pub open spec fn wf(self) -> bool {
        self.dedicated_tx_buffers <= self.tx_buffers
    }

    /// Byte offset of the standard filter list inside the window.
    pub open spec fn off_standard_filters(self) -> int {
        0
    }

    /// Byte offset of the extended filter list inside the window.
    pub open spec fn off_extended_filters(self) -> int {
        self.off_standard_filters() + self.standard_filters * 4
    }

    /// Byte offset of the dedicated receive buffers inside the window.
    pub open spec fn off_rx_dedicated_buffers(self) -> int {
        self.off_extended_filters() + self.extended_filters * 8
    }

    /// Byte offset of receive FIFO 0 inside the window.
    pub open spec fn off_rx_fifo_0(self) -> int {
        self.off_rx_dedicated_buffers() + self.rx_dedicated_buffers
            * self.rx_buffer_message.element_bytes_spec()
    }

    /// Byte offset of receive FIFO 1 inside the window.
    pub open spec fn off_rx_fifo_1(self) -> int {
        self.off_rx_fifo_0() + self.rx_fifo_0 * self.rx_fifo_0_message.element_bytes_spec()
    }

    /// Byte offset of the transmit buffers inside the window.
    pub open spec fn off_tx_buffers(self) -> int {
        self.off_rx_fifo_1() + self.rx_fifo_1 * self.rx_fifo_1_message.element_bytes_spec()
    }

    /// Byte offset of the transmit event FIFO inside the window.
    pub open spec fn off_tx_event_fifo(self) -> int {
        self.off_tx_buffers() + self.tx_buffers * self.tx_message.element_bytes_spec()
    }

    /// Total size of the window in bytes.
    pub open spec fn total_bytes(self) -> int {
        self.off_tx_event_fifo() + self.tx_event_fifo * 8
    }
}

/// A contiguous, zero-initialized block of memory handed to the controller,
/// placed at `base` and partitioned according to `capacities`.
#[derive(Clone, Copy, Debug, PartialEq, Eq, Structural)]
pub struct MemoryWindow {
    /// System address of the window's first byte.
    pub base: u32,
    /// Build-time partitioning of the window.
    pub capacities: Capacities,
}

impl MemoryWindow {
    /// The whole window is reachable over the peripheral's 16-bit address bus.
    pub open spec fn is_addressable_spec(self) -> bool {
        self.base + self.capacities.total_bytes() <= 0x1_0000
    }

    /// System address of the region starting `off` bytes into the window,
    /// truncated to the peripheral's 16-bit bus width.
    pub open spec fn region_base_spec(self, off: int) -> u16 {
        ((self.base + off) % 0x1_0000) as u16
    }

    /// Check that the whole window is reachable over the peripheral's
    /// 16-bit address bus.
    pub fn is_addressable(&self) -> (r: bool)
        ensures
            r == self.is_addressable_spec(),
    {
        let c = self.capacities;
        let eb_rxbuf: u64 = c.rx_buffer_message.element_bytes() as u64;
        let eb_f0: u64 = c.rx_fifo_0_message.element_bytes() as u64;
        let eb_f1: u64 = c.rx_fifo_1_message.element_bytes() as u64;
        let eb_tx: u64 = c.tx_message.element_bytes() as u64;
        proof {
            assert((c.rx_dedicated_buffers as int) * (eb_rxbuf as int) <= 255 * 72
                && (c.rx_fifo_0 as int) * (eb_f0 as int) <= 255 * 72
                && (c.rx_fifo_1 as int) * (eb_f1 as int) <= 255 * 72
                && (c.tx_buffers as int) * (eb_tx as int) <= 255 * 72
                && (c.rx_dedicated_buffers as int) * (eb_rxbuf as int) >= 0
                && (c.rx_fifo_0 as int) * (eb_f0 as int) >= 0
                && (c.rx_fifo_1 as int) * (eb_f1 as int) >= 0
                && (c.tx_buffers as int) * (eb_tx as int) >= 0) by (nonlinear_arith)
                requires
                    0 <= c.rx_dedicated_buffers as int <= 255,
                    0 <= c.rx_fifo_0 as int <= 255,
                    0 <= c.rx_fifo_1 as int <= 255,
                    0 <= c.tx_buffers as int <= 255,
                    0 <= eb_rxbuf as int <= 72,
                    0 <= eb_f0 as int <= 72,
                    0 <= eb_f1 as int <= 72,
                    0 <= eb_tx as int <= 72,
            ;
        }
        let total: u64 = (c.standard_filters as u64) * 4 + (c.extended_filters as u64) * 8
            + (c.rx_dedicated_buffers as u64) * eb_rxbuf + (c.rx_fifo_0 as u64) * eb_f0 + (
        c.rx_fifo_1 as u64) * eb_f1 + (c.tx_buffers as u64) * eb_tx + (c.tx_event_fifo as u64) * 8;
        (self.base as u64) + total <= 0x1_0000
    }
}

/// The register block after the planner has programmed a window and a RAM
/// configuration into it: every per-region register holds the region's base
/// address, element count, element size class and runtime mode, and all other
/// registers keep their prior values.
pub open spec fn program_layout(regs: RegisterBlock, mem: MemoryWindow, config: RamConfig)
    -> RegisterBlock {
    let c = mem.capacities;
    RegisterBlock {
        sidfc: Sidfc {
            flssa: mem.region_base_spec(c.off_standard_filters()),
            lss: c.standard_filters,
        },
        xidfc: Xidfc {
            flesa: mem.region_base_spec(c.off_extended_filters()),
            lse: c.extended_filters,
        },
        rxbc: Rxbc { rbsa: mem.region_base_spec(c.off_rx_dedicated_buffers()) },
        rxesc: Rxesc {
            rbds: c.rx_buffer_message.code_spec(),
            f0ds: c.rx_fifo_0_message.code_spec(),
            f1ds: c.rx_fifo_1_message.code_spec(),
        },
        rxf0c: RxFifoCfg {
            fom: config.rxf0.mode is Overwrite,
            fwm: config.rxf0.watermark,
            fs: c.rx_fifo_0,
            fsa: mem.region_base_spec(c.off_rx_fifo_0()),
        },
        rxf1c: RxFifoCfg {
            fom: config.rxf1.mode is Overwrite,
            fwm: config.rxf1.watermark,
            fs: c.rx_fifo_1,
            fsa: mem.region_base_spec(c.off_rx_fifo_1()),
        },
        txbc: Txbc {
            tfqm: config.txbc.mode is Queue,
            tfqs: (c.tx_buffers - c.dedicated_tx_buffers) as u8,
            ndtb: c.dedicated_tx_buffers,
            tbsa: mem.region_base_spec(c.off_tx_buffers()),
        },
        txesc: Txesc { tbds: c.tx_message.code_spec() },
        txefc: Txefc {
            efwm: config.txefc.watermark,
            efs: c.tx_event_fifo,
            efsa: mem.region_base_spec(c.off_tx_event_fifo()),
        },
        ..regs
    }
}

/// Compute the 16-bit bus address of the region starting `off` bytes into
/// the window.
fn region_base(mem: &MemoryWindow, off: u32) -> (r: u16)
    requires
        mem.base + off <= u32::MAX,
    ensures
        r == mem.region_base_spec(off as int),
{
    ((mem.base + off) % 0x1_0000) as u16
}

/// Program the placement, size and runtime mode of every message-RAM region.
///
/// The addressability check comes first: a window that does not fit the
/// peripheral's 64 KiB-addressable span is rejected with
/// `MemoryNotAddressable` and the register block is left exactly as it was —
/// a rejected layout is never partially programmed.
pub fn apply_ram_config(can: &mut RegisterBlock, mem: &MemoryWindow, config: &RamConfig) -> (r:
    Result<(), ConfigurationError>)
    requires
        mem.capacities.wf(),
    ensures
        !mem.is_addressable_spec() ==> r == Result::<(), ConfigurationError>::Err(
            ConfigurationError::MemoryNotAddressable,
        ) && *final(can) == *old(can),
        mem.is_addressable_spec() ==> r == Result::<(), ConfigurationError>::Ok(()) && *final(can)
            == program_layout(*old(can), *mem, *config),
{
    if !mem.is_addressable() {
        return Result::Err(ConfigurationError::MemoryNotAddressable);
    }
    let c = mem.capacities;

    let off_extended: u32 = (c.standard_filters as u32) * 4;
    let off_rx_dedicated: u32 = off_extended + (c.extended_filters as u32) * 8;
    let off_rx_fifo_0: u32 = off_rx_dedicated + (c.rx_dedicated_buffers as u32)
        * c.rx_buffer_message.element_bytes();
    let off_rx_fifo_1: u32 = off_rx_fifo_0 + (c.rx_fifo_0 as u32)
        * c.rx_fifo_0_message.element_bytes();
    let off_tx_buffers: u32 = off_rx_fifo_1 + (c.rx_fifo_1 as u32)
        * c.rx_fifo_1_message.element_bytes();
    let off_tx_event: u32 = off_tx_buffers + (c.tx_buffers as u32) * c.tx_message.element_bytes();

    // Standard ID filter list
    can.sidfc = Sidfc { flssa: region_base(mem, 0), lss: c.standard_filters };

    // Extended ID filter list
    can.xidfc = Xidfc { flesa: region_base(mem, off_extended), lse: c.extended_filters };

    // Dedicated receive buffers
    can.rxbc = Rxbc { rbsa: region_base(mem, off_rx_dedicated) };

    // Data field sizes for receive buffers and FIFOs
    can.rxesc = Rxesc {
        rbds: c.rx_buffer_message.code(),
        f0ds: c.rx_fifo_0_message.code(),
        f1ds: c.rx_fifo_1_message.code(),
    };

    // Receive FIFO 0
    can.rxf0c = RxFifoCfg {
        fom: matches!(config.rxf0.mode, RxFifoMode::Overwrite),
        fwm: config.rxf0.watermark,
        fs: c.rx_fifo_0,
        fsa: region_base(mem, off_rx_fifo_0),
    };

    // Receive FIFO 1
    can.rxf1c = RxFifoCfg {
        fom: matches!(config.rxf1.mode, RxFifoMode::Overwrite),
        fwm: config.rxf1.watermark,
        fs: c.rx_fifo_1,
        fsa: region_base(mem, off_rx_fifo_1),
    };

    // Transmit buffers, split into dedicated slots and the FIFO/queue
    can.txbc = Txbc {
        tfqm: matches!(config.txbc.mode, TxQueueMode::Queue),
        tfqs: c.tx_buffers - c.dedicated_tx_buffers,
        ndtb: c.dedicated_tx_buffers,
        tbsa: region_base(mem, off_tx_buffers),
    };

    // Transmit element size
    can.txesc = Txesc { tbds: c.tx_message.code() };

    // Transmit event FIFO
    can.txefc = Txefc {
        efwm: config.txefc.watermark,
        efs: c.tx_event_fifo,
        efsa: region_base(mem, off_tx_event),
    };

    Result::Ok(())
}

/// Law: the planner is idempotent — programming the same valid window and
/// configuration twice yields exactly the register values of programming it
/// once, since every programmed field depends on the window and the
/// configuration alone.
pub proof fn lemma_layout_idempotent(regs: RegisterBlock, mem: MemoryWindow, config: RamConfig)
    ensures
        program_layout(program_layout(regs, mem, config), mem, config) == program_layout(
            regs,
            mem,
            config,
        ),
{
}

} // verus!
