//! Handle types for the CAN buses.
//!
//! A controller is built in configuration mode (`CanConfigurable`), where the
//! timing, RAM-layout and filter registers may be written, and is then
//! `finalize`d into an operational `Can`. The operational handle offers no
//! configuration methods of its own; `configure` consumes it and hands back
//! a configurable handle, so every reconfiguration passes through a fresh
//! handle exchange. Hardware acknowledgement of a requested mode change is modeled
//! as taking effect with the write; on the real controller the mode-change
//! writes are followed by a busy-poll of the acknowledging status bit.

use vstd::prelude::*;
use crate::ConfigurationError;
use crate::config::{CanConfig, CanFdMode, RamConfig, TestMode};
use crate::ram::{apply_ram_config, MemoryWindow};
use crate::reg::{Cccr, Dbtp, Gfc, Nbtp, RegisterBlock, TestReg, Tscc};
use crate::status::{ErrorCounters, ProtocolStatus};
use crate::timing::{compute_divider, divider_outcome};

verus! {

/// Controls enabling and line selection of interrupts.
///
/// The interrupt machinery itself is an external collaborator; the handle
/// only marks ownership of the interrupt configuration registers.
#[derive(Clone, Copy, Debug, PartialEq, Eq, Structural)]
pub struct InterruptConfiguration;

/// Handle to one receive FIFO region.
#[derive(Clone, Copy, Debug, PartialEq, Eq, Structural)]
pub struct RxFifo {
    /// Number of elements the FIFO holds.
    pub capacity: u8,
}

/// Handle to the dedicated receive buffer region.
#[derive(Clone, Copy, Debug, PartialEq, Eq, Structural)]
pub struct RxDedicatedBuffer {
    /// Number of dedicated receive buffers.
    pub capacity: u8,
}

/// Handle to the transmit buffer region.
#[derive(Clone, Copy, Debug, PartialEq, Eq, Structural)]
pub struct Tx {
    /// Total number of transmit slots.
    pub capacity: u8,
    /// How many of the slots are dedicated buffers.
    pub dedicated: u8,
}

/// Handle to the transmit event FIFO region.
#[derive(Clone, Copy, Debug, PartialEq, Eq, Structural)]
pub struct TxEventFifo {
    /// Number of event elements the FIFO holds.
    pub capacity: u8,
}

/// Handle to the acceptance filter lists.
///
/// The filter tables themselves are an external collaborator living in the
/// standard and extended filter regions of the message RAM.
#[derive(Clone, Copy, Debug, PartialEq, Eq, Structural)]
pub struct Filters {
    /// Number of standard filter slots.
    pub standard: u8,
    /// Number of extended filter slots.
    pub extended: u8,
}

/// Everything the peripheral depends on besides its own registers: clock
/// routing and pin ownership, summed up here as the frequency of the CAN
/// input clock those dependencies provide.
#[derive(Clone, Copy, Debug, PartialEq, Eq, Structural)]
pub struct Dependencies {
    /// Frequency of the peripheral input clock in Hz.
    pub can_clock_hz: u32,
}

/// Implementation details shared by both handle states.
pub struct Internals {
    /// CAN bus peripheral register block.
    pub can: RegisterBlock,
    /// Clock and pin dependencies.
    pub dependencies: Dependencies,
    /// Acceptance filter handle.
    pub filters: Filters,
}

/// A CAN bus that is not in configuration mode. Some errors (including
/// bus-off) can asynchronously stop bus operation, which will require user
/// intervention to reactivate the bus to resume sending and receiving
/// messages.
pub struct Can {
    /// Controls enabling and line selection of interrupts.
    pub interrupts: InterruptConfiguration,
    /// Receive FIFO 0 handle.
    pub rx_fifo_0: RxFifo,
    /// Receive FIFO 1 handle.
    pub rx_fifo_1: RxFifo,
    /// Dedicated receive buffer handle.
    pub rx_dedicated_buffers: RxDedicatedBuffer,
    /// Transmit buffer handle.
    pub tx: Tx,
    /// Transmit event FIFO handle.
    pub tx_event_fifo: TxEventFifo,
    /// Implementation details. The field is public to allow destructuring.
    pub internals: Internals,
}

/// A CAN bus in configuration mode. Before messages can be sent and
/// received, it needs to be [`Self::finalize`]d.
pub struct CanConfigurable(pub Can);

/// Common CAN bus functionality: diagnostics available in any mode.
pub trait CanBus {
    /// The raw error counter register word the hardware presents.
    spec fn raw_ecr(&self) -> u32;

    /// The raw protocol status register word the hardware presents.
    spec fn raw_psr(&self) -> u32;

    /// The free-running timestamp counter value the hardware presents.
    spec fn raw_tscv(&self) -> u16;

    /// Read error counters.
    fn error_counters(&self) -> (r: ErrorCounters)
        ensures
            r == ErrorCounters::decode_spec(self.raw_ecr()),
    ;

    /// Read additional status information.
    fn protocol_status(&self) -> (r: ProtocolStatus)
        ensures
            r == ProtocolStatus::decode_spec(self.raw_psr()),
    ;

    /// Get the current timestamp counter value.
    fn ts_count(&self) -> (r: u16)
        ensures
            r == self.raw_tscv(),
    ;
}

impl Can {
    /// The same handle with the register block replaced.
    pub open spec fn with_regs(self, regs: RegisterBlock) -> Can {
        Can { internals: Internals { can: regs, ..self.internals }, ..self }
    }

    /// Access to the registers.
    pub fn registers(&self) -> (r: &RegisterBlock)
        ensures
            *r == self.internals.can,
    {
        &self.internals.can
    }

    /// Switches between "Software Initialization" mode and "Normal
    /// Operation". In Software Initialization, messages are not received or
    /// transmitted. Configuration cannot be changed. In Normal Operation,
    /// messages can be transmitted and received.
    ///
    /// Clearing the initialization request also locks configuration again:
    /// the hardware resets the configuration-change-enable bit with it.
    pub fn set_init(&mut self, init: bool)
        ensures
            *final(self) == old(self).with_regs(
                RegisterBlock {
                    cccr: Cccr {
                        init: init,
                        cce: old(self).internals.can.cccr.cce && init,
                        ..old(self).internals.can.cccr
                    },
                    ..old(self).internals.can
                },
            ),
    {
        self.internals.can.cccr.init = init;
        if !init {
            self.internals.can.cccr.cce = false;
        }
    }

    /// Request configuration-change-enable: enter initialization mode and
    /// unlock the protected configuration registers.
    fn enable_configuration_change(&mut self)
        ensures
            *final(self) == old(self).with_regs(
                RegisterBlock {
                    cccr: Cccr { init: true, cce: true, ..old(self).internals.can.cccr },
                    ..old(self).internals.can
                },
            ),
    {
        self.set_init(true);
        self.internals.can.cccr.cce = true;
    }

    /// Unlock the configuration registers and return a handle in
    /// configuration mode.
    pub fn configure(self) -> (r: CanConfigurable)
        ensures
            r == CanConfigurable(
                self.with_regs(
                    RegisterBlock {
                        cccr: Cccr { init: true, cce: true, ..self.internals.can.cccr },
                        ..self.internals.can
                    },
                ),
            ),
    {
        let mut bus = self;
        bus.enable_configuration_change();
        CanConfigurable(bus)
    }
}

impl CanBus for Can {
    open spec fn raw_ecr(&self) -> u32 {
        self.internals.can.ecr
    }

    open spec fn raw_psr(&self) -> u32 {
        self.internals.can.psr
    }

    open spec fn raw_tscv(&self) -> u16 {
        self.internals.can.tscv
    }

    fn error_counters(&self) -> (r: ErrorCounters) {
        ErrorCounters::decode(self.internals.can.ecr)
    }

    fn protocol_status(&self) -> (r: ProtocolStatus) {
        ProtocolStatus::decode(self.internals.can.psr)
    }

    fn ts_count(&self) -> (r: u16) {
        self.internals.can.tscv
    }
}

/// The register block after the bus configuration has been applied with the
/// given divider: timing, timestamping, CAN-FD options, global filter policy
/// and test mode are programmed, everything else keeps its prior value.
pub open spec fn program_bus(regs: RegisterBlock, config: CanConfig, divider: u32)
    -> RegisterBlock {
    RegisterBlock {
        nbtp: Nbtp {
            nsjw: config.timing.sjw,
            ntseg1: config.timing.phase_seg_1,
            ntseg2: config.timing.phase_seg_2,
            nbrp: (divider - 1) as u16,
        },
        tscc: Tscc {
            tss: config.timing.ts_select.code_spec(),
            tcp: (config.timing.ts_prescale - 1) as u8,
        },
        cccr: Cccr {
            fdoe: config.fd_mode.bit_spec(),
            brse: config.bit_rate_switching,
            test: config.test is Loopback,
            ..regs.cccr
        },
        dbtp: Dbtp { dbrp: 2 },
        gfc: Gfc { anfs: config.nm_std.code_spec(), anfe: config.nm_ext.code_spec() },
        test: TestReg { lbck: config.test is Loopback },
        ..regs
    }
}

impl CanConfigurable {
    /// Access to the registers.
    pub fn registers(&self) -> (r: &RegisterBlock)
        ensures
            *r == self.0.internals.can,
    {
        self.0.registers()
    }

    /// Allows reconfiguring the acceptance filters.
    pub fn filters(&mut self) -> (r: &mut Filters)
        ensures
            *r == old(self).0.internals.filters,
            *final(self) == CanConfigurable(
                Can {
                    internals: Internals { filters: *final(r), ..old(self).0.internals },
                    ..old(self).0
                },
            ),
    {
        &mut self.0.internals.filters
    }

    /// Apply parameters from a bus config struct.
    ///
    /// The timestamp prescaler is validated first; then the bit-timing
    /// calculator decides. On any error the registers are left untouched; on
    /// success every derived field is written, with the zero-based prescaler
    /// field holding the divider minus one.
    pub fn apply_bus_config(&mut self, config: &CanConfig, freq: u32) -> (r: Result<
        (),
        ConfigurationError,
    >)
        ensures
            ({
                let c = old(self).0.internals.dependencies.can_clock_hz;
                let q = config.timing.quanta_spec() as u32;
                let outcome = divider_outcome(c, freq, q);
                if !(1 <= config.timing.ts_prescale <= 16) {
                    r == Result::<(), ConfigurationError>::Err(
                        ConfigurationError::InvalidTimeStampPrescaler,
                    ) && *final(self) == *old(self)
                } else if outcome is Err {
                    r == Result::<(), ConfigurationError>::Err(outcome->Err_0) && *final(self)
                        == *old(self)
                } else {
                    r == Result::<(), ConfigurationError>::Ok(()) && *final(self)
                        == CanConfigurable(
                        old(self).0.with_regs(
                            program_bus(old(self).0.internals.can, *config, outcome->Ok_0),
                        ),
                    )
                }
            }),
    {
        if !(1 <= config.timing.ts_prescale && config.timing.ts_prescale <= 16) {
            return Result::Err(ConfigurationError::InvalidTimeStampPrescaler);
        }

        // Baud rate
        let c = self.0.internals.dependencies.can_clock_hz;
        let f = freq;
        let q = config.timing.quanta();

        let divider: u32 = match compute_divider(c, f, q as u32) {
            Result::Ok(d) => d,
            Result::Err(e) => {
                return Result::Err(e);
            },
        };
        proof {
            crate::timing::lemma_accepted_divider_is_exact(c, f, q as u32, divider);
        }

        self.0.internals.can.nbtp = Nbtp {
            nsjw: config.timing.sjw,
            ntseg1: config.timing.phase_seg_1,
            ntseg2: config.timing.phase_seg_2,
            nbrp: (divider - 1) as u16,
        };

        // Prescaler is 1 + tcp value.
        self.0.internals.can.tscc = Tscc {
            tss: config.timing.ts_select.code(),
            tcp: config.timing.ts_prescale - 1,
        };

        // CAN-FD operation
        self.0.internals.can.cccr.fdoe = config.fd_mode.bit();
        // The data bitrate is fixed at the controller's default divider.
        self.0.internals.can.dbtp = Dbtp { dbrp: 2 };
        self.0.internals.can.cccr.brse = config.bit_rate_switching;

        // Global filter options
        self.0.internals.can.gfc = Gfc { anfs: config.nm_std.code(), anfe: config.nm_ext.code() };

        // Configure test/loopback mode
        self.set_test(config.test);

        Result::Ok(())
    }

    /// Configure CAN-FD mode.
    pub fn set_fd(&mut self, fd: CanFdMode)
        ensures
            *final(self) == CanConfigurable(
                old(self).0.with_regs(
                    RegisterBlock {
                        cccr: Cccr { fdoe: fd.bit_spec(), ..old(self).0.internals.can.cccr },
                        ..old(self).0.internals.can
                    },
                ),
            ),
    {
        self.0.internals.can.cccr.fdoe = fd.bit();
    }

    /// Configure test/loopback mode.
    fn set_test(&mut self, test: TestMode)
        ensures
            *final(self) == CanConfigurable(
                old(self).0.with_regs(
                    RegisterBlock {
                        cccr: Cccr {
                            test: test is Loopback,
                            ..old(self).0.internals.can.cccr
                        },
                        test: TestReg { lbck: test is Loopback },
                        ..old(self).0.internals.can
                    },
                ),
            ),
    {
        match test {
            TestMode::Disabled => {
                self.0.internals.can.cccr.test = false;
                self.0.internals.can.test.lbck = false;
            },
            TestMode::Loopback => {
                self.0.internals.can.cccr.test = true;
                self.0.internals.can.test.lbck = true;
            },
        }
    }

    /// Create a new CAN peripheral.
    ///
    /// The hardware requires that the memory window is contained within the
    /// first 64 KiB of system RAM. If this condition is not fulfilled, an
    /// error is returned.
    ///
    /// The returned peripheral is not operational; use [`Self::finalize`] to
    /// finish configuration and start transmitting and receiving.
    pub fn new(
        dependencies: Dependencies,
        freq: u32,
        can_cfg: CanConfig,
        ram_cfg: RamConfig,
        memory: MemoryWindow,
    ) -> (r: Result<CanConfigurable, ConfigurationError>)
        requires
            memory.capacities.wf(),
        ensures
            ({
                let q = can_cfg.timing.quanta_spec() as u32;
                let outcome = divider_outcome(dependencies.can_clock_hz, freq, q);
                if !memory.is_addressable_spec() {
                    r == Result::<CanConfigurable, ConfigurationError>::Err(
                        ConfigurationError::MemoryNotAddressable,
                    )
                } else if !(1 <= can_cfg.timing.ts_prescale <= 16) {
                    r == Result::<CanConfigurable, ConfigurationError>::Err(
                        ConfigurationError::InvalidTimeStampPrescaler,
                    )
                } else if outcome is Err {
                    r == Result::<CanConfigurable, ConfigurationError>::Err(outcome->Err_0)
                } else {
                    r is Ok && r->Ok_0 == CanConfigurable(
                        Can {
                            interrupts: InterruptConfiguration,
                            rx_fifo_0: RxFifo { capacity: memory.capacities.rx_fifo_0 },
                            rx_fifo_1: RxFifo { capacity: memory.capacities.rx_fifo_1 },
                            rx_dedicated_buffers: RxDedicatedBuffer {
                                capacity: memory.capacities.rx_dedicated_buffers,
                            },
                            tx: Tx {
                                capacity: memory.capacities.tx_buffers,
                                dedicated: memory.capacities.dedicated_tx_buffers,
                            },
                            tx_event_fifo: TxEventFifo {
                                capacity: memory.capacities.tx_event_fifo,
                            },
                            internals: Internals {
                                can: program_bus(
                                    RegisterBlock {
                                        cccr: Cccr {
                                            init: true,
                                            cce: true,
                                            ..crate::ram::program_layout(
                                                RegisterBlock::reset(),
                                                memory,
                                                ram_cfg,
                                            ).cccr
                                        },
                                        ..crate::ram::program_layout(
                                            RegisterBlock::reset(),
                                            memory,
                                            ram_cfg,
                                        )
                                    },
                                    can_cfg,
                                    outcome->Ok_0,
                                ),
                                dependencies: dependencies,
                                filters: Filters {
                                    standard: memory.capacities.standard_filters,
                                    extended: memory.capacities.extended_filters,
                                },
                            },
                        },
                    )
                }
            }),
    {
        let mut can = RegisterBlock::new();

        match apply_ram_config(&mut can, &memory, &ram_cfg) {
            Result::Ok(()) => {},
            Result::Err(e) => {
                return Result::Err(e);
            },
        }

        let capacities = memory.capacities;
        let mut bus = Can {
            interrupts: InterruptConfiguration,
            rx_fifo_0: RxFifo { capacity: capacities.rx_fifo_0 },
            rx_fifo_1: RxFifo { capacity: capacities.rx_fifo_1 },
            rx_dedicated_buffers: RxDedicatedBuffer { capacity: capacities.rx_dedicated_buffers },
            tx: Tx {
                capacity: capacities.tx_buffers,
                dedicated: capacities.dedicated_tx_buffers,
            },
            tx_event_fifo: TxEventFifo { capacity: capacities.tx_event_fifo },
            internals: Internals {
                can,
                dependencies,
                filters: Filters {
                    standard: capacities.standard_filters,
                    extended: capacities.extended_filters,
                },
            },
        }.configure();

        match bus.apply_bus_config(&can_cfg, freq) {
            Result::Ok(()) => {},
            Result::Err(e) => {
                return Result::Err(e);
            },
        }
        Result::Ok(bus)
    }

    /// Locks the configuration and enters normal operation.
    pub fn finalize(self) -> (r: Can)
        ensures
            r == self.0.with_regs(
                RegisterBlock {
                    cccr: Cccr { init: false, cce: false, ..self.0.internals.can.cccr },
                    ..self.0.internals.can
                },
            ),
    {
        let mut bus = self.0;
        bus.set_init(false);
        bus
    }
}

} // verus!
