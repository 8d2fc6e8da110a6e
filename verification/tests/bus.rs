use canfd_config::bus::{CanBus, CanConfigurable, Dependencies};
use canfd_config::config::{
    BitTiming, CanConfig, CanFdMode, NonMatchingFrames, RamConfig, RxFifoConfig, RxFifoMode,
    TestMode, TimestampSelect, TxBufferConfig, TxEventFifoConfig, TxQueueMode,
};
use canfd_config::ram::{Capacities, DataFieldSize, MemoryWindow};
use canfd_config::ConfigurationError;

fn capacities() -> Capacities {
    Capacities {
        standard_filters: 8,
        extended_filters: 4,
        rx_dedicated_buffers: 2,
        rx_fifo_0: 3,
        rx_fifo_1: 2,
        tx_buffers: 4,
        dedicated_tx_buffers: 1,
        tx_event_fifo: 2,
        rx_buffer_message: DataFieldSize::B8,
        rx_fifo_0_message: DataFieldSize::B64,
        rx_fifo_1_message: DataFieldSize::B8,
        tx_message: DataFieldSize::B8,
    }
}

fn ram_config() -> RamConfig {
    RamConfig {
        rxf0: RxFifoConfig { mode: RxFifoMode::Blocking, watermark: 0 },
        rxf1: RxFifoConfig { mode: RxFifoMode::Blocking, watermark: 0 },
        txbc: TxBufferConfig { mode: TxQueueMode::Fifo },
        txefc: TxEventFifoConfig { watermark: 0 },
    }
}

fn can_config(quanta_segments: (u8, u8), ts_prescale: u8) -> CanConfig {
    CanConfig {
        timing: BitTiming {
            sjw: 1,
            phase_seg_1: quanta_segments.0,
            phase_seg_2: quanta_segments.1,
            ts_prescale,
            ts_select: TimestampSelect::Zero,
        },
        fd_mode: CanFdMode::Classic,
        bit_rate_switching: false,
        nm_std: NonMatchingFrames::Reject,
        nm_ext: NonMatchingFrames::Reject,
        test: TestMode::Disabled,
    }
}

fn window() -> MemoryWindow {
    MemoryWindow { base: 0, capacities: capacities() }
}

#[test]
fn end_to_end_500_kbit() {
    // 80 MHz, 500 kHz, 16 quanta (1 + 10 + 5): divider 10, field value 9.
    let deps = Dependencies { can_clock_hz: 80_000_000 };
    let bus = CanConfigurable::new(deps, 500_000, can_config((10, 5), 1), ram_config(), window())
        .unwrap();
    let regs = bus.registers();
    assert_eq!(regs.nbtp.nbrp, 9);
    assert_eq!(regs.nbtp.nsjw, 1);
    assert_eq!(regs.nbtp.ntseg1, 10);
    assert_eq!(regs.nbtp.ntseg2, 5);
    assert_eq!(regs.tscc.tcp, 0);
    assert_eq!(regs.tscc.tss, 0);
    assert!(regs.cccr.init && regs.cccr.cce);
    assert!(!regs.cccr.fdoe && !regs.cccr.brse && !regs.cccr.test);
    assert_eq!(regs.dbtp.dbrp, 2);
    assert_eq!(regs.gfc.anfs, 2);
    assert_eq!(regs.gfc.anfe, 2);

    // The RAM layout was programmed before the bus config.
    assert_eq!(regs.sidfc.lss, 8);
    assert_eq!(regs.txbc.tfqs, 3);
    assert_eq!(regs.txbc.ndtb, 1);

    let can = bus.finalize();
    let regs = can.registers();
    assert!(!regs.cccr.init && !regs.cccr.cce);
    assert_eq!(can.rx_fifo_0.capacity, 3);
    assert_eq!(can.tx.capacity, 4);
    assert_eq!(can.tx.dedicated, 1);
}

#[test]
fn end_to_end_rounding_rejected() {
    // 80 MHz, 1 MHz, 17 quanta (1 + 10 + 6): no integer divider fits.
    let deps = Dependencies { can_clock_hz: 80_000_000 };
    let r = CanConfigurable::new(deps, 1_000_000, can_config((10, 6), 1), ram_config(), window());
    assert!(matches!(
        r,
        Err(ConfigurationError::BitTimeRounding(1_176_470))
    ));
}

#[test]
fn timestamp_prescaler_zero_rejected_first() {
    // ts_prescale = 0 is rejected before the timing calculator runs, even
    // though the requested frequency of zero would fail as well.
    let deps = Dependencies { can_clock_hz: 80_000_000 };
    let r = CanConfigurable::new(deps, 0, can_config((10, 5), 0), ram_config(), window());
    assert!(matches!(
        r,
        Err(ConfigurationError::InvalidTimeStampPrescaler)
    ));
}

#[test]
fn timestamp_prescaler_seventeen_rejected() {
    let deps = Dependencies { can_clock_hz: 80_000_000 };
    let r = CanConfigurable::new(deps, 500_000, can_config((10, 5), 17), ram_config(), window());
    assert!(matches!(
        r,
        Err(ConfigurationError::InvalidTimeStampPrescaler)
    ));
}

#[test]
fn timestamp_prescaler_sixteen_accepted() {
    let deps = Dependencies { can_clock_hz: 80_000_000 };
    let bus = CanConfigurable::new(deps, 500_000, can_config((10, 5), 16), ram_config(), window())
        .unwrap();
    assert_eq!(bus.registers().tscc.tcp, 15);
}

#[test]
fn unaddressable_window_rejected_before_bus_checks() {
    // The window check precedes the bus-config validation: the prescaler is
    // invalid too, but the memory error is what comes back.
    let deps = Dependencies { can_clock_hz: 80_000_000 };
    let mem = MemoryWindow { base: 0x1_0000, capacities: capacities() };
    let r = CanConfigurable::new(deps, 500_000, can_config((10, 5), 0), ram_config(), mem);
    assert!(matches!(r, Err(ConfigurationError::MemoryNotAddressable)));
}

#[test]
fn stopped_clock_surfaces_from_construction() {
    let deps = Dependencies { can_clock_hz: 80_000_000 };
    let r = CanConfigurable::new(deps, 0, can_config((10, 5), 1), ram_config(), window());
    assert!(matches!(r, Err(ConfigurationError::StoppedOutputClock)));
}

#[test]
fn set_fd_toggles_fd_operation() {
    let deps = Dependencies { can_clock_hz: 80_000_000 };
    let mut bus = CanConfigurable::new(
        deps,
        500_000,
        can_config((10, 5), 1),
        ram_config(),
        window(),
    )
    .unwrap();
    assert!(!bus.registers().cccr.fdoe);
    bus.set_fd(CanFdMode::Fd);
    assert!(bus.registers().cccr.fdoe);
    bus.set_fd(CanFdMode::Classic);
    assert!(!bus.registers().cccr.fdoe);
}

#[test]
fn loopback_mode_programs_test_registers() {
    let deps = Dependencies { can_clock_hz: 80_000_000 };
    let mut cfg = can_config((10, 5), 1);
    cfg.test = TestMode::Loopback;
    let bus = CanConfigurable::new(deps, 500_000, cfg, ram_config(), window()).unwrap();
    assert!(bus.registers().cccr.test);
    assert!(bus.registers().test.lbck);
}

#[test]
fn filters_accessor_reaches_filter_handle() {
    let deps = Dependencies { can_clock_hz: 80_000_000 };
    let mut bus = CanConfigurable::new(
        deps,
        500_000,
        can_config((10, 5), 1),
        ram_config(),
        window(),
    )
    .unwrap();
    assert_eq!(bus.filters().standard, 8);
    assert_eq!(bus.filters().extended, 4);
}

#[test]
fn reconfiguration_round_trip() {
    let deps = Dependencies { can_clock_hz: 80_000_000 };
    let bus = CanConfigurable::new(deps, 500_000, can_config((10, 5), 1), ram_config(), window())
        .unwrap();
    let can = bus.finalize();
    let bus = can.configure();
    assert!(bus.registers().cccr.init && bus.registers().cccr.cce);
}

#[test]
fn set_init_round_trip() {
    let deps = Dependencies { can_clock_hz: 80_000_000 };
    let bus = CanConfigurable::new(deps, 500_000, can_config((10, 5), 1), ram_config(), window())
        .unwrap();
    let mut can = bus.finalize();
    can.set_init(true);
    assert!(can.registers().cccr.init);
    can.set_init(false);
    assert!(!can.registers().cccr.init);
}

#[test]
fn diagnostics_snapshot_reads() {
    let deps = Dependencies { can_clock_hz: 80_000_000 };
    let bus = CanConfigurable::new(deps, 500_000, can_config((10, 5), 1), ram_config(), window())
        .unwrap();
    let can = bus.finalize();
    let ec = can.error_counters();
    assert_eq!(ec.tec, 0);
    assert_eq!(ec.rec, 0);
    assert!(!ec.rp);
    assert_eq!(ec.cel, 0);
    let ps = can.protocol_status();
    assert_eq!(ps.lec, 0);
    assert!(!ps.bo);
    assert_eq!(can.ts_count(), 0);
}
