use canfd_config::status::{ErrorCounters, ProtocolStatus};

#[test]
fn error_counters_decode_fields() {
    // cel = 0x99, rp = 1, rec = 0x5c, tec = 0x42
    let raw: u32 = (0x99 << 16) | (1 << 15) | (0x5c << 8) | 0x42;
    let ec = ErrorCounters::decode(raw);
    assert_eq!(ec.tec, 0x42);
    assert_eq!(ec.rec, 0x5c);
    assert!(ec.rp);
    assert_eq!(ec.cel, 0x99);
}

#[test]
fn error_counters_decode_zero() {
    let ec = ErrorCounters::decode(0);
    assert_eq!(ec.tec, 0);
    assert_eq!(ec.rec, 0);
    assert!(!ec.rp);
    assert_eq!(ec.cel, 0);
}

#[test]
fn protocol_status_decode_fields() {
    // lec = 5, act = 2, ep = 1, ew = 0, bo = 1, dlec = 3, resi = 1,
    // rbrs = 0, rfdf = 1, pxe = 0, tdcv = 0x45
    let raw: u32 = 5 | (2 << 3) | (1 << 5) | (1 << 7) | (3 << 8) | (1 << 11) | (1 << 13) | (0x45
        << 16);
    let ps = ProtocolStatus::decode(raw);
    assert_eq!(ps.lec, 5);
    assert_eq!(ps.act, 2);
    assert!(ps.ep);
    assert!(!ps.ew);
    assert!(ps.bo);
    assert_eq!(ps.dlec, 3);
    assert!(ps.resi);
    assert!(!ps.rbrs);
    assert!(ps.rfdf);
    assert!(!ps.pxe);
    assert_eq!(ps.tdcv, 0x45);
}

#[test]
fn protocol_status_decode_all_ones() {
    let ps = ProtocolStatus::decode(u32::MAX);
    assert_eq!(ps.lec, 7);
    assert_eq!(ps.act, 3);
    assert!(ps.ep && ps.ew && ps.bo);
    assert_eq!(ps.dlec, 7);
    assert!(ps.resi && ps.rbrs && ps.rfdf && ps.pxe);
    assert_eq!(ps.tdcv, 0x7f);
}
