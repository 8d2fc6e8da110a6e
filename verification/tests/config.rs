use canfd_config::config::{BitTiming, NonMatchingFrames, TimestampSelect};
use canfd_config::ram::DataFieldSize;

#[test]
fn quanta_counts_sync_and_segments() {
    let timing = BitTiming {
        sjw: 1,
        phase_seg_1: 10,
        phase_seg_2: 5,
        ts_prescale: 1,
        ts_select: TimestampSelect::Zero,
    };
    assert_eq!(timing.quanta(), 16);
}

#[test]
fn quanta_of_widest_segments() {
    let timing = BitTiming {
        sjw: 1,
        phase_seg_1: 255,
        phase_seg_2: 255,
        ts_prescale: 1,
        ts_select: TimestampSelect::Zero,
    };
    assert_eq!(timing.quanta(), 511);
}

#[test]
fn timestamp_select_codes() {
    assert_eq!(TimestampSelect::Zero.code(), 0);
    assert_eq!(TimestampSelect::Increment.code(), 1);
    assert_eq!(TimestampSelect::External.code(), 2);
}

#[test]
fn non_matching_frame_codes() {
    assert_eq!(NonMatchingFrames::IntoFifo0.code(), 0);
    assert_eq!(NonMatchingFrames::IntoFifo1.code(), 1);
    assert_eq!(NonMatchingFrames::Reject.code(), 2);
}

#[test]
fn data_field_size_codes_and_bytes() {
    assert_eq!(DataFieldSize::B8.code(), 0);
    assert_eq!(DataFieldSize::B8.bytes(), 8);
    assert_eq!(DataFieldSize::B8.element_bytes(), 16);
    assert_eq!(DataFieldSize::B12.code(), 1);
    assert_eq!(DataFieldSize::B16.code(), 2);
    assert_eq!(DataFieldSize::B20.code(), 3);
    assert_eq!(DataFieldSize::B24.code(), 4);
    assert_eq!(DataFieldSize::B32.code(), 5);
    assert_eq!(DataFieldSize::B48.code(), 6);
    assert_eq!(DataFieldSize::B64.code(), 7);
    assert_eq!(DataFieldSize::B64.bytes(), 64);
    assert_eq!(DataFieldSize::B64.element_bytes(), 72);
}
