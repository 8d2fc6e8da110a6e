use canfd_config::timing::compute_divider;
use canfd_config::ConfigurationError;

#[test]
fn exact_divider_one() {
    // 8 MHz / (500 kHz * 16) == 1 exactly.
    assert_eq!(compute_divider(8_000_000, 500_000, 16), Ok(1));
}

#[test]
fn exact_divider_ten() {
    // 80 MHz / (500 kHz * 16) == 10 exactly.
    assert_eq!(compute_divider(80_000_000, 500_000, 16), Ok(10));
}

#[test]
fn exact_divider_upper_range() {
    // 511 * 1000 * 2 == 1_022_000: the largest accepted divider.
    assert_eq!(compute_divider(1_022_000, 1000, 2), Ok(511));
}

#[test]
fn divider_at_upper_edge_rejected() {
    // 512 * 1000 * 2 == 1_024_000: rejected at the register field limit.
    assert_eq!(
        compute_divider(1_024_000, 1000, 2),
        Err(ConfigurationError::InvalidDivider(512))
    );
}

#[test]
fn clock_just_below_one_bit_time_rejected() {
    // c < f * q means a divider below one.
    assert_eq!(
        compute_divider(7_999_999, 500_000, 16),
        Err(ConfigurationError::ZeroDivider)
    );
}

#[test]
fn zero_target_frequency_rejected() {
    assert_eq!(
        compute_divider(80_000_000, 0, 16),
        Err(ConfigurationError::StoppedOutputClock)
    );
    assert_eq!(
        compute_divider(0, 0, 0),
        Err(ConfigurationError::StoppedOutputClock)
    );
}

#[test]
fn zero_quanta_rejected() {
    assert_eq!(
        compute_divider(80_000_000, 500_000, 0),
        Err(ConfigurationError::ZeroQuanta)
    );
}

#[test]
fn inexact_rate_rejected_with_achieved_rate() {
    // 80 MHz with 17 quanta cannot hit 1 MHz for any integer divider: the
    // truncated divider is 4 and the achieved rate 80_000_000 / 68.
    assert_eq!(
        compute_divider(80_000_000, 1_000_000, 17),
        Err(ConfigurationError::BitTimeRounding(1_176_470))
    );
}

#[test]
fn inexact_quotient_rejected_even_when_truncation_recomputes() {
    // 10 / (3 * 1) is not a whole number. The truncated divider 3 would even
    // recompute to 10 / 3 == 3 under integer division, but the request is
    // refused all the same, carrying that achieved rate.
    assert_eq!(
        compute_divider(10, 3, 1),
        Err(ConfigurationError::BitTimeRounding(3))
    );
}

#[test]
fn half_step_quotient_rejected() {
    // 5 / (2 * 1) == 2.5: inexact, so the truncated divider 2 is refused
    // with the rate it would achieve, 5 / 2 == 2.
    assert_eq!(
        compute_divider(5, 2, 1),
        Err(ConfigurationError::BitTimeRounding(2))
    );
}
