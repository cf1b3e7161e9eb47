use finality_party::config::{create_aleph_config, UnitCreationDelay, MAX_ROUND};
use finality_party::delay::{exponential_slowdown, DelayCurve};
use finality_party::session::SessionId;

#[test]
fn flat_phase_returns_base() {
    for t in 0..5usize {
        assert_eq!(exponential_slowdown(t, 100, 5, 3), 100);
    }
}

#[test]
fn exponential_phase_values() {
    assert_eq!(exponential_slowdown(5, 100, 5, 3), 100);
    assert_eq!(exponential_slowdown(6, 100, 5, 3), 300);
    assert_eq!(exponential_slowdown(7, 100, 5, 3), 900);
    assert_eq!(exponential_slowdown(0, 4000, 0, 2), 4000);
    assert_eq!(exponential_slowdown(3, 4000, 0, 2), 32000);
    assert_eq!(exponential_slowdown(10, 4000, 0, 2), 4_096_000);
}

#[test]
fn saturates_instead_of_wrapping() {
    assert_eq!(exponential_slowdown(100, 4000, 0, 2), u64::MAX);
    assert_eq!(exponential_slowdown(usize::MAX, 1, 0, 2), u64::MAX);
    assert_eq!(exponential_slowdown(1, u64::MAX, 0, 2), u64::MAX);
    assert_eq!(exponential_slowdown(52, 4000, 0, 2), 4000u64 << 52);
    assert_eq!(exponential_slowdown(53, 4000, 0, 2), u64::MAX);
}

#[test]
fn degenerate_factors() {
    assert_eq!(exponential_slowdown(9, 100, 5, 1), 100);
    assert_eq!(exponential_slowdown(usize::MAX, 100, 5, 1), 100);
    assert_eq!(exponential_slowdown(5, 100, 5, 0), 100);
    assert_eq!(exponential_slowdown(6, 100, 5, 0), 0);
    assert_eq!(exponential_slowdown(6, 0, 5, 7), 0);
}

#[test]
fn monotone_in_step() {
    for e in 1..4u64 {
        let mut prev = 0u64;
        for t in 0..80usize {
            let d = exponential_slowdown(t, 1500, 10, e);
            assert!(d >= prev);
            prev = d;
        }
    }
}

#[test]
fn curve_with_fractional_factor() {
    let c = DelayCurve { base_delay_ms: 300, start_exp_delay: 5000, exp_base_per_mille: 1005 };
    assert_eq!(c.delay_ms(0), Some(300));
    assert_eq!(c.delay_ms(4999), Some(300));
    assert_eq!(c.delay_ms(5000), None);
    let w = DelayCurve { base_delay_ms: 10, start_exp_delay: 1, exp_base_per_mille: 3000 };
    assert_eq!(w.delay_ms(3), Some(90));
}

#[test]
fn unit_creation_starts_with_warmup() {
    for base in [0u64, 1, 300, 2000, 5000, u64::MAX] {
        let c = create_aleph_config(4, 2, SessionId(5), UnitCreationDelay(base));
        assert_eq!(c.unit_creation_delay_ms(0), Some(2000));
        assert_eq!(c.unit_creation_delay_ms(1), Some(base));
        assert_eq!(c.unit_creation_delay_ms(4999), Some(base));
        assert_eq!(c.unit_creation_delay_ms(5000), None);
    }
}

#[test]
fn consensus_config_values() {
    let c = create_aleph_config(4, 2, SessionId(5), UnitCreationDelay(300));
    assert_eq!(c.n_members, 4);
    assert_eq!(c.node_id, 2);
    assert_eq!(c.session_id, 5);
    assert_eq!(c.max_round, MAX_ROUND);
    assert_eq!(c.max_round, 7000);
    assert_eq!(c.tick_interval_ms, 100);
    assert_eq!(c.requests_interval_ms, 3000);
    assert_eq!(c.unit_broadcast_delay_ms(0), Some(4000));
    assert_eq!(c.unit_broadcast_delay_ms(1), Some(8000));
    assert_eq!(c.unit_broadcast_delay_ms(2), Some(16000));
}
