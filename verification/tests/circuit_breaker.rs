use std::sync::{Arc, Mutex};

use datafusion_bridge::circuit_breaker::{
    get, get_mut, init, refresh, register_stats_callback, BreakerCell, BreakerStats,
    CircuitBreakError, NativeCircuitBreaker, StatsCallback, StatsPush,
};
use datafusion_bridge::native_mem_stats::{Reading, TickReport};

fn make_breaker(request_limit: usize, node_limit: usize, overhead: f64) -> NativeCircuitBreaker {
    NativeCircuitBreaker {
        request_limit,
        node_limit,
        request_used_bytes: 0,
        cached_total_bytes: 0,
        overhead_millionths: (overhead * 1_000_000.0) as u64,
        child_tripped: 0,
        node_tripped: 0,
    }
}

#[test]
fn test_request_check_trips() {
    let mut b = make_breaker(1000, 0, 1.0);
    assert!(b.check_and_reserve(1000).is_ok());
    assert!(b.check_and_reserve(1).is_err());
    assert_eq!(b.child_tripped, 1);
}

#[test]
fn test_request_with_overhead() {
    let mut b = make_breaker(1000, 0, 2.0);
    assert!(b.check_and_reserve(400).is_ok()); // 400*2=800 < 1000
    assert!(b.check_and_reserve(200).is_err()); // (400+200)*2=1200 > 1000
}

#[test]
fn test_node_check_trips() {
    let mut b = make_breaker(0, 500, 1.0); // request disabled, node at 500
    b.cached_total_bytes = 400;
    assert!(b.check_and_reserve(50).is_ok()); // 400+50=450 < 500
    assert!(b.check_and_reserve(100).is_ok()); // 400+100=500, NOT > 500, passes
    assert!(b.check_and_reserve(101).is_err()); // 400+101=501 > 500, trips
    assert_eq!(b.node_tripped, 1);
}

#[test]
fn test_node_check_trips_correctly() {
    let mut b = make_breaker(0, 500, 1.0);
    b.cached_total_bytes = 450;
    assert!(b.check_and_reserve(51).is_err()); // 450+51=501 > 500
    assert_eq!(b.node_tripped, 1);
}

#[test]
fn test_release() {
    let mut b = make_breaker(1000, 0, 1.0);
    assert!(b.check_and_reserve(900).is_ok());
    b.release(900);
    assert!(b.check_and_reserve(900).is_ok());
}

#[test]
fn test_concurrent() {
    let b = Arc::new(Mutex::new(make_breaker(1_000_000, 0, 1.0)));
    let runtime = tokio::runtime::Builder::new_multi_thread()
        .worker_threads(10)
        .build()
        .unwrap();
    let handles: Vec<_> = (0..10)
        .map(|_| {
            let b = Arc::clone(&b);
            runtime.spawn(async move {
                let mut ok = 0usize;
                for _ in 0..1000 {
                    if b.lock().unwrap().check_and_reserve(1).is_ok() {
                        ok += 1;
                    }
                }
                ok
            })
        })
        .collect();
    let total: usize = handles
        .into_iter()
        .map(|h| runtime.block_on(h).unwrap())
        .sum();
    assert_eq!(total, 10_000);
    assert_eq!(b.lock().unwrap().request_used_bytes, 10_000);
}

#[test]
fn test_error_encoding() {
    let err = CircuitBreakError { bytes_wanted: 1024, bytes_limit: 512, current_used: 256 };
    let s = err.to_encoded_string();
    assert!(s.starts_with("CB:1024:512:256:"));
    assert!(s.contains("native_request"));
}

#[test]
fn error_text_is_exact() {
    let err = CircuitBreakError { bytes_wanted: 1024, bytes_limit: 512, current_used: 256 };
    let text = "[native_request] Data too large, data would be [1280/1.2kb], \
                which is larger than the limit of [512/512b]";
    assert_eq!(err.message(), text);
    assert_eq!(err.to_encoded_string(), format!("CB:1024:512:256:{}", text));
}

#[test]
fn encoded_error_splits_into_its_figures() {
    let err = CircuitBreakError { bytes_wanted: 7, bytes_limit: 1_073_741_824, current_used: 99 };
    let encoded = err.to_encoded_string();
    let pieces: Vec<&str> = encoded[3..].splitn(4, ':').collect();
    assert_eq!(pieces[0].parse::<usize>().unwrap(), 7);
    assert_eq!(pieces[1].parse::<usize>().unwrap(), 1_073_741_824);
    assert_eq!(pieces[2].parse::<usize>().unwrap(), 99);
    assert_eq!(pieces[3], err.message());
    assert_eq!(encoded[3..].split(':').count(), 4);
}

#[test]
fn error_text_of_an_unrepresentable_sum() {
    let err = CircuitBreakError { bytes_wanted: usize::MAX, bytes_limit: 0, current_used: 1 };
    assert!(err.message().contains("[18446744073709551616/17179869184.0gb]"));
    assert!(err.message().ends_with("[0/0b]"));
}

#[test]
fn request_level_reports_its_figures() {
    let mut b = make_breaker(1000, 0, 1.0);
    b.check_and_reserve(600).unwrap();
    let err = b.check_and_reserve(401).unwrap_err();
    assert_eq!(
        err,
        CircuitBreakError { bytes_wanted: 401, bytes_limit: 1000, current_used: 600 }
    );
    assert_eq!(b.request_used_bytes, 600);
    assert_eq!(b.child_tripped, 1);
    assert_eq!(b.node_tripped, 0);
    assert!(b.check_and_reserve(400).is_ok());
}

#[test]
fn node_level_reports_its_figures_and_gives_the_reservation_back() {
    let mut b = make_breaker(1000, 500, 1.0);
    b.cached_total_bytes = 450;
    b.check_and_reserve(50).unwrap();
    let err = b.check_and_reserve(51).unwrap_err();
    assert_eq!(
        err,
        CircuitBreakError { bytes_wanted: 51, bytes_limit: 500, current_used: 450 }
    );
    assert_eq!(b.request_used_bytes, 50);
    assert_eq!(b.child_tripped, 0);
    assert_eq!(b.node_tripped, 1);
}

#[test]
fn request_level_is_checked_before_the_node_level() {
    let mut b = make_breaker(10, 10, 1.0);
    b.cached_total_bytes = 10;
    let err = b.check_and_reserve(11).unwrap_err();
    assert_eq!(err.current_used, 0);
    assert_eq!(b.child_tripped, 1);
    assert_eq!(b.node_tripped, 0);
}

#[test]
fn zero_limits_switch_the_levels_off() {
    let mut b = make_breaker(0, 0, 1.0);
    assert!(b.check_and_reserve(usize::MAX).is_ok());
    assert_eq!(b.request_used_bytes, usize::MAX);
    let mut b = make_breaker(0, 500, 1.0);
    assert!(b.check_and_reserve(501).is_err());
    assert_eq!(b.request_used_bytes, 0);
    assert_eq!(b.node_tripped, 1);
}

#[test]
fn grants_are_counted_while_the_request_level_is_off() {
    let mut b = make_breaker(0, 0, 1.0);
    assert!(b.check_and_reserve(100).is_ok());
    assert_eq!(b.request_used_bytes, 100);
    b.release(100);
    assert_eq!(b.request_used_bytes, 0);
    assert!(b.check_and_reserve(60).is_ok());
    b.set_request_limit(100);
    assert!(b.check_and_reserve(41).is_err());
    assert!(b.check_and_reserve(40).is_ok());
}

#[test]
fn sums_that_do_not_fit_are_refused() {
    let mut b = make_breaker(usize::MAX, 0, 0.5);
    b.request_used_bytes = usize::MAX;
    assert!(b.check_and_reserve(1).is_err());
    let mut b = make_breaker(0, usize::MAX, 1.0);
    b.cached_total_bytes = usize::MAX;
    assert!(b.check_and_reserve(1).is_err());
    assert!(b.check_and_reserve(0).is_ok());
}

#[test]
fn fractional_overhead_is_not_cut() {
    let mut b = make_breaker(1000, 0, 1.5);
    assert!(b.check_and_reserve(667).is_err()); // 1000.5 > 1000
    assert_eq!(b.request_used_bytes, 0);
    assert_eq!(b.child_tripped, 1);
    assert!(b.check_and_reserve(666).is_ok()); // 999
    assert!(b.check_and_reserve(1).is_err());
}

#[test]
fn overhead_is_compared_exactly() {
    let factors = [1u64, 3, 570_000, 999_999, 1_000_000, 1_030_000, 1_100_000, 2_500_001, u64::MAX];
    let mut n: usize = 1;
    for step in 0..400usize {
        for m in factors {
            let product = n as u128 * m as u128;
            let least = (product + 999_999) / 1_000_000;
            if least <= usize::MAX as u128 {
                let mut b = NativeCircuitBreaker::new(least as usize, 0, m);
                assert!(b.check_and_reserve(n).is_ok(), "{} x {}", n, m);
                if least > 1 {
                    let mut b = NativeCircuitBreaker::new(least as usize - 1, 0, m);
                    assert!(b.check_and_reserve(n).is_err(), "{} x {}", n, m);
                }
            } else {
                let mut b = NativeCircuitBreaker::new(usize::MAX, 0, m);
                assert!(b.check_and_reserve(n).is_err(), "{} x {}", n, m);
            }
        }
        n = n.wrapping_mul(3).wrapping_add(step).max(1);
    }
}

#[test]
fn two_requests_are_as_their_sum() {
    for (x, y) in [(400usize, 266usize), (400, 267), (0, 666), (666, 0), (667, 0), (0, 667)] {
        let mut one = make_breaker(1000, 0, 1.5);
        let mut two = make_breaker(1000, 0, 1.5);
        let sum = one.check_and_reserve(x + y).is_ok();
        let both = two.check_and_reserve(x).is_ok() && two.check_and_reserve(y).is_ok();
        assert_eq!(sum, both);
        if sum {
            assert_eq!(one, two);
        }
    }
}

#[test]
fn node_level_accumulates_nothing() {
    let mut b = make_breaker(0, 500, 1.0);
    b.cached_total_bytes = 400;
    let mut other = make_breaker(100_000, 500, 2.0);
    other.cached_total_bytes = 400;
    for _ in 0..10 {
        assert!(b.check_and_reserve(100).is_ok());
        assert!(other.check_and_reserve(100).is_ok());
        assert_eq!(b.check_and_reserve(101), other.check_and_reserve(101));
    }
    assert_eq!(b.node_tripped, 10);
    assert_eq!(b.request_used_bytes, 1000);
}

#[test]
fn counters_follow_grants_releases_and_refusals() {
    let mut b = make_breaker(1000, 0, 1.0);
    assert!(b.check_and_reserve(600).is_ok());
    assert!(b.check_and_reserve(500).is_err());
    b.release(200);
    assert!(b.check_and_reserve(500).is_ok());
    assert!(b.check_and_reserve(101).is_err());
    b.release(600);
    assert_eq!(b.request_used_bytes, 600 - 200 + 500 - 600);
    assert_eq!(b.child_tripped, 2);
    assert_eq!(b.node_tripped, 0);
}

#[test]
fn uncovered_release_wraps_below_zero() {
    let mut b = make_breaker(1000, 0, 1.0);
    b.release(1);
    assert_eq!(b.request_used_bytes, usize::MAX);
}

#[test]
fn trip_counters_wrap() {
    let mut b = make_breaker(1, 1, 1.0);
    b.child_tripped = u64::MAX;
    assert!(b.check_and_reserve(2).is_err());
    assert_eq!(b.child_tripped, 0);
    b.node_tripped = u64::MAX;
    b.cached_total_bytes = 1;
    assert!(b.check_and_reserve(1).is_err());
    assert_eq!(b.node_tripped, 0);
}

#[test]
fn settings_change_one_by_one() {
    let mut b = make_breaker(1, 2, 1.0);
    b.set_request_limit(10);
    b.set_node_limit(20);
    b.set_overhead(3);
    let mut expected = make_breaker(10, 20, 0.0);
    expected.overhead_millionths = 3;
    assert_eq!(b, expected);
}

#[test]
fn requests_that_fit_are_granted_in_any_order() {
    for order in [[100usize, 300, 600], [600, 300, 100], [300, 600, 100]] {
        let mut b = make_breaker(1000, 0, 1.0);
        for n in order {
            assert!(b.check_and_reserve(n).is_ok());
        }
        assert_eq!(b.request_used_bytes, 1000);
    }
}

#[test]
fn breaker_is_set_up_once() {
    let mut cell = BreakerCell::new();
    assert!(get(&cell).is_none());
    assert!(get_mut(&mut cell).is_none());
    assert_eq!(init(&mut cell, 100, 200, 1_000_000), Ok(()));
    assert_eq!(
        init(&mut cell, 1, 2, 3),
        Err("circuit breaker already initialized")
    );
    assert_eq!(get(&cell).unwrap(), &NativeCircuitBreaker::new(100, 200, 1_000_000));
    get_mut(&mut cell).unwrap().check_and_reserve(60).unwrap();
    assert_eq!(get(&cell).unwrap().request_used_bytes, 60);
}

#[test]
fn refresh_reaches_the_breaker() {
    let mut cell = BreakerCell::new();
    assert_eq!(refresh(&mut cell, Reading::Bytes(5)), TickReport::Quiet);
    assert!(get(&cell).is_none());
    assert_eq!(refresh(&mut cell, Reading::Panicked), TickReport::LogAndRetry);
    init(&mut cell, 0, 500, 1_000_000).unwrap();
    assert_eq!(refresh(&mut cell, Reading::Bytes(450)), TickReport::Quiet);
    assert!(get_mut(&mut cell).unwrap().check_and_reserve(51).is_err());
    assert_eq!(refresh(&mut cell, Reading::Panicked), TickReport::LogAndRetry);
    assert_eq!(refresh(&mut cell, Reading::Bytes(0)), TickReport::Quiet);
    assert_eq!(refresh(&mut cell, Reading::Bytes(-3)), TickReport::Quiet);
    assert_eq!(get(&cell).unwrap().cached_total_bytes, 450);
}

#[test]
fn stats_are_pushed_to_a_registered_callback_only() {
    let mut b = make_breaker(100, 50, 1.0);
    b.cached_total_bytes = 7;
    b.check_and_reserve(40).unwrap();
    let _ = b.check_and_reserve(99);
    let _ = b.check_and_reserve(44);
    let stats = BreakerStats {
        request_used_bytes: 40,
        total_used_bytes: 7,
        child_tripped: 1,
        node_tripped: 1,
    };
    assert_eq!(b.stats(), stats);
    let mut callback = StatsCallback::new();
    assert_eq!(b.push_stats(&callback), None);
    register_stats_callback(&mut callback, 0x1234);
    assert_eq!(b.push_stats(&callback), Some(StatsPush { address: 0x1234, stats }));
    register_stats_callback(&mut callback, 0);
    assert_eq!(b.push_stats(&callback), None);
    b.release(41);
    assert_eq!(b.stats().request_used_bytes, -1);
}

#[test]
fn node_level_is_idle_without_readings() {
    for overhead in [1_000_000u64, 1_000_001, 1_500_000] {
        let mut b = NativeCircuitBreaker::new(1000, 1500, overhead);
        for n in [1usize, 10, 400, 589, 600, 1000, 1500] {
            let _ = b.check_and_reserve(n);
            assert!(b.request_used_bytes <= 1000);
        }
        assert_eq!(b.node_tripped, 0);
    }
}

#[test]
fn higher_limits_grant_more() {
    let mut b = make_breaker(1000, 0, 1.0);
    assert!(b.check_and_reserve(1000).is_ok());
    assert!(b.check_and_reserve(1).is_err());
    b.set_request_limit(1001);
    assert!(b.check_and_reserve(1).is_ok());
}
