use datafusion_bridge::human_size::human_bytes;
use datafusion_bridge::text::{decimal, prefixed, signed_decimal};

fn in_floats(bytes: usize) -> String {
    const KB: usize = 1024;
    const MB: usize = 1024 * KB;
    const GB: usize = 1024 * MB;
    if bytes >= GB {
        format!("{:.1}gb", bytes as f64 / GB as f64)
    } else if bytes >= MB {
        format!("{:.1}mb", bytes as f64 / MB as f64)
    } else if bytes >= KB {
        format!("{:.1}kb", bytes as f64 / KB as f64)
    } else {
        format!("{}b", bytes)
    }
}

#[test]
fn sizes_are_shown_in_the_largest_unit() {
    assert_eq!(human_bytes(0), "0b");
    assert_eq!(human_bytes(1023), "1023b");
    assert_eq!(human_bytes(1024), "1.0kb");
    assert_eq!(human_bytes(1536), "1.5kb");
    assert_eq!(human_bytes(1024 * 1024 - 1), "1024.0kb");
    assert_eq!(human_bytes(1024 * 1024), "1.0mb");
    assert_eq!(human_bytes(1024 * 1024 * 1024), "1.0gb");
    assert_eq!(human_bytes(64 * 1024 * 1024 * 1024), "64.0gb");
    assert_eq!(human_bytes(usize::MAX), "17179869184.0gb");
}

#[test]
fn ties_go_to_the_even_digit() {
    assert_eq!(human_bytes(1280), "1.2kb"); // 1.25
    assert_eq!(human_bytes(1792), "1.8kb"); // 1.75
    assert_eq!(human_bytes(1_310_720), "1.2mb"); // 1.25
}

#[test]
fn sizes_agree_with_float_formatting() {
    for n in 0..70_000usize {
        assert_eq!(human_bytes(n), in_floats(n));
    }
    let mut n: usize = 1;
    for step in 0..20_000usize {
        assert_eq!(human_bytes(n), in_floats(n), "{}", n);
        n = n.wrapping_mul(6364136223846793005).wrapping_add(step).rotate_left(7);
        let small = n >> (step % 64);
        assert_eq!(human_bytes(small), in_floats(small), "{}", small);
    }
    for shift in 10..64u32 {
        let base = 1usize << shift;
        for d in 0..40usize {
            assert_eq!(human_bytes(base - d), in_floats(base - d));
            assert_eq!(human_bytes(base + d), in_floats(base + d));
        }
    }
}

#[test]
fn numbers_are_written_in_decimal() {
    for n in [0u128, 1, 9, 10, 11, 99, 100, 12345, u64::MAX as u128, u128::MAX] {
        assert_eq!(decimal(n), format!("{}", n));
    }
    for n in [0i64, 1, -1, 99001, -10, i64::MAX, i64::MIN] {
        assert_eq!(signed_decimal(n), format!("{}", n));
    }
    assert_eq!(prefixed("a: ", "b"), "a: b");
}
