use pervie::platform::linux::parse_size;
use pervie::utils::bytes_to_human;

#[test]
fn test_bytes_to_human() {
    assert_eq!(bytes_to_human(0), "0 B");
    assert_eq!(bytes_to_human(512), "512 B");
    assert_eq!(bytes_to_human(1024), "1.00 KB");
    assert_eq!(bytes_to_human(1536), "1.50 KB");
    assert_eq!(bytes_to_human(1048576), "1.00 MB");
    assert_eq!(bytes_to_human(1073741824), "1.00 GB");
    assert_eq!(bytes_to_human(1099511627776), "1.00 TB");
}

fn printed_as_float(bytes: u64) -> String {
    const KB: u64 = 1024;
    const MB: u64 = KB * 1024;
    const GB: u64 = MB * 1024;
    const TB: u64 = GB * 1024;
    if bytes >= TB {
        format!("{:.2} TB", bytes as f64 / TB as f64)
    } else if bytes >= GB {
        format!("{:.2} GB", bytes as f64 / GB as f64)
    } else if bytes >= MB {
        format!("{:.2} MB", bytes as f64 / MB as f64)
    } else if bytes >= KB {
        format!("{:.2} KB", bytes as f64 / KB as f64)
    } else {
        format!("{} B", bytes)
    }
}

#[test]
fn bytes_to_human_below_one_kilobyte_is_whole_bytes() {
    assert_eq!(bytes_to_human(1), "1 B");
    assert_eq!(bytes_to_human(9), "9 B");
    assert_eq!(bytes_to_human(10), "10 B");
    assert_eq!(bytes_to_human(1023), "1023 B");
}

#[test]
fn bytes_to_human_rounds_to_two_decimals() {
    assert_eq!(bytes_to_human(1029), "1.00 KB");
    assert_eq!(bytes_to_human(1153), "1.13 KB");
    assert_eq!(bytes_to_human(123456789), "117.74 MB");
    assert_eq!(bytes_to_human(999999999999), "931.32 GB");
    assert_eq!(bytes_to_human(6047313952768), "5.50 TB");
    assert_eq!(bytes_to_human(1048575), "1024.00 KB");
}

#[test]
fn bytes_to_human_ties_go_to_the_even_neighbour() {
    assert_eq!(bytes_to_human(1152), "1.12 KB");
    assert_eq!(bytes_to_human(1408), "1.38 KB");
    assert_eq!(bytes_to_human(1152), printed_as_float(1152));
    assert_eq!(bytes_to_human(1408), printed_as_float(1408));
}

#[test]
fn bytes_to_human_beyond_double_precision() {
    assert_eq!(bytes_to_human(9007199254740993), "8192.00 TB");
    assert_eq!(bytes_to_human(u64::MAX), "16777216.00 TB");
    assert_eq!(bytes_to_human(9223372036854776833), "8388608.00 TB");
    for bytes in [
        9007199254740992u64,
        9007199254740993,
        9007199254740995,
        18014398509481985,
        18014398509481990,
        u64::MAX,
        u64::MAX - 1024,
        12345678901234567890,
    ] {
        assert_eq!(bytes_to_human(bytes), printed_as_float(bytes));
    }
}

#[test]
fn bytes_to_human_agrees_with_float_printing() {
    let mut seed: u64 = 0x2545F4914F6CDD1D;
    for round in 0..4000u32 {
        seed ^= seed << 13;
        seed ^= seed >> 7;
        seed ^= seed << 17;
        let bytes = seed >> (round % 64);
        assert_eq!(bytes_to_human(bytes), printed_as_float(bytes), "for {} bytes", bytes);
    }
    for bytes in 0..5000u64 {
        assert_eq!(bytes_to_human(bytes), printed_as_float(bytes));
    }
}

#[test]
fn parse_size_whole_numbers_with_units() {
    assert_eq!(parse_size("1B"), 1);
    assert_eq!(parse_size("1K"), 1024);
    assert_eq!(parse_size("256M"), 268435456);
    assert_eq!(parse_size("500G"), 536870912000);
    assert_eq!(parse_size("1T"), 1099511627776);
    assert_eq!(parse_size("1P"), 1125899906842624);
    assert_eq!(parse_size("0G"), 0);
}

#[test]
fn parse_size_equals_number_times_power_of_1024() {
    let units = ['B', 'K', 'M', 'G', 'T', 'P'];
    for (index, unit) in units.iter().enumerate() {
        for number in [0u64, 1, 2, 7, 10, 999, 1023, 1024, 4096] {
            let text = format!("{}{}", number, unit);
            assert_eq!(parse_size(&text), number * 1024u64.pow(index as u32), "{}", text);
        }
    }
}

#[test]
fn parse_size_units_in_lower_case() {
    assert_eq!(parse_size("1k"), 1024);
    assert_eq!(parse_size("2m"), 2097152);
    assert_eq!(parse_size("3g"), 3221225472);
    assert_eq!(parse_size("1t"), 1099511627776);
    assert_eq!(parse_size("1p"), 1125899906842624);
    assert_eq!(parse_size("9b"), 9);
}

#[test]
fn parse_size_fractions_round_down() {
    assert_eq!(parse_size("1.5K"), 1536);
    assert_eq!(parse_size("0.5K"), 512);
    assert_eq!(parse_size(".5K"), 512);
    assert_eq!(parse_size("5.K"), 5120);
    assert_eq!(parse_size("0.5B"), 0);
    assert_eq!(parse_size("465.8G"), 500148941619);
    assert_eq!(parse_size("1.8T"), 1979120929996);
    assert_eq!(parse_size("7.45G"), 7999376588);
    assert_eq!(parse_size("3.7T"), 4068193022771);
    assert_eq!(parse_size("0.1P"), 112589990684262);
    assert_eq!(parse_size("0.9999999999999999999999999999K"), 1023);
}

#[test]
fn parse_size_agrees_with_float_arithmetic_on_listed_sizes() {
    let units = [('K', 1024f64), ('M', 1048576f64), ('G', 1073741824f64), ('T', 1099511627776f64)];
    for (unit, multiplier) in units {
        for tenths in 0..3000u32 {
            let text = format!("{}.{}{}", tenths / 10, tenths % 10, unit);
            let number: f64 = format!("{}.{}", tenths / 10, tenths % 10).parse().unwrap();
            assert_eq!(parse_size(&text), (number * multiplier) as u64, "{}", text);
        }
    }
}

#[test]
fn parse_size_ignores_surrounding_space() {
    assert_eq!(parse_size("  500G  "), 536870912000);
    assert_eq!(parse_size("\t1K\n"), 1024);
    assert_eq!(parse_size("5 K"), 5120);
    assert_eq!(parse_size(" 12 "), 12);
    assert_eq!(parse_size("\u{a0}3M\u{3000}"), 3145728);
}

#[test]
fn parse_size_plain_byte_counts() {
    assert_eq!(parse_size("0"), 0);
    assert_eq!(parse_size("12"), 12);
    assert_eq!(parse_size("+12"), 12);
    assert_eq!(parse_size("18446744073709551615"), u64::MAX);
    assert_eq!(parse_size("18446744073709551616"), 0);
    assert_eq!(parse_size("1.5"), 0);
}

#[test]
fn parse_size_caps_at_the_largest_value() {
    assert_eq!(parse_size("16384P"), u64::MAX);
    assert_eq!(parse_size("16383P"), 16383 * 1125899906842624);
    assert_eq!(parse_size("99999999999999999999999999P"), u64::MAX);
    assert_eq!(parse_size("18446744073709551616B"), u64::MAX);
    assert_eq!(parse_size("18446744073709551615B"), u64::MAX);
}

#[test]
fn parse_size_of_malformed_text_is_zero() {
    assert_eq!(parse_size(""), 0);
    assert_eq!(parse_size("   "), 0);
    assert_eq!(parse_size("G"), 0);
    assert_eq!(parse_size(".G"), 0);
    assert_eq!(parse_size("+G"), 0);
    assert_eq!(parse_size("abc"), 0);
    assert_eq!(parse_size("12X"), 0);
    assert_eq!(parse_size("-5G"), 0);
    assert_eq!(parse_size("1.2.3G"), 0);
    assert_eq!(parse_size("1,5G"), 0);
    assert_eq!(parse_size("5GG"), 0);
    assert_eq!(parse_size("1 2G"), 0);
    assert_eq!(parse_size("5\u{b5}"), 0);
    assert_eq!(parse_size("\u{661}G"), 0);
}
