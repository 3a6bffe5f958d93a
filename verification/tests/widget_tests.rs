use conky_widget::boot;
use conky_widget::bytes_to_gb_hundredths;
use conky_widget::fmt_hundredths;
use conky_widget::fmt_tenths;
use conky_widget::percent_tenths;
use conky_widget::refresh_label;
use conky_widget::u64_to_string;
use conky_widget::update;
use conky_widget::window_x;
use conky_widget::Message;
use conky_widget::Snapshot;
use conky_widget::WidgetState;
use conky_widget::BYTES_PER_GB;
use conky_widget::REFRESH_INTERVAL_SECS;

#[test]
fn percent_of_half_is_five_hundred_tenths() {
    assert_eq!(percent_tenths(1, 2), 500);
}

#[test]
fn percent_of_nothing_used_is_zero() {
    assert_eq!(percent_tenths(0, 12345), 0);
}

#[test]
fn percent_of_everything_used_is_one_thousand_tenths() {
    assert_eq!(percent_tenths(7777, 7777), 1000);
}

#[test]
fn percent_of_zero_total_is_zero() {
    assert_eq!(percent_tenths(0, 0), 0);
}

#[test]
fn percent_rounds_to_nearest_tenth() {
    // 1/3 is 33.33..%, displayed as 33.3%.
    assert_eq!(percent_tenths(1, 3), 333);
    // 2/3 is 66.66..%, displayed as 66.7%.
    assert_eq!(percent_tenths(2, 3), 667);
    // 1/8 is exactly 12.5%.
    assert_eq!(percent_tenths(1, 8), 125);
}

#[test]
fn zero_bytes_is_zero_hundredths() {
    assert_eq!(bytes_to_gb_hundredths(0), 0);
}

#[test]
fn one_gigabyte_is_one_hundred_hundredths() {
    assert_eq!(bytes_to_gb_hundredths(BYTES_PER_GB), 100);
}

#[test]
fn one_and_a_half_gigabytes_is_one_hundred_fifty_hundredths() {
    assert_eq!(bytes_to_gb_hundredths(3 * BYTES_PER_GB / 2), 150);
}

#[test]
fn byte_conversion_rounds_to_nearest_hundredth() {
    // Just under half a hundredth of a gigabyte rounds down to zero.
    assert_eq!(bytes_to_gb_hundredths(5_368_709), 0);
    // Just over half a hundredth rounds up to one.
    assert_eq!(bytes_to_gb_hundredths(5_368_710), 1);
}

#[test]
fn largest_byte_count_converts_without_overflow() {
    // floor((u64::MAX * 100 + 2^29) / 2^30) hundredths of a gigabyte.
    assert_eq!(bytes_to_gb_hundredths(u64::MAX), 1_717_986_918_400);
}

#[test]
fn small_numbers_render_as_single_digits() {
    assert_eq!(u64_to_string(0), "0");
    assert_eq!(u64_to_string(9), "9");
}

#[test]
fn larger_numbers_render_most_significant_digit_first() {
    assert_eq!(u64_to_string(10), "10");
    assert_eq!(u64_to_string(375), "375");
    assert_eq!(u64_to_string(1_000_000), "1000000");
}

#[test]
fn largest_number_renders_fully() {
    assert_eq!(u64_to_string(u64::MAX), "18446744073709551615");
}

#[test]
fn tenths_render_with_one_decimal_place() {
    assert_eq!(fmt_tenths(375), "37.5");
    assert_eq!(fmt_tenths(0), "0.0");
    assert_eq!(fmt_tenths(1000), "100.0");
    assert_eq!(fmt_tenths(7), "0.7");
}

#[test]
fn hundredths_render_with_two_decimal_places() {
    assert_eq!(fmt_hundredths(1550), "15.50");
    assert_eq!(fmt_hundredths(0), "0.00");
    assert_eq!(fmt_hundredths(5), "0.05");
    assert_eq!(fmt_hundredths(42), "0.42");
    assert_eq!(fmt_hundredths(100), "1.00");
}

#[test]
fn boot_converts_the_first_reading() {
    let reading = Snapshot {
        cpu_tenths: 375,
        used_memory_bytes: BYTES_PER_GB,
        total_memory_bytes: 2 * BYTES_PER_GB,
    };
    let state = boot(reading);
    assert_eq!(state.cpu_tenths, 375);
    assert_eq!(state.used_gb_hundredths, 100);
    assert_eq!(state.total_gb_hundredths, 200);
}

#[test]
fn tick_replaces_the_state_with_the_fresh_reading() {
    let mut state = boot(Snapshot {
        cpu_tenths: 0,
        used_memory_bytes: 0,
        total_memory_bytes: 0,
    });
    let reading = Snapshot {
        cpu_tenths: 123,
        used_memory_bytes: 3 * BYTES_PER_GB,
        total_memory_bytes: 4 * BYTES_PER_GB,
    };
    update(&mut state, Message::Tick, reading);
    assert_eq!(state.cpu_tenths, 123);
    assert_eq!(state.used_gb_hundredths, 300);
    assert_eq!(state.total_gb_hundredths, 400);
}

#[test]
fn manual_refresh_acts_like_a_tick() {
    let reading = Snapshot {
        cpu_tenths: 995,
        used_memory_bytes: BYTES_PER_GB / 2,
        total_memory_bytes: 16 * BYTES_PER_GB,
    };
    let mut ticked = boot(Snapshot {
        cpu_tenths: 0,
        used_memory_bytes: 0,
        total_memory_bytes: 0,
    });
    let mut pressed = ticked;
    update(&mut ticked, Message::Tick, reading);
    update(&mut pressed, Message::RefreshNow, reading);
    assert_eq!(ticked, pressed);
}

#[test]
fn cpu_line_shows_usage_with_one_decimal() {
    let state = WidgetState {
        cpu_tenths: 375,
        used_gb_hundredths: 0,
        total_gb_hundredths: 0,
    };
    assert_eq!(state.cpu_line(), "CPU: 37.5%");
}

#[test]
fn memory_line_shows_amounts_and_percentage() {
    let state = WidgetState {
        cpu_tenths: 0,
        used_gb_hundredths: 100,
        total_gb_hundredths: 200,
    };
    assert_eq!(state.memory_line(), "Memory: 1.00 / 2.00 GB (50.0%)");
}

#[test]
fn memory_line_with_zero_total_shows_zero_percent() {
    let state = WidgetState {
        cpu_tenths: 0,
        used_gb_hundredths: 0,
        total_gb_hundredths: 0,
    };
    assert_eq!(state.memory_line(), "Memory: 0.00 / 0.00 GB (0.0%)");
}

#[test]
fn full_refresh_renders_both_lines() {
    let reading = Snapshot {
        cpu_tenths: 42,
        used_memory_bytes: 3 * BYTES_PER_GB + BYTES_PER_GB / 2,
        total_memory_bytes: 16 * BYTES_PER_GB,
    };
    let state = boot(reading);
    assert_eq!(state.cpu_line(), "CPU: 4.2%");
    assert_eq!(state.memory_line(), "Memory: 3.50 / 16.00 GB (21.9%)");
}

#[test]
fn window_sits_at_the_right_edge_minus_the_margin() {
    assert_eq!(window_x(1366, 320, 20), 1026);
    assert_eq!(conky_widget::window_position(), (1026, 50));
}

#[test]
fn refresh_button_has_its_caption() {
    assert_eq!(refresh_label(), "Refresh Now");
}

#[test]
fn timer_ticks_every_two_seconds() {
    assert_eq!(REFRESH_INTERVAL_SECS, 2);
}
