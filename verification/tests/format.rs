use tftpd::format::{format_size, format_size_compact};
use tftpd::progress::{get_terminal_width, ProgressBar};

#[test]
fn small_counts_are_shown_in_bytes() {
    assert_eq!(format_size(0), "0.0 B");
    assert_eq!(format_size(600), "600.0 B");
    assert_eq!(format_size(1023), "1023.0 B");
}

#[test]
fn kilobyte_counts_carry_one_decimal() {
    assert_eq!(format_size(1024), "1.0 KB");
    assert_eq!(format_size(1536), "1.5 KB");
    assert_eq!(format_size(1587), "1.5 KB");
    assert_eq!(format_size(10240), "10.0 KB");
}

#[test]
fn halves_round_to_even() {
    // 1280 bytes is exactly 1.25 KB, 1792 exactly 1.75 KB.
    assert_eq!(format_size(1280), "1.2 KB");
    assert_eq!(format_size(1792), "1.8 KB");
}

#[test]
fn each_unit_gets_its_suffix() {
    assert_eq!(format_size(1048576), "1.0 MB");
    assert_eq!(format_size(1073741824), "1.0 GB");
    assert_eq!(format_size(1099511627776), "1.0 TB");
    assert_eq!(format_size(3 * 1099511627776 + 1099511627776 / 2), "3.5 TB");
}

#[test]
fn compact_form_drops_the_space() {
    assert_eq!(format_size_compact(600), "600.0B");
    assert_eq!(format_size_compact(1536), "1.5KB");
}

#[test]
fn terminal_width_takes_the_first_probe_that_answered() {
    assert_eq!(get_terminal_width(Some(120), Some(100), Some(90)), 120);
    assert_eq!(get_terminal_width(None, Some(100), Some(90)), 100);
    assert_eq!(get_terminal_width(None, None, Some(90)), 90);
    assert_eq!(get_terminal_width(None, None, None), 80);
}

#[test]
fn bar_width_fits_the_terminal() {
    // 47 columns and the filename are reserved; the bar takes the rest,
    // at most 40 columns.
    let wide = ProgressBar::new("report.txt".to_string(), 120);
    assert_eq!(wide.width, 40);
    let medium = ProgressBar::new("report.txt".to_string(), 80);
    assert_eq!(medium.width, 23);
    let cramped = ProgressBar::new("report.txt".to_string(), 60);
    assert_eq!(cramped.width, 20);
}

#[test]
fn update_line_shows_bar_counts_speed_and_name() {
    let bar = ProgressBar::new("f.txt".to_string(), 100);
    assert_eq!(bar.width, 40);
    let line = bar.render_update(50, 600, 1200, b"1.0KB/s");
    assert_eq!(
        line,
        "[===================>-------------------] 50% (600.0B/1.2KB) 1.0KB/s - f.txt"
    );
}

#[test]
fn finished_bar_is_all_equals() {
    let bar = ProgressBar::new("f.txt".to_string(), 100);
    let line = bar.render_update(100, 1200, 1200, b"1.0KB/s");
    assert_eq!(
        line,
        "[========================================] 100% (1.2KB/1.2KB) 1.0KB/s - f.txt"
    );
}

#[test]
fn long_filenames_are_shortened() {
    let bar = ProgressBar::new("a-very-long-filename.tar.gz".to_string(), 200);
    let line = bar.render_update(0, 0, 0, b"0B/s");
    assert!(line.ends_with(" - a-very-long-..."));
    assert!(line.starts_with("[>"));
}

#[test]
fn narrow_terminals_truncate_the_line() {
    let bar = ProgressBar::new("file.bin".to_string(), 40);
    assert_eq!(bar.width, 20);
    let line = bar.render_update(10, 100, 1000, b"5.0KB/s");
    assert_eq!(line.len(), 40);
    assert!(line.ends_with("..."));
}
