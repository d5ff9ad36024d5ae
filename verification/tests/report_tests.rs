use sonarr_plex_cleaner::digits::dec_string;
use sonarr_plex_cleaner::digits::padded2_string;
use sonarr_plex_cleaner::report::report_line;

#[test]
fn decimal_rendering_matches_std_formatting() {
    assert_eq!(dec_string(0), "0");
    assert_eq!(dec_string(7), "7");
    assert_eq!(dec_string(10), "10");
    assert_eq!(dec_string(90210), "90210");
    assert_eq!(dec_string(u128::MAX), format!("{}", u128::MAX));
}

#[test]
fn season_numbers_are_zero_padded_to_two_digits() {
    assert_eq!(padded2_string(0), "00");
    assert_eq!(padded2_string(3), "03");
    assert_eq!(padded2_string(10), "10");
    assert_eq!(padded2_string(123), "123");
}

#[test]
fn report_line_names_count_title_season_and_size() {
    // 5_000_000_000 bytes are 4.6566... GiB; the byte-unit rendering keeps
    // two decimal places.
    let line = report_line(10, "Show X", 1, 5_000_000_000);
    assert_eq!(line, "delete 10 files: Show X S01: 4.66 GiB");
}

#[test]
fn report_line_of_one_exact_gibibyte() {
    let line = report_line(1, "Show Y", 12, 1_073_741_824);
    assert_eq!(line, "delete 1 files: Show Y S12: 1.00 GiB");
}

#[test]
fn report_line_of_an_empty_season() {
    let line = report_line(0, "Show Z", 0, 0);
    assert_eq!(line, "delete 0 files: Show Z S00: 0.00 GiB");
}
