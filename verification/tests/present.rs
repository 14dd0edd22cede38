use dng_batch::present::count_label;
use dng_batch::present::decimal_string;
use dng_batch::present::truncate_output_path;

#[test]
fn short_output_path_is_unmodified() {
    assert_eq!(truncate_output_path("/out"), "/out");
    let exactly_twenty = "/home/user/pictures1";
    assert_eq!(exactly_twenty.chars().count(), 20);
    assert_eq!(truncate_output_path(exactly_twenty), exactly_twenty);
    assert_eq!(truncate_output_path(""), "");
}

#[test]
fn long_output_path_keeps_last_twenty_characters() {
    let twenty_five = "/home/user/pictures/raw25";
    assert_eq!(twenty_five.chars().count(), 25);
    let shown = truncate_output_path(twenty_five);
    assert_eq!(shown.chars().count(), 23);
    assert_eq!(shown, ".../user/pictures/raw25");

    let twenty_one = "/home/user/pictures12";
    assert_eq!(twenty_one.chars().count(), 21);
    assert_eq!(truncate_output_path(twenty_one), "...home/user/pictures12");
}

#[test]
fn decimal_rendering_is_exact() {
    assert_eq!(decimal_string(0), "0");
    assert_eq!(decimal_string(7), "7");
    assert_eq!(decimal_string(10), "10");
    assert_eq!(decimal_string(42), "42");
    assert_eq!(decimal_string(120), "120");
    assert_eq!(decimal_string(1005), "1005");
}

#[test]
fn count_label_is_exact() {
    assert_eq!(count_label(0), "0 file(s) selected.");
    assert_eq!(count_label(1), "1 file(s) selected.");
    assert_eq!(count_label(37), "37 file(s) selected.");
}
