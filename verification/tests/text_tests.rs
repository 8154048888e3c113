use roon_tui::text::{get_time_string, queue_item_line, trim_string};

#[test]
fn time_strings_under_an_hour() {
    assert_eq!(get_time_string(0), "0:00");
    assert_eq!(get_time_string(9), "0:09");
    assert_eq!(get_time_string(59), "0:59");
    assert_eq!(get_time_string(61), "1:01");
    assert_eq!(get_time_string(600), "10:00");
    assert_eq!(get_time_string(3599), "59:59");
}

#[test]
fn time_strings_with_hours() {
    assert_eq!(get_time_string(3600), "1:00:00");
    assert_eq!(get_time_string(3725), "1:02:05");
    assert_eq!(get_time_string(36000), "10:00:00");
    assert_eq!(get_time_string(u32::MAX), "1193046:28:15");
}

#[test]
fn trim_counts_characters() {
    assert_eq!(trim_string("héllo", 2), (2, "hé"));
    assert_eq!(trim_string("abc", 5), (3, "abc"));
    assert_eq!(trim_string("abc", 3), (3, "abc"));
    assert_eq!(trim_string("abc", 0), (0, ""));
    assert_eq!(trim_string("", 4), (0, ""));
}

#[test]
fn queue_line_pads_to_width() {
    assert_eq!(queue_item_line("Song", 185, 20), "Song            3:05");
    assert_eq!(queue_item_line("Song", 185, 20).chars().count(), 20);
}

#[test]
fn queue_line_cuts_long_titles() {
    assert_eq!(queue_item_line("A very long song title here", 65, 12), "A very  1:05");
    assert_eq!(queue_item_line("Ünïcödé title", 65, 12), "Ünïcödé 1:05");
}

#[test]
fn queue_line_too_narrow() {
    assert_eq!(queue_item_line("Song", 65, 3), "1:05");
    assert_eq!(queue_item_line("Song", 65, 0), "1:05");
    assert_eq!(queue_item_line("Song", 3700, 9), "S 1:01:40");
}

#[test]
fn trimming_twice_changes_nothing() {
    let (_, once) = trim_string("Wish You Were Here", 8);
    assert_eq!(once, "Wish You");
    assert_eq!(trim_string(once, 8), (8, "Wish You"));
}
