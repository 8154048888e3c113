use roon_tui::layout::{
    bottom_right_rect, grouping_areas, help_areas, inner_lines, input_cursor, now_playing_areas,
    queue_item_width, screen_areas, upper_bar, Area,
};

fn area(x: u16, y: u16, width: u16, height: u16) -> Area {
    Area { x, y, width, height }
}

#[test]
fn upper_bar_is_three_lines() {
    assert_eq!(upper_bar(area(0, 0, 80, 24)), area(0, 0, 80, 3));
    assert_eq!(upper_bar(area(5, 2, 40, 20)), area(5, 2, 40, 3));
}

#[test]
fn bottom_right_quarter() {
    assert_eq!(bottom_right_rect(50, 50, area(0, 0, 80, 24)), area(40, 12, 40, 12));
    assert_eq!(bottom_right_rect(100, 100, area(0, 0, 80, 24)), area(0, 0, 80, 24));
}

#[test]
fn main_screen() {
    let a = screen_areas(area(0, 0, 80, 24));
    assert_eq!(a.browse, area(2, 1, 38, 15));
    assert_eq!(a.queue, area(40, 1, 38, 15));
    assert_eq!(a.now_playing, area(2, 16, 76, 7));
}

#[test]
fn now_playing_parts() {
    let a = now_playing_areas(area(2, 16, 76, 7));
    assert_eq!(a.track, area(2, 16, 62, 5));
    assert_eq!(a.status, area(64, 16, 14, 5));
    assert_eq!(a.gauge, area(2, 21, 76, 2));
}

#[test]
fn grouping_parts() {
    let (name, list) = grouping_areas(area(40, 8, 40, 8));
    assert_eq!(name, area(41, 8, 38, 3));
    assert_eq!(list, area(41, 11, 38, 4));
}

#[test]
fn help_parts() {
    let (frame, columns) = help_areas(area(0, 0, 80, 24));
    assert_eq!(frame, area(2, 1, 76, 22));
    assert_eq!(columns.len(), 3);
    assert_eq!(columns[0].y, 1);
    assert_eq!(columns[0].height, 22);
}

#[test]
fn line_counts() {
    assert_eq!(inner_lines(10), 8);
    assert_eq!(inner_lines(1), 0);
    assert_eq!(queue_item_width(40), 34);
    assert_eq!(queue_item_width(5), 0);
}

#[test]
fn cursor_positions() {
    assert_eq!(input_cursor(area(0, 0, 80, 3), 5, 3, 1), (77, 6, 1));
    assert_eq!(input_cursor(area(0, 0, 10, 3), 50, 3, 1), (7, 8, 1));
    assert_eq!(input_cursor(area(4, 2, 2, 3), 9, 3, 1), (0, 5, 3));
    assert_eq!(input_cursor(area(41, 8, 38, 2), 3, 1, 0), (37, 44, 9));
}

#[test]
fn huge_grouping_list_is_clipped() {
    let (_, list) = grouping_areas(area(0, 0, 1000, 1000));
    assert_eq!(list.x, 1);
    assert!((list.width as u32) * (list.height as u32) <= u16::MAX as u32);
}
