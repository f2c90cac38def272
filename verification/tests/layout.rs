use bcp::layout::{
    art_area, ensure_visible_offset, format_duration, format_release_date, meta_lines,
    meta_offset, move_selection_index, page_size, half_page, rect_contains, row_at,
    scroll_offset, scrollbar_thumb, time_label, word_wrap, Area,
};

fn area(x: u16, y: u16, w: u16, h: u16) -> Area {
    Area { x, y, width: w, height: h }
}

#[test]
fn durations_as_minutes_and_seconds() {
    assert_eq!(format_duration(0), "00:00");
    assert_eq!(format_duration(65), "01:05");
    assert_eq!(format_duration(200), "03:20");
    assert_eq!(format_duration(6000), "100:00");
    assert_eq!(time_label(5, 200), "[00:05/03:20]");
}

#[test]
fn release_dates_keep_three_parts() {
    assert_eq!(format_release_date("16 Jan 2026 00:00:00 GMT"), "16 Jan 2026");
    assert_eq!(format_release_date("  1   Feb   2020 x"), "1 Feb 2020");
    assert_eq!(format_release_date("2020"), "2020");
    assert_eq!(format_release_date(""), "");
}

#[test]
fn word_wrap_fills_lines() {
    assert_eq!(word_wrap("the quick brown fox", 10), vec!["the quick", "brown fox"]);
    assert_eq!(word_wrap("a\n\n  b c", 3), vec!["a", "", "b c"]);
    assert_eq!(word_wrap("supercalifragilistic word", 5), vec!["supercalifragilistic", "word"]);
    assert_eq!(word_wrap("anything", 0), Vec::<String>::new());
    assert_eq!(word_wrap("é é", 4), vec!["é", "é"]);
    assert_eq!(word_wrap("line one\r\nline two", 20), vec!["line one", "line two"]);
}

#[test]
fn wrapped_lines_fit_or_hold_one_word() {
    let text = "Recorded live at the old hall in one long night of improvisation";
    for width in 1..30 {
        for line in word_wrap(text, width) {
            assert!(line.len() <= width || !line.contains(' '));
        }
    }
}

#[test]
fn meta_lines_of_an_album() {
    let lines = meta_lines("Album", Some("16 Jan 2026 00:00:00 GMT"), Some("one two"), Some("c"), 20);
    assert_eq!(lines, vec!["Album", "released 16 Jan 2026", "", "one two", "", "c"]);
    let lines = meta_lines("Album", None, None, None, 20);
    assert_eq!(lines, vec!["Album", ""]);
    assert_eq!(meta_offset(10, 4, 100), 6);
    assert_eq!(meta_offset(10, 4, 2), 2);
    assert_eq!(meta_offset(3, 4, 2), 0);
}

#[test]
fn areas_and_clicks() {
    let r = area(2, 3, 10, 5);
    assert!(rect_contains(r, 2, 3));
    assert!(rect_contains(r, 11, 7));
    assert!(!rect_contains(r, 12, 7));
    assert!(!rect_contains(area(0, 0, 0, 5), 0, 0));
    assert_eq!(row_at(r, 4, 4, 0, 10), Some(0));
    assert_eq!(row_at(r, 4, 6, 5, 10), Some(7));
    assert_eq!(row_at(r, 4, 6, 5, 7), None);
    assert_eq!(row_at(r, 2, 4, 0, 10), None);
    assert_eq!(row_at(r, 4, 7, 0, 10), None);
}

#[test]
fn art_area_is_the_left_share_of_the_inside() {
    assert_eq!(art_area(area(0, 0, 102, 12)), area(1, 1, 30, 10));
    assert_eq!(art_area(area(5, 5, 3, 3)), area(6, 6, 1, 1));
    assert_eq!(art_area(area(0, 0, 1, 1)), area(1, 1, 0, 0));
}

#[test]
fn selection_moves_within_the_list() {
    assert_eq!(move_selection_index(Some(2), 5, 1), Some(3));
    assert_eq!(move_selection_index(Some(4), 5, 1), Some(4));
    assert_eq!(move_selection_index(None, 5, 10), Some(4));
    assert_eq!(move_selection_index(Some(2), 5, -10), Some(0));
    assert_eq!(move_selection_index(Some(2), 0, 1), Some(2));
    assert_eq!(page_size(12), 10);
    assert_eq!(page_size(2), 1);
    assert_eq!(half_page(12), 5);
    assert_eq!(half_page(3), 1);
}

#[test]
fn scrolling_keeps_the_selection_visible() {
    assert_eq!(ensure_visible_offset(Some(15), 0, 30, 12), 6);
    assert_eq!(ensure_visible_offset(Some(3), 10, 30, 12), 3);
    assert_eq!(ensure_visible_offset(Some(12), 10, 30, 12), 10);
    assert_eq!(ensure_visible_offset(None, 25, 30, 12), 20);
    assert_eq!(ensure_visible_offset(Some(3), 7, 30, 2), 7);
    assert_eq!(scroll_offset(30, 12, 18, 5), 20);
    assert_eq!(scroll_offset(30, 12, 1, -5), 0);
    assert_eq!(scroll_offset(5, 12, 0, 1), 0);
    assert_eq!(scroll_offset(0, 12, 3, 1), 3);
}

#[test]
fn scrollbar_thumb_positions() {
    assert_eq!(scrollbar_thumb(10, 5, 10, 0), None);
    assert_eq!(scrollbar_thumb(0, 50, 10, 0), None);
    assert_eq!(scrollbar_thumb(10, 100, 10, 0), Some((0, 1)));
    assert_eq!(scrollbar_thumb(10, 100, 10, 90), Some((9, 1)));
    assert_eq!(scrollbar_thumb(10, 20, 10, 5), Some((3, 5)));
}

#[test]
fn selection_is_painted_only_where_it_shows() {
    let area = Area { x: 0, y: 5, width: 20, height: 6 };
    assert_eq!(bcp::layout::highlight_row(area, Some(3), 2), Some(7));
    assert_eq!(bcp::layout::highlight_row(area, Some(5), 2), Some(9));
    assert_eq!(bcp::layout::highlight_row(area, Some(6), 2), None);
    assert_eq!(bcp::layout::highlight_row(area, Some(1), 2), None);
    assert_eq!(bcp::layout::highlight_row(area, None, 0), None);
    let flat = Area { x: 0, y: 0, width: 20, height: 2 };
    assert_eq!(bcp::layout::highlight_row(flat, Some(0), 0), None);
    assert_eq!(bcp::layout::row_at(area, 3, 7, 2, 10), Some(3));
}

#[test]
fn scrolling_by_the_largest_step_stops_at_the_ends() {
    assert_eq!(scroll_offset(30, 12, 18, i64::MIN), 0);
    assert_eq!(scroll_offset(30, 12, 3, i64::MAX), 20);
}
