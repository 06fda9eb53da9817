use editview::commands::{CommandSink, Params};
use editview::edit_view::EditView;
use editview::linecache::{Line, Patch, PatchOp};

fn line(text: &str) -> Line {
    Line { text: String::from(text), cursors: Vec::new(), styles: Vec::new() }
}

fn view_with_lines(n: usize) -> EditView {
    let mut v = EditView::new();
    let mut lines = Vec::new();
    for i in 0..n {
        lines.push(line(&format!("line {}", i)));
    }
    let patch = Patch { ops: vec![PatchOp::Ins(lines)], height: n };
    assert_eq!(v.apply_update(&patch), Ok(()));
    v
}

#[test]
fn fresh_view_viewport_is_unclamped() {
    // height 0, scroll 0, size 800x600: the viewport is [0, 36) because
    // `last` is a prefetch hint, not clamped to the document's height
    let mut v = EditView::new();
    v.size(800, 600);
    let mut sink = CommandSink::new();
    v.update_viewport(&mut sink);
    assert_eq!(sink.len(), 1);
    let cmd = sink.get(0);
    assert_eq!(cmd.method, "scroll");
    assert!(matches!(cmd.params, Params::Pair(0, 36)));
}

#[test]
fn small_document_max_scroll() {
    let mut v = view_with_lines(2);
    assert_eq!(v.height(), 2);
    assert_eq!(v.get_line(0).unwrap().text, "line 0");
    assert_eq!(v.get_line(1).unwrap().text, "line 1");
    assert!(v.get_line(2).is_none());
    // max scroll for height 2 is TOP_PAD + LINE_SPACE * 1 == 23
    v.nudge_scroll(1000);
    assert_eq!(v.scroll_offset(), 23);
}

#[test]
fn scroll_clamp_on_nudge() {
    let mut v = view_with_lines(2);
    v.nudge_scroll(1000);
    assert_eq!(v.scroll_offset(), 23);
    v.nudge_scroll(-1000);
    assert_eq!(v.scroll_offset(), 0);
    v.nudge_scroll(10);
    assert_eq!(v.scroll_offset(), 10);
}

#[test]
fn set_scroll_clamps() {
    let mut v = view_with_lines(10);
    // max scroll: 6 + 17 * 9 == 159
    v.set_scroll(1_000_000);
    assert_eq!(v.scroll_offset(), 159);
    v.set_scroll(40);
    assert_eq!(v.scroll_offset(), 40);
}

#[test]
fn empty_document_still_has_top_pad_scroll() {
    let mut v = EditView::new();
    v.nudge_scroll(100);
    // max(0, height - 1) == 0, so the maximum is TOP_PAD
    assert_eq!(v.scroll_offset(), 6);
}

#[test]
fn resize_reclamps_scroll() {
    let mut v = view_with_lines(2);
    v.set_scroll(23);
    v.size(800, 600);
    assert_eq!(v.scroll_offset(), 23);
}

#[test]
fn shrinking_document_reclamps_scroll() {
    let mut v = view_with_lines(100);
    v.set_scroll(500);
    assert_eq!(v.scroll_offset(), 500);
    let shrink = Patch { ops: vec![PatchOp::Skip(98), PatchOp::Copy(2)], height: 2 };
    assert_eq!(v.apply_update(&shrink), Ok(()));
    assert_eq!(v.scroll_offset(), 23);
}

#[test]
fn clear_line_cache_empties_and_reclamps() {
    let mut v = view_with_lines(100);
    v.set_scroll(500);
    v.clear_line_cache();
    assert_eq!(v.height(), 0);
    assert!(v.get_line(0).is_none());
    assert_eq!(v.scroll_offset(), 6);
}

#[test]
fn y_to_line_basics() {
    let mut v = view_with_lines(100);
    assert_eq!(v.y_to_line(0), 0);
    assert_eq!(v.y_to_line(5), 0);
    assert_eq!(v.y_to_line(6), 0);
    assert_eq!(v.y_to_line(22), 0);
    assert_eq!(v.y_to_line(23), 1);
    assert_eq!(v.y_to_line(23 + 17), 2);
    v.set_scroll(17);
    assert_eq!(v.y_to_line(6), 1);
}

#[test]
fn y_to_line_clamps_to_height() {
    let v = view_with_lines(3);
    assert_eq!(v.y_to_line(4_000_000_000), 3);
    let empty = EditView::new();
    assert_eq!(empty.y_to_line(0), 0);
    assert_eq!(empty.y_to_line(1000), 0);
}

#[test]
fn line_to_content_y_formula() {
    let v = EditView::new();
    assert_eq!(v.line_to_content_y(0), 6);
    assert_eq!(v.line_to_content_y(1), 23);
    assert_eq!(v.line_to_content_y(10), 6 + 17 * 10);
}

#[test]
fn scroll_to_line_below_brings_it_in_view() {
    let mut v = view_with_lines(100);
    v.size(800, 600);
    // line 50 is at y == 856, below scroll 0 + 600 - 20
    v.scroll_to(50);
    assert_eq!(v.scroll_offset(), 856 - (600 - 20));
}

#[test]
fn scroll_to_line_above_scrolls_up_to_it() {
    let mut v = view_with_lines(100);
    v.size(800, 600);
    v.set_scroll(800);
    v.scroll_to(10);
    // content y of line 10 is 6 + 170 == 176
    assert_eq!(v.scroll_offset(), 176);
}

#[test]
fn scroll_to_visible_line_changes_nothing() {
    let mut v = view_with_lines(100);
    v.size(800, 600);
    v.set_scroll(100);
    v.scroll_to(10);
    assert_eq!(v.scroll_offset(), 100);
}

#[test]
fn update_viewport_is_idempotent() {
    let mut v = view_with_lines(100);
    v.size(800, 600);
    let mut sink = CommandSink::new();
    v.update_viewport(&mut sink);
    assert_eq!(sink.len(), 1);
    v.update_viewport(&mut sink);
    v.update_viewport(&mut sink);
    assert_eq!(sink.len(), 1);
    // a state change makes the next check report again
    v.set_scroll(400);
    v.update_viewport(&mut sink);
    assert_eq!(sink.len(), 2);
    assert_eq!(sink.get(1).method, "scroll");
}

#[test]
fn viewport_scroll_command_carries_the_range() {
    let mut v = view_with_lines(100);
    v.set_view_id("view-7");
    v.size(800, 170);
    let mut sink = CommandSink::new();
    v.update_viewport(&mut sink);
    assert_eq!(sink.len(), 1);
    let cmd = sink.get(0);
    assert_eq!(cmd.method, "scroll");
    assert_eq!(cmd.view_id, "view-7");
    // first = 0, last = 0 + 170/17 + 1 = 11
    assert!(matches!(cmd.params, Params::Pair(0, 11)));
}

#[test]
fn visible_range_formula() {
    let mut v = EditView::new();
    v.size(800, 600);
    assert_eq!(v.visible_range(), (0, 36));
    let mut tall = view_with_lines(100);
    tall.size(800, 170);
    tall.set_scroll(23);
    // first = (23 - 6) / 17 == 1, last = 1 + 170/17 + 1 == 12
    assert_eq!(tall.visible_range(), (1, 12));
}

#[test]
fn malformed_patch_leaves_view_unchanged() {
    let mut v = view_with_lines(5);
    v.set_scroll(30);
    let bad = Patch { ops: vec![PatchOp::Copy(9)], height: 9 };
    assert!(v.apply_update(&bad).is_err());
    assert_eq!(v.height(), 5);
    assert_eq!(v.scroll_offset(), 30);
    assert_eq!(v.get_line(4).unwrap().text, "line 4");
}
