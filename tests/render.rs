use yazi_render::buffer::{Buffer, Cell, Color};
use yazi_render::frame::{input_cursor, notify_route, AfterDraw, CollisionFlag, FrameCycle, NotifyRoute};
use yazi_render::geometry::Rect;
use yazi_render::input::{selection_area, CursorShape, Input, InputMode};
use yazi_render::patch::{inverted_mask, patch_cells};

fn cell(symbol: &str, fg: Color, skip: bool) -> Cell {
    Cell {
        symbol: symbol.to_string(),
        fg,
        bg: Color::Reset,
        underline_color: Color::Reset,
        modifier: 0,
        skip,
    }
}

fn frame_with_skips(area: Rect, skips: &[(u16, u16, &str)]) -> Buffer {
    let mut b = Buffer::empty(area);
    for c in b.content.iter_mut() {
        c.symbol = "t".to_string();
    }
    for (x, y, s) in skips {
        let i = b.index_of(*x, *y);
        b.content[i] = cell(s, Color::Rgb(1, 2, 3), true);
    }
    b
}

#[test]
fn quiet_frame_is_one_full_commit() {
    let mut flag = CollisionFlag::new();
    let cycle = FrameCycle::start(&mut flag);
    assert!(!cycle.prior_collision);
    let plan = cycle.after_draw(flag.load(), false);
    assert_eq!(plan, AfterDraw { patch: false, render_notify: false });
    assert!(!cycle.reload_preview(flag.load()));
}

#[test]
fn no_writer_means_no_patch() {
    let mut flag = CollisionFlag::new();
    flag.raise();
    let cycle = FrameCycle::start(&mut flag);
    assert!(cycle.prior_collision);
    assert!(!cycle.after_draw(flag.load(), true).patch);
    assert_eq!(notify_route(true, flag.load()), NotifyRoute::Partial { patch: false });
}

#[test]
fn raised_flag_asks_for_patch() {
    let mut flag = CollisionFlag::new();
    let cycle = FrameCycle::start(&mut flag);
    flag.raise();
    assert_eq!(cycle.after_draw(flag.load(), true), AfterDraw { patch: true, render_notify: true });
    assert_eq!(notify_route(true, flag.load()), NotifyRoute::Partial { patch: true });
    assert_eq!(notify_route(false, flag.load()), NotifyRoute::FullRender);
}

#[test]
fn two_skip_cells_make_two_writes() {
    let area = Rect::new(0, 0, 8, 5);
    let frame = frame_with_skips(area, &[(2, 3, "A"), (5, 3, "B")]);
    let writes = patch_cells(&frame);
    assert_eq!(writes.len(), 2);
    assert_eq!((writes[0].0, writes[0].1), (2, 3));
    assert_eq!((writes[1].0, writes[1].1), (5, 3));
    assert!(writes[0].2 == cell("A", Color::Rgb(1, 2, 3), false));
    assert!(writes[1].2 == cell("B", Color::Rgb(1, 2, 3), false));
}

#[test]
fn skip_cells_keep_symbol_and_style() {
    let area = Rect::new(3, 1, 4, 2);
    let mut frame = frame_with_skips(area, &[(3, 1, "x"), (6, 2, "yz")]);
    let i = frame.index_of(6, 2);
    frame.content[i].bg = Color::Indexed(200);
    frame.content[i].modifier = 5;
    let writes = patch_cells(&frame);
    assert_eq!(writes.len(), 2);
    assert_eq!((writes[0].0, writes[0].1), (3, 1));
    assert_eq!(writes[0].2.symbol, "x");
    assert_eq!((writes[1].0, writes[1].1), (6, 2));
    assert_eq!(writes[1].2.symbol, "yz");
    assert_eq!(writes[1].2.bg, Color::Indexed(200));
    assert_eq!(writes[1].2.modifier, 5);
    assert!(!writes[1].2.skip);
}

#[test]
fn frame_without_skip_cells_needs_no_writes() {
    let frame = frame_with_skips(Rect::new(0, 0, 6, 3), &[]);
    assert!(patch_cells(&frame).is_empty());
    assert!(patch_cells(&Buffer::empty(Rect::new(0, 0, 0, 0))).is_empty());
}

#[test]
fn inverting_twice_restores_skip_markers() {
    let frame = frame_with_skips(Rect::new(0, 0, 5, 4), &[(1, 1, "a"), (4, 3, "b"), (0, 0, "c")]);
    let once = inverted_mask(&frame);
    let twice = inverted_mask(&once);
    for i in 0..frame.content.len() {
        assert_eq!(once.content[i].skip, !frame.content[i].skip);
        assert_eq!(twice.content[i].skip, frame.content[i].skip);
    }
    let i = frame.index_of(2, 2);
    assert!(once.content[i] == cell(" ", Color::Reset, true));
    let j = frame.index_of(1, 1);
    assert!(once.content[j] == cell("a", Color::Rgb(1, 2, 3), false));
}

#[test]
fn diff_reports_changed_cells_only() {
    let area = Rect::new(1, 1, 3, 2);
    let prev = Buffer::empty(area);
    let mut next = Buffer::empty(area);
    next.content[1].symbol = "q".to_string();
    next.content[4].fg = Color::Named(3);
    next.content[5].symbol = "s".to_string();
    next.content[5].skip = true;
    let d = prev.diff(&next);
    assert_eq!(d.len(), 2);
    assert_eq!((d[0].0, d[0].1), (2, 1));
    assert_eq!(d[0].2.symbol, "q");
    assert_eq!((d[1].0, d[1].1), (2, 2));
    assert_eq!(d[1].2.fg, Color::Named(3));
}

#[test]
fn positions_and_indices_agree() {
    let b = Buffer::empty(Rect::new(10, 20, 7, 3));
    assert_eq!(b.content.len(), 21);
    assert_eq!(b.index_of(10, 20), 0);
    assert_eq!(b.index_of(12, 21), 9);
    assert_eq!(b.pos_of(9), (12, 21));
    assert_eq!(b.pos_of(20), (16, 22));
    assert_eq!(b.get(16, 22).symbol, " ");
    assert_eq!(Rect::new(0, 0, 65535, 65535).area(), 65535usize * 65535);
}

#[test]
fn collision_seen_once_per_frame() {
    let mut flag = CollisionFlag::new();
    flag.raise();
    assert!(flag.swap_clear());
    assert!(!flag.swap_clear());
}

#[test]
fn preview_reloads_once_after_collision_clears() {
    let mut flag = CollisionFlag::new();
    let mut reloads = Vec::new();
    // frame N draws an image; frame N+1 and N+2 do not
    for frame in 0..3 {
        let cycle = FrameCycle::start(&mut flag);
        if frame == 0 {
            flag.raise();
        }
        let end = flag.load();
        reloads.push(cycle.reload_preview(end));
    }
    assert_eq!(reloads, vec![false, true, false]);
}

#[test]
fn preview_reload_needs_prior_collision() {
    assert!(FrameCycle::begin(true).reload_preview(false));
    assert!(!FrameCycle::begin(true).reload_preview(true));
    assert!(!FrameCycle::begin(false).reload_preview(false));
    assert!(!FrameCycle::begin(false).reload_preview(true));
}

#[test]
fn cursor_adds_title_prefix() {
    let size = Rect::new(0, 0, 80, 24);
    let area = Rect::new(5, 0, 30, 3);
    assert_eq!(input_cursor((20, 1), area, 6, size), (21, 23));
}

#[test]
fn cursor_clamps_underflow() {
    let size = Rect::new(0, 0, 80, 1);
    let area = Rect::new(10, 0, 30, 3);
    assert_eq!(input_cursor((3, 0), area, 2, size), (3, 0));
}

#[test]
fn cursor_without_title_when_width_overflows() {
    let size = Rect::new(0, 0, 80, 24);
    let area = Rect::new(5, 0, 30, 3);
    assert_eq!(input_cursor((20, 1), area, 70000, size), (14, 23));
    assert_eq!(input_cursor((20, 1), area, 65534, size), (65535, 23));
}

#[test]
fn selection_highlights_its_columns() {
    let win = Rect::new(0, 0, 80, 24);
    let input = Input::new(
        "Find:".to_string(),
        "abc".to_string(),
        Some((1, 3)),
        InputMode::Insert,
        Rect::new(10, 5, 40, 3),
    );
    let row = input.row_area(win);
    assert_eq!(row, Rect::new(0, 23, 40, 1));
    let h = input.highlight(win).unwrap();
    assert_eq!(h, Rect::new(row.x + 2, 23, 2, 1));
    assert_eq!(input.cursor_shape(), CursorShape::Bar);
}

#[test]
fn selection_stays_in_window() {
    let win = Rect::new(0, 0, 10, 4);
    let row = Rect::new(0, 3, 10, 1);
    assert_eq!(selection_area(win, row, 7, 40), Rect::new(8, 3, 2, 1));
    assert_eq!(selection_area(win, row, 30, 65535), Rect::new(10, 3, 0, 1));
    assert_eq!(selection_area(win, Rect::new(0, 9, 10, 1), 2, 1), Rect::new(3, 4, 0, 0));
    let empty = Rect::new(0, 0, 0, 0);
    assert_eq!(selection_area(empty, Rect::new(0, 0, 0, 1), 0, 5), Rect::new(0, 0, 0, 0));
}

#[test]
fn no_selection_no_highlight() {
    let input = Input::new(String::new(), "abc".to_string(), None, InputMode::Normal, Rect::new(0, 0, 5, 1));
    assert_eq!(input.highlight(Rect::new(0, 0, 80, 24)), None);
    assert_eq!(input.cursor_shape(), CursorShape::Block);
    assert_eq!(input.row_area(Rect::new(0, 0, 80, 0)), Rect::new(0, 0, 5, 1));
}
