use vstd::prelude::*;

use crate::geometry::Rect;

verus! {

/// The editing mode of the input.
#[derive(Clone, Copy, Debug, PartialEq, Eq, Structural)]
pub enum InputMode {
    Normal,
    Insert,
    Replace,
}

/// The shape of the terminal cursor.
#[derive(Clone, Copy, Debug, PartialEq, Eq, Structural)]
pub enum CursorShape {
    Bar,
    Block,
}

/// The state of the text input that the input widget reads.
#[derive(Debug)]
pub struct Input {
    pub title: String,
    pub value: String,
    /// The selected character range `[start, end)`, if any.
    pub selection: Option<(u16, u16)>,
    pub mode: InputMode,
    /// The area that the layout gives the input.
    pub area: Rect,
}

/// The smaller of two integers.
pub open spec fn min_int(a: int, b: int) -> int {
    if a <= b {
        a
    } else {
        b
    }
}

/// The row the input is drawn on: the bottom row of the window, from the left
/// edge, as wide as the input's own area.
pub open spec fn row_area_spec(win: Rect, area: Rect) -> Rect {
    Rect {
        x: 0,
        y: (if win.height >= 1 {
            win.height - 1
        } else {
            0
        }) as u16,
        width: area.width,
        height: 1,
    }
}

/// The highlight of the selection `[start, end)` on the input row `row`,
/// shifted right by one column and clamped to the window's width and height.
pub open spec fn highlight_spec(win: Rect, row: Rect, start: int, end: int) -> Rect {
    let x = min_int(win.width as int, row.x + 1 + start);
    let y = min_int(win.height as int, row.y as int);
    Rect {
        x: x as u16,
        y: y as u16,
        width: min_int(if end >= start {
            end - start
        } else {
            0
        }, win.width - x) as u16,
        height: min_int(1, win.height - y) as u16,
    }
}

/// The highlight rectangle of a selection on the input row. It never reaches
/// past the window's width and height, whatever `start` and `end` are.
pub fn selection_area(win: Rect, row: Rect, start: u16, end: u16) -> (r: Rect)
    ensures
        r == highlight_spec(win, row, start as int, end as int),
        r.x + r.width <= win.width,
        r.y + r.height <= win.height,
{
    let wide = row.x as u32 + 1 + start as u32;
    let x: u16 = if wide < win.width as u32 {
        wide as u16
    } else {
        win.width
    };
    let y: u16 = if row.y < win.height {
        row.y
    } else {
        win.height
    };
    let span = end.saturating_sub(start);
    let room = win.width - x;
    let width: u16 = if span < room {
        span
    } else {
        room
    };
    let height: u16 = if 1 < win.height - y {
        1
    } else {
        win.height - y
    };
    Rect { x, y, width, height }
}

impl Input {
    pub fn new(
        title: String,
        value: String,
        selection: Option<(u16, u16)>,
        mode: InputMode,
        area: Rect,
    ) -> (r: Input)
        ensures
            r.title@ == title@,
            r.value@ == value@,
            r.selection == selection,
            r.mode == mode,
            r.area == area,
    {
        Input { title, value, selection, mode, area }
    }

    /// The one-row area the input is drawn into within `win`.
    pub fn row_area(&self, win: Rect) -> (r: Rect)
        ensures
            r == row_area_spec(win, self.area),
    {
        Rect { x: 0, y: win.height.saturating_sub(1), width: self.area.width, height: 1 }
    }

    /// The highlight rectangle of the selection within `win`, if there is a
    /// selection.
    pub fn highlight(&self, win: Rect) -> (r: Option<Rect>)
        ensures
            self.selection is None ==> r is None,
            self.selection matches Some(s) ==> r == Some(
                highlight_spec(win, row_area_spec(win, self.area), s.0 as int, s.1 as int),
            ),
            r matches Some(h) ==> h.x + h.width <= win.width && h.y + h.height <= win.height,
    {
        match self.selection {
            Some((start, end)) => Some(selection_area(win, self.row_area(win), start, end)),
            None => None,
        }
    }

    /// A bar in insert mode, a block otherwise.
    pub fn cursor_shape(&self) -> (r: CursorShape)
        ensures
            r == (if self.mode == InputMode::Insert {
                CursorShape::Bar
            } else {
                CursorShape::Block
            }),
    {
        match self.mode {
            InputMode::Insert => CursorShape::Bar,
            _ => CursorShape::Block,
        }
    }
}

} // verus!
