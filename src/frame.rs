use vstd::prelude::*;

use crate::geometry::Rect;

verus! {

/// The collision flag: raised by any widget whose cells were drawn by an
/// out-of-band compositor, read and cleared by the renderer once per frame.
#[derive(Clone, Copy, Debug, PartialEq, Eq, Structural)]
pub struct CollisionFlag {
    pub raised: bool,
}

impl CollisionFlag {
    /// The result of a read-and-clear: the value seen and the flag after it.
    pub open spec fn taken(self) -> (bool, CollisionFlag) {
        (self.raised, CollisionFlag { raised: false })
    }

    pub fn new() -> (r: CollisionFlag)
        ensures
            !r.raised,
    {
        CollisionFlag { raised: false }
    }

    /// Announces a collision (a plain store of `true`).
    pub fn raise(&mut self)
        ensures
            final(self).raised,
    {
        self.raised = true;
    }

    /// Reads the flag without clearing it.
    pub fn load(&self) -> (r: bool)
        ensures
            r == self.raised,
    {
        self.raised
    }

    /// Reads the flag and clears it in one step.
    pub fn swap_clear(&mut self) -> (r: bool)
        ensures
            (r, *final(self)) == old(self).taken(),
    {
        let r = self.raised;
        self.raised = false;
        r
    }
}

/// What the renderer does once the widget tree has been drawn.
#[derive(Clone, Copy, Debug, PartialEq, Eq, Structural)]
pub struct AfterDraw {
    /// Run the patch pass on the completed frame.
    pub patch: bool,
    /// Draw the notification overlay.
    pub render_notify: bool,
}

/// The decision after drawing, from the flag as read after the draw and the
/// presence of pending notifications.
pub open spec fn after_draw_spec(collision: bool, has_messages: bool) -> AfterDraw {
    AfterDraw { patch: collision, render_notify: has_messages }
}

/// How the notification overlay is drawn.
#[derive(Clone, Copy, Debug, PartialEq, Eq, Structural)]
pub enum NotifyRoute {
    /// The backend cannot update part of the screen: draw the whole frame.
    FullRender,
    /// Draw the overlay alone; run the patch pass afterwards if `patch`.
    Partial { patch: bool },
}

/// The route of the overlay path, from the backend's capability and the flag
/// as read after the overlay was drawn.
pub open spec fn notify_route_spec(can_partial: bool, collision: bool) -> NotifyRoute {
    if can_partial {
        NotifyRoute::Partial { patch: collision }
    } else {
        NotifyRoute::FullRender
    }
}

/// One render cycle, as far as the collision flag is concerned.
#[derive(Clone, Copy, Debug, PartialEq, Eq, Structural)]
pub struct FrameCycle {
    /// The flag's value when it was read and cleared at the start of the frame.
    pub prior_collision: bool,
}

impl FrameCycle {
    /// Starts a frame with the value that the read-and-clear of the flag gave.
    pub fn begin(prior_collision: bool) -> (r: FrameCycle)
        ensures
            r.prior_collision == prior_collision,
    {
        FrameCycle { prior_collision }
    }

    /// Starts a frame by reading and clearing `flag`.
    pub fn start(flag: &mut CollisionFlag) -> (r: FrameCycle)
        ensures
            (r.prior_collision, *final(flag)) == old(flag).taken(),
    {
        let prior = flag.swap_clear();
        FrameCycle::begin(prior)
    }

    /// Decides, after the draw, whether to patch and whether to draw the
    /// notification overlay.
    pub fn after_draw(&self, collision: bool, has_messages: bool) -> (r: AfterDraw)
        ensures
            r == after_draw_spec(collision, has_messages),
    {
        AfterDraw { patch: collision, render_notify: has_messages }
    }

    /// Decides, at the end of the frame, whether the preview must be reloaded:
    /// a collision was present before this frame and is gone now.
    pub fn reload_preview(&self, collision: bool) -> (r: bool)
        ensures
            r == (self.prior_collision && !collision),
    {
        self.prior_collision && !collision
    }
}

/// Chooses how the notification overlay is drawn.
pub fn notify_route(can_partial: bool, collision: bool) -> (r: NotifyRoute)
    ensures
        r == notify_route_spec(can_partial, collision),
{
    if can_partial {
        NotifyRoute::Partial { patch: collision }
    } else {
        NotifyRoute::FullRender
    }
}

/// `a - b`, or zero where that would be negative.
pub open spec fn sub_floor(a: int, b: int) -> int {
    if a >= b {
        a - b
    } else {
        0
    }
}

/// `a + b`, or the largest `u16` where that would exceed it.
pub open spec fn add_ceil(a: int, b: int) -> int {
    if a + b > 65535 {
        65535
    } else {
        a + b
    }
}

/// Column of the terminal cursor for the focused input: the cursor column
/// less the input area's left edge and one column, plus the title prefix
/// (title length and one separator column) where that width is a `u16`.
pub open spec fn cursor_col_spec(x: int, area_x: int, title_len: int) -> int {
    let base = sub_floor(sub_floor(x, area_x), 1);
    if title_len + 1 <= 65535 {
        add_ceil(base, title_len + 1)
    } else {
        base
    }
}

/// Row of the terminal cursor for the focused input: two rows above the
/// bottom edge, counted from the cursor's row.
pub open spec fn cursor_row_spec(y: int, height: int) -> int {
    sub_floor(add_ceil(y, height), 2)
}

/// Where the terminal cursor goes while the focused input is drawn in a full
/// frame of the given size.
pub fn input_cursor(cursor: (u16, u16), input_area: Rect, title_len: usize, size: Rect) -> (r: (
    u16,
    u16,
))
    ensures
        r.0 == cursor_col_spec(cursor.0 as int, input_area.x as int, title_len as int),
        r.1 == cursor_row_spec(cursor.1 as int, size.height as int),
{
    let (x, y) = cursor;
    let base = x.saturating_sub(input_area.x).saturating_sub(1);
    let col = if title_len < 65535 {
        let title_width = (title_len + 1) as u16;
        base.saturating_add(title_width)
    } else {
        base
    };
    let row = y.saturating_add(size.height).saturating_sub(2);
    (col, row)
}

/// A frame in which no widget raises the flag never runs the patch pass, on
/// the full path or on the overlay path.
pub proof fn lemma_quiet_frame_never_patches(
    flag: CollisionFlag,
    has_messages: bool,
    can_partial: bool,
)
    ensures
        !after_draw_spec(flag.taken().1.raised, has_messages).patch,
        notify_route_spec(can_partial, flag.taken().1.raised) != (NotifyRoute::Partial {
            patch: true,
        }),
{
}

/// With no writer between them, two consecutive reads-and-clears of the flag
/// never both see it raised.
pub proof fn lemma_collision_seen_once(flag: CollisionFlag)
    ensures
        !(flag.taken().0 && flag.taken().1.taken().0),
{
}

} // verus!
