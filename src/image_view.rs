//! The image view: owns the source raster, the viewport, the resampled grid,
//! the interaction mode and the redraw cache, and exposes the host's lifecycle
//! (`needs_relayout`, `layout`, `draw`, `on_event`).

use vstd::prelude::*;
use crate::color::Rgb;
use crate::raster::Raster;
use crate::render::{Span, row_spans, merge_row, padding, padding_spec, zoom_percent, zoom_percent_spec};
use crate::resample::{resample, resample_succeeds, resampled_bytes, crop_rect, target_width, target_height};
use crate::viewport::{Axis, Viewport, min_dimension, min_dimension_spec, lemma_min_dimension_bounds};

verus! {

/// Zoom step of one wheel notch or arrow key, in thousandths of the side.
pub const ZOOM_STEP: i32 = 100;

/// The interaction mode; `Cursor` holds a cell of the resampled grid.
#[derive(Clone, Copy, Debug, PartialEq, Eq, Structural)]
pub enum Mode {
    Move,
    Zoom,
    Cursor { x: u32, y: u32 },
}

/// The input events that the view reacts to; everything else is `Other`.
#[derive(Clone, Copy, Debug, PartialEq, Eq, Structural)]
pub enum Input {
    Char(char),
    Up,
    Down,
    Left,
    Right,
    Backspace,
    WheelUp,
    WheelDown,
    Other,
}

/// Whether the view used an event or leaves it to the host.
#[derive(Clone, Copy, Debug, PartialEq, Eq, Structural)]
pub enum EventResult {
    Consumed,
    Ignored,
}

/// The status line: mode and zoom percentage, anchored bottom-right.
#[derive(Clone, Copy, Debug, PartialEq, Eq, Structural)]
pub struct Status {
    pub mode: Mode,
    pub zoom_percent: u64,
}

/// The cursor overlay: a grid cell and the color found there while scanning.
#[derive(Clone, Copy, Debug, PartialEq, Eq, Structural)]
pub struct CursorMark {
    pub x: u32,
    pub y: u32,
    pub color: Rgb,
}

/// What a draw pass puts on the surface. Span columns and cursor cells are
/// grid coordinates: the grid's top-left cell goes at `(left, top)`.
#[derive(Debug)]
pub enum Frame {
    /// The viewport is the one last drawn: nothing to draw.
    Unchanged,
    /// No grid: a placeholder message centered at `(x, y)`.
    Placeholder { x: usize, y: usize, status: Status },
    /// The grid, row by row as runs.
    Picture { left: usize, top: usize, rows: Vec<Vec<Span>>, cursor: Option<CursorMark>, status: Status },
}

/// The interactive image view.
pub struct ImageView {
    pub source: Raster,
    pub min_dim: u64,
    pub viewport: Viewport,
    pub scaled: Option<Raster>,
    pub relayout: bool,
    pub mode: Mode,
    pub rendered_view: Option<Viewport>,
}

/// A grid that exists and has at least one cell.
pub open spec fn has_cells(scaled: Option<Raster>) -> bool {
    scaled is Some && scaled->0.width >= 1 && scaled->0.height >= 1
}

/// The cursor kept inside the new grid after a layout; without a grid, or on
/// an empty one, the mode stays as it was.
pub open spec fn mode_after_layout(mode: Mode, scaled: Option<Raster>) -> Mode {
    match mode {
        Mode::Cursor { x, y } => {
            if has_cells(scaled) {
                Mode::Cursor {
                    x: if x < scaled->0.width { x } else { (scaled->0.width - 1) as u32 },
                    y: if y < scaled->0.height { y } else { (scaled->0.height - 1) as u32 },
                }
            } else {
                mode
            }
        },
        _ => mode,
    }
}

impl ImageView {
    pub open spec fn wf(self) -> bool {
        &&& self.source.wf()
        &&& self.min_dim == min_dimension_spec(self.source.width, self.source.height)
        &&& self.viewport.wf(self.min_dim as int)
        &&& (self.scaled matches Some(g) ==> g.wf())
        &&& (self.mode matches Mode::Cursor { x, y } ==> (has_cells(self.scaled) ==> x < self.scaled->0.width && y < self.scaled->0.height))
    }

    /// The grid's center cell, as entering cursor mode places it.
    pub open spec fn grid_center(g: Raster) -> Mode {
        Mode::Cursor { x: g.width / 2, y: g.height / 2 }
    }

    /// The viewport after `e`.
    pub open spec fn viewport_after(self, e: Input) -> Viewport {
        let v = self.viewport;
        let md = self.min_dim as int;
        match e {
            Input::WheelUp => v.zoomed(ZOOM_STEP as int, md),
            Input::WheelDown => v.zoomed(-ZOOM_STEP as int, md),
            Input::Backspace => v.reset_spec(),
            Input::Up => match self.mode {
                Mode::Move => v.panned(Axis::Vertical, -(v.height() / 100)),
                Mode::Zoom => v.zoomed(ZOOM_STEP as int, md),
                _ => v,
            },
            Input::Down => match self.mode {
                Mode::Move => v.panned(Axis::Vertical, v.height() / 100),
                Mode::Zoom => v.zoomed(-ZOOM_STEP as int, md),
                _ => v,
            },
            Input::Left => match self.mode {
                Mode::Move => v.panned(Axis::Horizontal, -(v.width() / 50)),
                _ => v,
            },
            Input::Right => match self.mode {
                Mode::Move => v.panned(Axis::Horizontal, v.width() / 50),
                _ => v,
            },
            _ => v,
        }
    }

    /// The mode after `e`: mode keys switch, arrows in zoom mode go back to
    /// moving, and arrows in cursor mode move the cursor one cell unless that
    /// would leave the grid (or the grid has no cells).
    pub open spec fn mode_after(self, e: Input) -> Mode {
        match e {
            Input::Char(c) => {
                if c == 'm' {
                    Mode::Move
                } else if c == 'z' {
                    Mode::Zoom
                } else if c == 'c' && has_cells(self.scaled) {
                    Self::grid_center(self.scaled->0)
                } else {
                    self.mode
                }
            },
            Input::Left | Input::Right => match self.mode {
                Mode::Zoom => Mode::Move,
                Mode::Cursor { x, y } => {
                    if e == Input::Left && has_cells(self.scaled) && x > 0 {
                        Mode::Cursor { x: (x - 1) as u32, y }
                    } else if e == Input::Right && has_cells(self.scaled) && x + 1 < self.scaled->0.width {
                        Mode::Cursor { x: (x + 1) as u32, y }
                    } else {
                        self.mode
                    }
                },
                _ => self.mode,
            },
            Input::Up | Input::Down => match self.mode {
                Mode::Cursor { x, y } => {
                    if e == Input::Up && has_cells(self.scaled) && y > 0 {
                        Mode::Cursor { x, y: (y - 1) as u32 }
                    } else if e == Input::Down && has_cells(self.scaled) && y + 1 < self.scaled->0.height {
                        Mode::Cursor { x, y: (y + 1) as u32 }
                    } else {
                        self.mode
                    }
                },
                _ => self.mode,
            },
            _ => self.mode,
        }
    }

    /// Whether the view uses `e`: every key and wheel event it knows, the mode
    /// characters, and `c` only once a grid with cells exists.
    pub open spec fn consumes(self, e: Input) -> bool {
        match e {
            Input::Char(c) => c == 'm' || c == 'z' || (c == 'c' && has_cells(self.scaled)),
            Input::Other => false,
            _ => true,
        }
    }

    /// A view of `image` showing all of it, in move mode, with a layout due.
    pub fn new(image: Raster) -> (r: ImageView)
        requires
            image.wf(),
        ensures
            r.wf(),
            r.source == image,
            r.viewport == Viewport::full_spec(),
            r.scaled is None,
            r.relayout,
            r.mode == Mode::Move,
            r.rendered_view is None,
    {
        let min_dim: u64 = min_dimension(image.width, image.height);
        ImageView {
            source: image,
            min_dim,
            viewport: Viewport::full(),
            scaled: None,
            relayout: true,
            mode: Mode::Move,
            rendered_view: None,
        }
    }

    /// Whether a layout pass must run before the next draw.
    pub fn needs_relayout(&self) -> (r: bool)
        ensures
            r == self.relayout,
    {
        self.relayout
    }

    /// The viewport's normalized extent, in units of `1 / viewport::SCALE`.
    pub fn view_size(&self) -> (r: (u64, u64))
        requires
            self.wf(),
        ensures
            r.0 == self.viewport.width(),
            r.1 == self.viewport.height(),
    {
        self.viewport.size()
    }

    /// Zooms by `amount` thousandths of the side; a layout becomes due exactly
    /// when the viewport changes.
    pub fn zoom(&mut self, amount: i32)
        requires
            old(self).wf(),
        ensures
            final(self).wf(),
            final(self).viewport == old(self).viewport.zoomed(amount as int, old(self).min_dim as int),
            final(self).relayout == (old(self).relayout || final(self).viewport != old(self).viewport),
            final(self).mode == old(self).mode,
            final(self).scaled == old(self).scaled,
            final(self).source == old(self).source,
            final(self).min_dim == old(self).min_dim,
            final(self).rendered_view == old(self).rendered_view,
    {
        proof { lemma_min_dimension_bounds(self.source.width, self.source.height); }
        let before: Viewport = self.viewport;
        self.viewport.zoom(amount, self.min_dim);
        if self.viewport != before {
            self.relayout = true;
        }
    }

    /// Pans along `axis` by `delta` units when the viewport stays inside the
    /// image; a layout becomes due exactly when the viewport changes.
    fn pan(&mut self, axis: Axis, delta: i64)
        requires
            old(self).wf(),
        ensures
            final(self).wf(),
            final(self).viewport == old(self).viewport.panned(axis, delta as int),
            final(self).relayout == (old(self).relayout || final(self).viewport != old(self).viewport),
            final(self).mode == old(self).mode,
            final(self).scaled == old(self).scaled,
            final(self).source == old(self).source,
            final(self).min_dim == old(self).min_dim,
            final(self).rendered_view == old(self).rendered_view,
    {
        proof { self.viewport.lemma_pan_valid(axis, delta as int, self.min_dim as int); }
        let before: Viewport = self.viewport;
        self.viewport.pan(axis, delta);
        if self.viewport != before {
            self.relayout = true;
        }
    }

    /// What handling event `e` makes of state `s` (the resulting state `t`
    /// and result `r`): the viewport and mode move as `viewport_after` and
    /// `mode_after` say, a layout becomes due exactly when the viewport
    /// changes, and nothing else changes.
    pub open spec fn event_post(s: ImageView, t: ImageView, e: Input, r: EventResult) -> bool {
        &&& t.viewport == s.viewport_after(e)
        &&& t.mode == s.mode_after(e)
        &&& t.relayout == (s.relayout || t.viewport != s.viewport)
        &&& (r == EventResult::Consumed) == s.consumes(e)
        &&& t.scaled == s.scaled
        &&& t.source == s.source
        &&& t.min_dim == s.min_dim
        &&& t.rendered_view == s.rendered_view
    }

    /// Any run of resets shows the whole image after each of them, and every
    /// reset after the first leaves viewport, mode and relayout flag as they were.
    pub proof fn lemma_resets_idempotent(states: Seq<ImageView>, results: Seq<EventResult>)
        requires
            states.len() >= 2,
            results.len() == states.len() - 1,
            forall|i: int| 0 <= i < states.len() - 1 ==>
                #[trigger] Self::event_post(states[i], states[i + 1], Input::Backspace, results[i]),
        ensures
            forall|i: int| 1 <= i < states.len() ==> (#[trigger] states[i]).viewport == Viewport::full_spec(),
            forall|i: int| 1 <= i < states.len() - 1 ==> {
                &&& (#[trigger] states[i + 1]).viewport == states[i].viewport
                &&& states[i + 1].mode == states[i].mode
                &&& states[i + 1].relayout == states[i].relayout
            },
    {
        assert forall|i: int| 1 <= i < states.len() implies (#[trigger] states[i]).viewport == Viewport::full_spec() by {
            let j = i - 1;
            assert(Self::event_post(states[j], states[j + 1], Input::Backspace, results[j]));
        }
        assert forall|i: int| 1 <= i < states.len() - 1 implies {
            &&& (#[trigger] states[i + 1]).viewport == states[i].viewport
            &&& states[i + 1].mode == states[i].mode
            &&& states[i + 1].relayout == states[i].relayout
        } by {
            let j = i - 1;
            assert(Self::event_post(states[j], states[j + 1], Input::Backspace, results[j]));
            assert(Self::event_post(states[i], states[i + 1], Input::Backspace, results[i]));
        }
    }

    /// The status line for the current state.
    pub fn status(&self) -> (r: Status)
        requires
            self.wf(),
        ensures
            r == self.status_spec(),
    {
        Status { mode: self.mode, zoom_percent: zoom_percent(&self.viewport) }
    }

    /// The cursor overlay on the current grid, if the mode is `Cursor` and the
    /// grid has the cursor's cell.
    pub fn cursor_mark(&self) -> (r: Option<CursorMark>)
        requires
            self.wf(),
        ensures
            r == (match self.scaled {
                Some(g) => self.cursor_mark_spec(g),
                None => None,
            }),
    {
        match (&self.scaled, self.mode) {
            (Some(g), Mode::Cursor { x, y }) => {
                if x < g.width && y < g.height {
                    Some(CursorMark { x, y, color: g.get_pixel(x, y) })
                } else {
                    None
                }
            },
            _ => None,
        }
    }

    /// Handles one input event: pans, zooms, resets, switches mode or moves
    /// the cursor. A layout becomes due exactly when the viewport changes.
    pub fn on_event(&mut self, e: Input) -> (r: EventResult)
        requires
            old(self).wf(),
        ensures
            final(self).wf(),
            Self::event_post(*old(self), *final(self), e, r),
    {
        match e {
            Input::WheelUp => {
                self.zoom(ZOOM_STEP);
                EventResult::Consumed
            },
            Input::WheelDown => {
                self.zoom(-ZOOM_STEP);
                EventResult::Consumed
            },
            Input::Backspace => {
                let before: Viewport = self.viewport;
                self.viewport.reset();
                if self.viewport != before {
                    self.relayout = true;
                }
                EventResult::Consumed
            },
            Input::Up | Input::Down => {
                match self.mode {
                    Mode::Move => {
                        let (_, height) = self.view_size();
                        let step: i64 = (height / 100) as i64;
                        if e == Input::Up {
                            self.pan(Axis::Vertical, -step);
                        } else {
                            self.pan(Axis::Vertical, step);
                        }
                    },
                    Mode::Zoom => {
                        if e == Input::Up {
                            self.zoom(ZOOM_STEP);
                        } else {
                            self.zoom(-ZOOM_STEP);
                        }
                    },
                    Mode::Cursor { x, y } => {
                        let h: u32 = match &self.scaled {
                            Some(g) => if g.width >= 1 { g.height } else { 0 },
                            None => 0,
                        };
                        if e == Input::Up && h > 0 && y > 0 {
                            self.mode = Mode::Cursor { x, y: y - 1 };
                        } else if e == Input::Down && h > 0 && y < h - 1 {
                            self.mode = Mode::Cursor { x, y: y + 1 };
                        }
                    },
                }
                EventResult::Consumed
            },
            Input::Left | Input::Right => {
                match self.mode {
                    Mode::Move => {
                        let (width, _) = self.view_size();
                        let step: i64 = (width / 50) as i64;
                        if e == Input::Left {
                            self.pan(Axis::Horizontal, -step);
                        } else {
                            self.pan(Axis::Horizontal, step);
                        }
                    },
                    Mode::Zoom => {
                        self.mode = Mode::Move;
                    },
                    Mode::Cursor { x, y } => {
                        let w: u32 = match &self.scaled {
                            Some(g) => if g.height >= 1 { g.width } else { 0 },
                            None => 0,
                        };
                        if e == Input::Left && w > 0 && x > 0 {
                            self.mode = Mode::Cursor { x: x - 1, y };
                        } else if e == Input::Right && w > 0 && x < w - 1 {
                            self.mode = Mode::Cursor { x: x + 1, y };
                        }
                    },
                }
                EventResult::Consumed
            },
            Input::Char(c) => {
                if c == 'm' {
                    self.mode = Mode::Move;
                    EventResult::Consumed
                } else if c == 'z' {
                    self.mode = Mode::Zoom;
                    EventResult::Consumed
                } else if c == 'c' {
                    match &self.scaled {
                        Some(g) => {
                            if g.width >= 1 && g.height >= 1 {
                                self.mode = Mode::Cursor { x: g.width / 2, y: g.height / 2 };
                                EventResult::Consumed
                            } else {
                                EventResult::Ignored
                            }
                        },
                        None => EventResult::Ignored,
                    }
                } else {
                    EventResult::Ignored
                }
            },
            Input::Other => EventResult::Ignored,
        }
    }

    /// The status line for the current state.
    pub open spec fn status_spec(self) -> Status {
        Status { mode: self.mode, zoom_percent: zoom_percent_spec(self.viewport) as u64 }
    }

    /// The cursor overlay on grid `g`: the cursor cell and its color, when
    /// `g` has that cell.
    pub open spec fn cursor_mark_spec(self, g: Raster) -> Option<CursorMark> {
        match self.mode {
            Mode::Cursor { x, y } => {
                if x < g.width && y < g.height {
                    Some(CursorMark { x, y, color: g.pixel(x as int, y as int) })
                } else {
                    None
                }
            },
            _ => None,
        }
    }

    /// A draw pass on a `cols` x `rows` area with grid `g` redraws the picture:
    /// every row as its runs, centered, with the cursor overlay and status.
    pub open spec fn is_picture(self, g: Raster, cols: usize, rows: usize, f: Frame) -> bool {
        match f {
            Frame::Picture { left, top, rows: lines, cursor, status } => {
                &&& left == padding_spec(cols as int, g.width as int)
                &&& top == padding_spec(rows as int, g.height as int)
                &&& lines@.len() == g.height
                &&& forall|i: int| 0 <= i < g.height ==> (#[trigger] lines@[i])@ == row_spans(g.row(i))
                &&& cursor == self.cursor_mark_spec(g)
                &&& status == self.status_spec()
            },
            _ => false,
        }
    }

    /// What a draw pass on a `cols` x `rows` area makes of state `s` (the
    /// resulting state `t` and frame `r`). Without a grid: the placeholder.
    /// With one: nothing when the viewport is the one last drawn, else the
    /// whole picture; the viewport is remembered as drawn.
    pub open spec fn draw_post(s: ImageView, t: ImageView, cols: usize, rows: usize, r: Frame) -> bool {
        &&& s.scaled is None ==> r == (Frame::Placeholder { x: cols / 2, y: rows / 2, status: s.status_spec() })
        &&& s.scaled is Some && s.rendered_view == Some(s.viewport) ==> r == Frame::Unchanged
        &&& s.scaled is Some && s.rendered_view != Some(s.viewport) ==> s.is_picture(s.scaled->0, cols, rows, r)
        &&& s.scaled is Some ==> t.rendered_view == Some(s.viewport)
        &&& s.scaled is None ==> t.rendered_view == s.rendered_view
        &&& t.viewport == s.viewport
        &&& t.mode == s.mode
        &&& t.scaled == s.scaled
        &&& t.relayout == s.relayout
        &&& t.source == s.source
        &&& t.min_dim == s.min_dim
    }

    /// A second draw pass right after one that drew the grid, on any area,
    /// draws nothing at all.
    pub proof fn lemma_redraw_is_noop(
        s0: ImageView,
        s1: ImageView,
        s2: ImageView,
        c1: usize,
        r1: usize,
        f1: Frame,
        c2: usize,
        r2: usize,
        f2: Frame,
    )
        requires
            s0.scaled is Some,
            Self::draw_post(s0, s1, c1, r1, f1),
            Self::draw_post(s1, s2, c2, r2, f2),
        ensures
            f2 == Frame::Unchanged,
    {
    }

    /// Recomputes the grid for a `cols` x `rows` cell area and clears the
    /// relayout flag; a cursor is kept inside the new grid, and a failed
    /// layout leaves the mode as it was.
    pub fn layout(&mut self, cols: usize, rows: usize)
        requires
            old(self).wf(),
        ensures
            final(self).wf(),
            final(self).scaled is Some <==> resample_succeeds(old(self).source, old(self).viewport, cols as int, rows as int),
            final(self).scaled matches Some(g) ==> {
                let (left, top, cw, ch) = crop_rect(old(self).viewport, old(self).source.width as int, old(self).source.height as int);
                &&& g.width == target_width(cw, ch, cols as int, rows as int)
                &&& g.height == target_height(cw, ch, cols as int, rows as int)
                &&& g.data@ == resampled_bytes(old(self).source, old(self).viewport, cols as int, rows as int)
            },
            !final(self).relayout,
            final(self).mode == mode_after_layout(old(self).mode, final(self).scaled),
            final(self).viewport == old(self).viewport,
            final(self).source == old(self).source,
            final(self).min_dim == old(self).min_dim,
            final(self).rendered_view == old(self).rendered_view,
    {
        let grid: Option<Raster> = resample(&self.source, &self.viewport, cols, rows);
        match self.mode {
            Mode::Cursor { x, y } => match &grid {
                Some(g) => {
                    if g.width >= 1 && g.height >= 1 {
                        let nx: u32 = if x < g.width { x } else { g.width - 1 };
                        let ny: u32 = if y < g.height { y } else { g.height - 1 };
                        self.mode = Mode::Cursor { x: nx, y: ny };
                    }
                },
                None => {},
            },
            _ => {},
        }
        self.scaled = grid;
        self.relayout = false;
    }

    /// One draw pass on a `cols` x `rows` area. Without a grid: the
    /// placeholder. With one: nothing at all when the viewport is the one last
    /// drawn, else the whole picture, and the viewport is remembered.
    pub fn draw(&mut self, cols: usize, rows: usize) -> (r: Frame)
        requires
            old(self).wf(),
        ensures
            final(self).wf(),
            Self::draw_post(*old(self), *final(self), cols, rows, r),
    {
        let status = Status { mode: self.mode, zoom_percent: zoom_percent(&self.viewport) };
        let frame: Frame = match &self.scaled {
            None => {
                return Frame::Placeholder { x: cols / 2, y: rows / 2, status };
            },
            Some(g) => {
                let unchanged: bool = match self.rendered_view {
                    Some(v) => v == self.viewport,
                    None => false,
                };
                if unchanged {
                    return Frame::Unchanged;
                }
                let mut lines: Vec<Vec<Span>> = Vec::new();
                let mut cursor: Option<CursorMark> = None;
                let mut y: u32 = 0;
                while y < g.height
                    invariant
                        self.wf(),
                        self.scaled == Some(*g),
                        y <= g.height,
                        lines@.len() == y,
                        forall|i: int| 0 <= i < y ==> (#[trigger] lines@[i])@ == row_spans(g.row(i)),
                        cursor == (match self.mode {
                            Mode::Cursor { x: cx, y: cy } => if cy < y { self.cursor_mark_spec(*g) } else { None },
                            _ => None,
                        }),
                    decreases g.height - y,
                {
                    let spans: Vec<Span> = merge_row(g, y);
                    match self.mode {
                        Mode::Cursor { x: cx, y: cy } => {
                            if cy == y && cx < g.width {
                                cursor = Some(CursorMark { x: cx, y: cy, color: g.get_pixel(cx, cy) });
                            }
                        },
                        _ => {},
                    }
                    lines.push(spans);
                    y = y + 1;
                }
                Frame::Picture {
                    left: padding(cols, g.width),
                    top: padding(rows, g.height),
                    rows: lines,
                    cursor,
                    status,
                }
            },
        };
        self.rendered_view = Some(self.viewport);
        frame
    }
}

} // verus!
