//! The selection state machine: an optional drag in progress and an optional
//! committed selection, with the transitions that pointer and keyboard input
//! drive.
use vstd::prelude::*;
use crate::geometry::{clamped, edge, pixel_ceil, pixel_floor, PixelRect, Point, SUBPIXELS};

verus! {

/// Which corner of the selection the arrow keys act on.
#[derive(Clone, Copy, Debug, PartialEq, Eq, Structural)]
pub enum MoveMode {
    /// Shift both corners: the selection moves and keeps its size.
    Move,
    /// Shift only the end corner.
    GrowFromEnd,
    /// Shift only the start corner.
    ShrinkFromStart,
}

/// An arrow key.
#[derive(Clone, Copy, Debug, PartialEq, Eq, Structural)]
pub enum Direction {
    Up,
    Down,
    Left,
    Right,
}

impl Direction {
    /// One whole pixel in the direction, as a coordinate delta.
    pub open spec fn spec_delta(self) -> (int, int) {
        match self {
            Direction::Up => (0, -SUBPIXELS),
            Direction::Down => (0, SUBPIXELS as int),
            Direction::Left => (-SUBPIXELS, 0),
            Direction::Right => (SUBPIXELS as int, 0),
        }
    }

    /// One whole pixel in the direction, as a coordinate delta.
    pub fn delta(self) -> (r: (i64, i64))
        ensures
            (r.0 as int, r.1 as int) == self.spec_delta(),
    {
        match self {
            Direction::Up => (0, -SUBPIXELS),
            Direction::Down => (0, SUBPIXELS),
            Direction::Left => (-SUBPIXELS, 0),
            Direction::Right => (SUBPIXELS, 0),
        }
    }
}

/// A drag in progress: where the primary button went down, and where the
/// pointer has been since.
#[derive(Clone, Copy, Debug, PartialEq, Eq, Structural)]
pub struct Drag {
    pub start: Point,
    pub end: Option<Point>,
}

/// A committed selection. The corners need not be ordered.
#[derive(Clone, Copy, Debug, PartialEq, Eq, Structural)]
pub struct Selection {
    pub start: Point,
    pub end: Point,
}

/// The smaller of `a` and `b`.
pub open spec fn min_int(a: int, b: int) -> int {
    if a <= b {
        a
    } else {
        b
    }
}

/// The larger of `a` and `b`.
pub open spec fn max_int(a: int, b: int) -> int {
    if a >= b {
        a
    } else {
        b
    }
}

/// `|a - b|`.
pub open spec fn abs_diff(a: int, b: int) -> int {
    if a >= b {
        a - b
    } else {
        b - a
    }
}

/// The whole pixels covered along one axis by the span between coordinates
/// `a` and `b`, clipped to a screen `size` pixels long: from the ceiling of
/// the lower end to the floor of the upper end, so that no partly covered
/// pixel is included.
pub open spec fn pixel_span(a: int, b: int, size: u32) -> (int, int) {
    (
        pixel_ceil(clamped(min_int(a, b), 0, edge(size))),
        pixel_floor(clamped(max_int(a, b), 0, edge(size))),
    )
}

pub(crate) proof fn lemma_pixel_span_bounds(a: int, b: int, size: u32)
    ensures
        0 <= pixel_span(a, b, size).0 <= size,
        0 <= pixel_span(a, b, size).1 <= size,
{
    let lo = clamped(min_int(a, b), 0, edge(size));
    let hi = clamped(max_int(a, b), 0, edge(size));
    assert(0 <= lo <= size * 256);
    assert(0 <= hi <= size * 256);
    assert((lo + 255) / 256 <= size) by (nonlinear_arith)
        requires
            0 <= lo <= size * 256,
    ;
    assert(hi / 256 <= size) by (nonlinear_arith)
        requires
            0 <= hi <= size * 256,
    ;
    assert(0 <= (lo + 255) / 256) by (nonlinear_arith)
        requires
            0 <= lo,
    ;
    assert(0 <= hi / 256) by (nonlinear_arith)
        requires
            0 <= hi,
    ;
}

/// Executable form of `pixel_span`.
fn span_pixels(a: i64, b: i64, size: u32) -> (r: (u32, u32))
    ensures
        r.0 as int == pixel_span(a as int, b as int, size).0,
        r.1 as int == pixel_span(a as int, b as int, size).1,
{
    proof {
        lemma_pixel_span_bounds(a as int, b as int, size);
    }
    let limit: i64 = size as i64 * SUBPIXELS;
    let lo: i64 = if a <= b { a } else { b };
    let hi: i64 = if a >= b { a } else { b };
    let lo: u64 = if lo < 0 { 0 } else if lo > limit { limit as u64 } else { lo as u64 };
    let hi: u64 = if hi < 0 { 0 } else if hi > limit { limit as u64 } else { hi as u64 };
    let first: u64 = (lo + (SUBPIXELS as u64 - 1)) / SUBPIXELS as u64;
    let last: u64 = hi / SUBPIXELS as u64;
    (first as u32, last as u32)
}

/// `|a - b|` for two coordinates, which always fits in 64 unsigned bits.
fn coordinate_distance(a: i64, b: i64) -> (r: u64)
    ensures
        r == abs_diff(a as int, b as int),
{
    if a >= b {
        (a as i128 - b as i128) as u64
    } else {
        (b as i128 - a as i128) as u64
    }
}

impl Selection {
    /// The whole-pixel rectangle the selection covers on a screen of
    /// `width` × `height` pixels.
    pub open spec fn spec_coords(self, width: u32, height: u32) -> PixelRect {
        PixelRect {
            min_x: pixel_span(self.start.x as int, self.end.x as int, width).0 as u32,
            max_x: pixel_span(self.start.x as int, self.end.x as int, width).1 as u32,
            min_y: pixel_span(self.start.y as int, self.end.y as int, height).0 as u32,
            max_y: pixel_span(self.start.y as int, self.end.y as int, height).1 as u32,
        }
    }

    /// The whole-pixel rectangle the selection covers on a screen of
    /// `width` × `height` pixels: each axis runs from the ceiling of the
    /// smaller coordinate to the floor of the larger one, both clipped to the
    /// screen.
    pub fn coords(&self, width: u32, height: u32) -> (r: PixelRect)
        ensures
            r == self.spec_coords(width, height),
            r.max_x <= width && r.max_y <= height,
            r.min_x <= width && r.min_y <= height,
    {
        proof {
            lemma_pixel_span_bounds(self.start.x as int, self.end.x as int, width);
            lemma_pixel_span_bounds(self.start.y as int, self.end.y as int, height);
        }
        let (min_x, max_x) = span_pixels(self.start.x, self.end.x, width);
        let (min_y, max_y) = span_pixels(self.start.y, self.end.y, height);
        PixelRect { min_x, min_y, max_x, max_y }
    }

    /// Width and height of the selection, `|end - start|` on each axis, in
    /// coordinate units.
    pub open spec fn spec_dimensions(self) -> (int, int) {
        (abs_diff(self.end.x as int, self.start.x as int), abs_diff(
            self.end.y as int,
            self.start.y as int,
        ))
    }

    /// Width and height of the selection, in coordinate units.
    pub fn dimensions(&self) -> (r: (u64, u64))
        ensures
            (r.0 as int, r.1 as int) == self.spec_dimensions(),
    {
        (coordinate_distance(self.end.x, self.start.x), coordinate_distance(self.end.y, self.start.y))
    }

    /// Area of the selection, `|end.x - start.x| * |end.y - start.y|`, in
    /// square coordinate units (`SUBPIXELS * SUBPIXELS` of them make one
    /// pixel).
    pub fn area(&self) -> (r: u128)
        ensures
            r == self.spec_dimensions().0 * self.spec_dimensions().1,
    {
        let (width, height) = self.dimensions();
        assert(width as int * height as int <= u64::MAX as int * u64::MAX as int) by (nonlinear_arith)
            requires
                width <= u64::MAX,
                height <= u64::MAX,
        ;
        width as u128 * height as u128
    }

    /// The selection after one arrow-key step in `dir`: `mode` picks the
    /// corners that move, and every moved coordinate is clamped to the screen.
    pub open spec fn moved(self, dir: Direction, mode: MoveMode, width: u32, height: u32) -> Selection {
        let (dx, dy) = dir.spec_delta();
        match mode {
            MoveMode::Move => Selection {
                start: self.start.shifted(dx, dy, width, height),
                end: self.end.shifted(dx, dy, width, height),
            },
            MoveMode::GrowFromEnd => Selection {
                start: self.start,
                end: self.end.shifted(dx, dy, width, height),
            },
            MoveMode::ShrinkFromStart => Selection {
                start: self.start.shifted(dx, dy, width, height),
                end: self.end,
            },
        }
    }

    /// Executable form of `moved`.
    pub fn move_by(&self, dir: Direction, mode: MoveMode, width: u32, height: u32) -> (r: Selection)
        ensures
            r == self.moved(dir, mode, width, height),
    {
        let (dx, dy) = dir.delta();
        match mode {
            MoveMode::Move => Selection {
                start: self.start.shift_clamped(dx, dy, width, height),
                end: self.end.shift_clamped(dx, dy, width, height),
            },
            MoveMode::GrowFromEnd => Selection {
                start: self.start,
                end: self.end.shift_clamped(dx, dy, width, height),
            },
            MoveMode::ShrinkFromStart => Selection {
                start: self.start.shift_clamped(dx, dy, width, height),
                end: self.end,
            },
        }
    }

    /// Whether both corners lie on the screen.
    pub open spec fn within(self, width: u32, height: u32) -> bool {
        self.start.within(width, height) && self.end.within(width, height)
    }

    /// The selection after a run of arrow-key steps, each with its mode.
    pub open spec fn moved_all(self, steps: Seq<(Direction, MoveMode)>, width: u32, height: u32) -> Selection
        decreases steps.len(),
    {
        if steps.len() == 0 {
            self
        } else {
            self.moved_all(steps.drop_last(), width, height).moved(
                steps.last().0,
                steps.last().1,
                width,
                height,
            )
        }
    }
}

impl Drag {
    /// The drag as a selection: its end where the pointer is, or its start if
    /// the pointer has not moved.
    pub open spec fn committed(self) -> Selection {
        Selection {
            start: self.start,
            end: match self.end {
                Some(e) => e,
                None => self.start,
            },
        }
    }

    /// The whole-pixel rectangle the drag covers so far, if the pointer has
    /// reported a position since it began.
    pub fn coords(&self, width: u32, height: u32) -> (r: Option<PixelRect>)
        ensures
            match self.end {
                Some(e) => r == Some(Selection { start: self.start, end: e }.spec_coords(width, height)),
                None => r is None,
            },
    {
        match self.end {
            Some(e) => Some(Selection { start: self.start, end: e }.coords(width, height)),
            None => None,
        }
    }
}

/// What the user has selected: a drag in progress, a committed selection,
/// both (a new drag over an earlier selection), or neither.
#[derive(Clone, Copy, Debug, PartialEq, Eq, Structural)]
pub struct UserSelection {
    pub drag: Option<Drag>,
    pub selection: Option<Selection>,
}

impl UserSelection {
    /// Nothing dragged, nothing selected.
    pub fn new() -> (r: UserSelection)
        ensures
            r.drag is None,
            r.selection is None,
    {
        UserSelection { drag: None, selection: None }
    }

    /// A drag begins at `at`, unless one is already in progress.
    pub open spec fn started(self, at: Point) -> UserSelection {
        if self.drag is Some {
            self
        } else {
            UserSelection { drag: Some(Drag { start: at, end: Some(at) }), selection: self.selection }
        }
    }

    /// The pointer moves to `at`: a drag in progress follows it.
    pub open spec fn pointed(self, at: Point) -> UserSelection {
        match self.drag {
            Some(d) => UserSelection { drag: Some(Drag { start: d.start, end: Some(at) }), selection: self.selection },
            None => self,
        }
    }

    /// The pointer moves through `path`, in order.
    pub open spec fn pointed_all(self, path: Seq<Point>) -> UserSelection
        decreases path.len(),
    {
        if path.len() == 0 {
            self
        } else {
            self.pointed_all(path.drop_last()).pointed(path.last())
        }
    }

    /// The primary button is released: a drag in progress replaces the
    /// selection and ends.
    pub open spec fn ended(self) -> UserSelection {
        match self.drag {
            Some(d) => UserSelection { drag: None, selection: Some(d.committed()) },
            None => self,
        }
    }

    /// Everything is dropped.
    pub open spec fn cancelled(self) -> UserSelection {
        UserSelection { drag: None, selection: None }
    }

    /// One arrow-key step applied to the selection, if there is one.
    pub open spec fn moved(self, dir: Direction, mode: MoveMode, width: u32, height: u32) -> UserSelection {
        match self.selection {
            Some(s) => UserSelection { drag: self.drag, selection: Some(s.moved(dir, mode, width, height)) },
            None => self,
        }
    }

    /// The whole-pixel rectangle of the selection, if there is one.
    pub fn sel_coords(&self, width: u32, height: u32) -> (r: Option<PixelRect>)
        ensures
            match self.selection {
                Some(s) => r == Some(s.spec_coords(width, height)),
                None => r is None,
            },
    {
        match &self.selection {
            Some(s) => Some(s.coords(width, height)),
            None => None,
        }
    }

    /// Width and height of the selection, if there is one.
    pub fn sel_dimensions(&self) -> (r: Option<(u64, u64)>)
        ensures
            match self.selection {
                Some(s) => r is Some && (r.unwrap().0 as int, r.unwrap().1 as int) == s.spec_dimensions(),
                None => r is None,
            },
    {
        match &self.selection {
            Some(s) => Some(s.dimensions()),
            None => None,
        }
    }
}

/// Where a drag begun at `at` ends after the pointer went through `path`.
pub open spec fn path_end(at: Point, path: Seq<Point>) -> Point {
    if path.len() == 0 {
        at
    } else {
        path.last()
    }
}

proof fn lemma_drag_follows_path(s: UserSelection, at: Point, path: Seq<Point>)
    requires
        s.drag is None,
    ensures
        s.started(at).pointed_all(path) == (UserSelection {
            drag: Some(Drag { start: at, end: Some(path_end(at, path)) }),
            selection: s.selection,
        }),
    decreases path.len(),
{
    if path.len() > 0 {
        lemma_drag_follows_path(s, at, path.drop_last());
    }
}

/// A drag begun at `at` and released after any pointer path commits a
/// selection whose start is `at` and whose end is the last pointer position
/// (`at` itself if the pointer never moved); no drag remains.
pub proof fn lemma_commit_keeps_drag_start(s: UserSelection, at: Point, path: Seq<Point>)
    requires
        s.drag is None,
    ensures
        s.started(at).pointed_all(path).ended().selection == Some(
            Selection { start: at, end: path_end(at, path) },
        ),
        s.started(at).pointed_all(path).ended().drag is None,
{
    lemma_drag_follows_path(s, at, path);
}

proof fn lemma_shifted_within(p: Point, dx: int, dy: int, width: u32, height: u32)
    ensures
        p.shifted(dx, dy, width, height).within(width, height),
{
    assert(edge(width) <= 0x1_0000_0000 * 256) by (nonlinear_arith)
        requires
            width <= u32::MAX,
            edge(width) == width * 256,
    ;
    assert(edge(height) <= 0x1_0000_0000 * 256) by (nonlinear_arith)
        requires
            height <= u32::MAX,
            edge(height) == height * 256,
    ;
}

/// One arrow-key step keeps a selection that lies on the screen on the
/// screen, whatever the direction and mode.
pub proof fn lemma_move_stays_within(sel: Selection, dir: Direction, mode: MoveMode, width: u32, height: u32)
    requires
        sel.within(width, height),
    ensures
        sel.moved(dir, mode, width, height).within(width, height),
{
    let (dx, dy) = dir.spec_delta();
    lemma_shifted_within(sel.start, dx, dy, width, height);
    lemma_shifted_within(sel.end, dx, dy, width, height);
}

/// Any run of arrow-key steps keeps a selection that lies on the screen on
/// the screen: no coordinate leaves `[0, width] × [0, height]`.
pub proof fn lemma_moves_stay_within(sel: Selection, steps: Seq<(Direction, MoveMode)>, width: u32, height: u32)
    requires
        sel.within(width, height),
    ensures
        sel.moved_all(steps, width, height).within(width, height),
    decreases steps.len(),
{
    if steps.len() > 0 {
        lemma_moves_stay_within(sel, steps.drop_last(), width, height);
        lemma_move_stays_within(
            sel.moved_all(steps.drop_last(), width, height),
            steps.last().0,
            steps.last().1,
            width,
            height,
        );
    }
}

/// Cancelling leaves neither a drag nor a selection, from any state, and
/// cancelling again changes nothing.
pub proof fn lemma_cancel_is_idempotent(s: UserSelection)
    ensures
        s.cancelled().drag is None,
        s.cancelled().selection is None,
        s.cancelled().cancelled() == s.cancelled(),
{
}

} // verus!
