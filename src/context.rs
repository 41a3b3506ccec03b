//! The overlay's selection engine: the captured image, the pointer, the
//! selection state and the keyboard mode, driven by input events.
use vstd::prelude::*;
use crate::capture::{extract_region, CapturedImage, ExtractError, Region};
use crate::geometry::Point;
use crate::selection::{Direction, Drag, MoveMode, Selection, UserSelection};
use crate::uniforms::{frame_uniforms, spec_mode_flag, FrameUniforms};

verus! {

/// An input event, as the window shell delivers it.
#[derive(Clone, Copy, Debug, PartialEq, Eq, Structural)]
pub enum InputEvent {
    /// The pointer moved to this position.
    PointerMoved(Point),
    /// The primary button went down.
    PrimaryPressed,
    /// The primary button came up.
    PrimaryReleased,
    /// The secondary button went down or came up.
    SecondaryButton,
    /// An arrow key was pressed.
    Arrow(Direction),
    /// The modifier that makes arrow keys move the start corner went down.
    ShrinkModifierPressed,
    /// The modifier that makes arrow keys move the whole selection went down.
    MoveModifierPressed,
    /// One of the two modifiers came up.
    ModifierReleased,
    /// The key that leaves without exporting was pressed.
    Escape,
    /// The key that exports the selection and leaves was pressed.
    Commit,
    /// The window was asked to close.
    CloseRequested,
}

/// What the shell is to do after an event.
#[derive(Clone, Copy, Debug, PartialEq, Eq, Structural)]
pub enum Response {
    /// Keep running.
    Continue,
    /// Leave without exporting.
    Exit,
    /// Export the selection, then leave.
    CommitAndExit,
}

/// The selection engine of one overlay.
pub struct AppContext {
    pub mouse_position: Point,
    pub selection: UserSelection,
    pub image: CapturedImage,
    pub total_time_micros: u64,
    pub mode: MoveMode,
}

impl AppContext {
    /// A fresh engine over `image`: pointer at the origin, nothing dragged or
    /// selected, animation time zero, arrow keys growing from the end corner.
    pub fn new(image: CapturedImage) -> (r: AppContext)
        ensures
            r.image == image,
            r.mouse_position == (Point { x: 0, y: 0 }),
            r.selection.drag is None,
            r.selection.selection is None,
            r.total_time_micros == 0,
            r.mode == MoveMode::GrowFromEnd,
    {
        AppContext {
            mouse_position: Point::origin(),
            selection: UserSelection::new(),
            image,
            total_time_micros: 0,
            mode: MoveMode::GrowFromEnd,
        }
    }

    /// The screen's width in pixels: the captured image's.
    pub open spec fn spec_width(&self) -> u32 {
        self.image.spec_width()
    }

    /// The screen's height in pixels: the captured image's.
    pub open spec fn spec_height(&self) -> u32 {
        self.image.spec_height()
    }

    /// The engine with its selection state replaced by `s`.
    pub open spec fn with_selection(self, s: UserSelection) -> AppContext {
        AppContext { selection: s, ..self }
    }

    /// The engine after `ev`.
    pub open spec fn after_event(self, ev: InputEvent) -> AppContext {
        match ev {
            InputEvent::PointerMoved(p) => AppContext {
                mouse_position: p,
                selection: self.selection.pointed(p),
                ..self
            },
            InputEvent::PrimaryPressed => self.with_selection(self.selection.started(self.mouse_position)),
            InputEvent::PrimaryReleased => self.with_selection(self.selection.ended()),
            InputEvent::SecondaryButton => self.with_selection(self.selection.cancelled()),
            InputEvent::Arrow(dir) => self.with_selection(
                self.selection.moved(dir, self.mode, self.spec_width(), self.spec_height()),
            ),
            InputEvent::ShrinkModifierPressed => AppContext { mode: MoveMode::ShrinkFromStart, ..self },
            InputEvent::MoveModifierPressed => AppContext { mode: MoveMode::Move, ..self },
            InputEvent::ModifierReleased => AppContext { mode: MoveMode::GrowFromEnd, ..self },
            _ => self,
        }
    }

    /// What the shell is to do after `ev`.
    pub open spec fn response_to(ev: InputEvent) -> Response {
        match ev {
            InputEvent::Escape => Response::Exit,
            InputEvent::CloseRequested => Response::Exit,
            InputEvent::Commit => Response::CommitAndExit,
            _ => Response::Continue,
        }
    }

    /// The screen's size in pixels.
    pub fn size(&self) -> (r: (u32, u32))
        ensures
            r == (self.spec_width(), self.spec_height()),
    {
        (self.image.width(), self.image.height())
    }

    /// The primary button went down: a drag begins at the pointer, unless one
    /// is in progress. An earlier selection stays until the drag ends.
    pub fn start_drag(&mut self)
        ensures
            *final(self) == old(self).with_selection(old(self).selection.started(old(self).mouse_position)),
    {
        if self.selection.drag.is_none() {
            let at = self.mouse_position;
            self.selection.drag = Some(Drag { start: at, end: Some(at) });
        }
    }

    /// The primary button came up: a drag in progress becomes the selection,
    /// replacing any earlier one. Without a drag nothing changes.
    pub fn end_drag(&mut self)
        ensures
            *final(self) == old(self).with_selection(old(self).selection.ended()),
    {
        match self.selection.drag {
            Some(drag) => {
                let end = match drag.end {
                    Some(e) => e,
                    None => drag.start,
                };
                self.selection.selection = Some(Selection { start: drag.start, end });
                self.selection.drag = None;
            },
            None => {},
        }
    }

    /// Drops the drag and the selection, whatever the state.
    pub fn cancel_drag(&mut self)
        ensures
            *final(self) == old(self).with_selection(old(self).selection.cancelled()),
            final(self).selection.drag is None,
            final(self).selection.selection is None,
    {
        self.selection.drag = None;
        self.selection.selection = None;
    }

    /// The pointer moved to `position`; a drag in progress follows it.
    pub fn update_mouse_position(&mut self, position: Point)
        ensures
            *final(self) == (AppContext {
                mouse_position: position,
                selection: old(self).selection.pointed(position),
                ..*old(self)
            }),
    {
        self.mouse_position = position;
        match self.selection.drag {
            Some(drag) => {
                self.selection.drag = Some(Drag { start: drag.start, end: Some(position) });
            },
            None => {},
        }
    }

    /// Sets which corners the arrow keys move.
    pub fn set_mode(&mut self, mode: MoveMode)
        ensures
            *final(self) == (AppContext { mode, ..*old(self) }),
    {
        self.mode = mode;
    }

    /// One arrow-key step of the selection in `dir`, by one pixel, on the
    /// corners the current mode picks, clamped to the screen. Returns `None`
    /// and changes nothing when there is no selection.
    pub fn handle_move(&mut self, dir: Direction) -> (r: Option<()>)
        ensures
            *final(self) == old(self).with_selection(
                old(self).selection.moved(dir, old(self).mode, old(self).spec_width(), old(self).spec_height()),
            ),
            r is Some <==> old(self).selection.selection is Some,
    {
        let (width, height) = self.size();
        match self.selection.selection {
            Some(sel) => {
                self.selection.selection = Some(sel.move_by(dir, self.mode, width, height));
                Some(())
            },
            None => None,
        }
    }

    /// Adds the time since the previous frame to the animation time, stopping
    /// at the largest value rather than wrapping.
    pub fn advance_time(&mut self, elapsed_micros: u64)
        ensures
            *final(self) == (AppContext {
                total_time_micros: if old(self).total_time_micros + elapsed_micros > u64::MAX {
                    u64::MAX
                } else {
                    (old(self).total_time_micros + elapsed_micros) as u64
                },
                ..*old(self)
            }),
    {
        self.total_time_micros = self.total_time_micros.saturating_add(elapsed_micros);
    }

    /// The shader parameters for the current state.
    pub fn update_uniforms(&self) -> (r: FrameUniforms)
        ensures
            r.screen_width == self.spec_width(),
            r.screen_height == self.spec_height(),
            r.time_micros == self.total_time_micros,
            r.mode_flag == spec_mode_flag(self.selection.drag is Some, self.selection.selection is Some),
            match self.selection.drag {
                Some(d) => r.drag_start == d.start && r.drag_end == match d.end {
                    Some(e) => e,
                    None => Point { x: 0, y: 0 },
                },
                None => r.drag_start == Point { x: 0, y: 0 } && r.drag_end == Point { x: 0, y: 0 },
            },
            match self.selection.selection {
                Some(s) => r.selection_start == s.start && r.selection_end == s.end,
                None => r.selection_start == Point { x: 0, y: 0 } && r.selection_end == Point {
                    x: 0,
                    y: 0,
                },
            },
    {
        let (width, height) = self.size();
        frame_uniforms(&self.selection, width, height, self.total_time_micros)
    }

    /// The pixels of the current selection, for export: `NoSelection` without
    /// one, otherwise what `extract_region` gives.
    pub fn get_selection_data(&self) -> (r: Result<Region, ExtractError>)
        ensures
            match self.selection.selection {
                None => r == Err::<Region, ExtractError>(ExtractError::NoSelection),
                Some(s) => {
                    let rect = s.spec_coords(self.spec_width(), self.spec_height());
                    match r {
                        Ok(region) => {
                            &&& !rect.spec_is_empty()
                            &&& region.width == rect.max_x - rect.min_x
                            &&& region.height == rect.max_y - rect.min_y
                            &&& region.bytes@.len() == 4 * region.width * region.height
                            &&& region.bytes@ == crate::capture::region_bytes(
                                self.image.spec_pixels(),
                                self.spec_width(),
                                rect,
                                region.height as nat,
                            )
                        },
                        Err(e) => rect.spec_is_empty() && e == ExtractError::EmptySelection,
                    }
                },
            },
    {
        match &self.selection.selection {
            Some(s) => extract_region(&self.image, s),
            None => Err(ExtractError::NoSelection),
        }
    }

    /// Applies an input event and says what the shell is to do next.
    pub fn handle_event(&mut self, ev: InputEvent) -> (r: Response)
        ensures
            *final(self) == old(self).after_event(ev),
            r == Self::response_to(ev),
    {
        match ev {
            InputEvent::PointerMoved(p) => self.update_mouse_position(p),
            InputEvent::PrimaryPressed => self.start_drag(),
            InputEvent::PrimaryReleased => self.end_drag(),
            InputEvent::SecondaryButton => self.cancel_drag(),
            InputEvent::Arrow(dir) => {
                let _ = self.handle_move(dir);
            },
            InputEvent::ShrinkModifierPressed => self.set_mode(MoveMode::ShrinkFromStart),
            InputEvent::MoveModifierPressed => self.set_mode(MoveMode::Move),
            InputEvent::ModifierReleased => self.set_mode(MoveMode::GrowFromEnd),
            InputEvent::Escape => return Response::Exit,
            InputEvent::CloseRequested => return Response::Exit,
            InputEvent::Commit => return Response::CommitAndExit,
        }
        Response::Continue
    }
}

} // verus!
