use cleave::capture::{extract_region, CapturedImage, ExtractError};
use cleave::context::{AppContext, InputEvent, Response};
use cleave::geometry::{Point, PixelRect, SUBPIXELS};
use cleave::selection::{Direction, Drag, MoveMode, Selection, UserSelection};

fn blank_image(width: u32, height: u32) -> CapturedImage {
    CapturedImage::new(width, height, vec![0u8; (4 * width * height) as usize]).unwrap()
}

fn context(width: u32, height: u32) -> AppContext {
    AppContext::new(blank_image(width, height))
}

#[test]
fn drag_and_release_gives_selection_and_region() {
    let mut ctx = context(100, 100);
    ctx.update_mouse_position(Point::from_pixels(10, 10));
    ctx.start_drag();
    ctx.update_mouse_position(Point::from_pixels(50, 60));
    ctx.end_drag();
    let sel = ctx.selection.selection.unwrap();
    assert!(ctx.selection.drag.is_none());
    assert_eq!(sel.start, Point::from_pixels(10, 10));
    assert_eq!(sel.end, Point::from_pixels(50, 60));
    let unit = (SUBPIXELS * SUBPIXELS) as u128;
    assert_eq!(sel.area(), 2000 * unit);
    assert_eq!(sel.coords(100, 100), PixelRect { min_x: 10, min_y: 10, max_x: 50, max_y: 60 });
    let region = ctx.get_selection_data().unwrap();
    assert_eq!((region.width, region.height), (40, 50));
    assert_eq!(region.bytes.len(), 40 * 50 * 4);
}

#[test]
fn release_without_move_is_empty() {
    let mut ctx = context(100, 100);
    ctx.update_mouse_position(Point::from_pixels(30, 40));
    ctx.start_drag();
    ctx.end_drag();
    let sel = ctx.selection.selection.unwrap();
    assert_eq!(sel.start, sel.end);
    assert_eq!(sel.area(), 0);
    assert_eq!(ctx.get_selection_data().err(), Some(ExtractError::EmptySelection));
}

#[test]
fn grow_right_stops_at_screen_edge() {
    let mut ctx = context(100, 100);
    ctx.update_mouse_position(Point::from_pixels(20, 20));
    ctx.start_drag();
    ctx.update_mouse_position(Point::from_pixels(98, 50));
    ctx.end_drag();
    ctx.set_mode(MoveMode::GrowFromEnd);
    for _ in 0..5 {
        assert_eq!(ctx.handle_move(Direction::Right), Some(()));
    }
    let sel = ctx.selection.selection.unwrap();
    assert_eq!(sel.end.x, 100 * SUBPIXELS);
    assert_eq!(sel.end.y, 50 * SUBPIXELS);
    assert_eq!(sel.start, Point::from_pixels(20, 20));
}

#[test]
fn drag_start_survives_pointer_path() {
    let mut ctx = context(200, 200);
    ctx.update_mouse_position(Point { x: 1234, y: 567 });
    ctx.start_drag();
    for (x, y) in [(5, 9), (-300, 40000), (70000, 2), (900, 901)] {
        ctx.update_mouse_position(Point { x, y });
        ctx.start_drag();
    }
    ctx.end_drag();
    let sel = ctx.selection.selection.unwrap();
    assert_eq!(sel.start, Point { x: 1234, y: 567 });
    assert_eq!(sel.end, Point { x: 900, y: 901 });
}

#[test]
fn origin_is_a_valid_drag_start() {
    let mut ctx = context(10, 10);
    ctx.start_drag();
    assert_eq!(ctx.selection.drag, Some(Drag { start: Point::origin(), end: Some(Point::origin()) }));
    ctx.update_mouse_position(Point::from_pixels(3, 4));
    ctx.start_drag();
    ctx.end_drag();
    let sel = ctx.selection.selection.unwrap();
    assert_eq!(sel.start, Point::origin());
    assert_eq!(sel.end, Point::from_pixels(3, 4));
}

#[test]
fn new_drag_keeps_old_selection_until_release() {
    let mut ctx = context(100, 100);
    ctx.update_mouse_position(Point::from_pixels(1, 1));
    ctx.start_drag();
    ctx.update_mouse_position(Point::from_pixels(5, 5));
    ctx.end_drag();
    ctx.update_mouse_position(Point::from_pixels(60, 60));
    ctx.start_drag();
    assert!(ctx.selection.drag.is_some());
    assert_eq!(ctx.selection.selection.unwrap().end, Point::from_pixels(5, 5));
    ctx.update_mouse_position(Point::from_pixels(70, 80));
    ctx.end_drag();
    let sel = ctx.selection.selection.unwrap();
    assert_eq!(sel.start, Point::from_pixels(60, 60));
    assert_eq!(sel.end, Point::from_pixels(70, 80));
}

#[test]
fn end_drag_without_drag_keeps_selection() {
    let mut ctx = context(100, 100);
    ctx.update_mouse_position(Point::from_pixels(1, 1));
    ctx.start_drag();
    ctx.update_mouse_position(Point::from_pixels(5, 5));
    ctx.end_drag();
    ctx.end_drag();
    assert_eq!(
        ctx.selection.selection,
        Some(Selection { start: Point::from_pixels(1, 1), end: Point::from_pixels(5, 5) })
    );
}

#[test]
fn moves_never_leave_the_screen() {
    let mut ctx = context(3, 2);
    ctx.update_mouse_position(Point::from_pixels(0, 0));
    ctx.start_drag();
    ctx.update_mouse_position(Point::from_pixels(3, 2));
    ctx.end_drag();
    let modes = [MoveMode::Move, MoveMode::GrowFromEnd, MoveMode::ShrinkFromStart];
    let dirs = [Direction::Up, Direction::Left, Direction::Down, Direction::Right];
    for step in 0..60usize {
        ctx.set_mode(modes[step % 3]);
        ctx.handle_move(dirs[(step / 2) % 4]);
        let sel = ctx.selection.selection.unwrap();
        for p in [sel.start, sel.end] {
            assert!(0 <= p.x && p.x <= 3 * SUBPIXELS);
            assert!(0 <= p.y && p.y <= 2 * SUBPIXELS);
        }
    }
}

#[test]
fn move_mode_shifts_both_corners() {
    let sel = Selection { start: Point::from_pixels(2, 2), end: Point::from_pixels(5, 6) };
    let moved = sel.move_by(Direction::Down, MoveMode::Move, 10, 10);
    assert_eq!(moved.start, Point::from_pixels(2, 3));
    assert_eq!(moved.end, Point::from_pixels(5, 7));
    let shrunk = sel.move_by(Direction::Left, MoveMode::ShrinkFromStart, 10, 10);
    assert_eq!(shrunk.start, Point::from_pixels(1, 2));
    assert_eq!(shrunk.end, sel.end);
    let at_top = sel.move_by(Direction::Up, MoveMode::Move, 10, 10);
    let clamped = at_top.move_by(Direction::Up, MoveMode::Move, 10, 10).move_by(Direction::Up, MoveMode::Move, 10, 10);
    assert_eq!(clamped.start.y, 0);
    assert_eq!(clamped.end.y, 3 * SUBPIXELS);
}

#[test]
fn handle_move_without_selection_does_nothing() {
    let mut ctx = context(10, 10);
    ctx.start_drag();
    assert_eq!(ctx.handle_move(Direction::Up), None);
    assert!(ctx.selection.selection.is_none());
    assert!(ctx.selection.drag.is_some());
}

#[test]
fn cancel_clears_everything_twice() {
    let mut ctx = context(100, 100);
    ctx.update_mouse_position(Point::from_pixels(1, 1));
    ctx.start_drag();
    ctx.update_mouse_position(Point::from_pixels(5, 5));
    ctx.end_drag();
    ctx.start_drag();
    ctx.cancel_drag();
    assert!(ctx.selection.drag.is_none() && ctx.selection.selection.is_none());
    ctx.cancel_drag();
    assert!(ctx.selection.drag.is_none() && ctx.selection.selection.is_none());
    assert_eq!(ctx.get_selection_data().err(), Some(ExtractError::NoSelection));
}

#[test]
fn events_drive_the_engine() {
    let mut ctx = context(50, 50);
    assert_eq!(ctx.handle_event(InputEvent::PointerMoved(Point::from_pixels(4, 4))), Response::Continue);
    ctx.handle_event(InputEvent::PrimaryPressed);
    ctx.handle_event(InputEvent::PointerMoved(Point::from_pixels(9, 8)));
    ctx.handle_event(InputEvent::PrimaryReleased);
    assert_eq!(ctx.mouse_position, Point::from_pixels(9, 8));
    ctx.handle_event(InputEvent::MoveModifierPressed);
    assert_eq!(ctx.mode, MoveMode::Move);
    ctx.handle_event(InputEvent::Arrow(Direction::Right));
    assert_eq!(
        ctx.selection.selection,
        Some(Selection { start: Point::from_pixels(5, 4), end: Point::from_pixels(10, 8) })
    );
    ctx.handle_event(InputEvent::ModifierReleased);
    assert_eq!(ctx.mode, MoveMode::GrowFromEnd);
    ctx.handle_event(InputEvent::ShrinkModifierPressed);
    assert_eq!(ctx.mode, MoveMode::ShrinkFromStart);
    assert_eq!(ctx.handle_event(InputEvent::Commit), Response::CommitAndExit);
    assert_eq!(ctx.handle_event(InputEvent::Escape), Response::Exit);
    assert_eq!(ctx.handle_event(InputEvent::CloseRequested), Response::Exit);
    assert!(ctx.selection.selection.is_some());
    ctx.handle_event(InputEvent::SecondaryButton);
    assert!(ctx.selection.selection.is_none());
}

#[test]
fn dimensions_are_absolute() {
    let sel = Selection { start: Point { x: 500, y: -20 }, end: Point { x: 100, y: 30 } };
    assert_eq!(sel.dimensions(), (400, 50));
    assert_eq!(sel.area(), 20000);
    let extreme = Selection { start: Point { x: i64::MIN, y: i64::MIN }, end: Point { x: i64::MAX, y: i64::MAX } };
    assert_eq!(extreme.dimensions(), (u64::MAX, u64::MAX));
    assert_eq!(extreme.area(), u64::MAX as u128 * u64::MAX as u128);
    let state = UserSelection { drag: None, selection: Some(sel) };
    assert_eq!(state.sel_dimensions(), Some((400, 50)));
    assert_eq!(UserSelection::new().sel_dimensions(), None);
    assert_eq!(UserSelection::new().sel_coords(10, 10), None);
}

#[test]
fn drag_coords_need_an_end() {
    let drag = Drag { start: Point::from_pixels(7, 2), end: None };
    assert_eq!(drag.coords(10, 10), None);
    let drag = Drag { start: Point::from_pixels(7, 2), end: Some(Point::from_pixels(3, 9)) };
    assert_eq!(drag.coords(10, 10), Some(PixelRect { min_x: 3, min_y: 2, max_x: 7, max_y: 9 }));
}

#[test]
fn coords_round_inward_and_clip() {
    let half = SUBPIXELS / 2;
    let sel = Selection {
        start: Point { x: 10 * SUBPIXELS + half, y: -5 * SUBPIXELS },
        end: Point { x: 20 * SUBPIXELS + half, y: 500 * SUBPIXELS },
    };
    assert_eq!(sel.coords(30, 40), PixelRect { min_x: 11, min_y: 0, max_x: 20, max_y: 40 });
    let img = blank_image(30, 40);
    let region = extract_region(&img, &sel).unwrap();
    assert_eq!((region.width, region.height), (9, 40));
    assert_eq!(region.bytes.len(), 4 * 9 * 40);
}

#[test]
fn same_corners_inside_a_pixel_are_empty() {
    let p = Point { x: 3 * SUBPIXELS + 17, y: 4 * SUBPIXELS + 200 };
    let img = blank_image(10, 10);
    let sel = Selection { start: p, end: p };
    assert_eq!(extract_region(&img, &sel).err(), Some(ExtractError::EmptySelection));
    let thin = Selection { start: Point { x: 3 * SUBPIXELS + 10, y: 0 }, end: Point { x: 3 * SUBPIXELS + 200, y: 5 * SUBPIXELS } };
    assert!(thin.coords(10, 10).is_empty());
    assert_eq!(extract_region(&img, &thin).err(), Some(ExtractError::EmptySelection));
}

#[test]
fn selection_outside_the_image_is_empty() {
    let img = blank_image(10, 10);
    let sel = Selection { start: Point::from_pixels(20, 20), end: Point::from_pixels(40, 40) };
    assert_eq!(extract_region(&img, &sel).err(), Some(ExtractError::EmptySelection));
    let sel = Selection { start: Point::from_pixels(-5, -5), end: Point::from_pixels(-1, 3) };
    assert_eq!(extract_region(&img, &sel).err(), Some(ExtractError::EmptySelection));
}
