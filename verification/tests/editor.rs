use pixel_undo::GridError;
use pixel_undo::grid::Image;
use pixel_undo::history::UndoQueue;
use pixel_undo::session::InternalState;

fn fill_bytes(pixels: usize) -> Vec<u8> {
    let mut v = Vec::new();
    for _ in 0..pixels {
        v.push(200);
        v.push(200);
        v.push(255);
    }
    v
}

#[test]
fn create_fills_with_default_color() {
    let img = Image::new(2, 2).unwrap();
    assert_eq!(img.width(), 2);
    assert_eq!(img.height(), 2);
    assert_eq!(
        img.cells(),
        vec![200, 200, 255, 200, 200, 255, 200, 200, 255, 200, 200, 255]
    );
}

#[test]
fn flatten_length_is_three_bytes_per_cell() {
    for &(w, h) in &[(0usize, 0usize), (1, 1), (2, 3), (7, 5), (16, 1)] {
        let img = Image::new(w, h).unwrap();
        assert_eq!(img.cells().len(), 3 * w * h);
    }
}

#[test]
fn create_rejects_unaddressable_dimensions() {
    assert!(matches!(
        Image::new(usize::MAX, usize::MAX),
        Err(GridError::InvalidDimension)
    ));
    assert!(matches!(Image::new(usize::MAX, 1), Err(GridError::InvalidDimension)));
    assert!(matches!(Image::new(2, usize::MAX / 2), Err(GridError::InvalidDimension)));
}

#[test]
fn brush_replaces_exactly_one_cell() {
    let img = Image::new(2, 2).unwrap();
    let edited = img.brush(1, 0, vec![10, 20, 30]).unwrap();
    let mut expected = fill_bytes(4);
    expected[3] = 10;
    expected[4] = 20;
    expected[5] = 30;
    assert_eq!(edited.cells(), expected);
    assert_eq!(edited.width(), 2);
    assert_eq!(edited.height(), 2);
}

#[test]
fn brush_leaves_the_receiver_unchanged() {
    let img = Image::new(3, 2).unwrap();
    let before = img.cells();
    let _edited = img.brush(2, 1, vec![1, 2, 3]).unwrap();
    assert_eq!(img.cells(), before);
}

#[test]
fn brush_rejects_out_of_bounds_coordinates() {
    let img = Image::new(2, 2).unwrap();
    assert!(matches!(img.brush(2, 0, vec![1, 2, 3]), Err(GridError::OutOfBounds)));
    assert!(matches!(img.brush(0, 2, vec![1, 2, 3]), Err(GridError::OutOfBounds)));
    assert!(matches!(
        img.brush(usize::MAX, usize::MAX, vec![1, 2, 3]),
        Err(GridError::OutOfBounds)
    ));
}

#[test]
fn brush_rejects_malformed_color_payloads() {
    let img = Image::new(2, 2).unwrap();
    assert!(matches!(img.brush(0, 0, vec![]), Err(GridError::MalformedColor)));
    assert!(matches!(img.brush(0, 0, vec![1, 2]), Err(GridError::MalformedColor)));
    assert!(matches!(
        img.brush(0, 0, vec![1, 2, 3, 4]),
        Err(GridError::MalformedColor)
    ));
}

#[test]
fn brush_on_zero_sized_grid_is_out_of_bounds() {
    let img = Image::new(0, 0).unwrap();
    assert_eq!(img.cells(), Vec::<u8>::new());
    assert!(matches!(img.brush(0, 0, vec![1, 2, 3]), Err(GridError::OutOfBounds)));
}

#[test]
fn queue_push_undo_redo_round_trip() {
    let mut q = UndoQueue::new(1i32);
    q.push(2);
    q.push(3);
    assert_eq!(q.current(), 3);
    assert!(q.undo());
    assert_eq!(q.current(), 2);
    assert!(q.redo());
    assert_eq!(q.current(), 3);
}

#[test]
fn queue_cursor_stays_in_bounds_under_any_call_sequence() {
    let mut q = UndoQueue::new(0i32);
    // Undo at the oldest entry and redo at the newest entry do not move.
    assert!(!q.undo());
    assert!(!q.redo());
    assert_eq!(q.current(), 0);
    q.push(1);
    q.push(2);
    assert!(q.undo());
    assert!(q.undo());
    assert!(!q.undo());
    assert_eq!(q.current(), 0);
    assert!(q.redo());
    assert!(q.redo());
    assert!(!q.redo());
    assert_eq!(q.current(), 2);
}

#[test]
fn queue_push_discards_the_redo_branch() {
    let mut q = UndoQueue::new(1i32);
    q.push(2);
    q.push(3);
    assert!(q.undo());
    assert!(q.undo());
    q.push(9);
    // The branch 2, 3 is gone: nothing to redo, and undo leads back to 1.
    assert!(!q.redo());
    assert_eq!(q.current(), 9);
    assert!(q.undo());
    assert_eq!(q.current(), 1);
    assert!(!q.undo());
}

#[test]
fn session_open_seeds_the_default_grid() {
    let s = InternalState::new(2, 2).unwrap();
    assert_eq!(s.image().cells(), fill_bytes(4));
    assert_eq!(s.image().width(), 2);
    assert_eq!(s.image().height(), 2);
}

#[test]
fn session_rejects_unaddressable_dimensions() {
    assert!(matches!(
        InternalState::new(usize::MAX, 2),
        Err(GridError::InvalidDimension)
    ));
}

#[test]
fn session_apply_edit_records_and_returns_the_edited_grid() {
    let mut s = InternalState::new(2, 2).unwrap();
    let img = s.apply_edit(1, 0, vec![10, 20, 30]).unwrap();
    let mut expected = fill_bytes(4);
    expected[3] = 10;
    expected[4] = 20;
    expected[5] = 30;
    assert_eq!(img.cells(), expected);
    assert_eq!(s.image().cells(), expected);
}

#[test]
fn session_failed_edit_leaves_current_unchanged() {
    let mut s = InternalState::new(2, 2).unwrap();
    assert!(matches!(
        s.apply_edit(2, 0, vec![1, 2, 3]),
        Err(GridError::OutOfBounds)
    ));
    assert_eq!(s.image().cells(), fill_bytes(4));
    assert!(matches!(
        s.apply_edit(0, 0, vec![1, 2]),
        Err(GridError::MalformedColor)
    ));
    assert_eq!(s.image().cells(), fill_bytes(4));
}

#[test]
fn session_edits_stack_in_the_history() {
    let mut s = InternalState::new(1, 2).unwrap();
    s.apply_edit(0, 0, vec![1, 1, 1]).unwrap();
    let img = s.apply_edit(0, 1, vec![2, 2, 2]).unwrap();
    assert_eq!(img.cells(), vec![1, 1, 1, 2, 2, 2]);
}
