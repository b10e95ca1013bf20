use pathcore::{Element, EngineError, Matrix, Path, Point, RecordingWalker};

#[test]
fn test_empty_path_current_point_is_origin() {
    let path = Path::new().unwrap();
    assert_eq!(path.current_point(), Point { x: 0, y: 0 });
}

#[test]
fn test_current_point_follows_move_and_line() {
    let mut path = Path::new().unwrap();
    path.move_to(3, 4).unwrap();
    assert_eq!(path.current_point(), Point { x: 3, y: 4 });
    path.line_to(10, 20).unwrap();
    assert_eq!(path.current_point(), Point { x: 10, y: 20 });
}

#[test]
fn test_current_point_after_curve_is_end_point() {
    let mut path = Path::new().unwrap();
    path.move_to(0, 0).unwrap();
    path.curve_to(1, 2, 3, 4, 5, 6).unwrap();
    assert_eq!(path.current_point(), Point { x: 5, y: 6 });
    path.curve_to_v(7, 8, 9, 10).unwrap();
    assert_eq!(path.current_point(), Point { x: 9, y: 10 });
    path.curve_to_y(11, 12, 13, 14).unwrap();
    assert_eq!(path.current_point(), Point { x: 13, y: 14 });
}

#[test]
fn test_current_point_after_close_is_subpath_start() {
    let mut path = Path::new().unwrap();
    path.move_to(2, 3).unwrap();
    path.line_to(10, 10).unwrap();
    path.close().unwrap();
    assert_eq!(path.current_point(), Point { x: 2, y: 3 });
}

#[test]
fn test_current_point_after_close_in_second_subpath() {
    let mut path = Path::new().unwrap();
    path.move_to(1, 1).unwrap();
    path.line_to(2, 2).unwrap();
    path.move_to(5, 5).unwrap();
    path.line_to(6, 6).unwrap();
    path.close().unwrap();
    assert_eq!(path.current_point(), Point { x: 5, y: 5 });
}

#[test]
fn test_current_point_after_rect_is_first_corner() {
    let mut path = Path::new().unwrap();
    path.rect(4, 5, 9, 11).unwrap();
    assert_eq!(path.current_point(), Point { x: 4, y: 5 });
}

#[test]
fn test_line_to_without_current_point_is_refused() {
    let mut path = Path::new().unwrap();
    assert_eq!(path.line_to(10, 10), Err(EngineError::NoCurrentPoint));
    assert_eq!(path.current_point(), Point { x: 0, y: 0 });
    let mut walker = RecordingWalker::new();
    path.walk(&mut walker).unwrap();
    assert_eq!(walker.events, vec![]);
}

#[test]
fn test_curves_without_current_point_are_refused() {
    let mut path = Path::new().unwrap();
    assert_eq!(path.curve_to(1, 2, 3, 4, 5, 6), Err(EngineError::NoCurrentPoint));
    assert_eq!(path.curve_to_v(1, 2, 3, 4), Err(EngineError::NoCurrentPoint));
    assert_eq!(path.curve_to_y(1, 2, 3, 4), Err(EngineError::NoCurrentPoint));
}

#[test]
fn test_close_without_current_point_is_refused() {
    let mut path = Path::new().unwrap();
    assert_eq!(path.close(), Err(EngineError::NoCurrentPoint));
}

#[test]
fn test_try_clone_copies_all_segments() {
    let mut path = Path::new().unwrap();
    path.move_to(0, 0).unwrap();
    path.curve_to(1, 2, 3, 4, 5, 6).unwrap();
    let copy = path.try_clone().unwrap();
    let mut w1 = RecordingWalker::new();
    let mut w2 = RecordingWalker::new();
    path.walk(&mut w1).unwrap();
    copy.walk(&mut w2).unwrap();
    assert_eq!(w1.events, w2.events);
}

#[test]
fn test_clone_independence() {
    let mut original = Path::new().unwrap();
    original.move_to(0, 0).unwrap();
    original.line_to(10, 10).unwrap();
    let mut copy = original.clone();
    copy.line_to(20, 20).unwrap();
    copy.close().unwrap();
    let mut w = RecordingWalker::new();
    original.walk(&mut w).unwrap();
    assert_eq!(
        w.events,
        vec![Element::MoveTo { x: 0, y: 0 }, Element::LineTo { x: 10, y: 10 }]
    );
    let stroke = pathcore::StrokeState { line_width: 2 };
    let ident = Matrix::identity();
    let before = original.bounds(&stroke, &ident).unwrap();
    let mut w2 = RecordingWalker::new();
    copy.walk(&mut w2).unwrap();
    assert_eq!(w2.events.len(), 4);
    assert_eq!(original.bounds(&stroke, &ident).unwrap(), before);
}

#[test]
fn test_trim_changes_nothing_observable() {
    let mut path = Path::new().unwrap();
    path.move_to(1, 2).unwrap();
    path.line_to(3, 4).unwrap();
    assert_eq!(path.trim(), Ok(()));
    assert_eq!(path.current_point(), Point { x: 3, y: 4 });
    let mut walker = RecordingWalker::new();
    path.walk(&mut walker).unwrap();
    assert_eq!(
        walker.events,
        vec![Element::MoveTo { x: 1, y: 2 }, Element::LineTo { x: 3, y: 4 }]
    );
}

#[test]
fn test_transform_identity_leaves_walk_and_bounds_unchanged() {
    let mut path = Path::new().unwrap();
    path.move_to(0, 0).unwrap();
    path.line_to(10, 10).unwrap();
    path.curve_to(1, 2, 3, 4, 5, 6).unwrap();
    path.close().unwrap();
    let stroke = pathcore::StrokeState { line_width: 3 };
    let ident = Matrix::identity();
    let mut before = RecordingWalker::new();
    path.walk(&mut before).unwrap();
    let bounds_before = path.bounds(&stroke, &ident).unwrap();
    path.transform(&ident).unwrap();
    let mut after = RecordingWalker::new();
    path.walk(&mut after).unwrap();
    assert_eq!(before.events, after.events);
    assert_eq!(path.bounds(&stroke, &ident).unwrap(), bounds_before);
}

#[test]
fn test_transform_translates_every_coordinate() {
    let mut path = Path::new().unwrap();
    path.move_to(1, 2).unwrap();
    path.line_to(3, 4).unwrap();
    let shift = Matrix { a: 1, b: 0, c: 0, d: 1, e: 10, f: 20 };
    path.transform(&shift).unwrap();
    let mut walker = RecordingWalker::new();
    path.walk(&mut walker).unwrap();
    assert_eq!(
        walker.events,
        vec![Element::MoveTo { x: 11, y: 22 }, Element::LineTo { x: 13, y: 24 }]
    );
    assert_eq!(path.current_point(), Point { x: 13, y: 24 });
}

#[test]
fn test_transform_scales_curve_control_points() {
    let mut path = Path::new().unwrap();
    path.move_to(1, 1).unwrap();
    path.curve_to(2, 3, 4, 5, 6, 7).unwrap();
    let scale = Matrix { a: 2, b: 0, c: 0, d: 3, e: 0, f: 0 };
    path.transform(&scale).unwrap();
    let mut walker = RecordingWalker::new();
    path.walk(&mut walker).unwrap();
    assert_eq!(
        walker.events,
        vec![
            Element::MoveTo { x: 2, y: 3 },
            Element::CurveTo { cx1: 4, cy1: 9, cx2: 8, cy2: 15, ex: 12, ey: 21 },
        ]
    );
}

#[test]
fn test_transform_overflow_is_refused_and_path_kept() {
    let mut path = Path::new().unwrap();
    path.move_to(i32::MAX, 0).unwrap();
    let double = Matrix { a: 2, b: 0, c: 0, d: 2, e: 0, f: 0 };
    assert_eq!(path.transform(&double), Err(EngineError::NumericOverflow));
    let mut walker = RecordingWalker::new();
    path.walk(&mut walker).unwrap();
    assert_eq!(walker.events, vec![Element::MoveTo { x: i32::MAX, y: 0 }]);
    assert_eq!(path.current_point(), Point { x: i32::MAX, y: 0 });
}
