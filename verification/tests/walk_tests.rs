use pathcore::{Element, Path, PathWalker, RecordingWalker};

struct TestPathWalker {
    move_to: bool,
    line_to: bool,
    curve_to: bool,
    close: bool,
}

impl PathWalker for TestPathWalker {
    fn move_to(&mut self, x: i32, y: i32) {
        if x == 0 && y == 0 {
            self.move_to = true;
        }
    }

    fn line_to(&mut self, x: i32, y: i32) {
        if x == 10 && y == 10 {
            self.line_to = true;
        }
    }

    #[allow(unused_variables)]
    fn curve_to(&mut self, cx1: i32, cy1: i32, cx2: i32, cy2: i32, ex: i32, ey: i32) {}

    fn close(&mut self) {
        self.close = true;
    }
}

#[test]
fn test_walk_path() {
    let mut path = Path::new().unwrap();
    path.move_to(0, 0).unwrap();
    path.line_to(10, 10).unwrap();
    path.close().unwrap();
    let mut walker = TestPathWalker { move_to: false, line_to: false, curve_to: false, close: false };
    path.walk(&mut walker).unwrap();
    assert!(walker.move_to);
    assert!(walker.line_to);
    assert!(walker.close);
    assert!(!walker.curve_to);
}

#[test]
fn test_walk_empty_path_invokes_nothing() {
    let path = Path::new().unwrap();
    let mut walker = RecordingWalker::new();
    path.walk(&mut walker).unwrap();
    assert_eq!(walker.events, vec![]);
}

#[test]
fn test_walk_preserves_append_order() {
    let mut path = Path::new().unwrap();
    path.move_to(0, 0).unwrap();
    path.line_to(1, 1).unwrap();
    path.curve_to(2, 3, 4, 5, 6, 7).unwrap();
    path.move_to(8, 9).unwrap();
    path.line_to(10, 11).unwrap();
    path.close().unwrap();
    let mut walker = RecordingWalker::new();
    path.walk(&mut walker).unwrap();
    assert_eq!(
        walker.events,
        vec![
            Element::MoveTo { x: 0, y: 0 },
            Element::LineTo { x: 1, y: 1 },
            Element::CurveTo { cx1: 2, cy1: 3, cx2: 4, cy2: 5, ex: 6, ey: 7 },
            Element::MoveTo { x: 8, y: 9 },
            Element::LineTo { x: 10, y: 11 },
            Element::Close,
        ]
    );
}

#[test]
fn test_close_semantics_exact_events() {
    let mut path = Path::new().unwrap();
    path.move_to(0, 0).unwrap();
    path.line_to(10, 10).unwrap();
    path.close().unwrap();
    let mut walker = RecordingWalker::new();
    path.walk(&mut walker).unwrap();
    assert_eq!(
        walker.events,
        vec![
            Element::MoveTo { x: 0, y: 0 },
            Element::LineTo { x: 10, y: 10 },
            Element::Close,
        ]
    );
}

#[test]
fn test_walk_twice_appends_to_trace() {
    let mut path = Path::new().unwrap();
    path.move_to(3, 4).unwrap();
    let mut walker = RecordingWalker::new();
    path.walk(&mut walker).unwrap();
    path.walk(&mut walker).unwrap();
    assert_eq!(
        walker.events,
        vec![Element::MoveTo { x: 3, y: 4 }, Element::MoveTo { x: 3, y: 4 }]
    );
}

#[test]
fn test_curve_to_v_uses_current_point_as_first_control() {
    let mut path = Path::new().unwrap();
    path.move_to(1, 2).unwrap();
    path.curve_to_v(3, 4, 5, 6).unwrap();
    let mut walker = RecordingWalker::new();
    path.walk(&mut walker).unwrap();
    assert_eq!(
        walker.events,
        vec![
            Element::MoveTo { x: 1, y: 2 },
            Element::CurveTo { cx1: 1, cy1: 2, cx2: 3, cy2: 4, ex: 5, ey: 6 },
        ]
    );
}

#[test]
fn test_curve_to_y_repeats_end_point_as_second_control() {
    let mut path = Path::new().unwrap();
    path.move_to(1, 2).unwrap();
    path.curve_to_y(3, 4, 5, 6).unwrap();
    let mut walker = RecordingWalker::new();
    path.walk(&mut walker).unwrap();
    assert_eq!(
        walker.events,
        vec![
            Element::MoveTo { x: 1, y: 2 },
            Element::CurveTo { cx1: 3, cy1: 4, cx2: 5, cy2: 6, ex: 5, ey: 6 },
        ]
    );
}

#[test]
fn test_rect_walk_reconstructs_closed_subpath() {
    let mut path = Path::new().unwrap();
    path.rect(1, 2, 5, 7).unwrap();
    let mut walker = RecordingWalker::new();
    path.walk(&mut walker).unwrap();
    assert_eq!(
        walker.events,
        vec![
            Element::MoveTo { x: 1, y: 2 },
            Element::LineTo { x: 5, y: 2 },
            Element::LineTo { x: 5, y: 7 },
            Element::LineTo { x: 1, y: 7 },
            Element::Close,
        ]
    );
}
