use rtrs::{ResizeAction, Size, State, SurfaceFailure};

const WINDOW: Size = Size { width: 800, height: 600 };

#[test]
fn new_state_sizes() {
    let s = State::new(Err(16), WINDOW);
    assert_eq!(s.window_size, WINDOW);
    assert_eq!(s.target_size, WINDOW);
    let f = State::new(Ok(Size { width: 256, height: 256 }), WINDOW);
    assert_eq!(f.window_size, WINDOW);
    assert_eq!(f.target_size, Size { width: 256, height: 256 });
}

#[test]
fn zero_area_resize_is_ignored() {
    for size in [
        Size { width: 0, height: 300 },
        Size { width: 300, height: 0 },
        Size { width: 0, height: 0 },
    ] {
        let mut s = State::new(Err(16), WINDOW);
        assert_eq!(s.resize(size), ResizeAction::Ignore);
        assert_eq!(s.window_size, WINDOW);
        assert_eq!(s.target_size, WINDOW);
    }
}

#[test]
fn tile_policy_rebuilds() {
    let mut s = State::new(Err(16), WINDOW);
    let size = Size { width: 1024, height: 768 };
    assert_eq!(s.resize(size), ResizeAction::Rebuild(size));
    assert_eq!(s.window_size, size);
    assert_eq!(s.target_size, size);
    assert_eq!(s.size(), size);
}

#[test]
fn fixed_policy_only_reconfigures() {
    let fixed = Size { width: 256, height: 256 };
    let mut s = State::new(Ok(fixed), WINDOW);
    let size = Size { width: 1024, height: 768 };
    assert_eq!(s.resize(size), ResizeAction::Reconfigure(size));
    assert_eq!(s.window_size, size);
    assert_eq!(s.target_size, fixed);
}

#[test]
fn lost_surface_resizes_again() {
    let mut s = State::new(Err(16), WINDOW);
    assert_eq!(s.recover(SurfaceFailure::Lost), Ok(ResizeAction::Rebuild(WINDOW)));
    assert_eq!(s.recover(SurfaceFailure::Outdated), Ok(ResizeAction::Rebuild(WINDOW)));
}

#[test]
fn other_surface_failures_are_fatal() {
    let mut s = State::new(Err(16), WINDOW);
    assert_eq!(s.recover(SurfaceFailure::Timeout), Err(SurfaceFailure::Timeout));
    assert_eq!(s.recover(SurfaceFailure::OutOfMemory), Err(SurfaceFailure::OutOfMemory));
    assert_eq!(s.window_size, WINDOW);
}
