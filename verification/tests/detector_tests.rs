use health_notifications::detector::check_fullscreen;
use health_notifications::detector::ForegroundWindow;
use health_notifications::detector::FullscreenQuery;
use health_notifications::detector::Rect;

fn app_window() -> ForegroundWindow {
    ForegroundWindow { valid: true, is_desktop: false, is_shell: false }
}

fn screen() -> Rect {
    Rect { left: 0, top: 0, right: 1920, bottom: 1080 }
}

#[test]
fn exact_match_is_fullscreen() {
    let q = FullscreenQuery::Native {
        window: app_window(),
        window_rect: Some(screen()),
        work_area: Some(screen()),
    };
    assert!(check_fullscreen(&q));
}

#[test]
fn one_pixel_off_is_not_fullscreen() {
    let one_off = [
        Rect { left: 1, ..screen() },
        Rect { top: -1, ..screen() },
        Rect { right: 1919, ..screen() },
        Rect { bottom: 1081, ..screen() },
    ];
    for r in one_off {
        let q = FullscreenQuery::Native {
            window: app_window(),
            window_rect: Some(r),
            work_area: Some(screen()),
        };
        assert!(!check_fullscreen(&q));
    }
}

#[test]
fn desktop_window_is_never_fullscreen() {
    let w = ForegroundWindow { valid: true, is_desktop: true, is_shell: false };
    let q = FullscreenQuery::Native {
        window: w,
        window_rect: Some(screen()),
        work_area: Some(screen()),
    };
    assert!(!check_fullscreen(&q));
}

#[test]
fn shell_window_is_never_fullscreen() {
    let w = ForegroundWindow { valid: true, is_desktop: false, is_shell: true };
    let q = FullscreenQuery::Native {
        window: w,
        window_rect: Some(screen()),
        work_area: Some(screen()),
    };
    assert!(!check_fullscreen(&q));
}

#[test]
fn invalid_handle_is_not_fullscreen() {
    let w = ForegroundWindow { valid: false, is_desktop: false, is_shell: false };
    let q = FullscreenQuery::Native {
        window: w,
        window_rect: Some(screen()),
        work_area: Some(screen()),
    };
    assert!(!check_fullscreen(&q));
}

#[test]
fn failed_rect_queries_are_not_fullscreen() {
    let q = FullscreenQuery::Native {
        window: app_window(),
        window_rect: None,
        work_area: Some(screen()),
    };
    assert!(!check_fullscreen(&q));
    let q2 = FullscreenQuery::Native {
        window: app_window(),
        window_rect: Some(screen()),
        work_area: None,
    };
    assert!(!check_fullscreen(&q2));
}

#[test]
fn unsupported_platform_is_never_fullscreen() {
    assert!(!check_fullscreen(&FullscreenQuery::Unsupported));
}

#[test]
fn negative_coordinates_match_exactly() {
    let r = Rect { left: -1920, top: 0, right: 0, bottom: 1080 };
    let q = FullscreenQuery::Native {
        window: app_window(),
        window_rect: Some(r),
        work_area: Some(r),
    };
    assert!(check_fullscreen(&q));
}
