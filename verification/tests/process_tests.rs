use neovide_tabs::geometry::{calculate_target_rect, needs_move, HostGeometry, Rect, CONTENT_INSET};
use neovide_tabs::process::{
    find_neovide_window_by_pid, NeovideProcess, DiscoveryPoll, SpawnError, WindowDiscovery,
    WindowInfo, DISCOVERY_MAX_ATTEMPTS,
};

fn host() -> HostGeometry {
    HostGeometry {
        client: Rect { left: 0, top: 0, right: 1280, bottom: 720 },
        origin_x: 100,
        origin_y: 50,
    }
}

fn window(hwnd: u64, title: &str, class: &str, pid: u32) -> WindowInfo {
    WindowInfo {
        hwnd,
        title: title.to_string(),
        class_name: class.to_string(),
        process_id: pid,
        rect: Rect { left: 0, top: 0, right: 100, bottom: 100 },
        visible: true,
    }
}

#[test]
fn test_calculate_target_rect_exact() {
    let h = host();
    let r = calculate_target_rect(&h, 32);
    assert_eq!(r.left, 0 + CONTENT_INSET + 100);
    assert_eq!(r.top, 0 + 32 + CONTENT_INSET + 50);
    assert_eq!(r.right - r.left, 1280 - 2 * CONTENT_INSET);
    assert_eq!(r.bottom - r.top, 720 - 32 - 2 * CONTENT_INSET);
}

#[test]
fn test_needs_move() {
    let a = Rect { left: 1, top: 2, right: 3, bottom: 4 };
    let b = Rect { left: 1, top: 2, right: 3, bottom: 5 };
    assert!(!needs_move(&a, &a));
    assert!(needs_move(&a, &b));
}

#[test]
fn test_spawned_supervisor_state() {
    let p = NeovideProcess::new_spawned();
    assert!(p.is_running());
    assert!(!p.is_ready());
    assert_eq!(p.window_handle(), None);
    assert_eq!(p.window_rect(), None);
    assert_eq!(p.get_window_title(), "");
    // No window discovered yet: graceful close is unavailable
    assert!(!p.request_close());
}

#[test]
fn test_terminate_is_idempotent() {
    let mut p = NeovideProcess::new_spawned();
    p.terminate();
    assert!(!p.is_running());
    p.terminate();
    assert!(!p.is_running());
}

#[test]
fn test_liveness_observation() {
    let mut p = NeovideProcess::new_spawned();
    p.note_liveness(true);
    assert!(p.is_running());
    p.note_liveness(false);
    assert!(!p.is_running());
}

#[test]
fn test_window_matching_is_exact() {
    let windows = vec![
        window(1, "Neovide - extra", "Window Class", 42),
        window(2, "Neovide", "Other Class", 42),
        window(3, "Neovide", "Window Class", 41),
        window(4, "Neovide", "Window Class", 42),
        window(5, "Neovide", "Window Class", 42),
    ];
    // Exact title, exact class, matching process id; first match wins.
    assert_eq!(find_neovide_window_by_pid(&windows, 42), Some(3));
    assert_eq!(find_neovide_window_by_pid(&windows, 7), None);
    assert_eq!(find_neovide_window_by_pid(&Vec::new(), 42), None);
}

#[test]
fn test_discovery_finds_window_after_37_attempts() {
    // Discovery finds a window on the 37th poll: readiness flips on and
    // the window's rectangle is exactly the planned one.
    let h = host();
    let mut p = NeovideProcess::new_spawned();
    let mut discovery = WindowDiscovery::new();
    let mut outcome = DiscoveryPoll::Searching;
    for attempt in 0..37 {
        let scan = if attempt == 36 { Some(0x1234) } else { None };
        outcome = discovery.record_poll(scan);
        match outcome {
            DiscoveryPoll::Found(hwnd) => {
                p.note_window_discovered(hwnd, &h, 32);
            }
            DiscoveryPoll::Searching => {
                assert!(!p.is_ready());
            }
            DiscoveryPoll::TimedOut => {
                panic!("discovery gave up early");
            }
        }
    }
    assert_eq!(outcome, DiscoveryPoll::Found(0x1234));
    assert_eq!(discovery.attempts, 37);
    assert!(p.is_ready());
    assert_eq!(p.window_handle(), Some(0x1234));
    assert_eq!(p.window_rect(), Some(calculate_target_rect(&h, 32)));
    assert!(p.request_close());
}

#[test]
fn test_discovery_times_out_after_budget() {
    let mut discovery = WindowDiscovery::new();
    for _ in 0..(DISCOVERY_MAX_ATTEMPTS - 1) {
        assert_eq!(discovery.record_poll(None), DiscoveryPoll::Searching);
    }
    assert_eq!(discovery.record_poll(None), DiscoveryPoll::TimedOut);
    assert_eq!(discovery.attempts, DISCOVERY_MAX_ATTEMPTS);
}

#[test]
fn test_update_position_is_idempotent() {
    let h = host();
    let mut p = NeovideProcess::new_spawned();
    // Without a window nothing can move.
    assert!(!p.update_position(&h, 32));

    p.note_window_discovered(0x77, &h, 32);
    // Discovery already placed the window: no move under unchanged
    // geometry.
    assert!(!p.update_position(&h, 32));

    // The host moved: the first update issues a move, the second does
    // not.
    let h2 = HostGeometry { origin_x: 400, ..h };
    assert!(p.update_position(&h2, 32));
    assert!(!p.update_position(&h2, 32));
    assert_eq!(p.window_rect(), Some(calculate_target_rect(&h2, 32)));
}

#[test]
fn test_show_conceal_and_activate() {
    let h = host();
    let mut p = NeovideProcess::new_spawned();
    // Without a window these are no-ops.
    p.show();
    p.conceal();
    p.activate(&h, 32);
    assert!(!p.is_ready());

    p.note_window_discovered(0x99, &h, 32);
    p.conceal();
    assert!(!p.window.as_ref().unwrap().visible);
    p.show();
    assert!(p.window.as_ref().unwrap().visible);
    p.conceal();
    let h2 = HostGeometry { origin_y: 500, ..h };
    p.activate(&h2, 32);
    assert!(p.window.as_ref().unwrap().visible);
    assert_eq!(p.window_rect(), Some(calculate_target_rect(&h2, 32)));
}

#[test]
fn test_window_rect_observation_resyncs() {
    let h = host();
    let mut p = NeovideProcess::new_spawned();
    p.note_window_discovered(0x55, &h, 32);
    // An outside tool moved the child; the host observes the new
    // rectangle, and the next position pass moves it back.
    p.note_window_rect(Rect { left: 5, top: 5, right: 50, bottom: 50 });
    assert!(p.update_position(&h, 32));
    assert!(!p.update_position(&h, 32));
}

#[test]
fn test_spawn_error_messages() {
    assert_eq!(
        SpawnError::ExecutableNotFound.message(),
        "content program not found in PATH"
    );
    assert_eq!(
        SpawnError::LaunchFailed.message(),
        "failed to launch the content process"
    );
}
