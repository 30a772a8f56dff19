//! End-to-end scenarios for the window controller.

use sctk::frame::State;
use sctk::minimal_frame::MinimalFrame;
use sctk::seat::SeatInfo;
use sctk::window::{Event, ShellRequest, Window};

fn borderless_window(w: u32, h: u32) -> Window<MinimalFrame> {
    let frame = MinimalFrame::new(0, 0);
    let (window, _requests) = Window::new(frame, (w, h), false, Vec::new());
    window
}

#[test]
fn resize_clamps_to_floor_one() {
    let mut w = borderless_window(800, 600);
    w.resize(0, 0);
    assert_eq!(w.current_size(), (1, 1));
    w.resize(0, 5);
    assert_eq!(w.current_size(), (1, 5));
    w.resize(1024, 768);
    assert_eq!(w.current_size(), (1024, 768));
}

#[test]
fn resize_reports_geometry() {
    let frame = MinimalFrame::new(2, 10);
    let (mut w, requests) = Window::new(frame, (800, 600), false, Vec::new());
    // Shown frame: edge 2 on all sides, header 10 above.
    assert_eq!(
        requests,
        vec![
            ShellRequest::SetMinSize(Some((6, 15))),
            ShellRequest::SetGeometry(-2, -12, 804, 614),
        ]
    );
    let geometry = w.resize(1024, 768);
    assert_eq!(geometry, vec![ShellRequest::SetGeometry(-2, -12, 1028, 782)]);
}

#[test]
fn configure_suggestion_is_delivered() {
    // Window created with min size unset: the default floor applies.
    let mut w = borderless_window(640, 480);
    let events = w.handle_configure(Vec::new(), Some((800, 600)));
    assert_eq!(
        events,
        vec![Event::Configure { new_size: Some((800, 600)), states: vec![] }]
    );
    // The application accepts the size.
    w.resize(800, 600);
    w.refresh();
    assert_eq!(w.frame().size(), (800, 600));
    assert_eq!(w.frame().redraws(), 1);
}

#[test]
fn configure_clamps_to_bounds() {
    let mut w = borderless_window(640, 480);
    w.set_min_size(Some((400, 300)));
    w.set_max_size(Some((1600, 900)));
    let events = w.handle_configure(Vec::new(), Some((2000, 1000)));
    assert_eq!(
        events,
        vec![Event::Configure { new_size: Some((1600, 900)), states: vec![] }]
    );
    let events = w.handle_configure(Vec::new(), Some((100, 100)));
    assert_eq!(
        events,
        vec![Event::Configure { new_size: Some((400, 300)), states: vec![] }]
    );
}

#[test]
fn maximize_stashes_and_restores() {
    let mut w = borderless_window(800, 600);
    let events = w.handle_configure(vec![State::Maximized], Some((1920, 1080)));
    // The displayed states changed, so the renderer asks for a refresh
    // before the configure event.
    assert_eq!(
        events,
        vec![
            Event::Refresh,
            Event::Configure {
                new_size: Some((1920, 1080)),
                states: vec![State::Maximized],
            },
        ]
    );
    // The application honors the maximize.
    w.resize(1920, 1080);
    // Un-maximize with no suggested size: the pre-maximize size returns.
    let events = w.handle_configure(Vec::new(), None);
    assert_eq!(
        events,
        vec![
            Event::Refresh,
            Event::Configure { new_size: Some((800, 600)), states: vec![] },
        ]
    );
}

#[test]
fn second_maximized_configure_does_not_restash() {
    let mut w = borderless_window(800, 600);
    w.handle_configure(vec![State::Maximized], Some((1920, 1080)));
    w.resize(1920, 1080);
    // A second maximized configure must not overwrite the stash with the
    // maximized size.
    w.handle_configure(vec![State::Maximized], Some((1920, 1080)));
    let events = w.handle_configure(Vec::new(), None);
    assert_eq!(
        events,
        vec![
            Event::Refresh,
            Event::Configure { new_size: Some((800, 600)), states: vec![] },
        ]
    );
}

#[test]
fn explicit_size_discards_stash() {
    let mut w = borderless_window(800, 600);
    w.handle_configure(vec![State::Fullscreen], Some((1920, 1080)));
    // An unconstrained configure that carries a size drops the stash.
    let events = w.handle_configure(Vec::new(), Some((1000, 700)));
    assert_eq!(
        events,
        vec![
            Event::Refresh,
            Event::Configure { new_size: Some((1000, 700)), states: vec![] },
        ]
    );
    // With the stash gone, a size-less configure changes nothing.
    let events = w.handle_configure(Vec::new(), None);
    assert_eq!(
        events,
        vec![Event::Configure { new_size: None, states: vec![] }]
    );
}

#[test]
fn restore_without_stash_is_noop() {
    let mut w = borderless_window(300, 200);
    let events = w.handle_configure(Vec::new(), None);
    assert_eq!(
        events,
        vec![Event::Configure { new_size: None, states: vec![] }]
    );
}

#[test]
fn tiled_states_stash_like_maximized() {
    let mut w = borderless_window(500, 400);
    w.handle_configure(vec![State::TiledLeft], Some((960, 1080)));
    let events = w.handle_configure(Vec::new(), None);
    assert_eq!(
        events,
        vec![
            Event::Refresh,
            Event::Configure { new_size: Some((500, 400)), states: vec![] },
        ]
    );
}

#[test]
fn state_change_prepends_refresh() {
    let mut w = borderless_window(800, 600);
    // The renderer's displayed states change: it asks for a refresh
    // before the configure event.
    let events = w.handle_configure(vec![State::Activated], None);
    assert_eq!(
        events,
        vec![
            Event::Refresh,
            Event::Configure { new_size: None, states: vec![State::Activated] },
        ]
    );
}

#[test]
fn min_max_size_requests_include_borders() {
    let frame = MinimalFrame::new(2, 10);
    let (mut w, _requests) = Window::new(frame, (800, 600), false, Vec::new());
    let request = w.set_min_size(Some((400, 300)));
    assert_eq!(request, ShellRequest::SetMinSize(Some((404, 314))));
    let request = w.set_min_size(None);
    // Cleared back to the default floor of 2x1 content pixels.
    assert_eq!(request, ShellRequest::SetMinSize(Some((6, 15))));
    let request = w.set_max_size(Some((1600, 900)));
    assert_eq!(request, ShellRequest::SetMaxSize(Some((1604, 914))));
    let request = w.set_max_size(None);
    assert_eq!(request, ShellRequest::SetMaxSize(None));
}

#[test]
fn disabling_resizable_locks_bounds_to_current_size() {
    let mut w = borderless_window(800, 600);
    w.set_min_size(Some((400, 300)));
    w.set_max_size(Some((1600, 900)));
    let requests = w.set_resizable(false);
    assert_eq!(
        requests,
        vec![
            ShellRequest::SetMinSize(Some((800, 600))),
            ShellRequest::SetMaxSize(Some((800, 600))),
        ]
    );
    // Re-enabling restores the recorded bounds.
    let requests = w.set_resizable(true);
    assert_eq!(
        requests,
        vec![
            ShellRequest::SetMinSize(Some((400, 300))),
            ShellRequest::SetMaxSize(Some((1600, 900))),
        ]
    );
}

#[test]
fn simple_requests_forward() {
    let w = borderless_window(100, 100);
    assert_eq!(w.set_maximized(), ShellRequest::SetMaximized);
    assert_eq!(w.unset_maximized(), ShellRequest::UnsetMaximized);
    assert_eq!(w.set_minimized(), ShellRequest::SetMinimized);
    assert_eq!(w.set_fullscreen(Some(3)), ShellRequest::SetFullscreen(Some(3)));
    assert_eq!(w.set_fullscreen(None), ShellRequest::SetFullscreen(None));
    assert_eq!(w.unset_fullscreen(), ShellRequest::UnsetFullscreen);
    assert_eq!(w.start_interactive_move(4, 77), ShellRequest::Move(4, 77));
    assert_eq!(
        w.set_app_id(String::from("org.example.viewer")),
        ShellRequest::SetAppId(String::from("org.example.viewer"))
    );
}

#[test]
fn initial_seats_are_filtered_and_deduplicated() {
    let frame = MinimalFrame::new(0, 0);
    let seats = vec![
        SeatInfo { id: 1, has_pointer: true, defunct: false },
        SeatInfo { id: 2, has_pointer: false, defunct: false },
        SeatInfo { id: 3, has_pointer: true, defunct: true },
        SeatInfo { id: 1, has_pointer: true, defunct: false },
    ];
    let (w, _requests) = Window::new(frame, (100, 100), false, seats);
    assert_eq!(w.frame().seat_count(), 1);
    assert_eq!(w.frame().seat_registrations(), 1);
}

#[test]
fn set_title_truncates_before_forwarding() {
    let mut w = borderless_window(100, 100);
    let request = w.set_title("hello".to_string());
    assert_eq!(request, ShellRequest::SetTitle("hello".to_string()));
    // An overlong title is cut at a character boundary.
    let mut long: String = "x".repeat(1023);
    long.push('\u{e9}');
    let request = w.set_title(long);
    assert_eq!(request, ShellRequest::SetTitle("x".repeat(1023)));
}
