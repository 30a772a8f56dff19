//! Decoration negotiation scenarios.

use sctk::decoration::{DecorationMode, DecorationRequest, Decorations};
use sctk::minimal_frame::MinimalFrame;
use sctk::window::Window;

fn window_with_manager() -> Window<MinimalFrame> {
    let frame = MinimalFrame::new(1, 8);
    let (window, _requests) = Window::new(frame, (100, 100), true, Vec::new());
    window
}

fn window_without_manager() -> Window<MinimalFrame> {
    let frame = MinimalFrame::new(1, 8);
    let (window, _requests) = Window::new(frame, (100, 100), false, Vec::new());
    window
}

#[test]
fn no_manager_frame_shown_at_creation() {
    let w = window_without_manager();
    assert!(!w.frame().hidden());
}

#[test]
fn no_manager_frame_stays_shown() {
    // With no decoration manager the requested mode is only recorded;
    // the frame stays shown for every mode short of no decorations.
    let mut w = window_without_manager();
    assert_eq!(w.set_decorate(Decorations::ServerSide), vec![]);
    assert!(!w.frame().hidden());
    assert_eq!(w.set_decorate(Decorations::FollowServer), vec![]);
    assert!(!w.frame().hidden());
    assert_eq!(w.set_decorate(Decorations::ClientSide), vec![]);
    assert!(!w.frame().hidden());
}

#[test]
fn no_manager_bare_hides_frame() {
    let mut w = window_without_manager();
    assert_eq!(w.set_decorate(Decorations::Bare), vec![]);
    assert!(w.frame().hidden());
    // Any other mode shows it again.
    w.set_decorate(Decorations::FollowServer);
    assert!(!w.frame().hidden());
}

#[test]
fn manager_requests_forwarded() {
    let mut w = window_with_manager();
    assert_eq!(
        w.set_decorate(Decorations::ServerSide),
        vec![DecorationRequest::SetMode(DecorationMode::ServerSide)]
    );
    assert_eq!(
        w.set_decorate(Decorations::FollowServer),
        vec![DecorationRequest::UnsetMode]
    );
}

#[test]
fn manager_bare_requests_client_side_and_hides() {
    let mut w = window_with_manager();
    assert_eq!(
        w.set_decorate(Decorations::Bare),
        vec![DecorationRequest::SetMode(DecorationMode::ClientSide)]
    );
    assert!(w.frame().hidden());
}

#[test]
fn manager_client_side_destroys_decoration() {
    let mut w = window_with_manager();
    assert_eq!(
        w.set_decorate(Decorations::ClientSide),
        vec![DecorationRequest::Destroy]
    );
    assert!(!w.frame().hidden());
    // The decoration object is gone: later requests fall back to the
    // no-manager behaviour and nothing is forwarded.
    assert_eq!(w.set_decorate(Decorations::ServerSide), vec![]);
    assert!(!w.frame().hidden());
}

#[test]
fn server_side_mode_hides_frame() {
    let mut w = window_with_manager();
    w.handle_decoration_mode(DecorationMode::ServerSide);
    assert!(w.frame().hidden());
}

#[test]
fn client_side_mode_follows_decorated_flag() {
    let mut w = window_with_manager();
    // The application asked for decorations (the initial state): a
    // client-side mode shows the frame.
    w.handle_decoration_mode(DecorationMode::ClientSide);
    assert!(!w.frame().hidden());
    // The application asked for no decorations: a client-side mode keeps
    // the frame hidden.
    w.set_decorate(Decorations::Bare);
    w.handle_decoration_mode(DecorationMode::ClientSide);
    assert!(w.frame().hidden());
    // Asking for decorations again and a fresh mode event re-shows it.
    w.set_decorate(Decorations::FollowServer);
    w.handle_decoration_mode(DecorationMode::ClientSide);
    assert!(!w.frame().hidden());
}

#[test]
fn mode_flip_sequence() {
    let mut w = window_with_manager();
    w.handle_decoration_mode(DecorationMode::ServerSide);
    assert!(w.frame().hidden());
    w.handle_decoration_mode(DecorationMode::ClientSide);
    assert!(!w.frame().hidden());
    w.handle_decoration_mode(DecorationMode::ServerSide);
    assert!(w.frame().hidden());
}
