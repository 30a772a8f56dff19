//! Tests of the supporting pieces: title truncation, frame request
//! routing, size clamping, scale factors, pump decisions and global
//! bookkeeping.

use sctk::compositor::apply_scale_factors;
use sctk::frame::State;
use sctk::shell::{states_from_bytes, suggested_size};
use sctk::event_loop::{dispatch_decision, error_is_fatal, IoErrorKind, PumpAction};
use sctk::global::{NoEventGlobal, RequestGlobal};
use sctk::size::clamp_dimension;
use sctk::title::truncate_title;
use sctk::window::{
    route_frame_request, Event, FrameAction, FrameRequest, ResizeEdge, ShellRequest, WindowState,
};

#[test]
fn short_title_unchanged() {
    assert_eq!(truncate_title("hello"), "hello");
    assert_eq!(truncate_title(""), "");
}

#[test]
fn exact_limit_title_unchanged() {
    let title: String = "a".repeat(1024);
    assert_eq!(truncate_title(&title), title);
}

#[test]
fn long_ascii_title_cut_at_limit() {
    let title: String = "a".repeat(3000);
    let cut = truncate_title(&title);
    assert_eq!(cut.len(), 1024);
    assert_eq!(cut, "a".repeat(1024));
}

#[test]
fn multibyte_unit_never_split() {
    // 1023 ASCII bytes followed by a two-byte character: the character
    // straddles the limit and must go entirely.
    let mut title: String = "a".repeat(1023);
    title.push('\u{e9}');
    title.push_str("xyz");
    let cut = truncate_title(&title);
    assert_eq!(cut, "a".repeat(1023));

    // 1022 ASCII bytes followed by the same character: it fits.
    let mut title: String = "a".repeat(1022);
    title.push('\u{e9}');
    title.push_str("xyz");
    let cut = truncate_title(&title);
    let mut expected: String = "a".repeat(1022);
    expected.push('\u{e9}');
    assert_eq!(cut, expected);
}

#[test]
fn frame_requests_route() {
    assert_eq!(
        route_frame_request(FrameRequest::Minimize, 1),
        FrameAction::Shell(ShellRequest::SetMinimized)
    );
    assert_eq!(
        route_frame_request(FrameRequest::Maximize, 2),
        FrameAction::Shell(ShellRequest::SetMaximized)
    );
    assert_eq!(
        route_frame_request(FrameRequest::UnMaximize, 3),
        FrameAction::Shell(ShellRequest::UnsetMaximized)
    );
    assert_eq!(
        route_frame_request(FrameRequest::Close, 4),
        FrameAction::User(Event::Close)
    );
    assert_eq!(
        route_frame_request(FrameRequest::Refresh, 5),
        FrameAction::User(Event::Refresh)
    );
    assert_eq!(
        route_frame_request(FrameRequest::Move(8), 100),
        FrameAction::Shell(ShellRequest::Move(8, 100))
    );
    assert_eq!(
        route_frame_request(FrameRequest::Resize(8, ResizeEdge::BottomRight), 101),
        FrameAction::Shell(ShellRequest::InteractiveResize(8, 101, ResizeEdge::BottomRight))
    );
    assert_eq!(
        route_frame_request(FrameRequest::ShowMenu(8, 30, 40), 102),
        FrameAction::Shell(ShellRequest::ShowWindowMenu(8, 102, 30, 40))
    );
}

#[test]
fn clamping_formula() {
    // Raised to the floor, capped, floored at one.
    assert_eq!(clamp_dimension(500, 100, Some(1000)), 500);
    assert_eq!(clamp_dimension(50, 100, Some(1000)), 100);
    assert_eq!(clamp_dimension(5000, 100, Some(1000)), 1000);
    assert_eq!(clamp_dimension(-20, 0, None), 1);
    assert_eq!(clamp_dimension(0, 0, Some(0)), 1);
    assert_eq!(clamp_dimension(7, 0, None), 7);
}

#[test]
fn scale_factor_updates() {
    assert_eq!(apply_scale_factors(1, &vec![1, 2, 3]), (3, true));
    assert_eq!(apply_scale_factors(3, &vec![3, 2]), (3, false));
    // Leaving the last output keeps the factor, silently.
    assert_eq!(apply_scale_factors(2, &vec![]), (2, false));
}

#[test]
fn pump_decisions() {
    assert_eq!(dispatch_decision(Ok(0)), PumpAction::Stop);
    assert_eq!(dispatch_decision(Ok(12)), PumpAction::Again);
    assert_eq!(dispatch_decision(Err(IoErrorKind::Other)), PumpAction::Fail);
    assert!(!error_is_fatal(IoErrorKind::WouldBlock));
    assert!(error_is_fatal(IoErrorKind::Other));
}

#[test]
fn window_state_from_bool() {
    assert_eq!(WindowState::from(true), WindowState::Active);
    assert_eq!(WindowState::from(false), WindowState::Inactive);
    assert!(bool::from(WindowState::Active));
    assert!(!bool::from(WindowState::Inactive));
}

#[test]
fn no_event_global_binds_once() {
    let mut global: NoEventGlobal<u32> = NoEventGlobal::new(1..4);
    assert_eq!(global.version(), 1..4);
    assert!(global.get().is_none());
    assert!(!global.destroyed());

    global.new_global(10, 111);
    assert_eq!(global.get(), Some(111));

    // A second advertisement while the first is alive is ignored.
    global.new_global(11, 222);
    assert_eq!(global.get(), Some(111));
}

#[test]
fn no_event_global_ignores_unknown_removal() {
    let mut global: NoEventGlobal<u32> = NoEventGlobal::new(1..2);
    global.new_global(10, 111);
    // The container never recorded a name for its global, so removals do
    // not match and the binding stays.
    global.remove_global(10);
    assert_eq!(global.get(), Some(111));
    assert!(!global.destroyed());
}

#[test]
fn states_decode_little_endian() {
    // Maximized (1) then Activated (4).
    let bytes = vec![1, 0, 0, 0, 4, 0, 0, 0];
    assert_eq!(
        states_from_bytes(&bytes),
        vec![State::Maximized, State::Activated]
    );
    // An unknown code from a newer server is skipped.
    let bytes = vec![9, 0, 0, 0, 2, 0, 0, 0];
    assert_eq!(states_from_bytes(&bytes), vec![State::Fullscreen]);
    // A trailing fragment is ignored.
    let bytes = vec![5, 0, 0, 0, 6, 0];
    assert_eq!(states_from_bytes(&bytes), vec![State::TiledLeft]);
    assert_eq!(states_from_bytes(&vec![]), vec![]);
}

#[test]
fn suggested_size_zero_means_none() {
    assert_eq!(suggested_size(0, 0), None);
    assert_eq!(suggested_size(800, 0), None);
    assert_eq!(suggested_size(0, 600), None);
    assert_eq!(suggested_size(-1, 600), None);
    assert_eq!(suggested_size(800, 600), Some((800, 600)));
}
