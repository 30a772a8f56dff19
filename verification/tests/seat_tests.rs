//! Seat tracking scenarios.

use sctk::minimal_frame::MinimalFrame;
use sctk::seat::SeatAction;
use sctk::window::Window;

fn window() -> Window<MinimalFrame> {
    let frame = MinimalFrame::new(0, 0);
    let (window, _requests) = Window::new(frame, (100, 100), false, Vec::new());
    window
}

#[test]
fn seat_convergence() {
    // Gain pointer, lose pointer, gain pointer: the seat ends up tracked,
    // was registered with the frame exactly twice and removed exactly
    // once.
    let mut w = window();
    assert_eq!(w.handle_seat_update(7, true, false), SeatAction::Added);
    assert_eq!(w.handle_seat_update(7, false, false), SeatAction::Removed);
    assert_eq!(w.handle_seat_update(7, true, false), SeatAction::Added);
    assert_eq!(w.frame().seat_count(), 1);
    assert_eq!(w.frame().seat_registrations(), 2);
    assert_eq!(w.frame().seat_removals(), 1);
}

#[test]
fn duplicate_registration_is_noop() {
    let mut w = window();
    assert_eq!(w.handle_seat_update(3, true, false), SeatAction::Added);
    assert_eq!(w.handle_seat_update(3, true, false), SeatAction::Unchanged);
    assert_eq!(w.frame().seat_count(), 1);
    assert_eq!(w.frame().seat_registrations(), 1);
}

#[test]
fn duplicate_removal_is_noop() {
    let mut w = window();
    assert_eq!(w.handle_seat_update(3, true, false), SeatAction::Added);
    assert_eq!(w.handle_seat_update(3, false, false), SeatAction::Removed);
    assert_eq!(w.handle_seat_update(3, false, false), SeatAction::Unchanged);
    assert_eq!(w.frame().seat_count(), 0);
    assert_eq!(w.frame().seat_removals(), 1);
}

#[test]
fn defunct_seat_is_removed() {
    let mut w = window();
    assert_eq!(w.handle_seat_update(9, true, false), SeatAction::Added);
    // The seat still reports a pointer but went defunct.
    assert_eq!(w.handle_seat_update(9, true, true), SeatAction::Removed);
    assert_eq!(w.frame().seat_count(), 0);
}

#[test]
fn pointerless_seat_never_tracked() {
    let mut w = window();
    assert_eq!(w.handle_seat_update(5, false, false), SeatAction::Unchanged);
    assert_eq!(w.handle_seat_update(5, true, true), SeatAction::Unchanged);
    assert_eq!(w.frame().seat_count(), 0);
    assert_eq!(w.frame().seat_registrations(), 0);
}

#[test]
fn independent_seats_tracked_separately() {
    let mut w = window();
    assert_eq!(w.handle_seat_update(1, true, false), SeatAction::Added);
    assert_eq!(w.handle_seat_update(2, true, false), SeatAction::Added);
    assert_eq!(w.handle_seat_update(1, false, false), SeatAction::Removed);
    assert_eq!(w.frame().seat_count(), 1);
}
