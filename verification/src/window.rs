//! The window controller.
//!
//! [`Window`] is the single point of truth reconciling the size and state
//! suggestions of the server with the decoration renderer and the locally
//! remembered size. It owns its [`Frame`] outright; every event handler
//! and every operation returns the requests that the caller must forward
//! to the server, so no handler ever re-enters another.

use vstd::prelude::*;

use crate::decoration::{
    decorate_transition, mode_transition, DecorationMode, DecorationRequest, Decorations,
};
use crate::frame::{frame_wf, Frame, FrameView, State};
use crate::seat::{seat_qualifies, seat_transition, SeatAction, SeatInfo};
use crate::size::{clamp_dimension, floor1, negotiated_size, MAX_WINDOW_DIM};
use crate::title::{truncate_title, truncated_title};

verus! {

/// Default minimum window width. A width of 2 sidesteps degenerate
/// zero-area surfaces that some servers produce for narrower windows.
pub const MIN_WINDOW_WIDTH: u32 = 2;

/// Default minimum window height.
pub const MIN_WINDOW_HEIGHT: u32 = 1;

/// Represents the status of a button drawn by a decoration renderer.
#[derive(Copy, Clone, Debug, PartialEq, Eq, Structural)]
pub enum ButtonState {
    /// Button is being hovered over by pointer.
    Hovered,
    /// Button is not being hovered over by pointer.
    Idle,
    /// Button is disabled.
    Disabled,
}

/// Represents the status of a window.
#[derive(Copy, Clone, Debug, PartialEq, Eq, Structural)]
pub enum WindowState {
    /// The window is active, in the foreground.
    Active,
    /// The window is inactive, in the background.
    Inactive,
}

impl core::convert::From<bool> for WindowState {
    fn from(active: bool) -> (r: WindowState) {
        if active {
            WindowState::Active
        } else {
            WindowState::Inactive
        }
    }
}

impl vstd::std_specs::convert::FromSpecImpl<bool> for WindowState {
    open spec fn obeys_from_spec() -> bool {
        true
    }

    open spec fn from_spec(active: bool) -> WindowState {
        if active {
            WindowState::Active
        } else {
            WindowState::Inactive
        }
    }
}

impl core::convert::From<WindowState> for bool {
    fn from(state: WindowState) -> (r: bool) {
        match state {
            WindowState::Active => true,
            WindowState::Inactive => false,
        }
    }
}

impl vstd::std_specs::convert::FromSpecImpl<WindowState> for bool {
    open spec fn obeys_from_spec() -> bool {
        true
    }

    open spec fn from_spec(state: WindowState) -> bool {
        state is Active
    }
}

/// An edge or corner grabbed for an interactive resize.
#[derive(Copy, Clone, Debug, PartialEq, Eq, Structural)]
pub enum ResizeEdge {
    /// The top edge.
    Top,
    /// The bottom edge.
    Bottom,
    /// The left edge.
    Left,
    /// The top-left corner.
    TopLeft,
    /// The bottom-left corner.
    BottomLeft,
    /// The right edge.
    Right,
    /// The top-right corner.
    TopRight,
    /// The bottom-right corner.
    BottomRight,
}

/// Possible events generated by a window that the application must handle.
#[derive(Clone, Debug, PartialEq, Eq)]
pub enum Event {
    /// The state of the window has been changed.
    Configure {
        /// Optional new content size suggested by the server, borders
        /// already subtracted and the window's size bounds applied. The
        /// application may ignore it and pick another size.
        new_size: Option<(u32, u32)>,
        /// New combination of states of the window.
        states: Vec<State>,
    },
    /// A close request has been received.
    Close,
    /// The decorations need to be refreshed.
    Refresh,
}

/// A request the engine asks the caller to forward to the shell surface.
#[derive(Clone, Debug, PartialEq, Eq)]
pub enum ShellRequest {
    /// Set the border-inclusive minimum size.
    SetMinSize(Option<(i32, i32)>),
    /// Set the border-inclusive maximum size.
    SetMaxSize(Option<(i32, i32)>),
    /// Set the border-inclusive window geometry.
    SetGeometry(i32, i32, i32, i32),
    /// Set the title.
    SetTitle(String),
    /// Set the application id.
    SetAppId(String),
    /// Ask to be maximized.
    SetMaximized,
    /// Ask to be un-maximized.
    UnsetMaximized,
    /// Ask to be minimized.
    SetMinimized,
    /// Ask to fill the given output, or one of the server's choice.
    SetFullscreen(Option<u32>),
    /// Ask to leave fullscreen.
    UnsetFullscreen,
    /// Start an interactive move driven by the given seat and serial.
    Move(u32, u32),
    /// Start an interactive resize at the given edge.
    InteractiveResize(u32, u32, ResizeEdge),
    /// Show the window menu at the given position.
    ShowWindowMenu(u32, u32, i32, i32),
}

/// Request generated by a decoration renderer from user interaction.
#[derive(Copy, Clone, Debug, PartialEq, Eq, Structural)]
pub enum FrameRequest {
    /// The window should be minimized.
    Minimize,
    /// The window should be maximized.
    Maximize,
    /// The window should be unmaximized.
    UnMaximize,
    /// The window should be closed.
    Close,
    /// An interactive move should be started by the given seat.
    Move(u32),
    /// An interactive resize should be started by the given seat.
    Resize(u32, ResizeEdge),
    /// Show the window menu at the given position.
    ShowMenu(u32, i32, i32),
    /// The frame requests to be refreshed.
    Refresh,
}

/// Where a frame request goes: to the server, or to the application.
#[derive(Clone, Debug, PartialEq, Eq)]
pub enum FrameAction {
    /// Forward a request to the shell surface.
    Shell(ShellRequest),
    /// Deliver an event to the application callback.
    User(Event),
}

/// How each frame request is forwarded, paired with the serial of the
/// input event that triggered it.
pub open spec fn frame_request_action(request: FrameRequest, serial: u32) -> FrameAction {
    match request {
        FrameRequest::Minimize => FrameAction::Shell(ShellRequest::SetMinimized),
        FrameRequest::Maximize => FrameAction::Shell(ShellRequest::SetMaximized),
        FrameRequest::UnMaximize => FrameAction::Shell(ShellRequest::UnsetMaximized),
        FrameRequest::Close => FrameAction::User(Event::Close),
        FrameRequest::Move(seat) => FrameAction::Shell(ShellRequest::Move(seat, serial)),
        FrameRequest::Resize(seat, edge) => FrameAction::Shell(
            ShellRequest::InteractiveResize(seat, serial, edge),
        ),
        FrameRequest::ShowMenu(seat, x, y) => FrameAction::Shell(
            ShellRequest::ShowWindowMenu(seat, serial, x, y),
        ),
        FrameRequest::Refresh => FrameAction::User(Event::Refresh),
    }
}

/// Forward one frame request: window management requests go to the shell
/// surface with the triggering serial, close and refresh requests go to
/// the application.
pub fn route_frame_request(request: FrameRequest, serial: u32) -> (action: FrameAction)
    ensures
        action == frame_request_action(request, serial),
{
    match request {
        FrameRequest::Minimize => FrameAction::Shell(ShellRequest::SetMinimized),
        FrameRequest::Maximize => FrameAction::Shell(ShellRequest::SetMaximized),
        FrameRequest::UnMaximize => FrameAction::Shell(ShellRequest::UnsetMaximized),
        FrameRequest::Close => FrameAction::User(Event::Close),
        FrameRequest::Move(seat) => FrameAction::Shell(ShellRequest::Move(seat, serial)),
        FrameRequest::Resize(seat, edge) => FrameAction::Shell(
            ShellRequest::InteractiveResize(seat, serial, edge),
        ),
        FrameRequest::ShowMenu(seat, x, y) => FrameAction::Shell(
            ShellRequest::ShowWindowMenu(seat, serial, x, y),
        ),
        FrameRequest::Refresh => FrameAction::User(Event::Refresh),
    }
}

/// Whether a state constrains the window size: maximized, fullscreen and
/// tiled windows must not restore a remembered floating size.
pub open spec fn is_constrained(s: State) -> bool {
    ||| s is Maximized
    ||| s is Fullscreen
    ||| s is TiledTop
    ||| s is TiledRight
    ||| s is TiledBottom
    ||| s is TiledLeft
}

/// Whether any of the states of a configure event constrains the size.
pub open spec fn any_constrained(states: Seq<State>) -> bool {
    exists|i: int| 0 <= i < states.len() && is_constrained(states[i])
}

/// Whether any of the states of a configure event constrains the size.
fn states_constrained(states: &Vec<State>) -> (r: bool)
    ensures
        r == any_constrained(states@),
{
    let mut i: usize = 0;
    while i < states.len()
        invariant
            0 <= i <= states@.len(),
            forall|j: int| 0 <= j < i ==> !is_constrained(states@[j]),
        decreases states@.len() - i,
    {
        let constrained = match states[i] {
            State::Maximized => true,
            State::Fullscreen => true,
            State::TiledTop => true,
            State::TiledRight => true,
            State::TiledBottom => true,
            State::TiledLeft => true,
            _ => false,
        };
        if constrained {
            assert(is_constrained(states@[i as int]));
            return true;
        }
        i += 1;
    }
    false
}

/// The size-negotiation part of a window's state.
#[verifier::ext_equal]
pub ghost struct SizeState {
    /// Content-size floor applied during negotiation.
    pub min_size: (u32, u32),
    /// Content-size cap applied during negotiation, when set.
    pub max_size: Option<(u32, u32)>,
    /// The current content size.
    pub current_size: (u32, u32),
    /// The content size stashed before entering a constrained state.
    pub old_size: Option<(u32, u32)>,
}

/// One step of the configure negotiation: how a configure event with the
/// given states and optional border-inclusive size suggestion updates the
/// size state, and which content size is announced to the application.
///
/// A suggestion is turned into a content size by subtracting the borders
/// and clamping. Entering a constrained state stashes the current size,
/// at most once per transition into such a state. Leaving constrained
/// states with no suggested size restores the stash; leaving them with a
/// suggested size discards it.
pub open spec fn configure_result(
    st: SizeState,
    border_width: u32,
    border_height: u32,
    states: Seq<State>,
    suggested: Option<(u32, u32)>,
) -> (SizeState, Option<(u32, u32)>) {
    let computed = match suggested {
        Option::Some(s) => Option::Some(
            negotiated_size(s, border_width, border_height, st.min_size, st.max_size),
        ),
        Option::None => Option::None,
    };
    if any_constrained(states) {
        if st.old_size is None {
            (SizeState { old_size: Option::Some(st.current_size), ..st }, computed)
        } else {
            (st, computed)
        }
    } else if computed is None {
        (SizeState { old_size: Option::None, ..st }, st.old_size)
    } else {
        (SizeState { old_size: Option::None, ..st }, computed)
    }
}

/// While a size is stashed, further configure events that carry a
/// constrained state never overwrite the stash, whatever size they
/// suggest: the stash is written at most once per transition into a
/// constrained state.
pub proof fn lemma_constrained_preserves_stash(
    st: SizeState,
    border_width: u32,
    border_height: u32,
    states: Seq<State>,
    suggested: Option<(u32, u32)>,
)
    requires
        st.old_size is Some,
        any_constrained(states),
    ensures
        configure_result(st, border_width, border_height, states, suggested).0 == st,
{
}

/// Stash/restore idempotence: entering a constrained state twice in a row
/// stashes the pre-constraint size only on the first transition, and a
/// later configure event carrying no constrained state and no suggested
/// size restores exactly the size that was current immediately before the
/// first transition, emptying the stash.
pub proof fn lemma_stash_restore_idempotent(
    st: SizeState,
    border_width1: u32,
    border_height1: u32,
    states1: Seq<State>,
    suggested1: Option<(u32, u32)>,
    border_width2: u32,
    border_height2: u32,
    states2: Seq<State>,
    suggested2: Option<(u32, u32)>,
    border_width3: u32,
    border_height3: u32,
    states3: Seq<State>,
)
    requires
        st.old_size is None,
        any_constrained(states1),
        any_constrained(states2),
        !any_constrained(states3),
    ensures
        ({
            let (st1, emitted1) = configure_result(
                st,
                border_width1,
                border_height1,
                states1,
                suggested1,
            );
            let (st2, emitted2) = configure_result(
                st1,
                border_width2,
                border_height2,
                states2,
                suggested2,
            );
            let (st3, emitted3) = configure_result(
                st2,
                border_width3,
                border_height3,
                states3,
                Option::None,
            );
            &&& st1.old_size == Option::Some(st.current_size)
            &&& st2 == st1
            &&& emitted3 == Option::Some(st.current_size)
            &&& st3.old_size is None
        }),
{
}

/// The abstract state of a window.
#[verifier::ext_equal]
pub ghost struct WindowView {
    /// Content-size floor applied during negotiation.
    pub min_size: (u32, u32),
    /// Content-size cap applied during negotiation, when set.
    pub max_size: Option<(u32, u32)>,
    /// The current content size.
    pub current_size: (u32, u32),
    /// The content size stashed before entering a constrained state.
    pub old_size: Option<(u32, u32)>,
    /// Whether the application last asked for visible decorations.
    pub decorated: bool,
    /// Whether a per-surface decoration object exists.
    pub decoration_present: bool,
    /// The decoration renderer's state.
    pub frame: FrameView,
}

impl WindowView {
    /// The size-negotiation part of the view.
    pub open spec fn size_state(self) -> SizeState {
        SizeState {
            min_size: self.min_size,
            max_size: self.max_size,
            current_size: self.current_size,
            old_size: self.old_size,
        }
    }
}

/// A window view is well formed when its sizes are positive where they
/// must be, everything fits the signed 32-bit wire format together with
/// the borders, and the renderer view is well formed.
pub open spec fn window_wf(v: WindowView) -> bool {
    &&& 1 <= v.current_size.0 <= MAX_WINDOW_DIM
    &&& 1 <= v.current_size.1 <= MAX_WINDOW_DIM
    &&& v.min_size.0 <= MAX_WINDOW_DIM
    &&& v.min_size.1 <= MAX_WINDOW_DIM
    &&& match v.max_size {
        Option::Some(m) => m.0 <= MAX_WINDOW_DIM && m.1 <= MAX_WINDOW_DIM,
        Option::None => true,
    }
    &&& match v.old_size {
        Option::Some(s) => 1 <= s.0 <= MAX_WINDOW_DIM && 1 <= s.1 <= MAX_WINDOW_DIM,
        Option::None => true,
    }
    &&& frame_wf(v.frame)
}

/// The seats among a creation-time enumeration that qualify for tracking,
/// looking only at the first `n` entries.
pub open spec fn qualifying_prefix(seats: Seq<SeatInfo>, n: int) -> Set<u32>
    decreases n,
{
    if n <= 0 {
        Set::empty()
    } else {
        let prev = qualifying_prefix(seats, n - 1);
        let s = seats[n - 1];
        if seat_qualifies(s.has_pointer, s.defunct) {
            prev.insert(s.id)
        } else {
            prev
        }
    }
}

/// The seats among a creation-time enumeration that qualify for tracking.
pub open spec fn qualifying_ids(seats: Seq<SeatInfo>) -> Set<u32> {
    qualifying_prefix(seats, seats.len() as int)
}

/// Whether a tracked-seat vector holds an identity.
fn tracked_contains(seats: &Vec<u32>, id: u32) -> (r: bool)
    ensures
        r == seats@.contains(id),
{
    let mut i: usize = 0;
    while i < seats.len()
        invariant
            0 <= i <= seats@.len(),
            forall|j: int| 0 <= j < i ==> seats@[j] != id,
        decreases seats@.len() - i,
    {
        if seats[i] == id {
            return true;
        }
        i += 1;
    }
    false
}

/// A window.
///
/// This controller handles the decoration of the window and the
/// negotiation with the server regarding sizes and states. It owns the
/// decoration renderer; all communication with the server goes through
/// the request values its operations return.
pub struct Window<F: Frame> {
    frame: F,
    decoration_present: bool,
    min_size: (u32, u32),
    max_size: Option<(u32, u32)>,
    current_size: (u32, u32),
    old_size: Option<(u32, u32)>,
    decorated: bool,
    seats: Vec<u32>,
}

impl<F: Frame> View for Window<F> {
    type V = WindowView;

    closed spec fn view(&self) -> WindowView {
        WindowView {
            min_size: self.min_size,
            max_size: self.max_size,
            current_size: self.current_size,
            old_size: self.old_size,
            decorated: self.decorated,
            decoration_present: self.decoration_present,
            frame: self.frame.view(),
        }
    }
}

impl<F: Frame> Window<F> {
    /// The tracked-seat vector mirrors the renderer's seat set.
    pub closed spec fn rep_inv(&self) -> bool {
        &&& self.seats@.no_duplicates()
        &&& self.seats@.to_set() == self.frame.view().seats
    }

    /// The window is well formed: its view is, and so is its
    /// representation.
    pub open spec fn wf(&self) -> bool {
        &&& window_wf(self@)
        &&& self.rep_inv()
    }

    /// Create a window over a freshly initialized decoration renderer.
    ///
    /// `decoration_present` says whether a per-surface decoration object
    /// was created; without one the frame is shown at once, since
    /// client-side decorations are the only option. `seats` is the
    /// creation-time enumeration of known seats; the qualifying ones are
    /// registered with the renderer. The returned requests set the
    /// default border-inclusive minimum size and the initial geometry.
    pub fn new(
        frame: F,
        initial_dims: (u32, u32),
        decoration_present: bool,
        seats: Vec<SeatInfo>,
    ) -> (r: (Window<F>, Vec<ShellRequest>))
        requires
            frame_wf(frame.view()),
            frame.view().seats == Set::<u32>::empty(),
            1 <= initial_dims.0 <= MAX_WINDOW_DIM,
            1 <= initial_dims.1 <= MAX_WINDOW_DIM,
        ensures
            r.0.wf(),
            r.0@ == (WindowView {
                min_size: (MIN_WINDOW_WIDTH, MIN_WINDOW_HEIGHT),
                max_size: Option::None,
                current_size: initial_dims,
                old_size: Option::None,
                decorated: true,
                decoration_present,
                frame: r.0@.frame,
            }),
            r.0@.frame == (FrameView {
                hidden: if decoration_present {
                    frame.view().hidden
                } else {
                    false
                },
                size: initial_dims,
                seats: qualifying_ids(seats@),
                border_width: r.0@.frame.border_width,
                border_height: r.0@.frame.border_height,
                location: r.0@.frame.location,
                ..frame.view()
            }),
            r.1@.len() == 2,
            r.1@[0] == ShellRequest::SetMinSize(
                Option::Some(
                    (
                        (MIN_WINDOW_WIDTH + r.0@.frame.border_width) as i32,
                        (MIN_WINDOW_HEIGHT + r.0@.frame.border_height) as i32,
                    ),
                ),
            ),
            r.1@[1] == ShellRequest::SetGeometry(
                r.0@.frame.location.0,
                r.0@.frame.location.1,
                (initial_dims.0 + r.0@.frame.border_width) as i32,
                (initial_dims.1 + r.0@.frame.border_height) as i32,
            ),
    {
        let mut frame = frame;
        if !decoration_present {
            // No server-side decorations can ever arrive: client-side
            // decorations are used, so the frame must not stay hidden.
            frame.set_hidden(false);
        }
        frame.resize(initial_dims);

        let (min_w, min_h) = frame.add_borders(MIN_WINDOW_WIDTH as i32, MIN_WINDOW_HEIGHT as i32);
        let (geo_w, geo_h) = frame.add_borders(initial_dims.0 as i32, initial_dims.1 as i32);
        let (x, y) = frame.location();
        let mut requests: Vec<ShellRequest> = Vec::new();
        requests.push(ShellRequest::SetMinSize(Option::Some((min_w, min_h))));
        requests.push(ShellRequest::SetGeometry(x, y, geo_w, geo_h));

        let ghost fresh = frame.view();
        let mut tracked_ids: Vec<u32> = Vec::new();
        proof {
            assert(tracked_ids@.to_set() =~= Set::<u32>::empty());
        }
        let mut i: usize = 0;
        while i < seats.len()
            invariant
                0 <= i <= seats@.len(),
                tracked_ids@.no_duplicates(),
                frame.view() == (FrameView { seats: tracked_ids@.to_set(), ..fresh }),
                tracked_ids@.to_set() == qualifying_prefix(seats@, i as int),
                fresh.seats == Set::<u32>::empty(),
                frame_wf(fresh),
            decreases seats@.len() - i,
        {
            let s = seats[i];
            if s.has_pointer && !s.defunct {
                if !tracked_contains(&tracked_ids, s.id) {
                    let ghost old_ids = tracked_ids@;
                    frame.new_seat(s.id);
                    tracked_ids.push(s.id);
                    proof {
                        old_ids.lemma_push_to_set_commute(s.id);
                        assert(tracked_ids@.to_set() == qualifying_prefix(seats@, i + 1));
                        assert(tracked_ids@.no_duplicates()) by {
                            assert(forall|k: int|
                                0 <= k < old_ids.len() ==> old_ids[k] != s.id);
                        }
                    }
                } else {
                    proof {
                        assert(qualifying_prefix(seats@, i + 1) =~= qualifying_prefix(
                            seats@,
                            i as int,
                        ));
                    }
                }
            } else {
                proof {
                    assert(qualifying_prefix(seats@, i + 1) == qualifying_prefix(
                        seats@,
                        i as int,
                    ));
                }
            }
            i += 1;
        }

        let window = Window {
            frame,
            decoration_present,
            min_size: (MIN_WINDOW_WIDTH, MIN_WINDOW_HEIGHT),
            max_size: Option::None,
            current_size: initial_dims,
            old_size: Option::None,
            decorated: true,
            seats: tracked_ids,
        };
        (window, requests)
    }

    /// Resize the decorations.
    ///
    /// The application calls this whenever it changes the size of its
    /// window contents, with the new content size. Each dimension is
    /// floored at 1. The returned request updates the border-inclusive
    /// geometry on the server. A `refresh` is needed afterwards for the
    /// change to take effect on screen.
    pub fn resize(&mut self, width: u32, height: u32) -> (requests: Vec<ShellRequest>)
        requires
            old(self).wf(),
            width <= MAX_WINDOW_DIM,
            height <= MAX_WINDOW_DIM,
        ensures
            final(self).wf(),
            final(self)@ == (WindowView {
                current_size: (floor1(width), floor1(height)),
                frame: (FrameView {
                    size: (floor1(width), floor1(height)),
                    ..old(self)@.frame
                }),
                ..old(self)@
            }),
            requests@.len() == 1,
            requests@[0] == ShellRequest::SetGeometry(
                old(self)@.frame.location.0,
                old(self)@.frame.location.1,
                (floor1(width) + old(self)@.frame.border_width) as i32,
                (floor1(height) + old(self)@.frame.border_height) as i32,
            ),
    {
        let w = if width >= 1 {
            width
        } else {
            1
        };
        let h = if height >= 1 {
            height
        } else {
            1
        };
        self.current_size = (w, h);
        self.frame.resize((w, h));
        let (geo_w, geo_h) = self.frame.add_borders(w as i32, h as i32);
        let (x, y) = self.frame.location();
        let mut requests: Vec<ShellRequest> = Vec::new();
        requests.push(ShellRequest::SetGeometry(x, y, geo_w, geo_h));
        requests
    }

    /// Apply one configure event from the shell surface.
    ///
    /// The states are handed to the renderer first, since a state change
    /// may change the border geometry that the size computation needs.
    /// The suggested size, when present, is turned into a content size by
    /// subtracting the borders and clamping to the window's size bounds;
    /// the stash of the pre-constraint size is updated as
    /// [`configure_result`] says. The returned events are for the
    /// application callback, in order: a refresh event first when the
    /// decoration appearance changed, then the configure event carrying
    /// the negotiated size.
    pub fn handle_configure(
        &mut self,
        states: Vec<State>,
        suggested_size: Option<(u32, u32)>,
    ) -> (events: Vec<Event>)
        requires
            old(self).wf(),
            suggested_size matches Some(s) ==> s.0 as int <= i32::MAX as int && s.1 as int
                <= i32::MAX as int,
        ensures
            final(self).wf(),
            ({
                let (new_st, emitted) = configure_result(
                    old(self)@.size_state(),
                    final(self)@.frame.border_width,
                    final(self)@.frame.border_height,
                    states@,
                    suggested_size,
                );
                &&& final(self)@.size_state() == new_st
                &&& final(self)@ == (WindowView {
                    old_size: new_st.old_size,
                    frame: (FrameView {
                        states: states@,
                        border_width: final(self)@.frame.border_width,
                        border_height: final(self)@.frame.border_height,
                        location: final(self)@.frame.location,
                        ..old(self)@.frame
                    }),
                    ..old(self)@
                })
                &&& 1 <= events@.len() <= 2
                &&& events@.last() == (Event::Configure { new_size: emitted, states })
                &&& (events@.len() == 2 ==> events@[0] == Event::Refresh)
            }),
    {
        // Populate frame changes first: the new states may change the
        // border geometry that the size computation must account for.
        let need_refresh = self.frame.set_states(&states);

        let computed: Option<(u32, u32)> = match suggested_size {
            Option::Some((w, h)) => {
                let (cw, ch) = self.frame.subtract_borders(w as i32, h as i32);
                let max_w: Option<u32> = match self.max_size {
                    Option::Some(m) => Option::Some(m.0),
                    Option::None => Option::None,
                };
                let max_h: Option<u32> = match self.max_size {
                    Option::Some(m) => Option::Some(m.1),
                    Option::None => Option::None,
                };
                let rw = clamp_dimension(cw, self.min_size.0, max_w);
                let rh = clamp_dimension(ch, self.min_size.1, max_h);
                Option::Some((rw, rh))
            },
            Option::None => Option::None,
        };

        let mut emitted = computed;
        if states_constrained(&states) {
            if self.old_size.is_none() {
                // Entering a maximized/fullscreen/tiled state: remember
                // the size to restore once the constraint is lifted.
                self.old_size = Option::Some(self.current_size);
            }
        } else if emitted.is_none() {
            // Leaving constrained states with no suggested size: restore
            // the remembered size, if any.
            emitted = self.old_size;
            self.old_size = Option::None;
        } else {
            // Unconstrained and given an explicit size: any older stash
            // is no longer meaningful.
            self.old_size = Option::None;
        }

        let mut events: Vec<Event> = Vec::new();
        if need_refresh {
            events.push(Event::Refresh);
        }
        events.push(Event::Configure { new_size: emitted, states });
        events
    }

    /// Set whether the window should be decorated or not.
    ///
    /// The wanted-visible flag is recorded in every case, so that a later
    /// client-side mode event can re-show or keep hidden the frame. The
    /// rest follows the decision table of
    /// [`decorate_transition`]: with a decoration object present the
    /// server is asked, or the object is destroyed; without one the frame
    /// is simply shown or hidden. The returned requests are for the
    /// decoration object, and a `refresh` is needed afterwards.
    pub fn set_decorate(&mut self, decorate: Decorations) -> (requests: Vec<DecorationRequest>)
        requires
            old(self).wf(),
        ensures
            final(self).wf(),
            ({
                let o = decorate_transition(old(self)@.decoration_present, decorate);
                &&& final(self)@ == (WindowView {
                    decorated: o.decorated,
                    decoration_present: o.present,
                    frame: (FrameView {
                        hidden: match o.hidden {
                            Option::Some(h) => h,
                            Option::None => old(self)@.frame.hidden,
                        },
                        border_width: final(self)@.frame.border_width,
                        border_height: final(self)@.frame.border_height,
                        location: final(self)@.frame.location,
                        ..old(self)@.frame
                    }),
                    ..old(self)@
                })
                &&& requests@ == o.requests
            }),
    {
        self.decorated = match decorate {
            Decorations::Bare => false,
            _ => true,
        };

        let mut requests: Vec<DecorationRequest> = Vec::new();
        if self.decoration_present {
            match decorate {
                Decorations::ClientSide => {
                    // The application insists on client-side decorations:
                    // destroy the decoration object, show the frame.
                    requests.push(DecorationRequest::Destroy);
                    self.decoration_present = false;
                    self.frame.set_hidden(false);
                },
                Decorations::ServerSide => {
                    requests.push(DecorationRequest::SetMode(DecorationMode::ServerSide));
                },
                Decorations::FollowServer => {
                    requests.push(DecorationRequest::UnsetMode);
                },
                Decorations::Bare => {
                    // The object cannot be destroyed and recreated on the
                    // fly: ask for client-side mode and hide the frame
                    // locally. The server is free to ignore the request.
                    requests.push(DecorationRequest::SetMode(DecorationMode::ClientSide));
                    self.frame.set_hidden(true);
                },
            }
        } else {
            match decorate {
                Decorations::ClientSide | Decorations::ServerSide | Decorations::FollowServer => {
                    // Client-side decorations are the only option left.
                    self.frame.set_hidden(false);
                },
                Decorations::Bare => {
                    self.frame.set_hidden(true);
                },
            }
        }
        proof {
            let o = decorate_transition(old(self)@.decoration_present, decorate);
            assert(requests@ =~= o.requests);
        }
        requests
    }

    /// Apply a decoration mode reported by the server: a server-side mode
    /// hides the client frame, a client-side mode shows it exactly when
    /// the application last asked for decorations. A `refresh` is needed
    /// afterwards.
    pub fn handle_decoration_mode(&mut self, mode: DecorationMode)
        requires
            old(self).wf(),
        ensures
            final(self).wf(),
            final(self)@ == (WindowView {
                frame: (FrameView {
                    hidden: mode_transition(old(self)@.decorated, mode),
                    border_width: final(self)@.frame.border_width,
                    border_height: final(self)@.frame.border_height,
                    location: final(self)@.frame.location,
                    ..old(self)@.frame
                }),
                ..old(self)@
            }),
    {
        match mode {
            DecorationMode::ServerSide => {
                self.frame.set_hidden(true);
            },
            DecorationMode::ClientSide => {
                let want_decorate = self.decorated;
                self.frame.set_hidden(!want_decorate);
            },
        }
    }

    /// Apply one seat capability-change notification.
    ///
    /// A seat that newly has pointer capability and is not defunct is
    /// registered with the renderer and tracked; a tracked seat that
    /// stopped qualifying is removed. Duplicate registration and
    /// duplicate removal are no-ops, as [`seat_transition`] says.
    pub fn handle_seat_update(&mut self, id: u32, has_pointer: bool, defunct: bool) -> (action:
        SeatAction)
        requires
            old(self).wf(),
        ensures
            final(self).wf(),
            ({
                let (new_seats, a) = seat_transition(
                    old(self)@.frame.seats,
                    id,
                    has_pointer,
                    defunct,
                );
                &&& action == a
                &&& final(self)@ == (WindowView {
                    frame: (FrameView { seats: new_seats, ..old(self)@.frame }),
                    ..old(self)@
                })
            }),
    {
        let known = tracked_contains(&self.seats, id);
        if !known && has_pointer && !defunct {
            let ghost old_ids = self.seats@;
            self.frame.new_seat(id);
            self.seats.push(id);
            proof {
                old_ids.lemma_push_to_set_commute(id);
                assert(self.seats@.no_duplicates()) by {
                    assert(forall|k: int| 0 <= k < old_ids.len() ==> old_ids[k] != id);
                }
            }
            SeatAction::Added
        } else if known && (!has_pointer || defunct) {
            self.frame.remove_seat(id);
            let index = self.find_seat(id);
            let ghost old_ids = self.seats@;
            self.seats.remove(index);
            proof {
                crate::seat::lemma_remove_unique(old_ids, index as int, id);
            }
            SeatAction::Removed
        } else {
            SeatAction::Unchanged
        }
    }

    /// Set a short title for the window.
    ///
    /// The title is cut to at most
    /// [`MAX_TITLE_BYTES`](crate::title::MAX_TITLE_BYTES) bytes at a
    /// character boundary, displayed by the renderer, and returned as a
    /// request for the shell surface. A `refresh` is needed afterwards.
    pub fn set_title(&mut self, title: String) -> (request: ShellRequest)
        requires
            old(self).wf(),
        ensures
            final(self).wf(),
            final(self)@ == (WindowView {
                frame: (FrameView { title: truncated_title(title@), ..old(self)@.frame }),
                ..old(self)@
            }),
            request matches ShellRequest::SetTitle(t) && t@ == truncated_title(title@),
    {
        let truncated = truncate_title(title.as_str());
        let for_frame = truncated.clone();
        self.frame.set_title(for_frame);
        ShellRequest::SetTitle(truncated)
    }

    /// Set an app id for the surface, forwarded verbatim.
    pub fn set_app_id(&self, app_id: String) -> (request: ShellRequest)
        ensures
            request == ShellRequest::SetAppId(app_id),
    {
        ShellRequest::SetAppId(app_id)
    }

    /// Set whether the window should be resizable by the user.
    ///
    /// Disabling locks both the minimum and the maximum border-inclusive
    /// size to the current size; re-enabling restores the recorded
    /// bounds.
    pub fn set_resizable(&mut self, resizable: bool) -> (requests: Vec<ShellRequest>)
        requires
            old(self).wf(),
        ensures
            final(self).wf(),
            final(self)@ == (WindowView {
                frame: (FrameView { resizable, ..old(self)@.frame }),
                ..old(self)@
            }),
            requests@.len() == 2,
            requests@[0] == (if resizable {
                ShellRequest::SetMinSize(
                    Option::Some(
                        (
                            (old(self)@.min_size.0 + old(self)@.frame.border_width) as i32,
                            (old(self)@.min_size.1 + old(self)@.frame.border_height) as i32,
                        ),
                    ),
                )
            } else {
                ShellRequest::SetMinSize(
                    Option::Some(
                        (
                            (old(self)@.current_size.0 + old(self)@.frame.border_width) as i32,
                            (old(self)@.current_size.1 + old(self)@.frame.border_height) as i32,
                        ),
                    ),
                )
            }),
            requests@[1] == (if resizable {
                ShellRequest::SetMaxSize(
                    match old(self)@.max_size {
                        Option::Some(m) => Option::Some(
                            (
                                (m.0 + old(self)@.frame.border_width) as i32,
                                (m.1 + old(self)@.frame.border_height) as i32,
                            ),
                        ),
                        Option::None => Option::None,
                    },
                )
            } else {
                ShellRequest::SetMaxSize(
                    Option::Some(
                        (
                            (old(self)@.current_size.0 + old(self)@.frame.border_width) as i32,
                            (old(self)@.current_size.1 + old(self)@.frame.border_height) as i32,
                        ),
                    ),
                )
            }),
    {
        self.frame.set_resizable(resizable);
        let mut requests: Vec<ShellRequest> = Vec::new();
        if resizable {
            // Restore the recorded bounds.
            let (min_w, min_h) = self.frame.add_borders(
                self.min_size.0 as i32,
                self.min_size.1 as i32,
            );
            requests.push(ShellRequest::SetMinSize(Option::Some((min_w, min_h))));
            match self.max_size {
                Option::Some(m) => {
                    let (max_w, max_h) = self.frame.add_borders(m.0 as i32, m.1 as i32);
                    requests.push(ShellRequest::SetMaxSize(Option::Some((max_w, max_h))));
                },
                Option::None => {
                    requests.push(ShellRequest::SetMaxSize(Option::None));
                },
            }
        } else {
            // Lock both bounds to the current size.
            let (w, h) = self.frame.add_borders(
                self.current_size.0 as i32,
                self.current_size.1 as i32,
            );
            requests.push(ShellRequest::SetMinSize(Option::Some((w, h))));
            requests.push(ShellRequest::SetMaxSize(Option::Some((w, h))));
        }
        requests
    }

    /// Set the minimum possible content size for this window, or clear it
    /// back to the default floor. The request carries the border-inclusive
    /// size.
    pub fn set_min_size(&mut self, size: Option<(u32, u32)>) -> (request: ShellRequest)
        requires
            old(self).wf(),
            size matches Some(s) ==> s.0 <= MAX_WINDOW_DIM && s.1 <= MAX_WINDOW_DIM,
        ensures
            final(self).wf(),
            final(self)@ == (WindowView {
                min_size: match size {
                    Option::Some(s) => s,
                    Option::None => (MIN_WINDOW_WIDTH, MIN_WINDOW_HEIGHT),
                },
                ..old(self)@
            }),
            request == ShellRequest::SetMinSize(
                Option::Some(
                    (
                        (final(self)@.min_size.0 + old(self)@.frame.border_width) as i32,
                        (final(self)@.min_size.1 + old(self)@.frame.border_height) as i32,
                    ),
                ),
            ),
    {
        let (w, h) = match size {
            Option::Some(s) => s,
            Option::None => (MIN_WINDOW_WIDTH, MIN_WINDOW_HEIGHT),
        };
        let (req_w, req_h) = self.frame.add_borders(w as i32, h as i32);
        self.min_size = (w, h);
        ShellRequest::SetMinSize(Option::Some((req_w, req_h)))
    }

    /// Set the maximum possible content size for this window, or clear
    /// it. The request carries the border-inclusive size.
    pub fn set_max_size(&mut self, size: Option<(u32, u32)>) -> (request: ShellRequest)
        requires
            old(self).wf(),
            size matches Some(s) ==> s.0 <= MAX_WINDOW_DIM && s.1 <= MAX_WINDOW_DIM,
        ensures
            final(self).wf(),
            final(self)@ == (WindowView { max_size: size, ..old(self)@ }),
            request == ShellRequest::SetMaxSize(
                match size {
                    Option::Some(s) => Option::Some(
                        (
                            (s.0 + old(self)@.frame.border_width) as i32,
                            (s.1 + old(self)@.frame.border_height) as i32,
                        ),
                    ),
                    Option::None => Option::None,
                },
            ),
    {
        let request = match size {
            Option::Some(s) => {
                let (req_w, req_h) = self.frame.add_borders(s.0 as i32, s.1 as i32);
                ShellRequest::SetMaxSize(Option::Some((req_w, req_h)))
            },
            Option::None => ShellRequest::SetMaxSize(Option::None),
        };
        self.max_size = size;
        request
    }

    /// Request the window to be maximized; the outcome arrives later as a
    /// configure event.
    pub fn set_maximized(&self) -> (request: ShellRequest)
        ensures
            request == ShellRequest::SetMaximized,
    {
        ShellRequest::SetMaximized
    }

    /// Request the window to be un-maximized.
    pub fn unset_maximized(&self) -> (request: ShellRequest)
        ensures
            request == ShellRequest::UnsetMaximized,
    {
        ShellRequest::UnsetMaximized
    }

    /// Request the window to be minimized.
    pub fn set_minimized(&self) -> (request: ShellRequest)
        ensures
            request == ShellRequest::SetMinimized,
    {
        ShellRequest::SetMinimized
    }

    /// Request the window to fill the given output, or one of the
    /// server's choice.
    pub fn set_fullscreen(&self, output: Option<u32>) -> (request: ShellRequest)
        ensures
            request == ShellRequest::SetFullscreen(output),
    {
        ShellRequest::SetFullscreen(output)
    }

    /// Request the window to leave fullscreen mode.
    pub fn unset_fullscreen(&self) -> (request: ShellRequest)
        ensures
            request == ShellRequest::UnsetFullscreen,
    {
        ShellRequest::UnsetFullscreen
    }

    /// Start an interactive, user-driven move of the surface. The serial
    /// must come from the input event that triggered the move; the server
    /// rejects stale serials.
    pub fn start_interactive_move(&self, seat: u32, serial: u32) -> (request: ShellRequest)
        ensures
            request == ShellRequest::Move(seat, serial),
    {
        ShellRequest::Move(seat, serial)
    }

    /// Redraw the decorations to match the current state. Needed after
    /// every change to the dimensions or state of the decorations; does
    /// not talk to the server.
    pub fn refresh(&mut self)
        requires
            old(self).wf(),
        ensures
            final(self).wf(),
            final(self)@ == old(self)@,
    {
        self.frame.redraw();
    }

    /// Set the renderer configuration for the window.
    pub fn set_frame_config(&mut self, config: F::Config)
        requires
            old(self).wf(),
        ensures
            final(self).wf(),
            final(self)@ == (WindowView {
                frame: (FrameView {
                    border_width: final(self)@.frame.border_width,
                    border_height: final(self)@.frame.border_height,
                    location: final(self)@.frame.location,
                    ..old(self)@.frame
                }),
                ..old(self)@
            }),
    {
        self.frame.set_config(config);
    }

    /// The current content size.
    pub fn current_size(&self) -> (r: (u32, u32))
        ensures
            r == self@.current_size,
    {
        self.current_size
    }

    /// Read-only access to the decoration renderer.
    pub fn frame(&self) -> (r: &F)
        ensures
            r.view() == self@.frame,
    {
        &self.frame
    }

    /// The position of a tracked seat identity.
    fn find_seat(&self, id: u32) -> (index: usize)
        requires
            self.seats@.contains(id),
        ensures
            0 <= index < self.seats@.len(),
            self.seats@[index as int] == id,
    {
        let mut i: usize = 0;
        while i < self.seats.len()
            invariant
                0 <= i <= self.seats@.len(),
                self.seats@.contains(id),
                forall|j: int| 0 <= j < i ==> self.seats@[j] != id,
            decreases self.seats@.len() - i,
        {
            if self.seats[i] == id {
                return i;
            }
            i += 1;
        }
        proof {
            assert(false);
        }
        0
    }

}

} // verus!
