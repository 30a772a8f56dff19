//! The decoration renderer interface.
//!
//! A [`Frame`] draws the window borders and title bar when the server does
//! not. The engine never looks inside a renderer; it relies on the
//! abstract view that every renderer exposes: visibility, border geometry,
//! and the state it was last told to display.

use vstd::prelude::*;

use crate::size::MAX_WINDOW_DIM;

verus! {

/// Widest border a renderer may report, in logical pixels. Keeps
/// border-inclusive sizes within the signed 32-bit range of the protocol.
pub const MAX_BORDER: u32 = 0xFFFF;

/// A window state advertised by the server in a configure event.
#[derive(Copy, Clone, Debug, PartialEq, Eq, Structural)]
pub enum State {
    /// The surface is maximized.
    Maximized,
    /// The surface fills an output.
    Fullscreen,
    /// An interactive resize is in progress.
    Resizing,
    /// The surface has keyboard focus.
    Activated,
    /// The surface is tiled against the left edge.
    TiledLeft,
    /// The surface is tiled against the right edge.
    TiledRight,
    /// The surface is tiled against the top edge.
    TiledTop,
    /// The surface is tiled against the bottom edge.
    TiledBottom,
}

/// The abstract state of a decoration renderer.
#[verifier::ext_equal]
pub ghost struct FrameView {
    /// Whether the decorations are currently hidden.
    pub hidden: bool,
    /// Whether the decorations advertise interactive resizing.
    pub resizable: bool,
    /// The content size the decorations were last sized for.
    pub size: (u32, u32),
    /// The states last handed to the renderer.
    pub states: Seq<State>,
    /// The pointer-capable seats the renderer tracks.
    pub seats: Set<u32>,
    /// The displayed title.
    pub title: Seq<char>,
    /// Width added to a content size by the borders.
    pub border_width: u32,
    /// Height added to a content size by the borders.
    pub border_height: u32,
    /// Top-left corner of the borders relative to the content.
    pub location: (i32, i32),
}

/// A renderer view is well formed when its borders are bounded.
pub open spec fn frame_wf(v: FrameView) -> bool {
    v.border_width <= MAX_BORDER && v.border_height <= MAX_BORDER
}

/// Interface for defining the drawing of decorations.
///
/// A type implementing this trait draws the window decorations and
/// translates user interaction with them into [`FrameRequest`](crate::window::FrameRequest)
/// values. Every method states how it changes the renderer's abstract
/// view; in particular, changing the displayed states or the configuration
/// may change the border geometry, and nothing else may.
pub trait Frame: Sized {
    /// Runtime configuration understood by this renderer.
    type Config;

    /// The renderer's abstract state.
    spec fn view(&self) -> FrameView;

    /// Display a new combination of window states.
    ///
    /// Returns true when the decoration appearance changed so that a
    /// redraw is needed even though the geometry may be unchanged.
    fn set_states(&mut self, states: &Vec<State>) -> (need_refresh: bool)
        requires
            frame_wf(old(self).view()),
        ensures
            frame_wf(final(self).view()),
            final(self).view() == (FrameView {
                states: states@,
                border_width: final(self).view().border_width,
                border_height: final(self).view().border_height,
                location: final(self).view().location,
                ..old(self).view()
            }),
    ;

    /// Hide or show the decorations. Showing or hiding may change the
    /// border geometry; nothing else changes.
    fn set_hidden(&mut self, hidden: bool)
        requires
            frame_wf(old(self).view()),
        ensures
            frame_wf(final(self).view()),
            final(self).view() == (FrameView {
                hidden,
                border_width: final(self).view().border_width,
                border_height: final(self).view().border_height,
                location: final(self).view().location,
                ..old(self).view()
            }),
    ;

    /// Set whether interactive resize hints are displayed and reacted to.
    fn set_resizable(&mut self, resizable: bool)
        ensures
            final(self).view() == (FrameView { resizable, ..old(self).view() }),
    ;

    /// Start handling a seat that gained pointer capability.
    fn new_seat(&mut self, seat: u32)
        ensures
            final(self).view() == (FrameView {
                seats: old(self).view().seats.insert(seat),
                ..old(self).view()
            }),
    ;

    /// Stop handling a seat that lost pointer capability or went away.
    fn remove_seat(&mut self, seat: u32)
        ensures
            final(self).view() == (FrameView {
                seats: old(self).view().seats.remove(seat),
                ..old(self).view()
            }),
    ;

    /// Change the content size the decorations are drawn around.
    fn resize(&mut self, newsize: (u32, u32))
        ensures
            final(self).view() == (FrameView { size: newsize, ..old(self).view() }),
    ;

    /// Redraw the decorations from the current view. Changes nothing the
    /// engine can observe.
    fn redraw(&mut self)
        ensures
            final(self).view() == old(self).view(),
    ;

    /// Subtract the border dimensions from a border-inclusive size.
    fn subtract_borders(&self, width: i32, height: i32) -> (r: (i32, i32))
        requires
            frame_wf(self.view()),
            0 <= width,
            0 <= height,
        ensures
            r.0 == width - self.view().border_width,
            r.1 == height - self.view().border_height,
    ;

    /// Add the border dimensions to a content size.
    fn add_borders(&self, width: i32, height: i32) -> (r: (i32, i32))
        requires
            frame_wf(self.view()),
            0 <= width <= MAX_WINDOW_DIM,
            0 <= height <= MAX_WINDOW_DIM,
        ensures
            r.0 == width + self.view().border_width,
            r.1 == height + self.view().border_height,
    ;

    /// Coordinates of the top-left corner of the borders relative to the
    /// content; the values are zero or negative.
    fn location(&self) -> (r: (i32, i32))
        ensures
            r == self.view().location,
    ;

    /// Apply a renderer-specific configuration, which may change the
    /// border geometry and the appearance but nothing the engine reads.
    fn set_config(&mut self, config: Self::Config)
        requires
            frame_wf(old(self).view()),
        ensures
            frame_wf(final(self).view()),
            final(self).view() == (FrameView {
                border_width: final(self).view().border_width,
                border_height: final(self).view().border_height,
                location: final(self).view().location,
                ..old(self).view()
            }),
    ;

    /// Display a new title.
    fn set_title(&mut self, title: String)
        ensures
            final(self).view() == (FrameView { title: title@, ..old(self).view() }),
    ;
}

} // verus!
