//! Decoration negotiation.
//!
//! A window may delegate border drawing to the server through an optional
//! per-surface decoration object. The engine arbitrates between what the
//! application asked for, whether such an object exists, and the mode the
//! server finally reports, and decides whether the client-side frame is
//! drawn.

use vstd::prelude::*;

verus! {

/// Possible decoration modes the application can request for a window.
///
/// The server may override the request; the engine then follows the mode
/// the server reports.
#[derive(Copy, Clone, Debug, PartialEq, Eq, Structural)]
pub enum Decorations {
    /// Request server-side decorations.
    ServerSide,
    /// Force using the client-side frame.
    ClientSide,
    /// Follow the preference of the server.
    FollowServer,
    /// Don't decorate the window.
    Bare,
}

/// A decoration mode reported by the server on the per-surface decoration
/// object.
#[derive(Copy, Clone, Debug, PartialEq, Eq, Structural)]
pub enum DecorationMode {
    /// The server draws the decorations.
    ServerSide,
    /// The client draws the decorations.
    ClientSide,
}

/// A request the engine asks the caller to perform on the per-surface
/// decoration object.
#[derive(Copy, Clone, Debug, PartialEq, Eq, Structural)]
pub enum DecorationRequest {
    /// Ask the server for a decoration mode.
    SetMode(DecorationMode),
    /// Clear the mode preference and let the server decide.
    UnsetMode,
    /// Destroy the decoration object; server-side decorations cannot be
    /// regained afterwards.
    Destroy,
}

/// What one `set_decorate` call does: the new wanted-visible flag, whether
/// the decoration object survives, the visibility to apply to the frame
/// (`None` leaves it unchanged, awaiting a mode event), and the requests
/// to forward.
#[verifier::ext_equal]
pub ghost struct DecorateOutcome {
    /// The recorded wish of the application, kept for later mode events.
    pub decorated: bool,
    /// Whether the decoration object still exists afterwards.
    pub present: bool,
    /// New value for the frame's hidden flag, if it changes now.
    pub hidden: Option<bool>,
    /// Requests to forward to the decoration object, in order.
    pub requests: Seq<DecorationRequest>,
}

/// The decision table of `set_decorate`, keyed by whether a decoration
/// object is present and the requested mode.
pub open spec fn decorate_transition(present: bool, decorate: Decorations) -> DecorateOutcome {
    let decorated = !(decorate is Bare);
    if present {
        match decorate {
            // The application insists on client-side decorations: destroy
            // the decoration object and show the frame.
            Decorations::ClientSide => DecorateOutcome {
                decorated,
                present: false,
                hidden: Option::Some(false),
                requests: seq![DecorationRequest::Destroy],
            },
            // Ask the server to draw; visibility follows the mode event.
            Decorations::ServerSide => DecorateOutcome {
                decorated,
                present: true,
                hidden: Option::None,
                requests: seq![DecorationRequest::SetMode(DecorationMode::ServerSide)],
            },
            // Clear the preference; visibility follows the mode event.
            Decorations::FollowServer => DecorateOutcome {
                decorated,
                present: true,
                hidden: Option::None,
                requests: seq![DecorationRequest::UnsetMode],
            },
            // The object cannot be destroyed and recreated on the fly:
            // fall back to client-side mode with the frame hidden. The
            // server is free to ignore the request.
            Decorations::Bare => DecorateOutcome {
                decorated,
                present: true,
                hidden: Option::Some(true),
                requests: seq![DecorationRequest::SetMode(DecorationMode::ClientSide)],
            },
        }
    } else {
        match decorate {
            // Client-side decorations are the only option: show the frame.
            Decorations::ClientSide | Decorations::ServerSide | Decorations::FollowServer => DecorateOutcome {
                decorated,
                present: false,
                hidden: Option::Some(false),
                requests: Seq::empty(),
            },
            Decorations::Bare => DecorateOutcome {
                decorated,
                present: false,
                hidden: Option::Some(true),
                requests: Seq::empty(),
            },
        }
    }
}

/// The frame visibility that a server mode event imposes: a server-side
/// mode hides the client frame; a client-side mode shows it exactly when
/// the application last asked for decorations.
pub open spec fn mode_transition(decorated: bool, mode: DecorationMode) -> bool {
    match mode {
        DecorationMode::ServerSide => true,
        DecorationMode::ClientSide => !decorated,
    }
}

/// With no decoration manager, the frame stays shown whatever decoration
/// mode the application requests, short of asking for no decorations at
/// all: the requested value is only recorded for later use.
pub proof fn lemma_no_manager_keeps_frame_shown(decorate: Decorations)
    requires
        !(decorate is Bare),
    ensures
        ({
            let o = decorate_transition(false, decorate);
            &&& o.hidden == Option::Some(false)
            &&& !o.present
            &&& o.requests =~= Seq::<DecorationRequest>::empty()
        }),
{
}

/// With a decoration object present, the frame's visibility after a mode
/// event is decided by the mode and by the most recent `set_decorate`
/// call: a server-side mode hides the frame; a client-side mode hides it
/// exactly when the application last asked for no decorations.
pub proof fn lemma_mode_event_visibility(present: bool, decorate: Decorations)
    ensures
        ({
            let o = decorate_transition(present, decorate);
            &&& o.decorated == !(decorate is Bare)
            &&& mode_transition(o.decorated, DecorationMode::ServerSide)
            &&& mode_transition(o.decorated, DecorationMode::ClientSide) == (decorate is Bare)
        }),
{
}

} // verus!
