//! Client-side toolkit core for windowed applications on a compositor
//! display protocol.
//!
//! The heart of the crate is the window surface configuration and
//! decoration negotiation engine: a state machine that reconciles size and
//! state suggestions arriving from the server, the decoration renderer's
//! border geometry, optional server-side decoration delegation, and the set
//! of pointer-capable input seats.
//!
//! All protocol transport is kept outside: event handlers take plain
//! values describing what the server said and return the requests that the
//! caller must forward to the server, so that every decision the engine
//! makes is stated in a contract and proved.

pub mod compositor;
pub mod decoration;
pub mod event_loop;
pub mod frame;
pub mod global;
pub mod minimal_frame;
pub mod seat;
pub mod shell;
pub mod size;
pub mod title;
pub mod window;
