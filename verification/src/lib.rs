//! The verified core of an on-screen widget that shows live keyboard and mouse
//! input: pressed keys light up key shapes, pressed mouse buttons light up
//! button shapes.
//!
//! The crate holds every decision the widget makes, each with a contract that
//! Verus proves:
//!
//! * [`input`]: the events a global input hook reports, and which of them the
//!   widget listens to;
//! * [`state`]: the keys and buttons that are held down, folded from events;
//! * [`layout`]: the table that places each displayed key on the cell grid;
//! * [`plan`]: the drawing operations of one frame, in order, for a given state;
//! * [`pixel`]: the copy of rendered ARGB words into an RGBA byte surface.
//!
//! Hooking the input, building the vector outlines, rasterising them and
//! presenting the window are left to the program around this library: it feeds
//! events in and carries the drawing operations out.
pub mod input;
pub mod layout;
pub mod pixel;
pub mod plan;
pub mod state;
