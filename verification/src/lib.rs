//! Input bridge between a host windowing system and an immediate-mode GUI.
//!
//! The bridge ingests discrete host input events, normalizes them into the
//! GUI's input model, accumulates them in a per-frame pending buffer, and
//! relays the GUI's output requests (clipboard writes, URL opens) back to
//! host-level services.
//!
//! All logical-space quantities (positions, screen rectangles, scroll
//! deltas) and scale factors are fixed-point integers counted in
//! thousandths (milli-units), so a scale factor of `2000` means a ratio of
//! two device pixels per logical point.

pub mod events;
pub mod keymap;
pub mod laws;
pub mod output;
pub mod platform;


