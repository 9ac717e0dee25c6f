//! Rotary "knob" controls for an immediate-mode GUI: a value-to-angle
//! mapping, a mouse-drag interaction model, and a library of visual styles
//! built from two primitive drawing operations (circular arcs approximated
//! with cubic Bezier segments, and ticks/dots positioned on a circle).
//!
//! All geometry is carried out in fixed-point arithmetic ([`fixed::Fx`],
//! millionths), so every computation here has an exact, machine-checked
//! contract.  Drawing produces a list of backend-independent draw commands
//! ([`draw::DrawCmd`]); a rendering host replays those commands and feeds
//! pointer state back in as plain values.

pub mod bezier;
pub mod color;
pub mod draw;
pub mod fixed;
pub mod knob;
pub mod layout;
pub mod styles;
pub mod trig;
