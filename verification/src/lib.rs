//! Platform adapter logic for driving a retained-mode UI engine on a
//! fixed-resolution embedded touchscreen with a cooperative scheduler.
//!
//! The adapter has four responsibilities, each modeled and verified here:
//! translating raw level-based touch readings into edge-triggered pointer
//! events ([`touch`]), driving the per-tick redraw loop in a fixed order
//! ([`tick`]), owning the one fixed-size frame buffer ([`framebuffer`]), and
//! enforcing the process-wide one-shot platform registration ([`registry`]).
//! The unverified shell that talks to the real rendering engine, display
//! hardware, and scheduler performs the actions this library decides on.

pub mod framebuffer;
pub mod registry;
pub mod tick;
pub mod touch;
