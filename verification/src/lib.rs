//! A minimal desktop-application shell: an application object that owns at
//! most one top-level window, two global actions ("quit" and "about"), and a
//! window built from a layout template with two named children.
//!
//! The library models the shell's state and its transitions; a front end
//! drives the event loop and performs the returned effects.

pub mod application;
pub mod config;
pub mod window;
