//! Core of a retained-layout, immediate-mode UI toolkit.
//!
//! The crate provides a generational memory arena for per-frame scratch
//! storage, stable 64-bit element identifiers, a two-pass flex-style layout
//! engine over integer pixel coordinates, an input state machine driven by
//! the previous frame's hit boxes, and a recording draw surface that collects
//! primitives and hit-test rectangles for an external rasterizer.

pub mod arena;
pub mod bounding_box;
pub mod color;
pub mod draw_api;
pub mod element;
pub mod frame;
pub mod ui;
pub mod image;
pub mod style;
pub mod textedit;
pub mod id;
pub mod interact;
pub mod math;
pub mod oui;
pub mod pattern;
pub mod pixmap;
pub mod rect;
pub mod response;
pub mod spacing;
