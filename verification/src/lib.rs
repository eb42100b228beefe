//! Core model of an on-screen annotation editor: tool objects with geometric
//! invariants, constraint clamping, undo/redo history, text-input resolution,
//! and integer viewport-transform math.

pub mod adaptive;
pub mod clipboard;
pub mod config;
pub mod constraints;
pub mod error;
pub mod geometry;
pub mod model;
pub mod navigation;
pub mod ocr;
pub mod placement;
pub mod session;
pub mod startup;
pub mod state;
pub mod strings;
pub mod style;
pub mod text_input;
pub mod theme;
pub mod tools;
pub mod viewport;

pub use geometry::{Color, ImageBounds, ToolBounds, ToolPoint};
