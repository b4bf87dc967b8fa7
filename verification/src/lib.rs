//! Display synchronisation for a client of a remote text editor.
//!
//! The editor sends ordered batches of redraw events. This crate keeps the
//! model those events describe (character grids, windows, the highlight
//! table, the active mode) and answers every batch with the commands the
//! embedder has to carry out: toolkit calls and requests back to the editor.
//! Nothing here performs I/O.

pub mod color;
pub mod font;
pub mod geometry;
pub mod mode;
pub mod error;
pub mod grid;
pub mod window;
pub mod event;
pub mod group;
pub mod action;
pub mod model;
pub mod state;
pub mod text;
pub mod laws;
