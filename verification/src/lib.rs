//! Core of a two-player tic-tac-toe game driven by a host event loop.
//!
//! The crate is split into four layers, leaves first:
//! - [`geometry`]: pure whole-pixel mappings between the host viewport and the
//!   logical board square;
//! - [`game`]: the 3x3 board, turn alternation and win/draw evaluation;
//! - [`state`]: the application state an event loop owns, with the pointer
//!   click resolver and the resize adapter;
//! - [`render`]: composition of board state and geometry into a list of
//!   drawing commands for an immediate-mode backend.
//!
//! All coordinates are whole pixels (`u32`); the host shell is expected to
//! truncate the backend's fractional coordinates before calling in.

pub mod game;
pub mod geometry;
pub mod render;
pub mod state;
