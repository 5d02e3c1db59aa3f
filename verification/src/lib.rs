//! An interactive board-game viewer core: the coordinate mapping between
//! pixels and board squares, the click-driven selection state machine, the
//! render-composition pipeline that turns board state into an ordered list of
//! draw commands, and the session-mode switch that gates them.
//!
//! Move legality, asset loading, window management and networking are left to
//! external collaborators; this crate only decides what to draw and which
//! requests to hand to those collaborators.

pub mod board;
pub mod composer;
pub mod controller;
pub mod geometry;
pub mod selection;
pub mod session;
pub mod settings;
