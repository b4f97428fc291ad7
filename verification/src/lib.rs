//! Core of an interactive two-player chess board.
//!
//! The library turns pointer clicks, already resolved to board squares, into
//! validated chess moves: it owns the selection state machine, the per-turn
//! legal-move index, the logical piece board and the turn order. Everything
//! the host must do on the outside (draw pieces, play sounds, query the move
//! generator) is returned to it as explicit effects, so the whole decision
//! logic is verified here while rendering, audio and the engine stay with the
//! host.

pub mod board;
pub mod game;
pub mod index;
pub mod moves;
pub mod pieces;
pub mod position;
pub mod square;
