//! A chess rules engine: it tracks the authoritative state of a game,
//! validates moves, detects check, checkmate and draws, and converts
//! between algebraic notation / FEN text and its internal move and
//! board representations.
#![verifier::loop_isolation(false)]

pub mod board;
pub mod coord;
pub mod fen;
pub mod game;
pub mod laws;
pub mod legality;
pub mod move_parser;
pub mod move_processor;
pub mod movegen;
pub mod notation;
pub mod piece;
pub mod strutil;
pub mod tile;
