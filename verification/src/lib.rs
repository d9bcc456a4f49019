//! Verified core of a terminal client for ArtifactsMMO: game-state model,
//! notification and REST payload decoding, state transitions and the pure
//! text and layout computations behind the user interface.

pub mod text;
pub mod json;
pub mod color;
pub mod game;
pub mod apply;
pub mod action;
pub mod notify;
pub mod state;
pub mod tiles;
pub mod history;
pub mod named;
pub mod keys;
pub mod images;
pub mod session;
pub mod ui;
pub mod rest;
pub mod ws;
pub mod bot;
