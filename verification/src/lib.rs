//! A shared bouncing-sprite scene for many terminal sessions.
//!
//! Every session has a render target of its own size and an animation state
//! of its own; one registry holds them all. The library decides how the
//! sprite moves and reflects, which sprite variant is shown, where each pixel
//! is drawn, and how a connection's events change the registry. Transport,
//! terminal output and image decoding stay with the caller.
//!
//! Lengths are counted in half cells throughout: the integer `n` stands for
//! `n / 2` cells, so that every speed and every squashed sprite row is exact.

pub mod app;
pub mod chance;
pub mod geometry;
pub mod player;
pub mod registry;
pub mod server;
pub mod sink;
pub mod sprite;
