//! Dash-charge gameplay logic for a small 2D prototype: a player can
//! perform a short speed-boosting dash, limited by a pool of charges that
//! regenerate over time, and each dash leaves transient fading "ghost"
//! echoes behind. The per-frame decisions live here as plain functions of
//! state and elapsed time; an engine binary drives them from its frame
//! loop and does the rendering and input polling around them.

pub mod player;
pub mod timer;
pub mod trail;
