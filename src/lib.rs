//! A terminal music player's core: a circular selection over a catalog of
//! tracks and a playback controller that decides, on every tick, what the
//! audio sink plays next.
pub mod controls;
pub mod player;
pub mod selection;
