//! Focus-following crop and zoom: a viewport animator that eases a crop
//! rectangle toward the window that currently has focus.
//!
//! All normalized quantities are fixed-point integers in units of
//! `1 / SCALE`; times are whole microseconds.
pub mod easing;
pub mod geometry;
pub mod animator;
pub mod settings;
pub mod channel;
pub mod filter;
