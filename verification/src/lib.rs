//! The core of a small arcade shooter: a ship fires bullets of several kinds at
//! asteroids that appear by chance, before a scrolling backdrop, with a menu in
//! front of it all.
//!
//! The library holds the state of the game and decides what happens in each
//! frame. It opens no window, reads no file and plays no sound: it is handed the
//! events of a frame and the time that has passed, and hands back what to draw
//! and what to play.
//!
//! All quantities are whole numbers. Times are in microseconds. Lengths and
//! positions are in micro-pixels, a millionth of a pixel, so that a speed in
//! pixels per second times a time in microseconds is a distance without
//! rounding. The drawing surface is at most 65535 pixels wide and high.

pub mod phi;
pub mod views;
