//! A binary-coded-decimal LED clock core.
//!
//! The library turns an hours/minutes pair into a 5x5 pixel grid of vertical
//! binary "bar codes" (one digit per column, a blinking colon in the middle
//! column), and decodes the packed-BCD register bytes delivered by a
//! real-time-clock peripheral. Board setup, the two-wire bus transactions and
//! the blocking display driver live outside the library.

pub mod codec;
pub mod render;
