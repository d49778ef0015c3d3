//! A library for building a "powerline" style shell prompt: a theme store of
//! colors and glyphs loaded from a small line-oriented configuration format,
//! and an assembler that collects colored text segments contributed by
//! independent detectors.

pub mod scan;
pub mod segment;
pub mod parse;
pub mod theme;
pub mod virtualenv;
