//! Bit-exact core of a CIECAM02 color pipeline: the 8-bit sRGB input type,
//! its linearization table, and the constants and decisions of the later
//! stages, all held as IEEE 754 binary32 bit patterns and proved against
//! their definitions in exact arithmetic.
#![allow(non_snake_case)]
#![allow(non_camel_case_types)]
#![allow(non_upper_case_globals)]

pub mod binary32;
pub mod cam02;
pub mod consts;
pub mod hue;
pub mod jab;
pub mod ratio;
pub mod rgb;
pub mod transfer;
pub mod utils;

pub use consts::{LCD, SCD, UCS};
pub use jab::JabSpace;
pub use rgb::{sRGB, LinearRGB};
