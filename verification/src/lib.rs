//! Conversion of half-width (hankaku) katakana and ASCII text to its
//! full-width (zenkaku) form.
//!
//! The entry point is [`to_double_byte`]; [`ConvertMode`] selects which
//! character classes are rewritten. A half-width katakana and the voiced
//! mark that follows it become one full-width character.
//!
//! ```
//! use kana_converter::{to_double_byte, AsciiOnly, KanaAndAscii, KanaOnly};
//!
//! assert_eq!(to_double_byte("ｶﾞｲﾄﾞ 1", KanaOnly), "ガイド　1");
//! assert_eq!(to_double_byte("ｶﾞｲﾄﾞ 1", AsciiOnly), "ｶﾞｲﾄﾞ　１");
//! assert_eq!(to_double_byte("ｶﾞｲﾄﾞ 1", KanaAndAscii), "ガイド　１");
//! ```
//!
//! What the conversion computes is defined by [`convert::full_width`]; the
//! module [`laws`] holds what is proved of it.

pub mod classes;
pub mod convert;
pub mod laws;
pub mod mode;
pub mod single;
pub mod std_specs;
pub mod table;

pub use convert::to_double_byte;
pub use mode::ConvertMode;
pub use mode::ConvertMode::{AsciiOnly, KanaAndAscii, KanaOnly};
