pub mod chars;
pub mod text;

pub use text::{strip, truncate};
pub mod number;
pub mod process;
pub mod colors;
pub mod string_map;
