//! A small, verified core for driving a single curses window: the eight
//! curses colors and their numbers, color pairs and the table of pairs that
//! is set up when curses starts, cursor visibility and input modes with the
//! numeric codes that curses takes, and the status codes curses returns.

pub mod color;
pub mod terminal;

pub use color::{
    Color, ColorPair, PairInit, color_pair_plan, color_to_i16, fgbg_pairid, i16_to_color,
    pair_init_fits, color_support, start_color_if_supported,
};
pub use terminal::{cartesian_row, to_bool, CursorVisibility, InputMode};

