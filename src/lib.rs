//! A terminal-style cell grid rendered onto pixel surfaces: color
//! resolution, blink timing, cursor shapes, an in-memory framebuffer and the
//! state that ties them together.

pub mod backend;
pub mod blink;
pub mod colors;
pub mod cursor;
pub mod error;
pub mod framebuffer;
pub mod geometry;

pub use backend::{
    BackendConfig, BackendState, BlinkCell, Cell, FontChoice, GlyphDraw, TerminalAlignment,
    WindowSize,
};
pub use blink::{BlinkConfig, BlinkTiming};
pub use colors::{
    BinaryColor, Color, ColorTheme, FromThemedColor, PackedRgb, Rgb, Rgb555, Rgb565, Rgb666,
    TermColor, TermColorType, TriColor, convert_channel, dim_color, dim_u8,
};
pub use cursor::{Cursor, CursorConfig, CursorFill, CursorStyle};
pub use error::{ClearType, Error};
pub use framebuffer::Framebuffer;
pub use geometry::{Point, Position, Rect, Size};
