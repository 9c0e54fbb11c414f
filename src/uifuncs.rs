//! What the stage hands to a renderer: colors, key events, and the drawing
//! interface a renderer offers.
use vstd::prelude::*;

verus! {

/// A foreground or background color.
#[derive(Clone, Copy, Debug, PartialEq, Eq, Structural)]
pub enum RenderColor {
    Black,
    Red,
    Green,
    Yellow,
    Blue,
    Magenta,
    Cyan,
    White,
    Byte(u8, u8, u8),
    Default,
}

/// A key press, as a renderer reports it.
#[allow(non_camel_case_types, clippy::upper_case_acronyms)]
#[derive(Clone, Copy, Debug, PartialEq, Eq, Structural)]
pub enum UIKeyEvent {
    Char(char),
    ESC,
    Enter,
    Up,
    Down,
    Left,
    Right,
    Tab,
    Others,
}

/// A renderer: paints a block of rows at an offset, then shows what was painted.
pub trait UIGraphics {
    fn draw_area(&self, color: &RenderColor, bgcolor: &RenderColor, rect: &Vec<Vec<char>>, offset: Option<(usize, usize)>);

    fn flush(&self);
}

/// Which renderer to start.
#[allow(non_camel_case_types, clippy::upper_case_acronyms)]
#[derive(Clone, Copy, Debug, PartialEq, Eq, Structural)]
pub enum UIFuncsType {
    DEBUG,
    TUI,
}

} // verus!
