//! The rendering style of a widget, computed from the terminal width.
use vstd::prelude::*;

verus! {

/// Layout template of the fallback spinner: message, spinner, then a bar that
/// fills the rest of the line.
pub const SPINNER_TEMPLATE: &'static str = "{msg} {spinner} {wide_bar}";

/// Tick characters of the fallback spinner.
pub const SPINNER_TICKS: &'static str = "…  ";

/// How a widget is drawn: for which terminal width, and whether it shows a spinner.
#[derive(Clone, Copy, Debug, PartialEq, Eq, Structural)]
pub struct StyleSpec {
    pub width: u16,
    pub show_spinner: bool,
}

/// The spinner style for a terminal `size` columns wide.
pub open spec fn spinner_style(size: u16) -> StyleSpec {
    StyleSpec { width: size, show_spinner: true }
}

/// Computes the spinner style for a terminal `size` columns wide; the result
/// depends on `size` alone.
pub fn build_style(size: u16) -> (r: StyleSpec)
    ensures
        r == spinner_style(size),
{
    StyleSpec { width: size, show_spinner: true }
}

} // verus!
