//! Widths that a window's column can be asked to take.

use vstd::prelude::*;

verus! {

/// Width of a column.
///
/// Turning a width into pixels is the layout's business. Here a width is only carried from the
/// window rules to the moment the window is mapped.
#[derive(Debug, Clone, Copy, PartialEq, Eq)]
pub enum ColumnWidth {
    /// Proportion of the view width, held as the bit pattern of a double.
    Proportion(u64),
    /// One of the proportion presets, by its index.
    Preset(usize),
    /// Fixed width in logical pixels.
    Fixed(i32),
}

} // verus!
