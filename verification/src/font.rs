//! Fonts as the model sees them: a name and the measured extent of a cell.

use vstd::prelude::*;

verus! {

/// A font together with what the embedder measured for it. Lengths are
/// whole numbers in one unit of the embedder's choice (pixels, or a fixed
/// fraction of a pixel); the model only adds, multiplies and compares them.
#[derive(Debug, PartialEq, Eq)]
pub struct Font {
    pub name: String,
    /// The font's size, in the embedder's unit.
    pub size: u32,
    /// The advance of one character.
    pub cell_width: u32,
    /// Ascent plus descent of one line, before line spacing.
    pub cell_height: u32,
}

impl Clone for Font {
    fn clone(&self) -> (font: Font)
        ensures
            font == *self,
    {
        Font {
            name: self.name.clone(),
            size: self.size,
            cell_width: self.cell_width,
            cell_height: self.cell_height,
        }
    }
}

impl Font {
    /// The width of a cell drawn in this font: the character advance, and at
    /// least one unit.
    pub open spec fn spec_cell_width(&self) -> u32 {
        if self.cell_width < 1 {
            1
        } else {
            self.cell_width
        }
    }

    /// The height of a cell drawn in this font under `line_space`: line
    /// height plus spacing, kept within `1..=u32::MAX`.
    pub open spec fn spec_cell_height(&self, line_space: i64) -> u32 {
        let h = self.cell_height as int + line_space as int;
        if h < 1 {
            1
        } else if h > u32::MAX as int {
            u32::MAX
        } else {
            h as u32
        }
    }

    #[verifier::when_used_as_spec(spec_cell_width)]
    pub fn cell_width(&self) -> (w: u32)
        ensures
            w == self.spec_cell_width(),
            w >= 1,
    {
        if self.cell_width < 1 {
            1
        } else {
            self.cell_width
        }
    }

    #[verifier::when_used_as_spec(spec_cell_height)]
    pub fn cell_height(&self, line_space: i64) -> (h: u32)
        ensures
            h == self.spec_cell_height(line_space),
            h >= 1,
    {
        let h: i128 = self.cell_height as i128 + line_space as i128;
        if h < 1 {
            1
        } else if h > u32::MAX as i128 {
            u32::MAX
        } else {
            h as u32
        }
    }
}

/// What the next flush has to apply: the font and the line spacing that the
/// option events since the last flush asked for.
#[derive(Debug, PartialEq, Eq)]
pub struct ResizeOptions {
    pub font: Font,
    pub line_space: i64,
}

} // verus!
