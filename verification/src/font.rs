//! Font-related value types: oversampling factors, glyph indices and glyph bitmap boxes.
use vstd::prelude::*;

verus! {

/// Oversampling factor used when rendering glyphs.
#[derive(Clone, Copy, PartialEq, Eq, Structural, PartialOrd, Ord, Hash, Debug)]
pub enum Oversample {
    X1,
    X2,
    X3,
    X4,
    X5,
    X6,
    X7,
    X8,
}

/// The factor an oversampling setting stands for.
pub open spec fn oversample_factor(o: Oversample) -> int {
    match o {
        Oversample::X1 => 1,
        Oversample::X2 => 2,
        Oversample::X3 => 3,
        Oversample::X4 => 4,
        Oversample::X5 => 5,
        Oversample::X6 => 6,
        Oversample::X7 => 7,
        Oversample::X8 => 8,
    }
}

impl Oversample {
    /// The oversampling factor as an integer.
    pub fn as_i32(self) -> (res: i32)
        ensures
            res == oversample_factor(self),
            1 <= res <= 8,
    {
        match self {
            Oversample::X1 => 1,
            Oversample::X2 => 2,
            Oversample::X3 => 3,
            Oversample::X4 => 4,
            Oversample::X5 => 5,
            Oversample::X6 => 6,
            Oversample::X7 => 7,
            Oversample::X8 => 8,
        }
    }
}

/// An oversampling setting's factor is its position in the list of settings, counting from one:
/// `X1` stands for 1 and each setting for one more than the setting before it, so different
/// settings stand for different factors.
pub proof fn law_oversample_factor_is_position()
    ensures
        oversample_factor(Oversample::X1) == 1,
        oversample_factor(Oversample::X2) == oversample_factor(Oversample::X1) + 1,
        oversample_factor(Oversample::X3) == oversample_factor(Oversample::X2) + 1,
        oversample_factor(Oversample::X4) == oversample_factor(Oversample::X3) + 1,
        oversample_factor(Oversample::X5) == oversample_factor(Oversample::X4) + 1,
        oversample_factor(Oversample::X6) == oversample_factor(Oversample::X5) + 1,
        oversample_factor(Oversample::X7) == oversample_factor(Oversample::X6) + 1,
        oversample_factor(Oversample::X8) == oversample_factor(Oversample::X7) + 1,
        forall|a: Oversample, b: Oversample|
            oversample_factor(a) == oversample_factor(b) ==> a == b,
{
}

/// The index of a glyph in a font; index `0`, the missing glyph, is not a glyph index.
#[derive(Clone, Copy, PartialEq, Eq, PartialOrd, Ord, Hash, Debug)]
pub struct GlyphIndex {
    index: i32,
}

impl GlyphIndex {
    #[verifier::type_invariant]
    closed spec fn inv(self) -> bool {
        self.index != 0
    }

    /// The glyph index as an integer.
    pub closed spec fn value(self) -> int {
        self.index as int
    }

    /// The glyph index for a raw index, or `None` for `0`.
    pub fn new(index: i32) -> (res: Option<GlyphIndex>)
        ensures
            index == 0 <==> res is None,
            res matches Some(g) ==> g.value() == index,
    {
        if index == 0 {
            None
        } else {
            Some(GlyphIndex { index })
        }
    }

    /// The raw index, never `0`.
    pub fn get(self) -> (res: i32)
        ensures
            res == self.value(),
            res != 0,
    {
        proof {
            use_type_invariant(&self);
        }
        self.index
    }
}

/// A glyph's bitmap box, in pixels relative to the glyph origin, with `+x` right and `+y` down:
/// `(x0, y0)` is the top left corner and `(x1, y1)` the bottom right one.
#[derive(Clone, Copy, PartialEq, Eq, Structural, Debug)]
pub struct GlyphBitmapBox {
    pub x0: i32,
    pub x1: i32,
    pub y0: i32,
    pub y1: i32,
}

/// An index into the list of glyphs touched since the atlas was last updated.
#[derive(Clone, Copy, PartialEq, Eq, Structural, PartialOrd, Ord, Hash, Debug)]
pub struct TouchedGlyphIndex(pub u32);

} // verus!
