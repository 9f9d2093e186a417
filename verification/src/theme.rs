//! The color palette, as plain RGB values. The host turns these into its
//! terminal colors.

use vstd::prelude::*;

use crate::render::LineKind;

verus! {

/// A color as red, green and blue components.
#[derive(Clone, Copy, PartialEq, Eq, Structural, Debug)]
pub struct Rgb {
    pub red: u8,
    pub green: u8,
    pub blue: u8,
}

/// The palette.
pub struct Theme;

impl Theme {
    /// Teal, the primary accent.
    pub fn primary() -> (c: Rgb)
        ensures
            c == (Rgb { red: 165, green: 200, blue: 158 }),
    {
        Rgb { red: 165, green: 200, blue: 158 }
    }

    /// Coral, the secondary accent.
    pub fn secondary() -> (c: Rgb)
        ensures
            c == (Rgb { red: 255, green: 140, blue: 105 }),
    {
        Rgb { red: 255, green: 140, blue: 105 }
    }

    /// Bright teal, for highlights.
    pub fn highlight() -> (c: Rgb)
        ensures
            c == (Rgb { red: 100, green: 230, blue: 210 }),
    {
        Rgb { red: 100, green: 230, blue: 210 }
    }

    /// Soft purple, a text accent.
    pub fn accent() -> (c: Rgb)
        ensures
            c == (Rgb { red: 180, green: 150, blue: 220 }),
    {
        Rgb { red: 180, green: 150, blue: 220 }
    }

    /// Deep teal variant.
    pub fn primary_dark() -> (c: Rgb)
        ensures
            c == (Rgb { red: 60, green: 160, blue: 140 }),
    {
        Rgb { red: 60, green: 160, blue: 140 }
    }

    /// Deep charcoal background.
    pub fn background() -> (c: Rgb)
        ensures
            c == (Rgb { red: 18, green: 18, blue: 18 }),
    {
        Rgb { red: 18, green: 18, blue: 18 }
    }

    /// Warm white foreground.
    pub fn foreground() -> (c: Rgb)
        ensures
            c == (Rgb { red: 240, green: 235, blue: 225 }),
    {
        Rgb { red: 240, green: 235, blue: 225 }
    }

    /// Desaturated, muted text.
    pub fn muted() -> (c: Rgb)
        ensures
            c == (Rgb { red: 150, green: 130, blue: 110 }),
    {
        Rgb { red: 150, green: 130, blue: 110 }
    }

    /// Teal, for success.
    pub fn success() -> (c: Rgb)
        ensures
            c == (Rgb { red: 80, green: 200, blue: 180 }),
    {
        Rgb { red: 80, green: 200, blue: 180 }
    }

    /// Warm amber, for warnings.
    pub fn warning() -> (c: Rgb)
        ensures
            c == (Rgb { red: 255, green: 180, blue: 90 }),
    {
        Rgb { red: 255, green: 180, blue: 90 }
    }

    /// Soft red, for errors.
    pub fn error() -> (c: Rgb)
        ensures
            c == (Rgb { red: 235, green: 100, blue: 85 }),
    {
        Rgb { red: 235, green: 100, blue: 85 }
    }

    /// The color a line of each kind is rendered with.
    pub open spec fn color_of_spec(kind: LineKind) -> Rgb {
        match kind {
            LineKind::Normal => Rgb { red: 240, green: 235, blue: 225 },
            LineKind::Primary => Rgb { red: 165, green: 200, blue: 158 },
            LineKind::Secondary => Rgb { red: 255, green: 140, blue: 105 },
            LineKind::Muted => Rgb { red: 150, green: 130, blue: 110 },
            LineKind::Error => Rgb { red: 235, green: 100, blue: 85 },
            LineKind::Warning => Rgb { red: 255, green: 180, blue: 90 },
            LineKind::Success => Rgb { red: 80, green: 200, blue: 180 },
            LineKind::Heading => Rgb { red: 255, green: 140, blue: 105 },
            LineKind::Prompt => Rgb { red: 255, green: 140, blue: 105 },
        }
    }

    /// Map a line kind to its color.
    pub fn color_of(kind: LineKind) -> (c: Rgb)
        ensures
            c == Self::color_of_spec(kind),
    {
        match kind {
            LineKind::Normal => Self::foreground(),
            LineKind::Primary => Self::primary(),
            LineKind::Secondary => Self::secondary(),
            LineKind::Muted => Self::muted(),
            LineKind::Error => Self::error(),
            LineKind::Warning => Self::warning(),
            LineKind::Success => Self::success(),
            LineKind::Heading => Self::secondary(),
            LineKind::Prompt => Self::secondary(),
        }
    }
}

} // verus!
