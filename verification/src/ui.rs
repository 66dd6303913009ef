//! Typed values for the foreign runtime's plain-integer UI arguments:
//! screen orientation, text alignment and bitmap mirroring flags, each
//! with its exact integer encoding and decoding.

#![allow(non_camel_case_types)]

use vstd::prelude::*;

verus! {

/// Screen orientation as the foreign runtime numbers it.
#[derive(Debug, Copy, Clone, PartialEq, Eq, Structural)]
pub enum Orientation {
    Portrait,
    Landscape90,
    Landscape270,
    Portrait180,
    Auto,
}

/// The integer the foreign runtime uses for each orientation.
pub open spec fn orientation_code_spec(o: Orientation) -> int {
    match o {
        Orientation::Portrait => 0,
        Orientation::Landscape90 => 1,
        Orientation::Landscape270 => 2,
        Orientation::Portrait180 => 3,
        Orientation::Auto => -1,
    }
}

/// The orientation a raw integer decodes to, `None` for an unmapped value.
pub open spec fn decoded_orientation(raw: int) -> Option<Orientation> {
    if raw == 0 {
        Some(Orientation::Portrait)
    } else if raw == 1 {
        Some(Orientation::Landscape90)
    } else if raw == 2 {
        Some(Orientation::Landscape270)
    } else if raw == 3 {
        Some(Orientation::Portrait180)
    } else if raw == -1 {
        Some(Orientation::Auto)
    } else {
        None
    }
}

impl Orientation {
    /// The integer handed to the foreign runtime for this orientation.
    pub fn code(&self) -> (c: i32)
        ensures
            c as int == orientation_code_spec(*self),
    {
        match *self {
            Orientation::Portrait => 0,
            Orientation::Landscape90 => 1,
            Orientation::Landscape270 => 2,
            Orientation::Portrait180 => 3,
            Orientation::Auto => -1,
        }
    }

    /// Decodes the integer the foreign runtime reports into a typed
    /// orientation, `None` for an unmapped value.
    pub fn from_code(raw: i32) -> (r: Option<Orientation>)
        ensures
            r == decoded_orientation(raw as int),
    {
        if raw == 0 {
            Some(Orientation::Portrait)
        } else if raw == 1 {
            Some(Orientation::Landscape90)
        } else if raw == 2 {
            Some(Orientation::Landscape270)
        } else if raw == 3 {
            Some(Orientation::Portrait180)
        } else if raw == -1 {
            Some(Orientation::Auto)
        } else {
            None
        }
    }
}

/// Text alignment flags for the foreign text-drawing primitives; each is
/// a distinct bit of the flags argument.
#[derive(Debug, Copy, Clone, PartialEq, Eq, Structural)]
pub enum TextAlignFlag {
    ALIGN_LEFT,
    ALIGN_CENTER,
    ALIGN_RIGHT,
    ALIGN_FIT,
    VALIGN_TOP,
    VALIGN_MIDDLE,
    VALIGN_BOTTOM,
}

/// The bit the foreign runtime assigns to each alignment flag.
pub open spec fn text_align_code_spec(f: TextAlignFlag) -> int {
    match f {
        TextAlignFlag::ALIGN_LEFT => 1,
        TextAlignFlag::ALIGN_CENTER => 2,
        TextAlignFlag::ALIGN_RIGHT => 4,
        TextAlignFlag::ALIGN_FIT => 8,
        TextAlignFlag::VALIGN_TOP => 16,
        TextAlignFlag::VALIGN_MIDDLE => 32,
        TextAlignFlag::VALIGN_BOTTOM => 64,
    }
}

impl TextAlignFlag {
    /// The bit of the flags argument this alignment flag occupies.
    pub fn code(&self) -> (c: i32)
        ensures
            c as int == text_align_code_spec(*self),
    {
        match *self {
            TextAlignFlag::ALIGN_LEFT => 1,
            TextAlignFlag::ALIGN_CENTER => 2,
            TextAlignFlag::ALIGN_RIGHT => 4,
            TextAlignFlag::ALIGN_FIT => 8,
            TextAlignFlag::VALIGN_TOP => 16,
            TextAlignFlag::VALIGN_MIDDLE => 32,
            TextAlignFlag::VALIGN_BOTTOM => 64,
        }
    }
}

/// Mirroring flags for the foreign bitmap-mirroring primitive; each is a
/// distinct bit of the flags argument.
#[derive(Debug, Copy, Clone, PartialEq, Eq, Structural)]
pub enum MirrorFlag {
    X_MIRROR,
    Y_MIRROR,
}

/// The bit the foreign runtime assigns to each mirroring flag.
pub open spec fn mirror_code_spec(f: MirrorFlag) -> int {
    match f {
        MirrorFlag::X_MIRROR => 1,
        MirrorFlag::Y_MIRROR => 2,
    }
}

impl MirrorFlag {
    /// The bit of the flags argument this mirroring flag occupies.
    pub fn code(&self) -> (c: i32)
        ensures
            c as int == mirror_code_spec(*self),
    {
        match *self {
            MirrorFlag::X_MIRROR => 1,
            MirrorFlag::Y_MIRROR => 2,
        }
    }
}

} // verus!
