//! The abstract character format: a sparse description of text styling in
//! which every field is independently present or absent.

use vstd::prelude::*;

use crate::flags::CFM_EFFECTS;

verus! {

/// A bitset of the simple on/off style toggles (bold, italic, underline,
/// strikeout, protected, link, automatic color).
///
/// A well-formed value holds no bits outside the seven effect bits; every
/// constructor of this type establishes that.
#[derive(Clone, Copy, PartialEq, Eq, Structural, Debug)]
pub struct CharEffects {
    pub bits: u32,
}

impl CharEffects {
    /// The value holds no bits outside the effect bits.
    pub open spec fn wf(self) -> bool {
        self.bits & CFM_EFFECTS == self.bits
    }

    /// The empty set of effects.
    pub fn empty() -> (r: CharEffects)
        ensures
            r.bits == 0,
            r.wf(),
    {
        proof {
            crate::flags::lemma_cfm_effects_value();
            assert(0u32 & 0x4000003Fu32 == 0u32) by (bit_vector);
        }
        CharEffects { bits: 0 }
    }

    /// Keeps the known effect bits of `bits` and drops the rest.
    pub fn from_bits_truncate(bits: u32) -> (r: CharEffects)
        ensures
            r.bits == bits & CFM_EFFECTS,
            r.wf(),
    {
        proof {
            crate::flags::lemma_cfm_effects_value();
            assert((bits & 0x4000003Fu32) & 0x4000003Fu32 == bits & 0x4000003Fu32)
                by (bit_vector);
        }
        CharEffects { bits: bits & CFM_EFFECTS }
    }

    /// The raw bit representation.
    pub fn bits(&self) -> (r: u32)
        ensures
            r == self.bits,
    {
        self.bits
    }

    /// Whether every bit of `other` is also set in `self`.
    pub fn contains(&self, other: CharEffects) -> (r: bool)
        ensures
            r == (self.bits & other.bits == other.bits),
    {
        self.bits & other.bits == other.bits
    }

    /// The union of the two bitsets.
    pub fn union(&self, other: CharEffects) -> (r: CharEffects)
        ensures
            r.bits == self.bits | other.bits,
            self.wf() && other.wf() ==> r.wf(),
    {
        proof {
            crate::flags::lemma_cfm_effects_value();
            let a = self.bits;
            let b = other.bits;
            assert(a & 0x4000003Fu32 == a && b & 0x4000003Fu32 == b ==> (a | b) & 0x4000003Fu32
                == (a | b)) by (bit_vector);
        }
        CharEffects { bits: self.bits | other.bits }
    }
}

/// The decorative underline styles of the native protocol.
///
/// `NoUnderline` is the explicit "no underline" style: encoding it differs
/// from leaving the underline field absent by the mask bit alone.
#[derive(Clone, Copy, PartialEq, Eq, Structural, Debug)]
pub enum UnderlineType {
    NoUnderline,
    Solid,
    Dash,
    DashDot,
    DashDotDot,
    Dotted,
    DoubleSolid,
    Wave,
}

/// The native numeric code of an underline style, per the fixed table of the
/// protocol.
pub open spec fn underline_code(u: UnderlineType) -> u8 {
    match u {
        UnderlineType::NoUnderline => 0,
        UnderlineType::Solid => 1,
        UnderlineType::Dash => 5,
        UnderlineType::DashDot => 6,
        UnderlineType::DashDotDot => 7,
        UnderlineType::Dotted => 4,
        UnderlineType::DoubleSolid => 3,
        UnderlineType::Wave => 8,
    }
}

/// The underline style a native code reads back as.  Any code outside the
/// table, the native "none" code 0 included, reads back as absent: only a
/// real decorative underline style survives a round trip.
pub open spec fn underline_from_code(code: u8) -> Option<UnderlineType> {
    match code {
        1u8 => Some(UnderlineType::Solid),
        5u8 => Some(UnderlineType::Dash),
        6u8 => Some(UnderlineType::DashDot),
        7u8 => Some(UnderlineType::DashDotDot),
        4u8 => Some(UnderlineType::Dotted),
        3u8 => Some(UnderlineType::DoubleSolid),
        8u8 => Some(UnderlineType::Wave),
        _ => None,
    }
}

impl UnderlineType {
    /// The native numeric code of this style.
    pub fn to_code(self) -> (c: u8)
        ensures
            c == underline_code(self),
    {
        match self {
            UnderlineType::NoUnderline => 0,
            UnderlineType::Solid => 1,
            UnderlineType::Dash => 5,
            UnderlineType::DashDot => 6,
            UnderlineType::DashDotDot => 7,
            UnderlineType::Dotted => 4,
            UnderlineType::DoubleSolid => 3,
            UnderlineType::Wave => 8,
        }
    }

    /// The style a native code reads back as; absent for any code outside
    /// the table.
    pub fn from_code(code: u8) -> (r: Option<UnderlineType>)
        ensures
            r == underline_from_code(code),
    {
        match code {
            1u8 => Some(UnderlineType::Solid),
            5u8 => Some(UnderlineType::Dash),
            6u8 => Some(UnderlineType::DashDot),
            7u8 => Some(UnderlineType::DashDotDot),
            4u8 => Some(UnderlineType::Dotted),
            3u8 => Some(UnderlineType::DoubleSolid),
            8u8 => Some(UnderlineType::Wave),
            _ => None,
        }
    }
}

/// The code table inverts on every decorative style; the explicit
/// "no underline" style encodes to the native "none" code and reads back as
/// absent.
pub proof fn lemma_underline_round_trip(u: UnderlineType)
    ensures
        u != UnderlineType::NoUnderline ==> underline_from_code(underline_code(u)) == Some(u),
        u == UnderlineType::NoUnderline ==> underline_from_code(underline_code(u))
            is None,
{
}

/// The abstract character format.  Every field is independently optional;
/// an absent field asks the control to leave that aspect unchanged, which is
/// not the same as a present field holding a neutral value.
#[derive(Clone, Debug)]
pub struct CharFormat {
    /// On/off style toggles; the mask requests all of them atomically.
    pub effects: Option<CharEffects>,
    /// Font size, in twentieths of a point.
    pub height: Option<i32>,
    /// Baseline offset: positive raises the text, negative drops it, in the
    /// same unit as `height`.
    pub y_offset: Option<i32>,
    /// Text color as red, green and blue components.
    pub text_color: Option<[u8; 3]>,
    /// Font family name.
    pub font_face_name: Option<String>,
    /// Decorative underline style.
    pub underline_type: Option<UnderlineType>,
}

} // verus!
