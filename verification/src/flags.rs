//! Numeric constants of the native formatting protocol: effect bits, mask
//! bits, message codes and the size of the native record.

use vstd::prelude::*;

verus! {

/// Number of wide-character units in the face-name buffer of the native
/// record, terminator included.
pub const LF_FACESIZE: usize = 32;

/// Effect bit: bold.
pub const CFE_BOLD: u32 = 0x0001;

/// Effect bit: italic.
pub const CFE_ITALIC: u32 = 0x0002;

/// Effect bit: underline on.
pub const CFE_UNDERLINE: u32 = 0x0004;

/// Effect bit: strikeout.
pub const CFE_STRIKEOUT: u32 = 0x0008;

/// Effect bit: protected text.
pub const CFE_PROTECTED: u32 = 0x0010;

/// Effect bit: link.
pub const CFE_LINK: u32 = 0x0020;

/// Effect bit: automatic text color.
pub const CFE_AUTOCOLOR: u32 = 0x40000000;

/// Mask bit requesting the whole effects bitset: the union of the seven
/// individual effect bits, applied atomically.
pub const CFM_EFFECTS: u32 = 0x0001 | 0x0002 | 0x0004 | 0x0008 | 0x0010 | 0x0020 | 0x40000000;

/// Mask bit: font height is meaningful.
pub const CFM_SIZE: u32 = 0x80000000;

/// Mask bit: baseline offset is meaningful.
pub const CFM_OFFSET: u32 = 0x10000000;

/// Mask bit: text color is meaningful.
pub const CFM_COLOR: u32 = 0x40000000;

/// Mask bit: face name is meaningful.
pub const CFM_FACE: u32 = 0x20000000;

/// Mask bit: underline type is meaningful.
pub const CFM_UNDERLINETYPE: u32 = 0x00800000;

/// Base of the user-defined message range of the host windowing system.
pub const WM_USER: u32 = 0x0400;

/// Message code: query the current character formatting from a control.
pub const EM_GETCHARFORMAT: u32 = 0x0400 + 58;

/// Message code: apply a character formatting record to a control.
pub const EM_SETCHARFORMAT: u32 = 0x0400 + 68;

/// Formatting scope: the current selection.
pub const SCF_SELECTION: u32 = 1;

/// The effects mask is the union of the seven effect bits.
pub proof fn lemma_cfm_effects_value()
    ensures
        CFM_EFFECTS == 0x4000003Fu32,
{
    assert(0x0001u32 | 0x0002u32 | 0x0004u32 | 0x0008u32 | 0x0010u32 | 0x0020u32
        | 0x40000000u32 == 0x4000003Fu32) by (bit_vector);
}

/// Total byte size of the native record, counted over its fixed field layout
/// (six 4-byte header fields, two bytes, the 64-byte face buffer, the packed
/// trailing fields and alignment padding).  The record's self-describing size
/// field must hold exactly this value.
pub const CHARFORMATW_SIZE: u32 = 116;

} // verus!
