//! A bidirectional codec between a sparse, optional-field character format
//! and the fixed-layout native formatting record understood by a rich-text
//! editing control.
//!
//! The abstract side ([`model::CharFormat`]) describes text styling with every
//! field independently present or absent.  The native side
//! ([`record::CharFormatW`]) is a flat record in which a mask field recovers
//! the presence information on the way in; on the way out, presence is
//! inferred from the values themselves, with the documented ambiguities that
//! this implies (a zero height, a packed-black color or a "no underline" code
//! all read back as absent).

pub mod codec;
pub mod flags;
pub mod model;
pub mod record;
pub mod utf16;
