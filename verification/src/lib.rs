//! Smolid: a compact, sortable 64-bit identifier.
//!
//! A single `u64` packs a millisecond timestamp measured from a fixed
//! epoch (2025-01-01T00:00:00Z), a 2-bit format version, and a 21-bit
//! entropy region that may carry an optional 7-bit type tag. The value
//! has a lossless 13-character base-32 text form.

use vstd::prelude::*;

verus! {

/// Milliseconds from the Unix epoch to the identifier epoch,
/// 2025-01-01T00:00:00Z.
pub const EPOCH: u64 = 1735707600000;

/// The timestamp field occupies bits 63..=23.
pub const TIMESTAMP_SHIFT_OFFSET: u64 = 23;

/// The version field occupies bits 22..=21.
pub const VERSION_SHIFT_OFFSET: u64 = 21;

/// Mask of the 2-bit version field.
pub const VERSION_MASK: u64 = 0b11 << VERSION_SHIFT_OFFSET;

/// The version-1 marker, already in field position.
pub const V1_VERSION: u64 = 0b01 << VERSION_SHIFT_OFFSET;

/// The type tag occupies bits 15..=9.
pub const V1_TYPE_SHIFT_OFFSET: u64 = 9;

/// Bit 20: set when the identifier carries an explicit type tag.
pub const V1_TYPE_FLAG: u64 = 0b1 << 20;

/// Largest type tag value (the type field is 7 bits wide).
pub const V1_TYPE_SIZE: u64 = 0b1111111;

/// Mask of the 7-bit type field.
pub const V1_TYPE_MASK: u64 = V1_TYPE_SIZE << V1_TYPE_SHIFT_OFFSET;

/// Inclusive upper bound of the random draw that fills the entropy
/// region (bit 20, the type flag, is never set by the draw itself).
pub const V1_RANDOM_SPACE: u64 = 0xfffff;

/// A compact, sortable 64-bit identifier.
#[derive(Clone, Copy, PartialEq, Eq, Structural, Debug)]
pub struct Smolid {
    d: u64,
}

impl View for Smolid {
    type V = u64;

    closed spec fn view(&self) -> u64 {
        self.d
    }
}

/// The milliseconds-since-epoch count stored in the timestamp field.
pub open spec fn ts_field(d: u64) -> u64 {
    d >> TIMESTAMP_SHIFT_OFFSET
}

/// The absolute instant an identifier denotes, in milliseconds since
/// the Unix epoch.
pub open spec fn unix_millis(d: u64) -> int {
    EPOCH + ts_field(d)
}

/// The 2-bit format version, shifted down to 0..=3.
pub open spec fn version_field(d: u64) -> u16 {
    (((d & VERSION_MASK) >> VERSION_SHIFT_OFFSET) as u16)
}

/// The type tag, if the type-present flag (bit 20) is set.
pub open spec fn type_field(d: u64) -> Option<u16> {
    if d & V1_TYPE_FLAG == 0 {
        None
    } else {
        Some((((d & V1_TYPE_MASK) >> V1_TYPE_SHIFT_OFFSET) as u16))
    }
}

/// Why an operation on an identifier was refused.
#[derive(Clone, Copy, PartialEq, Eq, Structural, Debug)]
pub enum SmolidError {
    /// A requested type tag does not fit the 7-bit type field; `max`
    /// names the largest accepted value.
    TypeOutOfRange { max: u16 },
    /// The text to decode holds a character outside the base-32
    /// alphabet.
    InvalidEncoding,
    /// The text to decode carries `actual` bytes instead of the
    /// `expected` 8.
    WrongLength { expected: usize, actual: usize },
}

impl Smolid {
    /// The raw 64-bit representation.
    pub fn as_u64(&self) -> (r: u64)
        ensures
            r == self@,
    {
        self.d
    }

    /// The raw 64-bit representation (alias of [`Self::as_u64`]).
    pub fn to_u64(&self) -> (r: u64)
        ensures
            r == self@,
    {
        self.d
    }

    /// The instant the identifier was derived from, in milliseconds
    /// since the Unix epoch. Defined for every value, the nil
    /// identifier (which yields the epoch itself) and unrecognized
    /// versions included.
    pub fn timestamp(&self) -> (r: u64)
        ensures
            r == unix_millis(self@),
    {
        proof {
            let d = self.d;
            assert(d >> TIMESTAMP_SHIFT_OFFSET <= 0x1ff_ffff_ffffu64) by (bit_vector);
        }
        (self.d >> TIMESTAMP_SHIFT_OFFSET) + EPOCH
    }

    /// The distinguished all-zero sentinel: no type tag, version 0
    /// (not a recognized version), and the epoch as its instant.
    pub fn nil() -> (r: Smolid)
        ensures
            r@ == 0,
            type_field(r@) is None,
            version_field(r@) == 0,
            unix_millis(r@) == EPOCH,
    {
        proof {
            assert(0u64 & V1_TYPE_FLAG == 0) by (bit_vector);
            assert((0u64 & VERSION_MASK) >> VERSION_SHIFT_OFFSET == 0) by (bit_vector);
            assert(0u64 >> TIMESTAMP_SHIFT_OFFSET == 0) by (bit_vector);
        }
        Smolid { d: 0 }
    }

    /// True exactly of the nil sentinel.
    pub fn is_nil(&self) -> (r: bool)
        ensures
            r == (self@ == 0),
    {
        self.d == 0
    }

    /// The 2-bit format version as an integer 0..=3.
    pub fn version(&self) -> (r: u16)
        ensures
            r == version_field(self@),
            r <= 3,
    {
        proof {
            let d = self.d;
            assert((d & VERSION_MASK) >> VERSION_SHIFT_OFFSET <= 3) by (bit_vector);
        }
        ((self.d & VERSION_MASK) >> VERSION_SHIFT_OFFSET) as u16
    }

    /// True exactly when the version field holds the defined version 1.
    pub fn is_valid(&self) -> (r: bool)
        ensures
            r == (version_field(self@) == 1),
    {
        self.version() == 1
    }

    /// The embedded type tag, or `None` when the type-present flag is
    /// clear.
    pub fn get_type(&self) -> (r: Option<u16>)
        ensures
            r == type_field(self@),
    {
        if self.d & V1_TYPE_FLAG == 0 {
            return None;
        }
        Some(((self.d & V1_TYPE_MASK) >> V1_TYPE_SHIFT_OFFSET) as u16)
    }

    /// True exactly when a type tag is present and equals `typ`; in
    /// particular false on identifiers that carry no tag.
    pub fn is_of_type(&self, typ: u16) -> (r: bool)
        ensures
            r == (type_field(self@) == Some(typ)),
    {
        match self.get_type() {
            Some(t) => t == typ,
            None => false,
        }
    }
}

} // verus!

mod codec;
mod generator;
