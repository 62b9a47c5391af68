//! The manifest-type registry: a bidirectional mapping between a 16-bit
//! wire magic number and a manifest-type tag. The wire-to-tag direction is
//! fallible, since an attacker controls the wire value.

use vstd::prelude::*;

verus! {

/// The magic number that denotes a firmware policy manifest on the wire.
pub const FPM_MAGIC: u16 = 0xda0e;

/// The type of manifest a container carries, decoded from the header's
/// magic number.
#[derive(Clone, Copy, Debug, PartialEq, Eq, Structural)]
pub enum ManifestType {
    /// A firmware policy manifest.
    Fpm,
}

/// The wire magic number of `t`.
pub open spec fn spec_to_wire(t: ManifestType) -> u16 {
    match t {
        ManifestType::Fpm => FPM_MAGIC,
    }
}

/// The manifest type denoted by the wire magic number `w`, if any.
pub open spec fn spec_from_wire(w: u16) -> Option<ManifestType> {
    if w == FPM_MAGIC {
        Some(ManifestType::Fpm)
    } else {
        None
    }
}

impl ManifestType {
    /// Encodes this manifest type as its wire magic number.
    pub fn to_wire_value(&self) -> (r: u16)
        ensures
            r == spec_to_wire(*self),
    {
        match self {
            ManifestType::Fpm => FPM_MAGIC,
        }
    }

    /// Decodes a wire magic number back to a manifest type; `None` for a
    /// magic number the registry does not know.
    pub fn from_wire_value(w: u16) -> (r: Option<ManifestType>)
        ensures
            r == spec_from_wire(w),
    {
        if w == FPM_MAGIC {
            Some(ManifestType::Fpm)
        } else {
            None
        }
    }
}

/// Law: decoding inverts encoding, so every tag survives a trip over the
/// wire.
pub proof fn lemma_wire_round_trip(t: ManifestType)
    ensures
        spec_from_wire(spec_to_wire(t)) == Some(t),
{
}

} // verus!
