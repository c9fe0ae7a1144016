//! Bit-packed per-reference flags, in their two incompatible on-disk
//! encodings.
//!
//! The same byte position carries either the legacy layout (one bit per
//! streaming kind, bits 0 and 3 always clear) or the modern layout (a 2-bit
//! kind, an acquired bit and a 5-bit language code). No discriminant exists
//! on disk; [`ReferenceFlags::from_any`] tells them apart by the padding
//! bits and by bit combinations that are contradictory for a legacy byte.

use vstd::prelude::*;

verus! {

/// The logical kind of a reference. The last three kinds exist only in the
/// legacy encoding; re-encoded in modern form, `Media` collapses to `Weak`,
/// `State` to `Normal` and `EntityType` to `Install`.
#[derive(Debug, PartialEq, Eq, Structural, Clone, Copy, Hash, Default)]
pub enum ReferenceType {
    #[default]
    Install,
    Normal,
    Weak,
    Media,
    State,
    EntityType,
}

/// A reference's decoded flags: kind, runtime-acquired bit, and 5-bit
/// language code (all ones meaning "all languages").
#[derive(Debug, PartialEq, Eq, Structural, Clone, Copy, Hash)]
pub struct ReferenceFlags {
    pub reference_type: ReferenceType,
    pub acquired: bool,
    pub language_code: u8,
}

/// The default flag set: an install dependency, not acquired at runtime,
/// for all languages.
pub open spec fn default_flags() -> ReferenceFlags {
    ReferenceFlags {
        reference_type: ReferenceType::Install,
        acquired: false,
        language_code: 0x1F,
    }
}

/// Decoding of a byte in the legacy layout: bit 7 install, bit 6 media, bit
/// 5 state, bit 4 entity-type streaming, bit 2 weak, bit 1 acquired; the
/// kind bits are tested in this fixed priority order. No language code
/// exists, so it reads as "all languages".
pub open spec fn from_legacy_spec(flag: u8) -> ReferenceFlags {
    ReferenceFlags {
        reference_type: if flag & 0x10 == 0x10 {
            ReferenceType::EntityType
        } else if flag & 0x80 == 0x80 {
            ReferenceType::Install
        } else if flag & 0x04 == 0x04 {
            ReferenceType::Weak
        } else if flag & 0x40 == 0x40 {
            ReferenceType::Media
        } else if flag & 0x20 == 0x20 {
            ReferenceType::State
        } else {
            ReferenceType::Normal
        },
        acquired: flag & 0x02 == 0x02,
        language_code: 0x1F,
    }
}

/// Decoding of a byte in the modern layout: bits 6..7 are the kind (00
/// install, 01 normal, 10 and 11 weak), bit 5 acquired, bits 0..4 the
/// language code.
pub open spec fn from_modern_spec(flag: u8) -> ReferenceFlags {
    ReferenceFlags {
        reference_type: if flag & 0xC0 == 0x00 {
            ReferenceType::Install
        } else if flag & 0xC0 == 0x40 {
            ReferenceType::Normal
        } else {
            ReferenceType::Weak
        },
        acquired: flag & 0x20 != 0,
        language_code: flag & 0x1F,
    }
}

/// The disambiguation heuristic: a set padding bit (0 or 3) can only be
/// modern; a bit pattern contradictory for a legacy byte (install and weak
/// together, or two of media, state and entity-type streaming at once) is
/// reinterpreted as modern; everything else reads as legacy.
pub open spec fn from_any_spec(flag: u8) -> ReferenceFlags {
    if flag & 0x09 != 0 {
        from_modern_spec(flag)
    } else {
        let install = flag & 0x80 == 0x80;
        let media = flag & 0x40 == 0x40;
        let state = flag & 0x20 == 0x20;
        let entity = flag & 0x10 == 0x10;
        let weak = flag & 0x04 == 0x04;
        if (install && weak) || (media && state) || (state && entity) || (media && entity) {
            from_modern_spec(flag)
        } else {
            from_legacy_spec(flag)
        }
    }
}

/// Encoding into the legacy layout; the language code is dropped.
pub open spec fn as_legacy_spec(f: ReferenceFlags) -> u8 {
    let base: u8 = match f.reference_type {
        ReferenceType::Install => 0x80,
        ReferenceType::Normal => 0x00,
        ReferenceType::Weak => 0x04,
        ReferenceType::Media => 0x40,
        ReferenceType::State => 0x20,
        ReferenceType::EntityType => 0x90,
    };
    if f.acquired {
        base | 0x02
    } else {
        base
    }
}

/// Encoding into the modern layout; the three legacy-only kinds collapse
/// into the 2-bit kind space.
pub open spec fn as_modern_spec(f: ReferenceFlags) -> u8 {
    let kind: u8 = match f.reference_type {
        ReferenceType::Install => 0,
        ReferenceType::Normal => 1,
        ReferenceType::Weak => 2,
        ReferenceType::Media => 2,
        ReferenceType::State => 1,
        ReferenceType::EntityType => 0,
    };
    let acq: u8 = if f.acquired {
        1
    } else {
        0
    };
    f.language_code | (acq << 5) | (kind << 6)
}

impl Default for ReferenceFlags {
    /// The default flag set; see [`default_flags`].
    fn default() -> (r: Self)
        ensures
            r == default_flags(),
    {
        ReferenceFlags {
            reference_type: ReferenceType::Install,
            acquired: false,
            language_code: 0x1F,
        }
    }
}

impl ReferenceFlags {
    /// Decode a flag byte, deciding between the two layouts; see
    /// [`from_any_spec`].
    pub fn from_any(flag: u8) -> (r: ReferenceFlags)
        ensures
            r == from_any_spec(flag),
    {
        if flag & 0b0000_1001 != 0 {
            Self::from_modern(flag)
        } else {
            let install_dependency = flag & 0b1000_0000 == 0b1000_0000;
            let media_streamed = flag & 0b0100_0000 == 0b0100_0000;
            let state_streamed = flag & 0b0010_0000 == 0b0010_0000;
            let type_of_streaming_entity = flag & 0b0001_0000 == 0b0001_0000;
            let weak_reference = flag & 0b0000_0100 == 0b0000_0100;
            if install_dependency && weak_reference || media_streamed && state_streamed
                || state_streamed && type_of_streaming_entity || media_streamed
                && type_of_streaming_entity {
                Self::from_modern(flag)
            } else {
                Self::from_legacy(flag)
            }
        }
    }

    /// Decode a flag byte in the legacy layout.
    pub fn from_legacy(flag: u8) -> (r: ReferenceFlags)
        ensures
            r == from_legacy_spec(flag),
    {
        let install_dependency = flag & 0b1000_0000 == 0b1000_0000;
        let media_streamed = flag & 0b0100_0000 == 0b0100_0000;
        let state_streamed = flag & 0b0010_0000 == 0b0010_0000;
        let type_of_streaming_entity = flag & 0b0001_0000 == 0b0001_0000;
        let weak_reference = flag & 0b0000_0100 == 0b0000_0100;
        let runtime_acquired = flag & 0b0000_0010 == 0b0000_0010;
        ReferenceFlags {
            reference_type: if type_of_streaming_entity {
                ReferenceType::EntityType
            } else if install_dependency {
                ReferenceType::Install
            } else if weak_reference {
                ReferenceType::Weak
            } else if media_streamed {
                ReferenceType::Media
            } else if state_streamed {
                ReferenceType::State
            } else {
                ReferenceType::Normal
            },
            acquired: runtime_acquired,
            language_code: 0x1F,
        }
    }

    /// Decode a flag byte in the modern layout.
    pub fn from_modern(flag: u8) -> (r: ReferenceFlags)
        ensures
            r == from_modern_spec(flag),
    {
        ReferenceFlags {
            reference_type: if flag & 0b1100_0000 == 0b0000_0000 {
                ReferenceType::Install
            } else if flag & 0b1100_0000 == 0b0100_0000 {
                ReferenceType::Normal
            } else {
                ReferenceType::Weak
            },
            acquired: (flag & 0b0010_0000) != 0,
            language_code: flag & 0b0001_1111,
        }
    }

    /// Encode into the legacy layout.
    pub fn as_legacy(&self) -> (r: u8)
        ensures
            r == as_legacy_spec(*self),
    {
        let flag: u8 = match self.reference_type {
            ReferenceType::Install => 0b1000_0000,
            ReferenceType::Normal => 0b0000_0000,
            ReferenceType::Weak => 0b0000_0100,
            ReferenceType::Media => 0b0100_0000,
            ReferenceType::State => 0b0010_0000,
            ReferenceType::EntityType => 0b1001_0000,
        };
        if self.acquired {
            flag | 0b0000_0010
        } else {
            flag
        }
    }

    /// Encode into the modern layout.
    pub fn as_modern(&self) -> (r: u8)
        ensures
            r == as_modern_spec(*self),
    {
        let kind: u8 = match self.reference_type {
            ReferenceType::Install => 0,
            ReferenceType::Normal => 1,
            ReferenceType::Weak => 2,
            ReferenceType::Media => 2,
            ReferenceType::State => 1,
            ReferenceType::EntityType => 0,
        };
        let acq: u8 = if self.acquired {
            1
        } else {
            0
        };
        self.language_code | (acq << 5) | (kind << 6)
    }

    /// Whether these flags are the default set, which serialized forms omit.
    pub fn is_default(&self) -> (r: bool)
        ensures
            r == (*self == default_flags()),
    {
        matches!(self.reference_type, ReferenceType::Install) && !self.acquired
            && self.language_code == 0b0001_1111
    }
}

/// Bit facts behind the modern round-trip: a byte assembled from a small
/// language code, an acquired bit and a kind field gives each part back.
proof fn lemma_modern_bits(l: u8, a: u8, k: u8)
    by (bit_vector)
    requires
        l < 32,
        a == 0 || a == 1,
        k == 0 || k == 1 || k == 2,
    ensures
        (l | (a << 5) | (k << 6)) & 0x1F == l,
        (l | (a << 5) | (k << 6)) & 0x20 == (a << 5),
        (l | (a << 5) | (k << 6)) & 0xC0 == (k << 6),
        a == 1 ==> (l | (a << 5) | (k << 6)) & 0x20 != 0,
        a == 0 ==> (l | (a << 5) | (k << 6)) & 0x20 == 0,
        k == 0 ==> (l | (a << 5) | (k << 6)) & 0xC0 == 0x00,
        k == 1 ==> (l | (a << 5) | (k << 6)) & 0xC0 == 0x40,
        k == 2 ==> (l | (a << 5) | (k << 6)) & 0xC0 == 0x80,
{
}

/// A decoded modern byte's language code is below 32.
proof fn lemma_modern_lang_bound(b: u8)
    by (bit_vector)
    ensures
        b & 0x1F < 32,
{
}

/// Flag modern round-trip law: flags decoded from a modern byte survive
/// re-encoding to a modern byte and decoding again unchanged.
pub proof fn lemma_modern_roundtrip(b: u8)
    ensures
        from_modern_spec(as_modern_spec(from_modern_spec(b))) == from_modern_spec(b),
{
    let f = from_modern_spec(b);
    lemma_modern_lang_bound(b);
    let k: u8 = match f.reference_type {
        ReferenceType::Install => 0,
        ReferenceType::Normal => 1,
        ReferenceType::Weak => 2,
        ReferenceType::Media => 2,
        ReferenceType::State => 1,
        ReferenceType::EntityType => 0,
    };
    let a: u8 = if f.acquired {
        1
    } else {
        0
    };
    lemma_modern_bits(f.language_code, a, k);
    assert(as_modern_spec(f) == (f.language_code | (a << 5) | (k << 6)));
}

/// Bit facts behind the legacy round-trip, for each encodable kind base with
/// an optional acquired bit.
proof fn lemma_legacy_bits(a: u8)
    by (bit_vector)
    requires
        a == 0 || a == 2,
    ensures
        (0x80u8 | a) & 0x10 == 0 && (0x80u8 | a) & 0x80 == 0x80 && (0x80u8 | a) & 0x02 == a,
        (0x00u8 | a) & 0x10 == 0 && (0x00u8 | a) & 0x80 == 0 && (0x00u8 | a) & 0x04 == 0 && (0x00u8
            | a) & 0x40 == 0 && (0x00u8 | a) & 0x20 == 0 && (0x00u8 | a) & 0x02 == a,
        (0x04u8 | a) & 0x10 == 0 && (0x04u8 | a) & 0x80 == 0 && (0x04u8 | a) & 0x04 == 0x04 && (
        0x04u8 | a) & 0x02 == a,
{
}

/// Flag legacy partial round-trip law: for the three kinds the modern format
/// also knows (install, normal, weak), with the implicit "all languages"
/// code, encoding to a legacy byte and decoding reproduces the flags. The
/// three legacy-only kinds carry no such guarantee.
pub proof fn lemma_legacy_roundtrip(f: ReferenceFlags)
    requires
        f.reference_type == ReferenceType::Install || f.reference_type == ReferenceType::Normal
            || f.reference_type == ReferenceType::Weak,
        f.language_code == 0x1F,
    ensures
        from_legacy_spec(as_legacy_spec(f)) == f,
{
    let a: u8 = if f.acquired {
        2
    } else {
        0
    };
    lemma_legacy_bits(a);
    match f.reference_type {
        ReferenceType::Install => {
            assert(as_legacy_spec(f) == (0x80u8 | a)) by {
                if !f.acquired {
                    assert(0x80u8 | 0 == 0x80) by (bit_vector);
                }
            }
        },
        ReferenceType::Normal => {
            assert(as_legacy_spec(f) == (0x00u8 | a)) by {
                if !f.acquired {
                    assert(0x00u8 | 0 == 0x00) by (bit_vector);
                }
            }
        },
        ReferenceType::Weak => {
            assert(as_legacy_spec(f) == (0x04u8 | a)) by {
                if !f.acquired {
                    assert(0x04u8 | 0 == 0x04) by (bit_vector);
                }
            }
        },
        _ => {},
    }
}

} // verus!
