//! Four-byte resource type tags.

use vstd::prelude::*;
use vstd::string::{StringExecFns, StringSliceAdditionalSpecFns};
use vstd::utf8::valid_utf8;

verus! {

broadcast use {
    vstd::utf8::group_utf8_lib,
    vstd::array::group_array_axioms,
    vstd::string::group_string_axioms,
};

/// A resource's 4-byte ASCII type tag (`"TEMP"`, `"TEXD"`, ...), required to
/// be valid UTF-8.
#[derive(Debug, PartialEq, Eq, Clone, Copy, Hash)]
pub struct ResourceType {
    /// The raw tag bytes.
    pub tag: [u8; 4],
}

/// Failure to build a [`ResourceType`].
#[derive(Debug, PartialEq, Eq, Structural, Clone, Copy)]
pub enum ResourceTypeError {
    /// The text form does not hold exactly four bytes.
    InvalidLength,
    /// The four raw bytes are not valid UTF-8.
    InvalidString,
}

/// Relies on `core::str::from_utf8`: it accepts exactly the byte sequences
/// that are valid UTF-8.
#[verifier::external_body]
fn utf8_check(bytes: &[u8]) -> (r: bool)
    ensures
        r == valid_utf8(bytes@),
{
    core::str::from_utf8(bytes).is_ok()
}

/// Relies on `core::str::from_utf8`: on valid UTF-8 input it returns the
/// string reading of exactly those bytes.
#[verifier::external_body]
fn utf8_to_str<'a>(bytes: &'a [u8]) -> (r: &'a str)
    requires
        valid_utf8(bytes@),
    ensures
        r.spec_bytes() == bytes@,
{
    core::str::from_utf8(bytes).unwrap_or("")
}

impl ResourceType {
    /// The tag holds valid UTF-8; every constructor establishes this.
    pub open spec fn wf(self) -> bool {
        valid_utf8(self.tag@)
    }

    /// The tag packed big-endian into one word, for compact per-type tables.
    pub open spec fn tag_value(self) -> u32 {
        ((self.tag@[0] as u32) << 24) | ((self.tag@[1] as u32) << 16) | ((self.tag@[2] as u32)
            << 8) | (self.tag@[3] as u32)
    }

    /// Build a tag from its text form; exactly four bytes are accepted.
    pub fn from_str(s: &str) -> (r: Result<ResourceType, ResourceTypeError>)
        ensures
            r is Ok <==> s.spec_bytes().len() == 4,
            r is Ok ==> r->Ok_0.tag@ == s.spec_bytes() && r->Ok_0.wf(),
            r is Err ==> r->Err_0 == ResourceTypeError::InvalidLength,
    {
        let b = s.as_bytes();
        if b.len() != 4 {
            return Err(ResourceTypeError::InvalidLength);
        }
        let tag = [b[0], b[1], b[2], b[3]];
        proof {
            assert(tag@ =~= s.spec_bytes());
        }
        Ok(ResourceType { tag })
    }

    /// Build a tag from raw bytes; they must form valid UTF-8.
    pub fn from_bytes(bytes: [u8; 4]) -> (r: Result<ResourceType, ResourceTypeError>)
        ensures
            r is Ok <==> valid_utf8(bytes@),
            r is Ok ==> r->Ok_0.tag == bytes && r->Ok_0.wf(),
            r is Err ==> r->Err_0 == ResourceTypeError::InvalidString,
    {
        if utf8_check(bytes.as_slice()) {
            Ok(ResourceType { tag: bytes })
        } else {
            Err(ResourceTypeError::InvalidString)
        }
    }

    /// The tag as text.
    pub fn as_str<'a>(&'a self) -> (r: &'a str)
        requires
            self.wf(),
        ensures
            r.spec_bytes() == self.tag@,
    {
        utf8_to_str(self.tag.as_slice())
    }

    /// The tag as an owned string.
    pub fn as_string(&self) -> (r: String)
        requires
            self.wf(),
        ensures
            vstd::utf8::encode_utf8(r@) == self.tag@,
    {
        String::from_str(self.as_str())
    }

    /// The raw tag bytes.
    pub fn to_bytes(self) -> (r: [u8; 4])
        ensures
            r == self.tag,
    {
        self.tag
    }

    /// The packed tag word.
    pub fn tag_u32(&self) -> (r: u32)
        ensures
            r == self.tag_value(),
    {
        ((self.tag[0] as u32) << 24) | ((self.tag[1] as u32) << 16) | ((self.tag[2] as u32) << 8)
            | (self.tag[3] as u32)
    }
}

} // verus!
