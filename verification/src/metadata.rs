//! Resource metadata records, per-type rule tables and memory-cost
//! estimation.

use vstd::prelude::*;

use crate::game::GameVersion;
use crate::hex::{flag_byte, parse_hex_flag};
use crate::reference_flags::{default_flags, from_any_spec, ReferenceFlags};
use crate::resource_type::ResourceType;
use crate::rpkg_tool::{refs_encode_ok, RpkgResourceMeta, RpkgResourceReference};
use crate::runtime_id::RuntimeID;

verus! {

broadcast use vstd::slice::group_slice_axioms;

// The 4-byte type tags the rule tables know, packed big-endian into one
// word as [`ResourceType::tag_value`] does.
pub const TAG_AIBB: u32 = 0x41494242;

pub const TAG_AIBX: u32 = 0x41494258;

pub const TAG_AIBZ: u32 = 0x4149425A;

pub const TAG_AIRG: u32 = 0x41495247;

pub const TAG_ALOC: u32 = 0x414C4F43;

pub const TAG_ASEB: u32 = 0x41534542;

pub const TAG_ASET: u32 = 0x41534554;

pub const TAG_ASVA: u32 = 0x41535641;

pub const TAG_ATMD: u32 = 0x41544D44;

pub const TAG_BLOB: u32 = 0x424C4F42;

pub const TAG_BMSK: u32 = 0x424D534B;

pub const TAG_BORG: u32 = 0x424F5247;

pub const TAG_BOXC: u32 = 0x424F5843;

pub const TAG_CBLU: u32 = 0x43424C55;

pub const TAG_CLNG: u32 = 0x434C4E47;

pub const TAG_CPPT: u32 = 0x43505054;

pub const TAG_CRMD: u32 = 0x43524D44;

pub const TAG_DITL: u32 = 0x4449544C;

pub const TAG_DLGE: u32 = 0x444C4745;

pub const TAG_DSWB: u32 = 0x44535742;

pub const TAG_ECPB: u32 = 0x45435042;

pub const TAG_ECPT: u32 = 0x45435054;

pub const TAG_ENUM: u32 = 0x454E554D;

pub const TAG_ERES: u32 = 0x45524553;

pub const TAG_FXAC: u32 = 0x46584143;

pub const TAG_FXAS: u32 = 0x46584153;

pub const TAG_GFXF: u32 = 0x47465846;

pub const TAG_GFXI: u32 = 0x47465849;

pub const TAG_GFXV: u32 = 0x47465856;

pub const TAG_GIDX: u32 = 0x47494458;

pub const TAG_HIKC: u32 = 0x48494B43;

pub const TAG_IMAP: u32 = 0x494D4150;

pub const TAG_JSON: u32 = 0x4A534F4E;

pub const TAG_LINE: u32 = 0x4C494E45;

pub const TAG_LOCR: u32 = 0x4C4F4352;

pub const TAG_MATB: u32 = 0x4D415442;

pub const TAG_MATE: u32 = 0x4D415445;

pub const TAG_MATI: u32 = 0x4D415449;

pub const TAG_MATT: u32 = 0x4D415454;

pub const TAG_MJBA: u32 = 0x4D4A4241;

pub const TAG_MRTN: u32 = 0x4D52544E;

pub const TAG_MRTR: u32 = 0x4D525452;

pub const TAG_NAVP: u32 = 0x4E415650;

pub const TAG_ORES: u32 = 0x4F524553;

pub const TAG_PREL: u32 = 0x5052454C;

pub const TAG_PRIM: u32 = 0x5052494D;

pub const TAG_REPO: u32 = 0x5245504F;

pub const TAG_RTLV: u32 = 0x52544C56;

pub const TAG_SCDA: u32 = 0x53434441;

pub const TAG_SDEF: u32 = 0x53444546;

pub const TAG_SLMX: u32 = 0x534C4D58;

pub const TAG_TBLU: u32 = 0x54424C55;

pub const TAG_TELI: u32 = 0x54454C49;

pub const TAG_TEMP: u32 = 0x54454D50;

pub const TAG_TEXD: u32 = 0x54455844;

pub const TAG_TEXT: u32 = 0x54455854;

pub const TAG_UICB: u32 = 0x55494342;

pub const TAG_UICT: u32 = 0x55494354;

pub const TAG_VIDB: u32 = 0x56494442;

pub const TAG_VTXD: u32 = 0x56545844;

pub const TAG_WBNK: u32 = 0x57424E4B;

pub const TAG_WSGB: u32 = 0x57534742;

pub const TAG_WSGT: u32 = 0x57534754;

pub const TAG_WSWB: u32 = 0x57535742;

pub const TAG_WSWT: u32 = 0x57535754;

pub const TAG_WWEM: u32 = 0x5757454D;

pub const TAG_WWES: u32 = 0x57574553;

pub const TAG_WWEV: u32 = 0x57574556;

pub const TAG_YSHP: u32 = 0x59534850;

/// Types whose payload is always stored compressed.
pub open spec fn always_compressed(v: u32) -> bool {
    v == TAG_REPO
        || v == TAG_ASVA
        || v == TAG_VIDB
        || v == TAG_GFXF
        || v == TAG_UICB
        || v == TAG_PRIM
        || v == TAG_WSWB
        || v == TAG_DLGE
        || v == TAG_MATI
        || v == TAG_BMSK
        || v == TAG_TBLU
        || v == TAG_AIBB
        || v == TAG_YSHP
        || v == TAG_MATE
        || v == TAG_MRTN
        || v == TAG_CRMD
        || v == TAG_WSGB
        || v == TAG_LOCR
        || v == TAG_MJBA
        || v == TAG_NAVP
        || v == TAG_BORG
        || v == TAG_ENUM
        || v == TAG_BOXC
        || v == TAG_CPPT
        || v == TAG_ECPB
        || v == TAG_FXAC
        || v == TAG_WBNK
        || v == TAG_ATMD
        || v == TAG_ORES
        || v == TAG_FXAS
        || v == TAG_MRTR
        || v == TAG_RTLV
        || v == TAG_AIBZ
        || v == TAG_GIDX
        || v == TAG_AIRG
        || v == TAG_DITL
        || v == TAG_SDEF
        || v == TAG_CBLU
        || v == TAG_TEMP
        || v == TAG_DSWB
        || v == TAG_GFXI
}

/// Types whose payload is usually stored compressed.
pub open spec fn usually_compressed(v: u32) -> bool {
    v == TAG_MATB
        || v == TAG_SCDA
        || v == TAG_JSON
        || v == TAG_ALOC
        || v == TAG_MATT
        || v == TAG_VTXD
        || v == TAG_PREL
        || v == TAG_WWEV
}

/// Types whose payload is never stored compressed.
pub open spec fn never_compressed(v: u32) -> bool {
    v == TAG_LINE
        || v == TAG_WWES
        || v == TAG_WWEM
        || v == TAG_TEXT
        || v == TAG_ERES
        || v == TAG_GFXV
        || v == TAG_TEXD
        || v == TAG_WSGT
        || v == TAG_ASET
        || v == TAG_CLNG
        || v == TAG_ECPT
        || v == TAG_UICT
        || v == TAG_WSWT
        || v == TAG_AIBX
        || v == TAG_ASEB
}

/// Types whose system memory cost cannot be known from the payload alone.
pub open spec fn sysmem_unknowable(v: u32) -> bool {
    v == TAG_AIBX
        || v == TAG_AIBZ
        || v == TAG_AIRG
        || v == TAG_ASEB
        || v == TAG_ASET
        || v == TAG_ASVA
        || v == TAG_ATMD
        || v == TAG_BLOB
        || v == TAG_BMSK
        || v == TAG_BORG
        || v == TAG_BOXC
        || v == TAG_CRMD
        || v == TAG_DITL
        || v == TAG_DLGE
        || v == TAG_ECPT
        || v == TAG_ENUM
        || v == TAG_ERES
        || v == TAG_GFXF
        || v == TAG_GFXI
        || v == TAG_GFXV
        || v == TAG_JSON
        || v == TAG_LINE
        || v == TAG_LOCR
        || v == TAG_MATB
        || v == TAG_MATE
        || v == TAG_MATI
        || v == TAG_MATT
        || v == TAG_NAVP
        || v == TAG_ORES
        || v == TAG_PRIM
        || v == TAG_REPO
        || v == TAG_RTLV
        || v == TAG_SDEF
        || v == TAG_TEXD
        || v == TAG_TEXT
        || v == TAG_UICT
        || v == TAG_VIDB
        || v == TAG_VTXD
        || v == TAG_WBNK
        || v == TAG_WSGT
        || v == TAG_WSWT
        || v == TAG_WWEM
        || v == TAG_WWES
        || v == TAG_WWEV
        || v == TAG_TELI
        || v == TAG_CLNG
}

/// Types that carry their system memory cost as a big-endian word at byte offset 8.
pub open spec fn sysmem_stream_sized(v: u32) -> bool {
    v == TAG_AIBB
        || v == TAG_CBLU
        || v == TAG_CPPT
        || v == TAG_DSWB
        || v == TAG_ECPB
        || v == TAG_GIDX
        || v == TAG_TEMP
        || v == TAG_TBLU
        || v == TAG_UICB
        || v == TAG_WSGB
        || v == TAG_WSWB
}

/// Types whose system memory cost is the payload length itself.
pub open spec fn sysmem_data_sized(v: u32) -> bool {
    v == TAG_FXAS
        || v == TAG_MJBA
        || v == TAG_MRTN
        || v == TAG_MRTR
        || v == TAG_SCDA
}

/// Types whose system memory rule is known to exist but not implemented; asking for it is a caller error.
pub open spec fn sysmem_unimplemented(v: u32) -> bool {
    v == TAG_FXAC
        || v == TAG_HIKC
        || v == TAG_IMAP
        || v == TAG_SLMX
}

/// Types whose video memory cost cannot be known from the payload alone.
pub open spec fn vidmem_unknowable(v: u32) -> bool {
    v == TAG_AIBB
        || v == TAG_AIBX
        || v == TAG_AIBZ
        || v == TAG_AIRG
        || v == TAG_ASEB
        || v == TAG_ASET
        || v == TAG_ASVA
        || v == TAG_ATMD
        || v == TAG_BLOB
        || v == TAG_BMSK
        || v == TAG_BORG
        || v == TAG_CBLU
        || v == TAG_CLNG
        || v == TAG_CPPT
        || v == TAG_CRMD
        || v == TAG_DITL
        || v == TAG_DLGE
        || v == TAG_DSWB
        || v == TAG_ECPB
        || v == TAG_ECPT
        || v == TAG_ENUM
        || v == TAG_ERES
        || v == TAG_GFXF
        || v == TAG_GFXI
        || v == TAG_GFXV
        || v == TAG_JSON
        || v == TAG_LINE
        || v == TAG_LOCR
        || v == TAG_MATB
        || v == TAG_MATE
        || v == TAG_MATI
        || v == TAG_MATT
        || v == TAG_GIDX
        || v == TAG_NAVP
        || v == TAG_ORES
        || v == TAG_PRIM
        || v == TAG_REPO
        || v == TAG_RTLV
        || v == TAG_SDEF
        || v == TAG_TBLU
        || v == TAG_TELI
        || v == TAG_TEMP
        || v == TAG_UICB
        || v == TAG_UICT
        || v == TAG_VIDB
        || v == TAG_VTXD
        || v == TAG_WBNK
        || v == TAG_WSGB
        || v == TAG_WSGT
        || v == TAG_WSWB
        || v == TAG_WSWT
        || v == TAG_WWEM
        || v == TAG_WWES
        || v == TAG_WWEV
}

/// Types that never occupy video memory.
pub open spec fn vidmem_zero(v: u32) -> bool {
    v == TAG_ALOC
        || v == TAG_FXAC
        || v == TAG_FXAS
        || v == TAG_MJBA
        || v == TAG_MRTN
        || v == TAG_MRTR
        || v == TAG_PREL
        || v == TAG_SCDA
        || v == TAG_YSHP
}

/// Types whose video memory rule is known to exist but not implemented; asking for it is a caller error.
pub open spec fn vidmem_unimplemented(v: u32) -> bool {
    v == TAG_BOXC
        || v == TAG_HIKC
        || v == TAG_IMAP
        || v == TAG_SLMX
}

/// A directed dependency on another resource, with its decoded flags.
#[derive(Debug, PartialEq, Eq, Structural, Clone, Copy, Hash)]
pub struct ResourceReference {
    pub resource: RuntimeID,
    pub flags: ReferenceFlags,
}

/// Core information about a resource: identity, type, whether its payload
/// is compressed and scrambled (explicit overrides of the type-inferred
/// defaults), and its outgoing references.
#[derive(Debug, PartialEq, Eq, Clone, Hash)]
pub struct ResourceMetadata {
    pub id: RuntimeID,
    pub resource_type: ResourceType,
    pub compressed: bool,
    pub scrambled: bool,
    pub references: Vec<ResourceReference>,
}

/// Extended information about a resource: the core record plus its memory
/// costs, computed from the payload when not already known.
#[derive(Debug, PartialEq, Eq, Clone, Hash)]
pub struct ExtendedResourceMetadata {
    pub core_info: ResourceMetadata,
    pub system_memory_requirement: u32,
    pub video_memory_requirement: u32,
}

/// The serialized shape of a reference: a bare identifier when the flags
/// are the default set, else the identifier with the flags spelled out.
#[derive(Debug, PartialEq, Eq, Structural, Clone, Copy, Hash)]
pub enum ResourceReferenceProxy {
    RuntimeID(RuntimeID),
    ReferenceWithFlags { resource: RuntimeID, flags: ReferenceFlags },
}

/// The serialized shape of a metadata record: `compressed` and `scrambled`
/// are present exactly when they diverge from the type-inferred defaults.
#[derive(Debug, PartialEq, Eq, Clone, Hash)]
pub struct ResourceMetadataProxy {
    pub id: RuntimeID,
    pub resource_type: ResourceType,
    pub compressed: Option<bool>,
    pub scrambled: Option<bool>,
    pub references: Vec<ResourceReferenceProxy>,
}

/// Failure to compute a memory requirement.
#[derive(Debug, PartialEq, Eq, Clone, Copy)]
pub enum MetadataCalculationError {
    /// The payload is too short for the per-type rule's read.
    Seek,
    /// The rule table has no entry for this type; distinct from a parse
    /// failure, so callers may treat it as "unknown, assume worst case".
    UnknownResourceType(ResourceType),
    /// The texture decoder rejected the payload.
    TextureMapError,
}

/// Failure to adopt a raw codec record as a metadata record.
#[derive(Debug, PartialEq, Eq, Structural, Clone, Copy)]
pub enum FromRpkgResourceMetaError {
    /// A reference's flag string is not a hex byte.
    InvalidFlag,
}

/// Failure to adopt a package reader's resource record as a metadata
/// record.
#[derive(Debug, PartialEq, Eq, Structural, Clone, Copy)]
pub enum FromResourceInfoError {
    /// An identifier's text form is invalid.
    InvalidID(crate::runtime_id::RuntimeIDFromHashError),
    /// The record's type tag is invalid.
    InvalidResourceType,
}

/// The type-inferred scrambling default: only a handful of types are known
/// unscrambled; anything unmatched conservatively defaults to scrambled.
pub open spec fn infer_scrambled_spec(t: ResourceType) -> bool {
    let v = t.tag_value();
    !(v == TAG_GFXV || v == TAG_TEXD)
}

/// The type-inferred compression default: known never-compressed types are
/// uncompressed; everything else, including unmatched types, defaults to
/// compressed.
pub open spec fn infer_compressed_spec(t: ResourceType) -> bool {
    let v = t.tag_value();
    if always_compressed(v) || usually_compressed(v) {
        true
    } else if never_compressed(v) {
        false
    } else {
        true
    }
}

/// The big-endian word at byte offset 8 of a payload, where stream-sized
/// types carry their memory cost.
pub open spec fn be32_at_8(data: Seq<u8>) -> u32 {
    ((data[8] as u32) << 24) | ((data[9] as u32) << 16) | ((data[10] as u32) << 8) | (
    data[11] as u32)
}

/// Clamp an exact cost into a 32-bit word, as the float-typed scale rules
/// do.
pub open spec fn sat_u32(v: int) -> u32
    recommends
        v >= 0,
{
    if v > 0xFFFFFFFF {
        0xFFFFFFFFu32
    } else {
        v as u32
    }
}

/// Truncate an exact cost into a 32-bit word, as the integer cast rules do.
pub open spec fn trunc_u32(v: int) -> u32
    recommends
        v >= 0,
{
    (v % 0x100000000) as u32
}

/// The per-type system memory rule: a sentinel for unknowable types, a
/// size word read out of the payload for the stream-sized ones, fixed
/// scale factors for a few others, and a hard error for a type with no
/// known rule.
pub open spec fn system_memory_rule(t: ResourceType, data: Seq<u8>) -> Result<
    u32,
    MetadataCalculationError,
> {
    let v = t.tag_value();
    if sysmem_unknowable(v) {
        Ok(0xFFFFFFFFu32)
    } else if sysmem_stream_sized(v) {
        if data.len() >= 12 {
            Ok(be32_at_8(data))
        } else {
            Err(MetadataCalculationError::Seek)
        }
    } else if v == TAG_ALOC {
        Ok(sat_u32(data.len() as int * 7 / 4))
    } else if sysmem_data_sized(v) {
        Ok(trunc_u32(data.len() as int))
    } else if v == TAG_PREL {
        Ok(trunc_u32(data.len() as int - 16))
    } else if v == TAG_YSHP {
        Ok(sat_u32(data.len() as int * 3 / 2))
    } else {
        Err(MetadataCalculationError::UnknownResourceType(t))
    }
}

/// The estimated video memory cost of a packed texture map.
///
/// Named, not written out: the estimate is a function of the bytes and the
/// game alone, and only the texture decoder computes it; `None` stands for
/// a rejected payload.
pub uninterp spec fn texture_map_video_memory(data: Seq<u8>, game: int) -> Option<u64>;

/// The video memory cost of a mip block.
///
/// Named like [`texture_map_video_memory`], and accurate across game
/// versions; `None` stands for a rejected payload.
pub uninterp spec fn mipblock_video_memory(data: Seq<u8>, game: int) -> Option<u64>;

/// Relies on `glacier_texture::texture_map::TextureMap::from_memory` and
/// `TextureMap::video_memory_requirement`: parses a packed texture map and
/// reports its video memory cost, a function of the bytes and the game
/// version alone.
#[verifier::external_body]
fn texture_map_requirement(data: &[u8], game_version: GameVersion) -> (r: Option<u64>)
    ensures
        r == texture_map_video_memory(data@, game_version.ordinal()),
{
    let game = match game_version {
        GameVersion::H1 => glacier_texture::GlacierGame::HM2016,
        GameVersion::H2 => glacier_texture::GlacierGame::HM2,
        GameVersion::H3 => glacier_texture::GlacierGame::HM3,
    };
    match glacier_texture::texture_map::TextureMap::from_memory(data, game) {
        Ok(t) => Some(t.video_memory_requirement() as u64),
        Err(_) => None,
    }
}

/// Relies on `glacier_texture::mipblock::MipblockData::from_memory` and
/// `MipblockData::video_memory_requirement`: parses a mip block and reports
/// its video memory cost, a function of the bytes and the game version
/// alone.
#[verifier::external_body]
fn mipblock_requirement(data: &[u8], game_version: GameVersion) -> (r: Option<u64>)
    ensures
        r == mipblock_video_memory(data@, game_version.ordinal()),
{
    let game = match game_version {
        GameVersion::H1 => glacier_texture::GlacierGame::HM2016,
        GameVersion::H2 => glacier_texture::GlacierGame::HM2,
        GameVersion::H3 => glacier_texture::GlacierGame::HM3,
    };
    match glacier_texture::mipblock::MipblockData::from_memory(data, game) {
        Ok(t) => Some(t.video_memory_requirement() as u64),
        Err(_) => None,
    }
}

/// The per-type video memory rule: a sentinel for unknowable types, zero
/// for types that never occupy video memory, the texture decoder's estimate
/// for the two texture types, and a hard error for a type with no known
/// rule.
pub open spec fn video_memory_rule(
    t: ResourceType,
    data: Seq<u8>,
    game_version: GameVersion,
) -> Result<u32, MetadataCalculationError> {
    let v = t.tag_value();
    if vidmem_unknowable(v) {
        Ok(0xFFFFFFFFu32)
    } else if vidmem_zero(v) {
        Ok(0u32)
    } else if v == TAG_TEXT {
        match texture_map_video_memory(data, game_version.ordinal()) {
            Some(c) => Ok((c & 0xFFFFFFFF) as u32),
            None => Err(MetadataCalculationError::TextureMapError),
        }
    } else if v == TAG_TEXD {
        match mipblock_video_memory(data, game_version.ordinal()) {
            Some(c) => Ok((c & 0xFFFFFFFF) as u32),
            None => Err(MetadataCalculationError::TextureMapError),
        }
    } else {
        Err(MetadataCalculationError::UnknownResourceType(t))
    }
}

/// Runtime test for [`always_compressed`].
fn is_always_compressed(v: u32) -> (r: bool)
    ensures
        r == always_compressed(v),
{
    v == TAG_REPO
        || v == TAG_ASVA
        || v == TAG_VIDB
        || v == TAG_GFXF
        || v == TAG_UICB
        || v == TAG_PRIM
        || v == TAG_WSWB
        || v == TAG_DLGE
        || v == TAG_MATI
        || v == TAG_BMSK
        || v == TAG_TBLU
        || v == TAG_AIBB
        || v == TAG_YSHP
        || v == TAG_MATE
        || v == TAG_MRTN
        || v == TAG_CRMD
        || v == TAG_WSGB
        || v == TAG_LOCR
        || v == TAG_MJBA
        || v == TAG_NAVP
        || v == TAG_BORG
        || v == TAG_ENUM
        || v == TAG_BOXC
        || v == TAG_CPPT
        || v == TAG_ECPB
        || v == TAG_FXAC
        || v == TAG_WBNK
        || v == TAG_ATMD
        || v == TAG_ORES
        || v == TAG_FXAS
        || v == TAG_MRTR
        || v == TAG_RTLV
        || v == TAG_AIBZ
        || v == TAG_GIDX
        || v == TAG_AIRG
        || v == TAG_DITL
        || v == TAG_SDEF
        || v == TAG_CBLU
        || v == TAG_TEMP
        || v == TAG_DSWB
        || v == TAG_GFXI
}

/// Runtime test for [`usually_compressed`].
fn is_usually_compressed(v: u32) -> (r: bool)
    ensures
        r == usually_compressed(v),
{
    v == TAG_MATB
        || v == TAG_SCDA
        || v == TAG_JSON
        || v == TAG_ALOC
        || v == TAG_MATT
        || v == TAG_VTXD
        || v == TAG_PREL
        || v == TAG_WWEV
}

/// Runtime test for [`never_compressed`].
fn is_never_compressed(v: u32) -> (r: bool)
    ensures
        r == never_compressed(v),
{
    v == TAG_LINE
        || v == TAG_WWES
        || v == TAG_WWEM
        || v == TAG_TEXT
        || v == TAG_ERES
        || v == TAG_GFXV
        || v == TAG_TEXD
        || v == TAG_WSGT
        || v == TAG_ASET
        || v == TAG_CLNG
        || v == TAG_ECPT
        || v == TAG_UICT
        || v == TAG_WSWT
        || v == TAG_AIBX
        || v == TAG_ASEB
}

/// Runtime test for [`sysmem_unknowable`].
fn is_sysmem_unknowable(v: u32) -> (r: bool)
    ensures
        r == sysmem_unknowable(v),
{
    v == TAG_AIBX
        || v == TAG_AIBZ
        || v == TAG_AIRG
        || v == TAG_ASEB
        || v == TAG_ASET
        || v == TAG_ASVA
        || v == TAG_ATMD
        || v == TAG_BLOB
        || v == TAG_BMSK
        || v == TAG_BORG
        || v == TAG_BOXC
        || v == TAG_CRMD
        || v == TAG_DITL
        || v == TAG_DLGE
        || v == TAG_ECPT
        || v == TAG_ENUM
        || v == TAG_ERES
        || v == TAG_GFXF
        || v == TAG_GFXI
        || v == TAG_GFXV
        || v == TAG_JSON
        || v == TAG_LINE
        || v == TAG_LOCR
        || v == TAG_MATB
        || v == TAG_MATE
        || v == TAG_MATI
        || v == TAG_MATT
        || v == TAG_NAVP
        || v == TAG_ORES
        || v == TAG_PRIM
        || v == TAG_REPO
        || v == TAG_RTLV
        || v == TAG_SDEF
        || v == TAG_TEXD
        || v == TAG_TEXT
        || v == TAG_UICT
        || v == TAG_VIDB
        || v == TAG_VTXD
        || v == TAG_WBNK
        || v == TAG_WSGT
        || v == TAG_WSWT
        || v == TAG_WWEM
        || v == TAG_WWES
        || v == TAG_WWEV
        || v == TAG_TELI
        || v == TAG_CLNG
}

/// Runtime test for [`sysmem_stream_sized`].
fn is_sysmem_stream_sized(v: u32) -> (r: bool)
    ensures
        r == sysmem_stream_sized(v),
{
    v == TAG_AIBB
        || v == TAG_CBLU
        || v == TAG_CPPT
        || v == TAG_DSWB
        || v == TAG_ECPB
        || v == TAG_GIDX
        || v == TAG_TEMP
        || v == TAG_TBLU
        || v == TAG_UICB
        || v == TAG_WSGB
        || v == TAG_WSWB
}

/// Runtime test for [`sysmem_data_sized`].
fn is_sysmem_data_sized(v: u32) -> (r: bool)
    ensures
        r == sysmem_data_sized(v),
{
    v == TAG_FXAS
        || v == TAG_MJBA
        || v == TAG_MRTN
        || v == TAG_MRTR
        || v == TAG_SCDA
}

/// Runtime test for [`sysmem_unimplemented`].
fn is_sysmem_unimplemented(v: u32) -> (r: bool)
    ensures
        r == sysmem_unimplemented(v),
{
    v == TAG_FXAC
        || v == TAG_HIKC
        || v == TAG_IMAP
        || v == TAG_SLMX
}

/// Runtime test for [`vidmem_unknowable`].
fn is_vidmem_unknowable(v: u32) -> (r: bool)
    ensures
        r == vidmem_unknowable(v),
{
    v == TAG_AIBB
        || v == TAG_AIBX
        || v == TAG_AIBZ
        || v == TAG_AIRG
        || v == TAG_ASEB
        || v == TAG_ASET
        || v == TAG_ASVA
        || v == TAG_ATMD
        || v == TAG_BLOB
        || v == TAG_BMSK
        || v == TAG_BORG
        || v == TAG_CBLU
        || v == TAG_CLNG
        || v == TAG_CPPT
        || v == TAG_CRMD
        || v == TAG_DITL
        || v == TAG_DLGE
        || v == TAG_DSWB
        || v == TAG_ECPB
        || v == TAG_ECPT
        || v == TAG_ENUM
        || v == TAG_ERES
        || v == TAG_GFXF
        || v == TAG_GFXI
        || v == TAG_GFXV
        || v == TAG_JSON
        || v == TAG_LINE
        || v == TAG_LOCR
        || v == TAG_MATB
        || v == TAG_MATE
        || v == TAG_MATI
        || v == TAG_MATT
        || v == TAG_GIDX
        || v == TAG_NAVP
        || v == TAG_ORES
        || v == TAG_PRIM
        || v == TAG_REPO
        || v == TAG_RTLV
        || v == TAG_SDEF
        || v == TAG_TBLU
        || v == TAG_TELI
        || v == TAG_TEMP
        || v == TAG_UICB
        || v == TAG_UICT
        || v == TAG_VIDB
        || v == TAG_VTXD
        || v == TAG_WBNK
        || v == TAG_WSGB
        || v == TAG_WSGT
        || v == TAG_WSWB
        || v == TAG_WSWT
        || v == TAG_WWEM
        || v == TAG_WWES
        || v == TAG_WWEV
}

/// Runtime test for [`vidmem_zero`].
fn is_vidmem_zero(v: u32) -> (r: bool)
    ensures
        r == vidmem_zero(v),
{
    v == TAG_ALOC
        || v == TAG_FXAC
        || v == TAG_FXAS
        || v == TAG_MJBA
        || v == TAG_MRTN
        || v == TAG_MRTR
        || v == TAG_PREL
        || v == TAG_SCDA
        || v == TAG_YSHP
}

/// Runtime test for [`vidmem_unimplemented`].
fn is_vidmem_unimplemented(v: u32) -> (r: bool)
    ensures
        r == vidmem_unimplemented(v),
{
    v == TAG_BOXC
        || v == TAG_HIKC
        || v == TAG_IMAP
        || v == TAG_SLMX
}

/// The serialized shape a reference takes; see [`ResourceReferenceProxy`].
pub open spec fn ref_to_proxy(r: ResourceReference) -> ResourceReferenceProxy {
    if r.flags == default_flags() {
        ResourceReferenceProxy::RuntimeID(r.resource)
    } else {
        ResourceReferenceProxy::ReferenceWithFlags { resource: r.resource, flags: r.flags }
    }
}

/// The reference a serialized shape denotes; a bare identifier carries the
/// default flag set.
pub open spec fn ref_from_proxy(p: ResourceReferenceProxy) -> ResourceReference {
    match p {
        ResourceReferenceProxy::RuntimeID(resource) => ResourceReference {
            resource,
            flags: default_flags(),
        },
        ResourceReferenceProxy::ReferenceWithFlags { resource, flags } => ResourceReference {
            resource,
            flags,
        },
    }
}

/// The `compressed` field of the serialized shape: present exactly when it
/// diverges from the type-inferred default.
pub open spec fn proxy_compressed(m: ResourceMetadata) -> Option<bool> {
    if m.compressed == infer_compressed_spec(m.resource_type) {
        None
    } else {
        Some(m.compressed)
    }
}

/// The `scrambled` field of the serialized shape, present exactly when it
/// diverges from the type-inferred default.
pub open spec fn proxy_scrambled(m: ResourceMetadata) -> Option<bool> {
    if m.scrambled == infer_scrambled_spec(m.resource_type) {
        None
    } else {
        Some(m.scrambled)
    }
}

/// `p` is the serialized shape of `m`.
pub open spec fn proxy_of(m: ResourceMetadata, p: ResourceMetadataProxy) -> bool {
    &&& p.id == m.id
    &&& p.resource_type == m.resource_type
    &&& p.compressed == proxy_compressed(m)
    &&& p.scrambled == proxy_scrambled(m)
    &&& p.references@ == m.references@.map(|i: int, r: ResourceReference| ref_to_proxy(r))
}

/// `m` is the record a serialized shape `p` denotes: absent fields are
/// re-derived from the type.
pub open spec fn unproxy_of(p: ResourceMetadataProxy, m: ResourceMetadata) -> bool {
    &&& m.id == p.id
    &&& m.resource_type == p.resource_type
    &&& m.compressed == (match p.compressed {
        Some(c) => c,
        None => infer_compressed_spec(p.resource_type),
    })
    &&& m.scrambled == (match p.scrambled {
        Some(c) => c,
        None => infer_scrambled_spec(p.resource_type),
    })
    &&& m.references@ == p.references@.map(|i: int, r: ResourceReferenceProxy| ref_from_proxy(r))
}

impl ResourceReference {
    /// The serialized shape of this reference.
    pub fn to_proxy(&self) -> (r: ResourceReferenceProxy)
        ensures
            r == ref_to_proxy(*self),
    {
        if self.flags.is_default() {
            ResourceReferenceProxy::RuntimeID(self.resource)
        } else {
            ResourceReferenceProxy::ReferenceWithFlags {
                resource: self.resource,
                flags: self.flags,
            }
        }
    }

    /// The reference a serialized shape denotes.
    pub fn from_proxy(p: ResourceReferenceProxy) -> (r: ResourceReference)
        ensures
            r == ref_from_proxy(p),
    {
        match p {
            ResourceReferenceProxy::RuntimeID(resource) => ResourceReference {
                resource,
                flags: ReferenceFlags::default(),
            },
            ResourceReferenceProxy::ReferenceWithFlags { resource, flags } => ResourceReference {
                resource,
                flags,
            },
        }
    }
}

impl ResourceMetadata {
    /// The type-inferred scrambling default; see [`infer_scrambled_spec`].
    pub fn infer_scrambled(resource_type: ResourceType) -> (r: bool)
        ensures
            r == infer_scrambled_spec(resource_type),
    {
        let v = resource_type.tag_u32();
        !(v == TAG_GFXV || v == TAG_TEXD)
    }

    /// The type-inferred compression default; see [`infer_compressed_spec`].
    pub fn infer_compressed(resource_type: ResourceType) -> (r: bool)
        ensures
            r == infer_compressed_spec(resource_type),
    {
        let v = resource_type.tag_u32();
        if is_always_compressed(v) || is_usually_compressed(v) {
            true
        } else if is_never_compressed(v) {
            false
        } else {
            true
        }
    }

    /// Estimate the system memory a resource of this type and payload
    /// occupies; see [`system_memory_rule`].
    ///
    /// The types whose rule is known to exist but unimplemented are ruled
    /// out, as is a stripped payload for the one rule that subtracts a
    /// fixed header.
    pub fn calculate_system_memory_requirement(resource_type: ResourceType, data: &[u8]) -> (r:
        Result<u32, MetadataCalculationError>)
        requires
            !sysmem_unimplemented(resource_type.tag_value()),
            resource_type.tag_value() == TAG_PREL ==> data@.len() >= 16,
        ensures
            r == system_memory_rule(resource_type, data@),
    {
        proof {
            vstd::slice::axiom_spec_len(data);
        }
        let v = resource_type.tag_u32();
        if is_sysmem_unknowable(v) {
            Ok(0xFFFFFFFFu32)
        } else if is_sysmem_stream_sized(v) {
            if data.len() >= 12 {
                let b8 = data[8];
                let b9 = data[9];
                let b10 = data[10];
                let b11 = data[11];
                Ok(
                    ((b8 as u32) << 24) | ((b9 as u32) << 16) | ((b10 as u32) << 8) | (
                    b11 as u32),
                )
            } else {
                Err(MetadataCalculationError::Seek)
            }
        } else if v == TAG_ALOC {
            let wide = (data.len() as u128) * 7 / 4;
            if wide > 0xFFFFFFFFu128 {
                Ok(0xFFFFFFFFu32)
            } else {
                Ok(wide as u32)
            }
        } else if is_sysmem_data_sized(v) {
            Ok((data.len() as u64 % 0x100000000) as u32)
        } else if v == TAG_PREL {
            Ok(((data.len() - 16) as u64 % 0x100000000) as u32)
        } else if v == TAG_YSHP {
            let wide = (data.len() as u128) * 3 / 2;
            if wide > 0xFFFFFFFFu128 {
                Ok(0xFFFFFFFFu32)
            } else {
                Ok(wide as u32)
            }
        } else {
            Err(MetadataCalculationError::UnknownResourceType(resource_type))
        }
    }

    /// Estimate the video memory a resource of this type and payload
    /// occupies; see [`video_memory_rule`]. Only approximate for packed
    /// texture maps of the newest version family, whose cost lives in the
    /// separate mip block.
    pub fn calculate_video_memory_requirement(
        resource_type: ResourceType,
        data: &[u8],
        game_version: GameVersion,
    ) -> (r: Result<u32, MetadataCalculationError>)
        requires
            !vidmem_unimplemented(resource_type.tag_value()),
        ensures
            r == video_memory_rule(resource_type, data@, game_version),
    {
        let v = resource_type.tag_u32();
        if is_vidmem_unknowable(v) {
            Ok(0xFFFFFFFFu32)
        } else if is_vidmem_zero(v) {
            Ok(0u32)
        } else if v == TAG_TEXT {
            match texture_map_requirement(data, game_version) {
                Some(c) => Ok((c & 0xFFFFFFFF) as u32),
                None => Err(MetadataCalculationError::TextureMapError),
            }
        } else if v == TAG_TEXD {
            match mipblock_requirement(data, game_version) {
                Some(c) => Ok((c & 0xFFFFFFFF) as u32),
                None => Err(MetadataCalculationError::TextureMapError),
            }
        } else {
            Err(MetadataCalculationError::UnknownResourceType(resource_type))
        }
    }

    /// This record's system memory requirement for the given payload.
    pub fn system_memory_requirement(&self, data: &[u8]) -> (r: Result<
        u32,
        MetadataCalculationError,
    >)
        requires
            !sysmem_unimplemented(self.resource_type.tag_value()),
            self.resource_type.tag_value() == TAG_PREL ==> data@.len() >= 16,
        ensures
            r == system_memory_rule(self.resource_type, data@),
    {
        Self::calculate_system_memory_requirement(self.resource_type, data)
    }

    /// This record's video memory requirement for the given payload.
    pub fn video_memory_requirement(&self, data: &[u8], game_version: GameVersion) -> (r: Result<
        u32,
        MetadataCalculationError,
    >)
        requires
            !vidmem_unimplemented(self.resource_type.tag_value()),
        ensures
            r == video_memory_rule(self.resource_type, data@, game_version),
    {
        Self::calculate_video_memory_requirement(self.resource_type, data, game_version)
    }

    /// Extend this record with both memory costs; fails if either per-type
    /// rule does, and the system memory rule is asked first.
    pub fn to_extended(self, data: &[u8], game_version: GameVersion) -> (r: Result<
        ExtendedResourceMetadata,
        MetadataCalculationError,
    >)
        requires
            !sysmem_unimplemented(self.resource_type.tag_value()),
            !vidmem_unimplemented(self.resource_type.tag_value()),
            self.resource_type.tag_value() == TAG_PREL ==> data@.len() >= 16,
        ensures
            r is Ok <==> system_memory_rule(self.resource_type, data@) is Ok && video_memory_rule(
                self.resource_type,
                data@,
                game_version,
            ) is Ok,
            r is Ok ==> r->Ok_0.core_info == self && r->Ok_0.system_memory_requirement
                == system_memory_rule(self.resource_type, data@)->Ok_0
                && r->Ok_0.video_memory_requirement == video_memory_rule(
                self.resource_type,
                data@,
                game_version,
            )->Ok_0,
            r is Err ==> r->Err_0 == (if system_memory_rule(self.resource_type, data@) is Err {
                system_memory_rule(self.resource_type, data@)->Err_0
            } else {
                video_memory_rule(self.resource_type, data@, game_version)->Err_0
            }),
    {
        let system_memory_requirement = match self.system_memory_requirement(data) {
            Ok(v) => v,
            Err(e) => {
                return Err(e);
            },
        };
        let video_memory_requirement = match self.video_memory_requirement(data, game_version) {
            Ok(v) => v,
            Err(e) => {
                return Err(e);
            },
        };
        Ok(
            ExtendedResourceMetadata {
                system_memory_requirement,
                video_memory_requirement,
                core_info: self,
            },
        )
    }

    /// The serialized shape of this record; see [`proxy_of`].
    pub fn to_proxy(&self) -> (r: ResourceMetadataProxy)
        ensures
            proxy_of(*self, r),
    {
        let compressed = if Self::infer_compressed(self.resource_type) == self.compressed {
            None
        } else {
            Some(self.compressed)
        };
        let scrambled = if Self::infer_scrambled(self.resource_type) == self.scrambled {
            None
        } else {
            Some(self.scrambled)
        };
        let mut references: Vec<ResourceReferenceProxy> = Vec::new();
        let n = self.references.len();
        let mut i: usize = 0;
        while i < n
            invariant
                n == self.references@.len(),
                0 <= i <= n,
                references@ == self.references@.subrange(0, i as int).map(
                    |k: int, r: ResourceReference| ref_to_proxy(r),
                ),
            decreases n - i,
        {
            references.push(self.references[i].to_proxy());
            proof {
                assert(references@ =~= self.references@.subrange(0, i as int + 1).map(
                    |k: int, r: ResourceReference| ref_to_proxy(r),
                ));
            }
            i += 1;
        }
        proof {
            assert(self.references@.subrange(0, n as int) =~= self.references@);
        }
        ResourceMetadataProxy {
            id: self.id,
            resource_type: self.resource_type,
            compressed,
            scrambled,
            references,
        }
    }

    /// The record a serialized shape denotes; see [`unproxy_of`].
    pub fn from_proxy(p: &ResourceMetadataProxy) -> (r: ResourceMetadata)
        ensures
            unproxy_of(*p, r),
    {
        let compressed = match p.compressed {
            Some(c) => c,
            None => Self::infer_compressed(p.resource_type),
        };
        let scrambled = match p.scrambled {
            Some(c) => c,
            None => Self::infer_scrambled(p.resource_type),
        };
        let mut references: Vec<ResourceReference> = Vec::new();
        let n = p.references.len();
        let mut i: usize = 0;
        while i < n
            invariant
                n == p.references@.len(),
                0 <= i <= n,
                references@ == p.references@.subrange(0, i as int).map(
                    |k: int, r: ResourceReferenceProxy| ref_from_proxy(r),
                ),
            decreases n - i,
        {
            references.push(ResourceReference::from_proxy(p.references[i]));
            proof {
                assert(references@ =~= p.references@.subrange(0, i as int + 1).map(
                    |k: int, r: ResourceReferenceProxy| ref_from_proxy(r),
                ));
            }
            i += 1;
        }
        proof {
            assert(p.references@.subrange(0, n as int) =~= p.references@);
        }
        ResourceMetadata {
            id: p.id,
            resource_type: p.resource_type,
            compressed,
            scrambled,
            references,
        }
    }
}

/// One raw codec reference converted: the identifier carried over and the
/// flag byte decoded with the format disambiguation heuristic.
pub open spec fn ref_converted(x: RpkgResourceReference, y: ResourceReference) -> bool {
    &&& y.resource == x.hash
    &&& y.flags == from_any_spec(flag_byte(x.flag@))
}

/// What adopting a raw codec record yields: compression read from the low
/// bits of the size word, scrambling from its top bit, references decoded
/// one by one.
pub open spec fn adopted_from(meta: RpkgResourceMeta, m: ResourceMetadata) -> bool {
    &&& m.id == meta.hash_value
    &&& m.resource_type == meta.hash_resource_type
    &&& m.compressed == (meta.hash_size & 0x7FFFFFFF != 0)
    &&& m.scrambled == (meta.hash_size & 0x80000000 == 0x80000000)
    &&& m.references@.len() == meta.hash_reference_data@.len()
    &&& forall|i: int|
        0 <= i < meta.hash_reference_data@.len() ==> ref_converted(
            #[trigger] meta.hash_reference_data@[i],
            m.references@[i],
        )
}

/// Convert a raw codec reference list into decoded references.
fn convert_references(refs: &Vec<RpkgResourceReference>) -> (r: Result<
    Vec<ResourceReference>,
    FromRpkgResourceMetaError,
>)
    ensures
        r is Ok <==> refs_encode_ok(refs@),
        r is Ok ==> r->Ok_0@.len() == refs@.len() && forall|i: int|
            0 <= i < refs@.len() ==> ref_converted(#[trigger] refs@[i], r->Ok_0@[i]),
        r is Err ==> r->Err_0 == FromRpkgResourceMetaError::InvalidFlag && !refs_encode_ok(refs@),
{
    let mut out: Vec<ResourceReference> = Vec::new();
    let n = refs.len();
    let mut i: usize = 0;
    while i < n
        invariant
            n == refs@.len(),
            0 <= i <= n,
            out@.len() == i,
            forall|k: int| 0 <= k < i ==> crate::hex::flag_str_ok((#[trigger] refs@[k]).flag@),
            forall|k: int| 0 <= k < i ==> ref_converted(#[trigger] refs@[k], out@[k]),
        decreases n - i,
    {
        let b = match parse_hex_flag(refs[i].flag.as_str()) {
            Some(b) => b,
            None => {
                proof {
                    assert(!crate::hex::flag_str_ok(refs@[i as int].flag@));
                }
                return Err(FromRpkgResourceMetaError::InvalidFlag);
            },
        };
        let converted = ResourceReference {
            resource: refs[i].hash,
            flags: ReferenceFlags::from_any(b),
        };
        let ghost before = out@;
        out.push(converted);
        proof {
            assert forall|k: int| 0 <= k < i + 1 implies ref_converted(
                #[trigger] refs@[k],
                out@[k],
            ) by {
                if k < i {
                    assert(out@[k] == before[k]);
                } else {
                    assert(out@[k] == converted);
                }
            }
        }
        i += 1;
    }
    Ok(out)
}

impl ResourceMetadata {
    /// Adopt a raw codec record; see [`adopted_from`]. Fails exactly when
    /// some reference's flag string is not a hex byte.
    pub fn try_from(meta: RpkgResourceMeta) -> (r: Result<Self, FromRpkgResourceMetaError>)
        ensures
            r is Ok <==> refs_encode_ok(meta.hash_reference_data@),
            r is Ok ==> adopted_from(meta, r->Ok_0),
            r is Err ==> r->Err_0 == FromRpkgResourceMetaError::InvalidFlag,
    {
        let references = match convert_references(&meta.hash_reference_data) {
            Ok(rs) => rs,
            Err(e) => {
                return Err(e);
            },
        };
        Ok(
            ResourceMetadata {
                id: meta.hash_value,
                resource_type: meta.hash_resource_type,
                compressed: meta.hash_size & 0x7FFFFFFF != 0,
                scrambled: meta.hash_size & 0x80000000 == 0x80000000,
                references,
            },
        )
    }
}

impl ExtendedResourceMetadata {
    /// Adopt a raw codec record, keeping its stored memory requirements.
    pub fn try_from(meta: RpkgResourceMeta) -> (r: Result<Self, FromRpkgResourceMetaError>)
        ensures
            r is Ok <==> refs_encode_ok(meta.hash_reference_data@),
            r is Ok ==> adopted_from(meta, r->Ok_0.core_info)
                && r->Ok_0.system_memory_requirement == meta.hash_size_in_memory
                && r->Ok_0.video_memory_requirement == meta.hash_size_in_video_memory,
            r is Err ==> r->Err_0 == FromRpkgResourceMetaError::InvalidFlag,
    {
        let references = match convert_references(&meta.hash_reference_data) {
            Ok(rs) => rs,
            Err(e) => {
                return Err(e);
            },
        };
        Ok(
            ExtendedResourceMetadata {
                core_info: ResourceMetadata {
                    id: meta.hash_value,
                    resource_type: meta.hash_resource_type,
                    compressed: meta.hash_size & 0x7FFFFFFF != 0,
                    scrambled: meta.hash_size & 0x80000000 == 0x80000000,
                    references,
                },
                system_memory_requirement: meta.hash_size_in_memory,
                video_memory_requirement: meta.hash_size_in_video_memory,
            },
        )
    }
}

/// Serialized-shape round-trip law: writing a record in its serialized
/// shape and reading it back reproduces the record, and a record whose
/// `compressed` and `scrambled` equal the type-inferred defaults is
/// serialized without those fields.
pub proof fn lemma_proxy_roundtrip(m: ResourceMetadata, p: ResourceMetadataProxy, m2: ResourceMetadata)
    requires
        proxy_of(m, p),
        unproxy_of(p, m2),
    ensures
        m2.id == m.id,
        m2.resource_type == m.resource_type,
        m2.compressed == m.compressed,
        m2.scrambled == m.scrambled,
        m2.references@ == m.references@,
        m.compressed == infer_compressed_spec(m.resource_type) ==> p.compressed is None,
        m.scrambled == infer_scrambled_spec(m.resource_type) ==> p.scrambled is None,
{
    assert forall|i: int| 0 <= i < m.references@.len() implies m2.references@[i]
        == m.references@[i] by {
        assert(p.references@[i] == ref_to_proxy(m.references@[i]));
        assert(m2.references@[i] == ref_from_proxy(p.references@[i]));
    }
    assert(m2.references@ =~= m.references@);
}

} // verus!
