//! The header shared by all system description tables, and the signatures
//! by which tables are identified.

pub mod bgrt;
pub mod entries;
pub mod fadt;
pub mod hpet;
pub mod madt;
pub mod slit;
pub mod srat;

use crate::bytes::{le_u32, read_u32};
use vstd::prelude::*;

verus! {

/// The size in bytes of the header that every table starts with.
pub const SDT_HEADER_SIZE: usize = 36;

/// The tables this library knows by name. Each is identified in firmware
/// memory by a tag of four ASCII bytes.
#[derive(Clone, Copy, Debug, PartialEq, Eq, Hash, Structural)]
pub enum Signature {
    RSDT,
    XSDT,
    FADT,
    HPET,
    MADT,
    MCFG,
    SSDT,
    BGRT,
    DSDT,
    SLIT,
    SRAT,
}

impl Signature {
    /// The four bytes that a table with this signature starts with.
    pub open spec fn tag(self) -> Seq<u8> {
        match self {
            Signature::RSDT => seq![0x52u8, 0x53u8, 0x44u8, 0x54u8],
            Signature::XSDT => seq![0x58u8, 0x53u8, 0x44u8, 0x54u8],
            Signature::FADT => seq![0x46u8, 0x41u8, 0x43u8, 0x50u8],
            Signature::HPET => seq![0x48u8, 0x50u8, 0x45u8, 0x54u8],
            Signature::MADT => seq![0x41u8, 0x50u8, 0x49u8, 0x43u8],
            Signature::MCFG => seq![0x4du8, 0x43u8, 0x46u8, 0x47u8],
            Signature::SSDT => seq![0x53u8, 0x53u8, 0x44u8, 0x54u8],
            Signature::BGRT => seq![0x42u8, 0x47u8, 0x52u8, 0x54u8],
            Signature::DSDT => seq![0x44u8, 0x53u8, 0x44u8, 0x54u8],
            Signature::SLIT => seq![0x53u8, 0x4cu8, 0x49u8, 0x54u8],
            Signature::SRAT => seq![0x53u8, 0x52u8, 0x41u8, 0x54u8],
        }
    }

    /// The tag as an array, in the order in which the bytes lie in memory.
    pub fn as_bytes(self) -> (tag: [u8; 4])
        ensures
            tag@ == self.tag(),
    {
        let tag: [u8; 4] = match self {
            Signature::RSDT => [0x52, 0x53, 0x44, 0x54],
            Signature::XSDT => [0x58, 0x53, 0x44, 0x54],
            Signature::FADT => [0x46, 0x41, 0x43, 0x50],
            Signature::HPET => [0x48, 0x50, 0x45, 0x54],
            Signature::MADT => [0x41, 0x50, 0x49, 0x43],
            Signature::MCFG => [0x4d, 0x43, 0x46, 0x47],
            Signature::SSDT => [0x53, 0x53, 0x44, 0x54],
            Signature::BGRT => [0x42, 0x47, 0x52, 0x54],
            Signature::DSDT => [0x44, 0x53, 0x44, 0x54],
            Signature::SLIT => [0x53, 0x4c, 0x49, 0x54],
            Signature::SRAT => [0x53, 0x52, 0x41, 0x54],
        };
        assert(tag@ =~= self.tag());
        tag
    }

    /// Whether `bytes` starts with this signature's tag.
    pub fn tags(self, bytes: &[u8]) -> (tagged: bool)
        ensures
            tagged == has_tag(bytes@, self),
    {
        if bytes.len() < 4 {
            return false;
        }
        let tag = self.as_bytes();
        let tagged = bytes[0] == tag[0] && bytes[1] == tag[1] && bytes[2] == tag[2] && bytes[3]
            == tag[3];
        assert(tagged == (bytes@.subrange(0, 4) =~= self.tag()));
        tagged
    }
}

/// No two signatures share a tag, so a region holds a table of at most one
/// signature.
pub proof fn lemma_tags_are_distinct(first: Signature, second: Signature)
    ensures
        first.tag().len() == 4,
        first.tag() == second.tag() ==> first == second,
        forall|region: Seq<u8>|
            holds_table(region, first) && #[trigger] holds_table(region, second) ==> first
                == second,
{
    let a = first.tag();
    let b = second.tag();
    if a == b {
        assert(a[0] == b[0] && a[1] == b[1] && a[2] == b[2] && a[3] == b[3]);
    }
}

/// Whether `bytes` starts with the tag of `signature`.
pub open spec fn has_tag(bytes: Seq<u8>, signature: Signature) -> bool {
    bytes.len() >= 4 && bytes.subrange(0, 4) == signature.tag()
}

/// The length that the header at the start of `region` declares for its table.
pub open spec fn declared_length(region: Seq<u8>) -> nat {
    le_u32(region, 4)
}

/// Whether `region` starts with a table of the given signature: the tag
/// matches, and the declared length covers the header and stays inside the
/// region.
pub open spec fn holds_table(region: Seq<u8>, signature: Signature) -> bool {
    &&& region.len() >= SDT_HEADER_SIZE
    &&& has_tag(region, signature)
    &&& SDT_HEADER_SIZE <= declared_length(region) <= region.len()
}

/// Whether `region` starts with a table of the given signature that
/// declares at least `fixed_size` bytes.
pub open spec fn holds_sized_table(region: Seq<u8>, signature: Signature, fixed_size: nat) -> bool {
    holds_table(region, signature) && declared_length(region) >= fixed_size
}

/// The bytes of the table that `region` starts with: the region cut to the
/// declared length.
pub open spec fn table_bytes(region: Seq<u8>) -> Seq<u8> {
    region.subrange(0, declared_length(region) as int)
}

/// The sum of all bytes, as the checksum rule counts it.
pub open spec fn byte_sum(bytes: Seq<u8>) -> nat
    decreases bytes.len(),
{
    if bytes.len() == 0 {
        0
    } else {
        byte_sum(bytes.drop_last()) + bytes.last() as nat
    }
}

/// The fixed header at the start of every table.
#[derive(Clone, Copy, Debug)]
pub struct SdtHeader {
    pub signature: [u8; 4],
    pub length: u32,
    pub revision: u8,
    pub checksum: u8,
    pub oem_id: [u8; 6],
    pub oem_table_id: [u8; 8],
    pub oem_revision: u32,
    pub creator_id: u32,
    pub creator_revision: u32,
}

impl SdtHeader {
    /// The header that the first 36 bytes of `bytes` encode.
    pub open spec fn decoded(bytes: Seq<u8>) -> SdtHeader {
        SdtHeader {
            signature: [bytes[0], bytes[1], bytes[2], bytes[3]],
            length: le_u32(bytes, 4) as u32,
            revision: bytes[8],
            checksum: bytes[9],
            oem_id: [bytes[10], bytes[11], bytes[12], bytes[13], bytes[14], bytes[15]],
            oem_table_id: [
                bytes[16],
                bytes[17],
                bytes[18],
                bytes[19],
                bytes[20],
                bytes[21],
                bytes[22],
                bytes[23],
            ],
            oem_revision: le_u32(bytes, 24) as u32,
            creator_id: le_u32(bytes, 28) as u32,
            creator_revision: le_u32(bytes, 32) as u32,
        }
    }

    /// Decodes the header at the start of `bytes`, if there are enough
    /// bytes for one. Nothing else is checked here.
    pub fn from_bytes(bytes: &[u8]) -> (header: Option<SdtHeader>)
        ensures
            header == if bytes@.len() >= SDT_HEADER_SIZE {
                Some(Self::decoded(bytes@))
            } else {
                None
            },
    {
        if bytes.len() < SDT_HEADER_SIZE {
            return None;
        }
        Some(
            SdtHeader {
                signature: [bytes[0], bytes[1], bytes[2], bytes[3]],
                length: read_u32(bytes, 4),
                revision: bytes[8],
                checksum: bytes[9],
                oem_id: [bytes[10], bytes[11], bytes[12], bytes[13], bytes[14], bytes[15]],
                oem_table_id: [
                    bytes[16],
                    bytes[17],
                    bytes[18],
                    bytes[19],
                    bytes[20],
                    bytes[21],
                    bytes[22],
                    bytes[23],
                ],
                oem_revision: read_u32(bytes, 24),
                creator_id: read_u32(bytes, 28),
                creator_revision: read_u32(bytes, 32),
            },
        )
    }

    /// Whether this header identifies a table of the given signature: the
    /// tag matches and the declared length covers at least the header.
    pub open spec fn identifies(&self, signature: Signature) -> bool {
        self.signature@ == signature.tag() && self.length >= SDT_HEADER_SIZE
    }

    /// Checks the tag and the declared length against what a table of the
    /// given signature must have. The checksum is not part of this check.
    pub fn validate(&self, signature: Signature) -> (valid: bool)
        ensures
            valid == self.identifies(signature),
    {
        let tag = signature.as_bytes();
        let same = self.signature[0] == tag[0] && self.signature[1] == tag[1] && self.signature[2]
            == tag[2] && self.signature[3] == tag[3];
        assert(same == (self.signature@ =~= signature.tag()));
        same && self.length >= SDT_HEADER_SIZE as u32
    }
}

/// Whether the bytes of a table add up to zero modulo 256, as firmware is
/// meant to arrange through the checksum byte. A table that fails this is
/// still decoded: the check is there for callers that want to report it.
pub fn checksum_is_valid(table: &[u8]) -> (valid: bool)
    ensures
        valid == (byte_sum(table@) % 0x100 == 0),
{
    let mut sum: u8 = 0;
    let mut i: usize = 0;
    while i < table.len()
        invariant
            i <= table.len(),
            sum as nat == byte_sum(table@.subrange(0, i as int)) % 0x100,
        decreases table.len() - i,
    {
        proof {
            let next = table@.subrange(0, i + 1);
            assert(next.drop_last() =~= table@.subrange(0, i as int));
            assert(next.last() == table@[i as int]);
        }
        sum = ((sum as u16 + table[i] as u16) % 0x100) as u8;
        i = i + 1;
    }
    assert(table@.subrange(0, i as int) =~= table@);
    sum == 0
}

/// A table type that can be looked up in the table store. The type names
/// the signature under which firmware files it, says which regions of
/// memory it can be decoded from, and exposes the common header.
pub trait AcpiTable<'a>: Sized {
    /// The signature that identifies tables of this type.
    spec fn table_signature() -> Signature;

    /// The least length that a table of this type can declare: the size of
    /// its fixed fields, header included.
    spec fn fixed_size() -> nat;

    /// Whether this value is what the table at the start of `region` decodes to.
    spec fn decodes(&self, region: Seq<u8>) -> bool;

    /// The header of this table.
    spec fn table_header(&self) -> SdtHeader;

    fn signature() -> (signature: Signature)
        ensures
            signature == Self::table_signature(),
    ;

    /// Decodes the table at the start of `region`. This succeeds exactly
    /// when the region holds a table with this type's signature whose
    /// declared length covers the type's fixed fields.
    fn from_bytes(region: &'a [u8]) -> (table: Option<Self>)
        ensures
            table is Some <==> holds_sized_table(
                region@,
                Self::table_signature(),
                Self::fixed_size(),
            ),
            table matches Some(t) ==> t.decodes(region@) && t.table_header() == SdtHeader::decoded(
                region@,
            ),
    ;

    fn header(&self) -> (header: &SdtHeader)
        ensures
            *header == self.table_header(),
    ;
}

/// Checks that `region` starts with a table of the given signature that
/// declares at least `fixed_size` bytes, and returns the declared length.
pub fn table_length(region: &[u8], signature: Signature, fixed_size: usize) -> (length: Option<
    usize,
>)
    ensures
        length is Some <==> holds_sized_table(region@, signature, fixed_size as nat),
        length matches Some(n) ==> n == declared_length(region@),
{
    if region.len() < SDT_HEADER_SIZE || !signature.tags(region) {
        return None;
    }
    let declared: u32 = read_u32(region, 4);
    if declared as u64 > region.len() as u64 || declared < SDT_HEADER_SIZE as u32
        || (declared as u64) < fixed_size as u64 {
        return None;
    }
    Some(declared as usize)
}

} // verus!
