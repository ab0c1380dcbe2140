//! The Boot Graphics Resource Table.

use crate::bits::{bit_of_u8, bit_range_u8, get_bit_u8, get_bits_u8};
use crate::bytes::{le_u16, le_u32, le_u64, read_u16, read_u32, read_u64};
use crate::sdt::{table_length, AcpiTable, SdtHeader, Signature};
use vstd::prelude::*;

verus! {

/// The size of the table: all of its fields are fixed.
pub const BGRT_TABLE_SIZE: usize = 56;

/// The BGRT table contains information about a boot graphic that was displayed
/// by firmware.
#[derive(Clone, Copy, Debug)]
pub struct Bgrt {
    pub header: SdtHeader,
    pub version: u16,
    pub status: u8,
    pub image_type: u8,
    pub image_address: u64,
    pub image_offset_x: u32,
    pub image_offset_y: u32,
}

#[derive(Clone, Copy, Debug, Eq, PartialEq, Ord, PartialOrd, Hash, Structural)]
pub enum ImageType {
    Bitmap,
    Reserved,
}

impl Bgrt {
    /// The table that the first 56 bytes of `region` encode.
    pub open spec fn decoded(region: Seq<u8>) -> Bgrt {
        Bgrt {
            header: SdtHeader::decoded(region),
            version: le_u16(region, 36) as u16,
            status: region[38],
            image_type: region[39],
            image_address: le_u64(region, 40) as u64,
            image_offset_x: le_u32(region, 48) as u32,
            image_offset_y: le_u32(region, 52) as u32,
        }
    }

    /// The format of the image. Only one is defined; every other code is reserved.
    pub fn image_type(&self) -> (image_type: ImageType)
        ensures
            image_type == if self.image_type == 0 {
                ImageType::Bitmap
            } else {
                ImageType::Reserved
            },
    {
        if self.image_type == 0 {
            ImageType::Bitmap
        } else {
            ImageType::Reserved
        }
    }

    /// Gets the orientation offset of the image.
    /// Degrees are clockwise from the image's default orientation.
    pub fn orientation_offset(&self) -> (degrees: u16)
        ensures
            degrees == 90 * ((self.status >> 1) & 3),
    {
        let status = self.status;
        let quarter_turns: u8 = get_bits_u8(status, 1, 3);
        assert(bit_range_u8(status, 1, 3) == (status >> 1) & 3 && (status >> 1) & 3 <= 3)
            by (bit_vector);
        if quarter_turns == 0 {
            0
        } else if quarter_turns == 1 {
            90
        } else if quarter_turns == 2 {
            180
        } else {
            270
        }
    }

    /// Whether firmware showed the image.
    pub fn was_displayed(&self) -> (displayed: bool)
        ensures
            displayed == (self.status & 1 == 1),
    {
        let status = self.status;
        let displayed = get_bit_u8(status, 0);
        assert(bit_of_u8(status, 0) == (status & 1 == 1)) by (bit_vector);
        displayed
    }

    /// Where on the screen the image was put: the offsets of its top left
    /// corner, horizontal first.
    pub fn image_offset(&self) -> (offset: (u32, u32))
        ensures
            offset == (self.image_offset_x, self.image_offset_y),
    {
        let x = self.image_offset_x;
        let y = self.image_offset_y;
        (x, y)
    }
}

impl<'a> AcpiTable<'a> for Bgrt {
    open spec fn table_signature() -> Signature {
        Signature::BGRT
    }

    open spec fn fixed_size() -> nat {
        BGRT_TABLE_SIZE as nat
    }

    open spec fn decodes(&self, region: Seq<u8>) -> bool {
        *self == Bgrt::decoded(region)
    }

    open spec fn table_header(&self) -> SdtHeader {
        self.header
    }

    fn signature() -> (signature: Signature) {
        Signature::BGRT
    }

    fn from_bytes(region: &'a [u8]) -> (table: Option<Self>) {
        match table_length(region, Signature::BGRT, BGRT_TABLE_SIZE) {
            Some(_) => {
                let header = SdtHeader::from_bytes(region).unwrap();
                Some(
                    Bgrt {
                        header,
                        version: read_u16(region, 36),
                        status: region[38],
                        image_type: region[39],
                        image_address: read_u64(region, 40),
                        image_offset_x: read_u32(region, 48),
                        image_offset_y: read_u32(region, 52),
                    },
                )
            },
            None => None,
        }
    }

    fn header(&self) -> (header: &SdtHeader) {
        &self.header
    }
}

} // verus!
