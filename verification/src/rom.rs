//! Cartridge images: the header that describes one, and the image as a
//! read-only device.

use vstd::prelude::*;
use crate::device::DeviceRead;

verus! {

/// The length of the header in front of an image.
pub const HEADER_SIZE: usize = 16;

/// The size of one chunk of program memory.
pub const PRG_CHUNK_SIZE: u32 = 16384;

/// The size of one chunk of character memory.
pub const CHR_CHUNK_SIZE: u32 = 8192;

/// Why a file was not accepted as a cartridge image.
#[derive(Clone, Copy, Debug, PartialEq, Eq, Structural)]
pub enum RomError {
    /// The file does not start with the four signature bytes.
    HeaderSignatureInvalid,
    /// The file is shorter than a header.
    HeaderTruncated,
}

/// What a header says of the image behind it.
#[derive(Clone, Copy, Debug, PartialEq, Eq, Structural)]
pub struct Header {
    pub prg_chunks: u8,
    pub chr_chunks: u8,
}

/// A cartridge image.
pub struct Rom {
    prg_size: u32,
    chr_size: u32,
    bytes: Vec<u8>,
}

/// What a cartridge image is: the sizes that its header gave, and the bytes
/// behind the header.
pub struct RomView {
    pub prg_size: u32,
    pub chr_size: u32,
    pub bytes: Seq<u8>,
}

impl View for Rom {
    type V = RomView;

    closed spec fn view(&self) -> RomView {
        RomView { prg_size: self.prg_size, chr_size: self.chr_size, bytes: self.bytes@ }
    }
}

/// Whether `data` starts with the signature: the letters N, E, S and the byte
/// 0x1A.
pub open spec fn has_signature(data: Seq<u8>) -> bool {
    &&& data.len() >= 4
    &&& data[0] == 0x4E
    &&& data[1] == 0x45
    &&& data[2] == 0x53
    &&& data[3] == 0x1A
}

/// The header at the start of `data`, or why there is none.
pub open spec fn parse_header(data: Seq<u8>) -> Result<Header, RomError> {
    if data.len() < HEADER_SIZE {
        Err(RomError::HeaderTruncated)
    } else if !has_signature(data) {
        Err(RomError::HeaderSignatureInvalid)
    } else {
        Ok(Header { prg_chunks: data[4], chr_chunks: data[5] })
    }
}

/// The image that the file `data` holds, or why it holds none.
pub open spec fn parse_rom(data: Seq<u8>) -> Result<RomView, RomError> {
    match parse_header(data) {
        Ok(header) => Ok(
            RomView {
                prg_size: (header.prg_chunks * PRG_CHUNK_SIZE) as u32,
                chr_size: (header.chr_chunks * CHR_CHUNK_SIZE) as u32,
                bytes: data.subrange(HEADER_SIZE as int, data.len() as int),
            },
        ),
        Err(e) => Err(e),
    }
}

impl Rom {
    /// Reads the header at the start of a file.
    pub fn read_header(data: &Vec<u8>) -> (r: Result<Header, RomError>)
        ensures
            r == parse_header(data@),
    {
        if data.len() < HEADER_SIZE {
            return Err(RomError::HeaderTruncated);
        }
        if data[0] == 0x4E && data[1] == 0x45 && data[2] == 0x53 && data[3] == 0x1A {
            Ok(Header { prg_chunks: data[4], chr_chunks: data[5] })
        } else {
            Err(RomError::HeaderSignatureInvalid)
        }
    }

    /// Takes a file apart into its header and the image behind it.
    pub fn from_bytes(data: Vec<u8>) -> (r: Result<Rom, RomError>)
        ensures
            match parse_rom(data@) {
                Ok(view) => r is Ok && r->Ok_0@ == view,
                Err(e) => r is Err && r->Err_0 == e,
            },
    {
        let header = match Self::read_header(&data) {
            Ok(header) => header,
            Err(e) => {
                return Err(e);
            },
        };
        let mut data = data;
        let bytes = data.split_off(HEADER_SIZE);
        Ok(
            Rom {
                prg_size: header.prg_chunks as u32 * PRG_CHUNK_SIZE,
                chr_size: header.chr_chunks as u32 * CHR_CHUNK_SIZE,
                bytes,
            },
        )
    }

    /// The size of the program memory, as the header gave it.
    pub fn prg_size(&self) -> (size: u32)
        ensures
            size == self@.prg_size,
    {
        self.prg_size
    }

    /// The size of the character memory, as the header gave it.
    pub fn chr_size(&self) -> (size: u32)
        ensures
            size == self@.chr_size,
    {
        self.chr_size
    }

    /// The bytes of the image.
    pub fn as_bytes(self) -> (bytes: Vec<u8>)
        ensures
            bytes@ == self@.bytes,
    {
        self.bytes
    }
}

impl RomView {
    /// The byte that the image answers at `address`: the address is folded
    /// into the image by the image's length, so that an image repeats through
    /// whatever range it is connected to. An empty image answers zero.
    pub open spec fn read(self, address: u16) -> u8 {
        if self.bytes.len() > 0 {
            self.bytes[address as int % self.bytes.len() as int]
        } else {
            0
        }
    }
}

impl DeviceRead for Rom {
    open spec fn spec_device_read(state: RomView, address: u16) -> u8 {
        state.read(address)
    }

    fn device_read(&self, address: u16) -> (value: u8) {
        let len: usize = self.bytes.len();
        if len > 0 {
            self.bytes[address as usize % len]
        } else {
            0
        }
    }
}

} // verus!
