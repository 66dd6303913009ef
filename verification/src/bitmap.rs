//! The bitmap marshaler: turns a portable, self-describing image into the
//! single contiguous block the foreign drawing primitives consume — a
//! fixed-layout native header immediately followed by the raw pixel
//! payload, with no padding and no transformation of the pixel bytes.
//!
//! The native header's fields are narrower than the portable container's;
//! an image whose dimensions do not fit them is rejected with a size-limit
//! error rather than silently truncated, and a payload not evenly
//! divisible by the width is rejected rather than given a truncated
//! scanline.

use vstd::prelude::*;

verus! {

/// Number of bytes in the native bitmap header: width, height and
/// scanline as two little-endian bytes each, depth as one byte, with no
/// padding before the payload.
pub const NATIVE_HEADER_LEN: usize = 7;

/// The little-endian 16-bit value at byte offset `i` of a byte sequence.
pub open spec fn le_u16_at(data: Seq<u8>, i: int) -> int {
    data[i] + 0x100 * data[i + 1]
}

/// The little-endian 32-bit value at byte offset `i` of a byte sequence.
pub open spec fn le_u32_at(data: Seq<u8>, i: int) -> int {
    data[i] + 0x100 * data[i + 1] + 0x10000 * data[i + 2] + 0x1000000 * data[i + 3]
}

/// Whether a byte sequence carries the portable container's 38-byte
/// header: the two magic bytes `BM` followed by the little-endian header
/// fields.
pub open spec fn has_portable_header(data: Seq<u8>) -> bool {
    data.len() >= 38 && data[0] == 0x42 && data[1] == 0x4d
}

/// The byte offset at which the portable container says its pixel data
/// starts: the little-endian 32-bit field at byte offset 10.
pub open spec fn portable_data_start(data: Seq<u8>) -> int {
    le_u32_at(data, 10)
}

/// A portable, self-describing image: dimensions, bits per pixel, and the
/// raw pixel payload, as the portable bitmap decoder supplies them.
pub struct PortableBitmap {
    /// Image width in pixels.
    pub width: u32,
    /// Image height in pixels.
    pub height: u32,
    /// Bits per pixel.
    pub depth: u16,
    /// The raw pixel bytes.
    pub payload: Vec<u8>,
}

/// The native bitmap block's contents: the fixed-width header fields the
/// foreign drawing primitives read, and the pixel payload that follows
/// them unchanged.
pub struct NativeBitmap {
    /// Image width in pixels.
    pub width: u16,
    /// Image height in pixels.
    pub height: u16,
    /// Bits per pixel.
    pub depth: u8,
    /// Bytes per scanline, derived as payload length over width.
    pub scanline: u16,
    /// The pixel payload, copied from the source byte for byte.
    pub data: Vec<u8>,
}

/// Relies on tinybmp's `Bmp::from_slice`: it parses the container's
/// 38-byte header (the magic bytes `BM`, then little-endian fields, with
/// the pixel-data offset at byte 10, the width at byte 18, the height at
/// byte 22 and the bits per pixel at byte 28), succeeds exactly when the
/// input is at least 38 bytes long and starts with the magic, and takes
/// the pixel data to be everything from the stated offset to the end of
/// the input. It indexes the input with that offset unchecked, so inputs
/// whose stated offset lies beyond the end are left out here.
#[verifier::external_body]
fn decode_portable(data: &Vec<u8>) -> (r: Option<PortableBitmap>)
    requires
        has_portable_header(data@) ==> portable_data_start(data@) <= data@.len(),
    ensures
        r is Some <==> has_portable_header(data@),
        r matches Some(b) ==> {
            &&& b.width as int == le_u32_at(data@, 18)
            &&& b.height as int == le_u32_at(data@, 22)
            &&& b.depth as int == le_u16_at(data@, 28)
            &&& b.payload@ == data@.subrange(portable_data_start(data@), data@.len() as int)
        },
{
    match tinybmp::Bmp::from_slice(data.as_slice()) {
        Ok(bmp) => Some(
            PortableBitmap {
                width: bmp.header.image_width,
                height: bmp.header.image_height,
                depth: bmp.header.bpp,
                payload: bmp.image_data().to_vec(),
            },
        ),
        Err(()) => None,
    }
}

impl PortableBitmap {
    /// Decodes a portable bitmap container into its header fields and
    /// pixel payload. Returns `None` for an input without the container's
    /// 38-byte header, and for a malformed container whose stated
    /// pixel-data offset lies beyond the end of the input.
    pub fn parse(data: &Vec<u8>) -> (r: Option<PortableBitmap>)
        ensures
            r is Some <==> (has_portable_header(data@) && portable_data_start(data@)
                <= data@.len()),
            r matches Some(b) ==> {
                &&& b.width as int == le_u32_at(data@, 18)
                &&& b.height as int == le_u32_at(data@, 22)
                &&& b.depth as int == le_u16_at(data@, 28)
                &&& b.payload@ == data@.subrange(portable_data_start(data@), data@.len() as int)
            },
    {
        if data.len() >= 38 && data[0] == 0x42 && data[1] == 0x4d {
            let start: u64 = (data[10] as u64) + 0x100 * (data[11] as u64) + 0x10000 * (data[12]
                as u64) + 0x1000000 * (data[13] as u64);
            if start > data.len() as u64 {
                return None;
            }
            decode_portable(data)
        } else {
            decode_portable(data)
        }
    }
}

/// Why a portable bitmap cannot be marshaled into the native layout.
#[derive(Debug, Copy, Clone, PartialEq, Eq, Structural)]
pub enum ConvertError {
    /// The width is zero, so no scanline can be derived.
    ZeroWidth,
    /// The width does not fit the native header's 16-bit width field.
    WidthTooLarge,
    /// The height does not fit the native header's 16-bit height field.
    HeightTooLarge,
    /// The depth does not fit the native header's 8-bit depth field.
    DepthTooLarge,
    /// The payload length is not evenly divisible by the width, so the
    /// derived scanline would lose bytes.
    UnevenPayload,
    /// The derived scanline does not fit the native header's 16-bit
    /// scanline field.
    ScanlineTooLarge,
}

/// The error `convert` rejects a portable bitmap with, checked in this
/// order; `None` exactly where the bitmap marshals.
pub open spec fn convert_error(width: int, height: int, depth: int, payload_len: int) -> Option<
    ConvertError,
> {
    if width == 0 {
        Some(ConvertError::ZeroWidth)
    } else if width > 0xffff {
        Some(ConvertError::WidthTooLarge)
    } else if height > 0xffff {
        Some(ConvertError::HeightTooLarge)
    } else if depth > 0xff {
        Some(ConvertError::DepthTooLarge)
    } else if payload_len % width != 0 {
        Some(ConvertError::UnevenPayload)
    } else if payload_len / width > 0xffff {
        Some(ConvertError::ScanlineTooLarge)
    } else {
        None
    }
}

/// How a marshaled native bitmap relates to its portable source: the
/// header fields carry the source's width, height and depth exactly, the
/// scanline is the payload length over the width, and the payload is
/// copied byte for byte.
pub open spec fn is_marshaled(src: PortableBitmap, n: NativeBitmap) -> bool {
    &&& n.width as int == src.width as int
    &&& n.height as int == src.height as int
    &&& n.depth as int == src.depth as int
    &&& n.scanline as int == src.payload@.len() as int / src.width as int
    &&& n.data@ == src.payload@
}

/// Marshals a portable bitmap into the native layout: the header fields
/// are the source's width, height and depth narrowed without loss, the
/// scanline is derived as payload length over width, and the payload is
/// taken over unchanged. A bitmap whose dimensions do not fit the native
/// header's fields, or whose payload is not evenly divisible by its
/// width, is rejected with the matching error.
pub fn convert(src: PortableBitmap) -> (r: Result<NativeBitmap, ConvertError>)
    ensures
        r is Ok <==> convert_error(
            src.width as int,
            src.height as int,
            src.depth as int,
            src.payload@.len() as int,
        ) is None,
        r matches Err(e) ==> Some(e) == convert_error(
            src.width as int,
            src.height as int,
            src.depth as int,
            src.payload@.len() as int,
        ),
        r matches Ok(n) ==> is_marshaled(src, n),
{
    if src.width == 0 {
        return Err(ConvertError::ZeroWidth);
    }
    if src.width > 0xffff {
        return Err(ConvertError::WidthTooLarge);
    }
    if src.height > 0xffff {
        return Err(ConvertError::HeightTooLarge);
    }
    if src.depth > 0xff {
        return Err(ConvertError::DepthTooLarge);
    }
    let width: usize = src.width as usize;
    if src.payload.len() % width != 0 {
        return Err(ConvertError::UnevenPayload);
    }
    let scanline: usize = src.payload.len() / width;
    if scanline > 0xffff {
        return Err(ConvertError::ScanlineTooLarge);
    }
    Ok(
        NativeBitmap {
            width: src.width as u16,
            height: src.height as u16,
            depth: src.depth as u8,
            scanline: scanline as u16,
            data: src.payload,
        },
    )
}

/// The two little-endian bytes of a 16-bit header field.
pub open spec fn le_bytes16(v: u16) -> Seq<u8> {
    seq![(v as int % 256) as u8, (v as int / 256) as u8]
}

/// The seven header bytes of the native block: width, height, depth,
/// scanline, in that order, 16-bit fields little-endian.
pub open spec fn header_bytes(width: u16, height: u16, depth: u8, scanline: u16) -> Seq<u8> {
    le_bytes16(width) + le_bytes16(height) + seq![depth] + le_bytes16(scanline)
}

/// The bytes of the whole native block: the header immediately followed
/// by the pixel payload, with no padding.
pub open spec fn block_bytes(n: NativeBitmap) -> Seq<u8> {
    header_bytes(n.width, n.height, n.depth, n.scanline) + n.data@
}

impl NativeBitmap {
    /// Serializes the native bitmap into its single contiguous block: the
    /// seven header bytes immediately followed by the pixel payload. The
    /// whole block is constructed before it is returned.
    pub fn to_block(&self) -> (b: Vec<u8>)
        ensures
            b@ == block_bytes(*self),
            b@.len() == NATIVE_HEADER_LEN + self.data@.len(),
    {
        let mut b: Vec<u8> = Vec::new();
        b.push((self.width % 256) as u8);
        b.push((self.width / 256) as u8);
        b.push((self.height % 256) as u8);
        b.push((self.height / 256) as u8);
        b.push(self.depth);
        b.push((self.scanline % 256) as u8);
        b.push((self.scanline / 256) as u8);
        assert(b@ =~= header_bytes(self.width, self.height, self.depth, self.scanline));
        let n: usize = self.data.len();
        let mut i: usize = 0;
        while i < n
            invariant
                i <= n,
                n == self.data@.len(),
                b@ =~= header_bytes(self.width, self.height, self.depth, self.scanline)
                    + self.data@.subrange(0, i as int),
            decreases n - i,
        {
            b.push(self.data[i]);
            i = i + 1;
        }
        assert(self.data@.subrange(0, n as int) =~= self.data@);
        assert(b@ =~= block_bytes(*self));
        b
    }
}

/// Law: the byte range of the native block immediately following the
/// header equals the source pixel payload byte for byte — an identity
/// copy, with the block exactly one header longer than the payload.
pub proof fn lemma_payload_copied_identically(src: PortableBitmap, n: NativeBitmap)
    requires
        is_marshaled(src, n),
    ensures
        block_bytes(n).len() == NATIVE_HEADER_LEN + src.payload@.len(),
        block_bytes(n).subrange(NATIVE_HEADER_LEN as int, block_bytes(n).len() as int)
            == src.payload@,
{
    assert(block_bytes(n).subrange(NATIVE_HEADER_LEN as int, block_bytes(n).len() as int)
        =~= src.payload@);
}

} // verus!
