//! The header that precedes each rectangle of a framebuffer update.
use crate::types::{Rect, VncEncoding};
use vstd::prelude::*;

verus! {

/// The value of two bytes, the more significant one first.
pub open spec fn big_endian_16(b0: u8, b1: u8) -> u16 {
    (b0 * 0x100 + b1) as u16
}

/// The value of four bytes, the most significant one first.
pub open spec fn big_endian_32(b0: u8, b1: u8, b2: u8, b3: u8) -> u32 {
    (b0 * 0x100_0000 + b1 * 0x1_0000 + b2 * 0x100 + b3) as u32
}

proof fn digits_of_16(value: u16, b0: u8, b1: u8)
    ensures
        big_endian_16(b0, b1) == value <==> {
            &&& b0 == (value / 0x100) as u8
            &&& b1 == (value % 0x100) as u8
        },
{
}

proof fn digits_of_32(value: u32, b0: u8, b1: u8, b2: u8, b3: u8)
    ensures
        big_endian_32(b0, b1, b2, b3) == value <==> {
            &&& b0 == (value / 0x100_0000) as u8
            &&& b1 == (value / 0x1_0000 % 0x100) as u8
            &&& b2 == (value / 0x100 % 0x100) as u8
            &&& b3 == (value % 0x100) as u8
        },
{
    let upper = value / 0x100;
    let middle = value / 0x1_0000;
    assert(middle == upper / 0x100);
    assert(value / 0x100_0000 == middle / 0x100);
}

fn u16_from_bytes(b0: u8, b1: u8) -> (value: u16)
    ensures
        value == big_endian_16(b0, b1),
{
    assert((b0 as u16) << 8 | b1 as u16 == b0 * 0x100 + b1) by (bit_vector);
    (b0 as u16) << 8 | b1 as u16
}

fn u32_from_bytes(b0: u8, b1: u8, b2: u8, b3: u8) -> (value: u32)
    ensures
        value == big_endian_32(b0, b1, b2, b3),
{
    assert((b0 as u32) << 24 | (b1 as u32) << 16 | (b2 as u32) << 8 | b3 as u32 == b0 * 0x100_0000
        + b1 * 0x1_0000 + b2 * 0x100 + b3) by (bit_vector);
    (b0 as u32) << 24 | (b1 as u32) << 16 | (b2 as u32) << 8 | b3 as u32
}

/// A rectangle of the screen, and how its pixels are encoded.
#[derive(Debug, Clone, Copy, PartialEq, Eq, Structural)]
pub struct ImageRect {
    pub rect: Rect,
    pub encoding: VncEncoding,
}

impl ImageRect {
    /// The place of the rectangle that a header announces: four numbers of 16
    /// bits, which are x, y, width and height.
    pub open spec fn place(header: [u8; 12]) -> Rect {
        Rect {
            x: big_endian_16(header[0], header[1]),
            y: big_endian_16(header[2], header[3]),
            width: big_endian_16(header[4], header[5]),
            height: big_endian_16(header[6], header[7]),
        }
    }

    /// The code of the encoding that a header announces: its last 32 bits.
    pub open spec fn code(header: [u8; 12]) -> u32 {
        big_endian_32(header[8], header[9], header[10], header[11])
    }

    /// What a header announces.
    pub open spec fn announced(header: [u8; 12]) -> Result<ImageRect, u32> {
        match VncEncoding::of_code(ImageRect::code(header)) {
            Some(encoding) => Ok(ImageRect { rect: ImageRect::place(header), encoding }),
            None => Err(ImageRect::code(header)),
        }
    }

    /// Reads a header; the error is the code of an encoding that the client
    /// does not know.
    pub fn from(header: [u8; 12]) -> (read: Result<ImageRect, u32>)
        ensures
            read == ImageRect::announced(header),
    {
        let code: u32 = u32_from_bytes(header[8], header[9], header[10], header[11]);
        match VncEncoding::from_code(code) {
            Some(encoding) => Ok(
                ImageRect {
                    rect: Rect {
                        x: u16_from_bytes(header[0], header[1]),
                        y: u16_from_bytes(header[2], header[3]),
                        width: u16_from_bytes(header[4], header[5]),
                        height: u16_from_bytes(header[6], header[7]),
                    },
                    encoding,
                },
            ),
            None => Err(code),
        }
    }

    /// The header that announces this rectangle.
    pub open spec fn header(self) -> Seq<u8> {
        seq![
            (self.rect.x / 0x100) as u8,
            (self.rect.x % 0x100) as u8,
            (self.rect.y / 0x100) as u8,
            (self.rect.y % 0x100) as u8,
            (self.rect.width / 0x100) as u8,
            (self.rect.width % 0x100) as u8,
            (self.rect.height / 0x100) as u8,
            (self.rect.height % 0x100) as u8,
            (self.encoding.code() / 0x100_0000) as u8,
            (self.encoding.code() / 0x1_0000 % 0x100) as u8,
            (self.encoding.code() / 0x100 % 0x100) as u8,
            (self.encoding.code() % 0x100) as u8,
        ]
    }

    /// A header announces a rectangle exactly if it is the header of that
    /// rectangle: every rectangle is read back as it was written, and no two
    /// headers are read alike.
    pub proof fn header_announces_its_rectangle(self, header: [u8; 12])
        ensures
            header@ == self.header() <==> ImageRect::announced(header) == Ok::<ImageRect, u32>(self),
    {
        let rect = self.rect;
        let code = self.encoding.code();
        self.encoding.code_identifies_encoding(ImageRect::code(header));
        assert(ImageRect::announced(header) == Ok::<ImageRect, u32>(self) <==> {
            &&& ImageRect::place(header) == rect
            &&& ImageRect::code(header) == code
        });
        digits_of_16(rect.x, header[0], header[1]);
        digits_of_16(rect.y, header[2], header[3]);
        digits_of_16(rect.width, header[4], header[5]);
        digits_of_16(rect.height, header[6], header[7]);
        digits_of_32(code, header[8], header[9], header[10], header[11]);
        same_header(header, self.header());
    }
}

/// Twelve bytes are equal if each of them is.
proof fn same_header(header: [u8; 12], bytes: Seq<u8>)
    requires
        bytes.len() == 12,
    ensures
        header@ == bytes <==> {
            &&& header[0] == bytes[0]
            &&& header[1] == bytes[1]
            &&& header[2] == bytes[2]
            &&& header[3] == bytes[3]
            &&& header[4] == bytes[4]
            &&& header[5] == bytes[5]
            &&& header[6] == bytes[6]
            &&& header[7] == bytes[7]
            &&& header[8] == bytes[8]
            &&& header[9] == bytes[9]
            &&& header[10] == bytes[10]
            &&& header[11] == bytes[11]
        },
{
    if header@ != bytes {
        let i = choose|i: int| 0 <= i < 12 && header@[i] != bytes[i];
        assert(header@ =~= bytes || header@[i] != bytes[i]);
    }
}

/// A header is four numbers of 16 bits and one of 32 bits, each with its most
/// significant byte first. The first four are x, y, width and height of the
/// rectangle, and the last is the number of its encoding, by which alone it is
/// decided whether the rectangle can be taken.
pub proof fn header_is_read_number_by_number(header: [u8; 12])
    ensures
        ImageRect::announced(header) matches Ok(image) ==> {
            &&& image.rect.x == header[0] * 0x100 + header[1]
            &&& image.rect.y == header[2] * 0x100 + header[3]
            &&& image.rect.width == header[4] * 0x100 + header[5]
            &&& image.rect.height == header[6] * 0x100 + header[7]
            &&& image.encoding.code() == header[8] * 0x100_0000 + header[9] * 0x1_0000 + header[10]
                * 0x100 + header[11]
        },
        ImageRect::announced(header) matches Err(code) ==> {
            &&& code == header[8] * 0x100_0000 + header[9] * 0x1_0000 + header[10] * 0x100
                + header[11]
            &&& forall|encoding: VncEncoding| (#[trigger] encoding.code()) != code
        },
{
    let code = ImageRect::code(header);
    assert forall|encoding: VncEncoding|
        (#[trigger] encoding.code()) == code implies ImageRect::announced(header) is Ok by {
        encoding.code_identifies_encoding(code);
    }
    if let Ok(image) = ImageRect::announced(header) {
        image.encoding.code_identifies_encoding(code);
    }
}

/// Two headers that differ only in their places announce rectangles of the same
/// encoding, and two that differ only in their encodings announce the same
/// place.
pub proof fn place_and_encoding_are_apart(a: [u8; 12], b: [u8; 12])
    requires
        ImageRect::announced(a) is Ok,
        ImageRect::announced(b) is Ok,
    ensures
        (forall|i: int| 0 <= i < 8 ==> a[i] == b[i]) ==> ImageRect::announced(a)->Ok_0.rect
            == ImageRect::announced(b)->Ok_0.rect,
        (forall|i: int| 8 <= i < 12 ==> a[i] == b[i]) ==> ImageRect::announced(a)->Ok_0.encoding
            == ImageRect::announced(b)->Ok_0.encoding,
{
}

} // verus!
