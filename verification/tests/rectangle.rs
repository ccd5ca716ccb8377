use vnc::{ImageRect, Rect, VncEncoding};

fn header(place: [u8; 8], code: [u8; 4]) -> [u8; 12] {
    let mut bytes = [0_u8; 12];
    bytes[..8].copy_from_slice(&place);
    bytes[8..].copy_from_slice(&code);
    bytes
}

#[test]
fn header_is_read_most_significant_byte_first() {
    let bytes = header([0x01, 0x02, 0x03, 0x04, 0x05, 0x06, 0x07, 0x08], [0, 0, 0, 0]);
    let expected = ImageRect {
        rect: Rect { x: 0x0102, y: 0x0304, width: 0x0506, height: 0x0708 },
        encoding: VncEncoding::Raw,
    };
    assert_eq!(ImageRect::from(bytes), Ok(expected));
}

#[test]
fn header_of_the_largest_rectangle_is_read() {
    let bytes = header([0xff; 8], [0xff, 0xff, 0xff, 0x20]);
    let expected = ImageRect {
        rect: Rect { x: 65535, y: 65535, width: 65535, height: 65535 },
        encoding: VncEncoding::LastRectPseudo,
    };
    assert_eq!(ImageRect::from(bytes), Ok(expected));
}

#[test]
fn every_encoding_has_its_registered_number() {
    let numbers: [(i32, VncEncoding); 12] = [
        (0, VncEncoding::Raw),
        (1, VncEncoding::CopyRect),
        (7, VncEncoding::Tight),
        (15, VncEncoding::Trle),
        (16, VncEncoding::Zrle),
        (-239, VncEncoding::CursorPseudo),
        (-223, VncEncoding::DesktopSizePseudo),
        (-224, VncEncoding::LastRectPseudo),
        (-32, VncEncoding::JPEGQualityLevel0),
        (-28, VncEncoding::JPEGQualityLevel4),
        (-26, VncEncoding::JPEGQualityLevel6),
        (-23, VncEncoding::JPEGQualityLevel9),
    ];
    for (number, encoding) in numbers {
        assert_eq!(VncEncoding::from_code(number as u32), Some(encoding));
        let read = ImageRect::from(header([0; 8], number.to_be_bytes())).unwrap();
        assert_eq!(read.encoding, encoding);
    }
}

#[test]
fn unknown_encoding_is_reported_by_its_code() {
    assert_eq!(VncEncoding::from_code(5), None);
    assert_eq!(ImageRect::from(header([9; 8], [0, 0, 0, 5])), Err(5));
    assert_eq!(
        ImageRect::from(header([9; 8], [0x12, 0x34, 0x56, 0x78])),
        Err(0x1234_5678)
    );
}

#[test]
fn rectangles_written_as_headers_are_read_back() {
    for (x, y) in [(0_u16, 0_u16), (255, 256), (1919, 1079), (65535, 1)] {
        let mut bytes = [0_u8; 12];
        bytes[0..2].copy_from_slice(&x.to_be_bytes());
        bytes[2..4].copy_from_slice(&y.to_be_bytes());
        bytes[4..6].copy_from_slice(&y.to_be_bytes());
        bytes[6..8].copy_from_slice(&x.to_be_bytes());
        bytes[8..12].copy_from_slice(&16_u32.to_be_bytes());
        let read = ImageRect::from(bytes).unwrap();
        assert_eq!(read.rect, Rect { x, y, width: y, height: x });
        assert_eq!(read.encoding, VncEncoding::Zrle);
    }
}
