use raytracer::encode::EncodeError;
use raytracer::frame::Frame;

fn gradient(width: usize, height: usize) -> Frame {
    let mut f = Frame::new(width, height);
    for y in 0..height {
        for x in 0..width {
            f.set_pixel(x, y, [(x * 40) as u8, (y * 60) as u8, ((x + y) * 10) as u8]);
        }
    }
    f
}

#[test]
fn png_starts_with_signature_and_header() {
    let f = gradient(5, 3);
    let bytes = f.encode_png().unwrap();
    assert_eq!(&bytes[0..8], &[137, 80, 78, 71, 13, 10, 26, 10]);
    assert_eq!(&bytes[12..16], b"IHDR");
    assert_eq!(&bytes[16..20], &[0, 0, 0, 5]);
    assert_eq!(&bytes[20..24], &[0, 0, 0, 3]);
    // bit depth 8, colour type 2 (RGB)
    assert_eq!(bytes[24], 8);
    assert_eq!(bytes[25], 2);
    assert_ne!(&bytes[..], &f.as_bytes()[..]);
    assert_eq!(&bytes[bytes.len() - 8..bytes.len() - 4], b"IEND");
}

#[test]
fn png_decodes_to_the_frame() {
    let f = gradient(6, 4);
    let bytes = f.encode_png().unwrap();
    let decoder = png::Decoder::new(&bytes[..]);
    let (info, mut reader) = decoder.read_info().unwrap();
    assert_eq!(info.width, 6);
    assert_eq!(info.height, 4);
    let mut buf = vec![0u8; info.buffer_size()];
    reader.next_frame(&mut buf).unwrap();
    assert_eq!(&buf, f.as_bytes());
}

#[test]
fn encoding_twice_gives_the_same_bytes() {
    let a = gradient(7, 5).encode_png().unwrap();
    let b = gradient(7, 5).encode_png().unwrap();
    assert_eq!(a, b);
}

#[test]
fn empty_frame_is_refused() {
    assert_eq!(Frame::new(0, 4).encode_png(), Err(EncodeError::EmptyImage));
    assert_eq!(Frame::new(4, 0).encode_png(), Err(EncodeError::EmptyImage));
}

#[test]
fn oversized_side_is_refused() {
    let wide = (u32::MAX as usize) + 1;
    assert_eq!(Frame::new(wide, 0).encode_png(), Err(EncodeError::TooLarge));
}
