use card_atlas::geometry::{AtlasSize, Rect};
use card_atlas::pixels::{buffer_from_decoded, decode, PixelBuffer};

fn numbered(width: u32, height: u32) -> PixelBuffer {
    let mut bytes = Vec::new();
    for y in 0..height {
        for x in 0..width {
            bytes.push(x as u8);
            bytes.push(y as u8);
            bytes.push((x + y) as u8);
            bytes.push(255);
        }
    }
    PixelBuffer::new(width, height, bytes).unwrap()
}

#[test]
fn buffer_needs_four_bytes_a_pixel() {
    assert!(PixelBuffer::new(2, 2, vec![0; 15]).is_none());
    let exact = PixelBuffer::new(2, 2, vec![7; 16]).unwrap();
    assert_eq!(exact.width(), 2);
    assert_eq!(exact.height(), 2);
    assert_eq!(exact.size(), AtlasSize { width: 2, height: 2 });
    assert_eq!(exact.pixels(), &vec![7u8; 16]);
    let empty = PixelBuffer::new(0, 5, Vec::new()).unwrap();
    assert_eq!(empty.pixels().len(), 0);
}

#[test]
fn buffer_drops_bytes_beyond_the_last_pixel() {
    let mut bytes: Vec<u8> = (0..20).collect();
    let buffer = PixelBuffer::new(2, 2, bytes.clone()).unwrap();
    bytes.truncate(16);
    assert_eq!(buffer.pixels(), &bytes);
}

#[test]
fn extract_copies_the_rows_of_the_rectangle() {
    let atlas = numbered(6, 5);
    let card = atlas.extract(Rect { x: 2, y: 1, width: 3, height: 2 }).unwrap();
    assert_eq!(card.width(), 3);
    assert_eq!(card.height(), 2);
    let expected: Vec<u8> = vec![
        2, 1, 3, 255, 3, 1, 4, 255, 4, 1, 5, 255,
        2, 2, 4, 255, 3, 2, 5, 255, 4, 2, 6, 255,
    ];
    assert_eq!(card.pixels(), &expected);
}

#[test]
fn extract_of_the_whole_buffer_is_a_copy() {
    let atlas = numbered(4, 3);
    let all = atlas.extract(Rect { x: 0, y: 0, width: 4, height: 3 }).unwrap();
    assert_eq!(all, atlas);
}

#[test]
fn extract_refuses_a_rectangle_that_reaches_outside() {
    let atlas = numbered(4, 3);
    assert!(atlas.extract(Rect { x: 2, y: 0, width: 3, height: 1 }).is_none());
    assert!(atlas.extract(Rect { x: 0, y: 2, width: 1, height: 2 }).is_none());
    assert!(atlas.extract(Rect { x: 5, y: 0, width: 0, height: 0 }).is_none());
    assert!(atlas.extract(Rect { x: usize::MAX, y: 0, width: 2, height: 1 }).is_none());
    let edge = atlas.extract(Rect { x: 4, y: 3, width: 0, height: 0 }).unwrap();
    assert_eq!(edge.pixels().len(), 0);
}

#[test]
fn decoded_data_must_cover_the_image() {
    let short = buffer_from_decoded(3, 3, vec![0; 35]);
    assert_eq!(
        short.unwrap_err().reason,
        "pixel data is shorter than the image dimensions"
    );
    let ok = buffer_from_decoded(3, 3, vec![9; 36]).unwrap();
    assert_eq!((ok.width(), ok.height()), (3, 3));
}

#[test]
fn decode_rejects_bytes_that_are_no_image() {
    let error = decode(b"this is not an image").unwrap_err();
    assert!(!error.reason.is_empty());
    assert!(decode(&[]).is_err());
}

#[test]
fn decode_reads_a_png_as_rgba() {
    let mut picture = image::RgbaImage::new(3, 2);
    for (x, y, pixel) in picture.enumerate_pixels_mut() {
        *pixel = image::Rgba([x as u8 * 10, y as u8 * 20, 7, 200 + x as u8]);
    }
    let mut file = std::io::Cursor::new(Vec::new());
    picture.write_to(&mut file, image::ImageFormat::Png).unwrap();
    let bytes = file.into_inner();

    let buffer = decode(&bytes).unwrap();
    assert_eq!((buffer.width(), buffer.height()), (3, 2));
    assert_eq!(buffer.pixels(), picture.as_raw());
    assert_ne!(buffer.pixels(), &bytes);
}

#[test]
fn decode_turns_a_picture_without_alpha_into_rgba() {
    let mut picture = image::RgbImage::new(2, 1);
    picture.put_pixel(0, 0, image::Rgb([1, 2, 3]));
    picture.put_pixel(1, 0, image::Rgb([4, 5, 6]));
    let mut file = std::io::Cursor::new(Vec::new());
    picture.write_to(&mut file, image::ImageFormat::Png).unwrap();
    let buffer = decode(&file.into_inner()).unwrap();
    assert_eq!(buffer.pixels(), &vec![1, 2, 3, 255, 4, 5, 6, 255]);
}
