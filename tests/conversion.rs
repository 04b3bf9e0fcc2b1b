use clyde_gif::assembler::{create_gif, FRAME_DELAY};
use clyde_gif::decoder::{decode_image, from_outcome, DecodedImage};
use clyde_gif::{check_status, convert, QueryParameters, ServiceError};
use std::io::Cursor;

fn png_of(img: image::RgbaImage) -> Vec<u8> {
    let mut buf = Vec::new();
    image::DynamicImage::ImageRgba8(img)
        .write_to(&mut Cursor::new(&mut buf), image::ImageOutputFormat::Png)
        .unwrap();
    buf
}

struct GifFrame {
    width: u16,
    height: u16,
    delay: u16,
    rgba: Vec<u8>,
}

fn gif_frames(bytes: &[u8]) -> (u16, u16, Vec<GifFrame>) {
    let mut opts = gif::DecodeOptions::new();
    opts.set_color_output(gif::ColorOutput::RGBA);
    let mut dec = opts.read_info(Cursor::new(bytes)).unwrap();
    let (w, h) = (dec.width(), dec.height());
    let mut frames = Vec::new();
    while let Some(f) = dec.read_next_frame().unwrap() {
        frames.push(GifFrame { width: f.width, height: f.height, delay: f.delay, rgba: f.buffer.to_vec() });
    }
    (w, h, frames)
}

#[test]
fn png_becomes_two_frame_gif() {
    let png = png_of(image::RgbaImage::from_pixel(200, 200, image::Rgba([10, 20, 30, 255])));
    let gif = convert(png).ok().unwrap();
    assert_eq!(&gif[..6], b"GIF89a");
    let (w, h, frames) = gif_frames(&gif);
    assert_eq!((w, h), (200, 200));
    assert_eq!(frames.len(), 2);
    for f in &frames {
        assert_eq!((f.width, f.height), (200, 200));
        assert_eq!(f.delay, FRAME_DELAY);
    }
}

#[test]
fn suffixed_url_takes_same_path() {
    let q = QueryParameters::from_query(Some("https://example.com/avatar.png.gif".to_string())).ok().unwrap();
    assert_eq!(q.effective_url(), "https://example.com/avatar.png");
    let png = png_of(image::RgbaImage::from_pixel(200, 200, image::Rgba([1, 2, 3, 255])));
    let (_, _, frames) = gif_frames(&convert(png).ok().unwrap());
    assert_eq!(frames.len(), 2);
}

#[test]
fn placeholder_frame_is_all_zero() {
    let img = DecodedImage { width: 3, height: 2, pixels: vec![200u8; 24] };
    let (_, _, frames) = gif_frames(&create_gif(img).ok().unwrap());
    assert_eq!(frames[0].rgba, vec![0u8; 24]);
}

#[test]
fn second_frame_round_trips() {
    let mut pixels = Vec::new();
    for i in 0..12u8 {
        pixels.extend_from_slice(&[i * 20, 255 - i * 10, i, 255]);
    }
    let img = DecodedImage { width: 4, height: 3, pixels: pixels.clone() };
    let (w, h, frames) = gif_frames(&create_gif(img).ok().unwrap());
    assert_eq!((w, h), (4, 3));
    assert_eq!(frames[1].rgba, pixels);
}

#[test]
fn decode_reads_png_pixels() {
    let mut src = image::RgbaImage::new(2, 3);
    src.put_pixel(1, 2, image::Rgba([9, 8, 7, 255]));
    let img = decode_image(png_of(src.clone())).ok().unwrap();
    assert_eq!((img.width, img.height), (2, 3));
    assert_eq!(img.pixels, src.into_raw());
}

#[test]
fn text_body_is_decode_error() {
    let e = convert(b"hello, this is plain text\n".to_vec()).err().unwrap();
    assert!(matches!(e, ServiceError::Decode(_) | ServiceError::UnsupportedFormat(_)));
    assert_eq!(e.status(), 400);
    match e {
        ServiceError::Decode(m) | ServiceError::UnsupportedFormat(m) => assert!(!m.is_empty()),
        _ => unreachable!(),
    }
}

#[test]
fn truncated_png_is_decode_error() {
    let png = png_of(image::RgbaImage::from_pixel(20, 20, image::Rgba([5, 5, 5, 255])));
    let e = decode_image(png[..png.len() - 20].to_vec()).err().unwrap();
    match e {
        ServiceError::Decode(m) => assert!(!m.is_empty()),
        _ => panic!("expected a decode error"),
    }
}

#[test]
fn oversized_body_never_decoded() {
    let e = convert(vec![0u8; 25_000_000]).err().unwrap();
    assert!(matches!(e, ServiceError::UpstreamFetch(_)));
    assert_eq!(e.status(), 400);
}

#[test]
fn wide_image_is_encode_error() {
    let img = DecodedImage { width: 70_000, height: 1, pixels: vec![0u8; 280_000] };
    let e = create_gif(img).err().unwrap();
    assert!(matches!(e, ServiceError::Encode(_)));
    assert_eq!(e.status(), 500);
}

#[test]
fn upstream_status_checked() {
    assert!(check_status(200).is_ok());
    assert!(check_status(299).is_ok());
    match check_status(404) {
        Err(ServiceError::UpstreamFetch(m)) => assert_eq!(m, "the origin answered with status 404"),
        _ => panic!("expected an upstream error"),
    }
    assert!(matches!(check_status(199), Err(ServiceError::UpstreamFetch(_))));
}

#[test]
fn outcome_unsupported_keeps_text() {
    let r = from_outcome(Err((true, "format not recognised".to_string())));
    match r {
        Err(ServiceError::UnsupportedFormat(m)) => assert_eq!(m, "format not recognised"),
        _ => panic!("expected an unsupported format"),
    }
}

#[test]
fn outcome_failure_without_text_is_described() {
    match from_outcome(Err((false, String::new()))) {
        Err(ServiceError::Decode(m)) => assert_eq!(m, "the bytes do not hold a decodable image"),
        _ => panic!("expected a decode error"),
    }
}

#[test]
fn outcome_without_pixels_is_decode_error() {
    match from_outcome(Ok((0, 5, Vec::new()))) {
        Err(ServiceError::Decode(m)) => assert_eq!(m, "the image has no pixels"),
        _ => panic!("expected a decode error"),
    }
}

#[test]
fn outcome_with_pixels_is_image() {
    let img = from_outcome(Ok((1, 2, vec![1, 2, 3, 4, 5, 6, 7, 8]))).ok().unwrap();
    assert_eq!((img.width, img.height), (1, 2));
    assert_eq!(img.pixels, vec![1, 2, 3, 4, 5, 6, 7, 8]);
}
