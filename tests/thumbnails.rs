use pixelark::cache::{
    find_cached_file, next_action, ItemAction, ItemEvent, ThumbnailCache, ThumbnailOutcome,
    SMALL_FILE_FLOOR,
};
use pixelark::codec::{
    accept_encoded, accept_scaled_jpeg, png_thumbnail_pixels, resize_pixels_data, scale_to_eighth,
    webp_thumbnail_pixels, FailureStage, PixelBuffer, PixelLayout,
};
use pixelark::media::{MediaElement, MediaFormat};

fn rgb_data(width: u32, height: u32) -> Vec<u8> {
    (0..width * height * 3).map(|i| (i % 251) as u8).collect()
}

fn png_with(width: u32, height: u32, color: png::ColorType, data: &[u8]) -> Vec<u8> {
    let mut out = Vec::new();
    {
        let mut encoder = png::Encoder::new(&mut out, width, height);
        encoder.set_color(color);
        encoder.set_depth(png::BitDepth::Eight);
        let mut writer = encoder.write_header().unwrap();
        writer.write_image_data(data).unwrap();
    }
    out
}

fn png_rgb(width: u32, height: u32) -> Vec<u8> {
    png_with(width, height, png::ColorType::Rgb, &rgb_data(width, height))
}

fn source(name: &str, format: MediaFormat, size: u64) -> MediaElement {
    MediaElement {
        full_path: format!("/photos/{}", name),
        media_type: format,
        media_name: name.split('.').next().unwrap().to_string(),
        width: 64,
        height: 32,
        size,
    }
}

fn empty_cache() -> ThumbnailCache {
    ThumbnailCache { directory: "/photos/.cache/trip".to_string(), entries: Vec::new() }
}

fn finished(action: ItemAction) -> ThumbnailOutcome {
    match action {
        ItemAction::Finish(outcome) => outcome,
        other => panic!("expected the entry to finish, got {:?}", describe(&other)),
    }
}

fn describe(action: &ItemAction) -> String {
    match action {
        ItemAction::ReadSource(p) => format!("read {}", p),
        ItemAction::DecodeScaledJpeg(_) => "decode".to_string(),
        ItemAction::EncodeJpeg(p) => format!("encode {}x{}", p.width, p.height),
        ItemAction::WriteCache(p, _) => format!("write {}", p),
        ItemAction::Finish(_) => "finish".to_string(),
    }
}

#[test]
fn eighth_scale_rounds_down() {
    assert_eq!(scale_to_eighth(2000, 1000), (250, 125));
    assert_eq!(scale_to_eighth(15, 7), (1, 0));
}

#[test]
fn nearest_resize_samples_pixel_centres() {
    let width = 16u32;
    let height = 16u32;
    let pixels: Vec<u8> = (0..width * height).flat_map(|i| {
        let x = (i % width) as u8;
        let y = (i / width) as u8;
        [x, y, 7]
    }).collect();
    let out = resize_pixels_data(pixels, PixelLayout::Rgb, width, height, scale_to_eighth).unwrap();
    assert_eq!((out.width, out.height), (2, 2));
    assert_eq!(out.layout, PixelLayout::Rgb);
    assert_eq!(out.pixels, vec![4, 4, 7, 12, 4, 7, 4, 12, 7, 12, 12, 7]);
}

#[test]
fn resize_rejects_a_short_buffer() {
    let e = resize_pixels_data(vec![0; 10], PixelLayout::Rgb, 16, 16, scale_to_eighth).unwrap_err();
    assert_eq!(e.stage, FailureStage::BufferSize);
}

#[test]
fn resize_rejects_a_long_buffer() {
    let e = resize_pixels_data(vec![0; 16 * 16 * 4 + 1], PixelLayout::Rgba, 16, 16, scale_to_eighth)
        .unwrap_err();
    assert_eq!(e.stage, FailureStage::BufferSize);
}

#[test]
fn resize_rejects_a_zero_side() {
    let e = resize_pixels_data(vec![0; 7 * 64 * 3], PixelLayout::Rgb, 7, 64, scale_to_eighth)
        .unwrap_err();
    assert_eq!(e.stage, FailureStage::ZeroScaledSize);
}

#[test]
fn png_thumbnail_is_an_eighth_of_the_source() {
    let p = png_thumbnail_pixels(&png_rgb(64, 32)).unwrap();
    assert_eq!((p.width, p.height, p.layout), (8, 4, PixelLayout::Rgb));
    assert_eq!(p.pixels.len(), 8 * 4 * 3);
}

#[test]
fn png_with_alpha_keeps_four_channels() {
    let data: Vec<u8> = (0..64 * 32 * 4).map(|i| (i % 200) as u8).collect();
    let p = png_thumbnail_pixels(&png_with(64, 32, png::ColorType::Rgba, &data)).unwrap();
    assert_eq!((p.width, p.height, p.layout), (8, 4, PixelLayout::Rgba));
    assert_eq!(p.pixels.len(), 8 * 4 * 4);
}

#[test]
fn grayscale_png_is_unsupported() {
    let data = vec![9u8; 64 * 32];
    let e = png_thumbnail_pixels(&png_with(64, 32, png::ColorType::Grayscale, &data)).unwrap_err();
    assert_eq!(e.stage, FailureStage::UnsupportedLayout);
}

#[test]
fn tiny_png_scales_to_nothing() {
    let e = png_thumbnail_pixels(&png_rgb(7, 40)).unwrap_err();
    assert_eq!(e.stage, FailureStage::ZeroScaledSize);
}

#[test]
fn corrupt_png_fails_to_decode() {
    let mut bytes = png_rgb(64, 32);
    bytes.truncate(40);
    assert_eq!(png_thumbnail_pixels(&bytes).unwrap_err().stage, FailureStage::Decode);
}

#[test]
fn webp_thumbnail_is_an_eighth_of_the_source() {
    let data = rgb_data(64, 32);
    let encoded = webp::Encoder::from_rgb(&data, 64, 32).encode_lossless().to_vec();
    let p = webp_thumbnail_pixels(&encoded).unwrap();
    assert_eq!((p.width, p.height, p.layout), (8, 4, PixelLayout::Rgb));
    assert_eq!(p.pixels.len(), 8 * 4 * 3);
}

#[test]
fn corrupt_webp_fails_to_decode() {
    let e = webp_thumbnail_pixels(b"RIFF\x10\0\0\0WEBPVP8 junk").unwrap_err();
    assert_eq!(e.stage, FailureStage::Decode);
}

#[test]
fn scaled_jpeg_must_fill_its_buffer() {
    let ok = PixelBuffer { width: 2, height: 1, layout: PixelLayout::Rgb, pixels: vec![1; 6] };
    assert_eq!(accept_scaled_jpeg(ok).unwrap().pixels, vec![1; 6]);
    let short = PixelBuffer { width: 2, height: 1, layout: PixelLayout::Rgb, pixels: vec![1; 5] };
    assert_eq!(accept_scaled_jpeg(short).unwrap_err().stage, FailureStage::BufferSize);
    let empty = PixelBuffer { width: 0, height: 1, layout: PixelLayout::Rgb, pixels: vec![] };
    assert_eq!(accept_scaled_jpeg(empty).unwrap_err().stage, FailureStage::ZeroScaledSize);
    let rgba = PixelBuffer { width: 1, height: 1, layout: PixelLayout::Rgba, pixels: vec![1; 4] };
    assert_eq!(accept_scaled_jpeg(rgba).unwrap_err().stage, FailureStage::UnsupportedLayout);
}

#[test]
fn empty_encoding_is_a_failure() {
    assert_eq!(accept_encoded(Vec::new()).unwrap_err().stage, FailureStage::EmptyEncoding);
    assert_eq!(accept_encoded(vec![0xff, 0xd8]).unwrap(), vec![0xff, 0xd8]);
}

#[test]
fn cache_lookup_matches_stems_not_extensions() {
    let set = vec!["b.jpg".to_string(), "a.png".to_string(), "a.jpg".to_string()];
    assert_eq!(find_cached_file("a", &set), Some(&"a.png".to_string()));
    assert_eq!(find_cached_file("b", &set), Some(&"b.jpg".to_string()));
    assert_eq!(find_cached_file("c", &set), None);
    assert_eq!(find_cached_file("a", &Vec::new()), None);
}

#[test]
fn small_source_is_its_own_thumbnail() {
    let e = source("tiny.png", MediaFormat::PNG, SMALL_FILE_FLOOR - 1);
    let outcome = finished(next_action(&e, &empty_cache(), ItemEvent::Start));
    assert!(matches!(outcome, ThumbnailOutcome::SmallSource));
    assert_eq!(outcome.thumbnail_path(&e), "/photos/tiny.png");
}

#[test]
fn source_at_the_floor_is_read() {
    let e = source("edge.png", MediaFormat::PNG, SMALL_FILE_FLOOR);
    match next_action(&e, &empty_cache(), ItemEvent::Start) {
        ItemAction::ReadSource(p) => assert_eq!(p, "/photos/edge.png"),
        other => panic!("unexpected {}", describe(&other)),
    }
}

#[test]
fn cached_thumbnail_is_used_as_it_is() {
    let e = source("a.png", MediaFormat::PNG, 5000);
    let cache = ThumbnailCache {
        directory: "/photos/.cache/trip".to_string(),
        entries: vec!["z.jpg".to_string(), "a.jpg".to_string()],
    };
    let outcome = finished(next_action(&e, &cache, ItemEvent::Start));
    assert_eq!(outcome.thumbnail_path(&e), "/photos/.cache/trip/a.jpg");
}

#[test]
fn jpeg_source_goes_to_decoder_scaling() {
    let e = source("c.jpg", MediaFormat::JPG, 5000);
    match next_action(&e, &empty_cache(), ItemEvent::SourceRead(Ok(vec![0xff, 0xd8, 0xff]))) {
        ItemAction::DecodeScaledJpeg(b) => assert_eq!(b, vec![0xff, 0xd8, 0xff]),
        other => panic!("unexpected {}", describe(&other)),
    }
    let decoded = PixelBuffer { width: 3, height: 2, layout: PixelLayout::Rgb, pixels: vec![5; 18] };
    match next_action(&e, &empty_cache(), ItemEvent::JpegDecoded(Ok(decoded))) {
        ItemAction::EncodeJpeg(p) => assert_eq!((p.width, p.height), (3, 2)),
        other => panic!("unexpected {}", describe(&other)),
    }
}

#[test]
fn png_source_goes_to_the_encoder_downscaled() {
    let e = source("d.png", MediaFormat::PNG, 5000);
    match next_action(&e, &empty_cache(), ItemEvent::SourceRead(Ok(png_rgb(64, 32)))) {
        ItemAction::EncodeJpeg(p) => assert_eq!((p.width, p.height, p.pixels.len()), (8, 4, 96)),
        other => panic!("unexpected {}", describe(&other)),
    }
}

#[test]
fn encoded_thumbnail_is_written_under_the_stem() {
    let e = source("d.png", MediaFormat::PNG, 5000);
    match next_action(&e, &empty_cache(), ItemEvent::JpegEncoded(Ok(vec![1, 2, 3]))) {
        ItemAction::WriteCache(path, bytes) => {
            assert_eq!(path, "/photos/.cache/trip/d.jpg");
            assert_eq!(bytes, vec![1, 2, 3]);
        }
        other => panic!("unexpected {}", describe(&other)),
    }
    let outcome = finished(next_action(&e, &empty_cache(), ItemEvent::CacheWritten(Ok(()))));
    assert!(matches!(&outcome, ThumbnailOutcome::Generated(p) if p == "/photos/.cache/trip/d.jpg"));
}

#[test]
fn every_failure_falls_back_to_the_source() {
    let e = source("f.png", MediaFormat::PNG, 5000);
    let cache = empty_cache();
    let cases = vec![
        (ItemEvent::SourceRead(Err("gone".to_string())), FailureStage::Read),
        (ItemEvent::SourceRead(Ok(b"not a png".to_vec())), FailureStage::Decode),
        (ItemEvent::JpegDecoded(Err("bad".to_string())), FailureStage::Decode),
        (ItemEvent::JpegEncoded(Err("bad".to_string())), FailureStage::Encode),
        (ItemEvent::JpegEncoded(Ok(Vec::new())), FailureStage::EmptyEncoding),
        (ItemEvent::CacheWritten(Err("full".to_string())), FailureStage::Write),
    ];
    for (event, stage) in cases {
        let outcome = finished(next_action(&e, &cache, event));
        match &outcome {
            ThumbnailOutcome::Fallback(err) => assert_eq!(err.stage, stage),
            _ => panic!("expected a fallback"),
        }
        assert_eq!(outcome.thumbnail_path(&e), "/photos/f.png");
    }
}

#[test]
fn resize_to_the_same_size_keeps_every_pixel() {
    let pixels = rgb_data(5, 3);
    let out = resize_pixels_data(pixels.clone(), PixelLayout::Rgb, 5, 3, |w, h| (w, h)).unwrap();
    assert_eq!((out.width, out.height), (5, 3));
    assert_eq!(out.pixels, pixels);
}

#[test]
fn webp_with_alpha_keeps_four_channels() {
    let data: Vec<u8> = (0..64 * 32 * 4).map(|i| (i % 199) as u8).collect();
    let encoded = webp::Encoder::from_rgba(&data, 64, 32).encode_lossless().to_vec();
    let p = webp_thumbnail_pixels(&encoded).unwrap();
    assert_eq!((p.width, p.height, p.layout), (8, 4, PixelLayout::Rgba));
    assert_eq!(p.pixels.len(), 8 * 4 * 4);
}

#[test]
fn refused_scaled_jpeg_falls_back_with_its_reason() {
    let e = source("g.jpg", MediaFormat::JPG, 5000);
    let cases = vec![
        (PixelBuffer { width: 2, height: 2, layout: PixelLayout::Rgba, pixels: vec![0; 16] }, FailureStage::UnsupportedLayout),
        (PixelBuffer { width: 0, height: 2, layout: PixelLayout::Rgb, pixels: vec![] }, FailureStage::ZeroScaledSize),
        (PixelBuffer { width: 2, height: 2, layout: PixelLayout::Rgb, pixels: vec![0; 11] }, FailureStage::BufferSize),
    ];
    for (decoded, stage) in cases {
        match finished(next_action(&e, &empty_cache(), ItemEvent::JpegDecoded(Ok(decoded)))) {
            ThumbnailOutcome::Fallback(err) => assert_eq!(err.stage, stage),
            _ => panic!("expected a fallback"),
        }
    }
}
