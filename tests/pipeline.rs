use avif_gateway::decode::{check_grid, decode, expand_luma, expand_rgb, sniff_png, DecodeError};
use avif_gateway::encode::{alpha_quality_quarters, ColorSpace, ConfigSnapshot};
use avif_gateway::gateway::{
    after_encode, after_fetch, decode_reply, is_success, status_text, transport_reply, upstream_url,
    ReplyBody,
};
use avif_gateway::pixel::{premultiply, premultiply_pixel, scale, PixelBuffer, Rgba8};

fn png_bytes(w: usize, h: usize, rgba: &[u8]) -> Vec<u8> {
    lodepng::encode_memory(rgba, w, h, lodepng::ColorType::RGBA, 8).unwrap()
}

#[test]
fn alpha_quality_of_80_is_90() {
    assert_eq!(alpha_quality_quarters(80), 360);
}

#[test]
fn alpha_quality_low_quality_takes_second_candidate() {
    // q = 0: a = 50, b = 2 -> 2 points = 8 quarters
    assert_eq!(alpha_quality_quarters(0), 8);
    // q = 100: a = 100, b = 127 -> 100 points
    assert_eq!(alpha_quality_quarters(100), 400);
}

#[test]
fn default_encode_params() {
    let cfg = ConfigSnapshot {
        listen: "127.0.0.1:8080".to_string(),
        upstream_base: "https://images.example".to_string(),
        quality: 80,
        speed: 6,
    };
    let p = cfg.encode_params();
    assert_eq!(p.quality, 80);
    assert_eq!(p.alpha_quality_quarters, 360);
    assert_eq!(p.speed, 6);
    assert!(!p.premultiplied_alpha);
    assert_eq!(p.color_space, ColorSpace::YCbCr);
    assert_eq!(p.threads, 0);
}

#[test]
fn premultiply_scenario_pixel() {
    let px = premultiply_pixel(Rgba8::new(200, 100, 50, 128));
    assert_eq!(px, Rgba8::new(100, 50, 25, 128));
}

#[test]
fn premultiply_edges() {
    assert_eq!(scale(255, 255), 255);
    assert_eq!(scale(255, 0), 0);
    assert_eq!(scale(1, 254), 0);
    let mut buf = PixelBuffer {
        width: 2,
        height: 1,
        pixels: vec![Rgba8::new(200, 100, 50, 128), Rgba8::new(10, 20, 30, 255)],
    };
    premultiply(&mut buf);
    assert_eq!(buf.width(), 2);
    assert_eq!(buf.height(), 1);
    assert_eq!(buf.pixels(), &vec![Rgba8::new(100, 50, 25, 128), Rgba8::new(10, 20, 30, 255)]);
}

#[test]
fn sniffs_png_signature() {
    assert!(sniff_png(&[0x89, b'P', b'N', b'G', 0x0d]));
    assert!(!sniff_png(&[0x89, b'P', b'N']));
    assert!(!sniff_png(&[0xff, 0xd8, 0xff, 0xe0]));
    assert!(!sniff_png(&[]));
}

#[test]
fn luma_samples_become_opaque_grey() {
    assert_eq!(expand_luma(&[7, 9]), vec![Rgba8::new(7, 7, 7, 255), Rgba8::new(9, 9, 9, 255)]);
    assert_eq!(expand_luma(&[]), vec![]);
}

#[test]
fn rgb_samples_become_opaque_pixels() {
    assert_eq!(
        expand_rgb(&[1, 2, 3, 4, 5, 6, 7]),
        vec![Rgba8::new(1, 2, 3, 255), Rgba8::new(4, 5, 6, 255)]
    );
}

#[test]
fn png_decodes_with_source_alpha() {
    let data = png_bytes(2, 1, &[10, 20, 30, 40, 50, 60, 70, 80]);
    let buf = decode(&data).unwrap();
    assert_eq!(buf.width, 2);
    assert_eq!(buf.height, 1);
    assert_eq!(buf.pixels.len(), 2);
    assert_eq!(buf.pixels, vec![Rgba8::new(10, 20, 30, 40), Rgba8::new(50, 60, 70, 80)]);
}

#[test]
fn truncated_png_is_png_error() {
    let data = png_bytes(2, 2, &[1u8; 16]);
    match decode(&data[..20]) {
        Err(DecodeError::Png(_)) => {}
        other => panic!("unexpected {:?}", other),
    }
}

#[test]
fn neither_png_nor_jpeg_is_jpeg_error() {
    match decode(b"plain text") {
        Err(DecodeError::Jpeg(_)) => {}
        other => panic!("unexpected {:?}", other),
    }
}

#[test]
fn cmyk_reply_is_500_and_names_cmyk() {
    let r = decode_reply(&DecodeError::UnsupportedCmyk);
    assert_eq!(r.status, 500);
    match r.body {
        ReplyBody::Text(t) => assert!(t.contains("CMYK") && t.contains("not supported")),
        _ => panic!("expected text"),
    }
}

#[test]
fn upstream_404_passes_through() {
    let r = after_fetch(404, b"").unwrap_err();
    assert_eq!(r.status, 404);
    assert_eq!(r.body, ReplyBody::Text("404".to_string()));
    assert_eq!(r.content_type(), "text/plain");
}

#[test]
fn upstream_png_decodes() {
    let data = png_bytes(1, 1, &[1, 2, 3, 4]);
    let buf = after_fetch(200, &data).unwrap();
    assert_eq!(buf.pixels, vec![Rgba8::new(1, 2, 3, 4)]);
}

#[test]
fn upstream_garbage_is_500() {
    let r = after_fetch(200, b"garbage").unwrap_err();
    assert_eq!(r.status, 500);
}

#[test]
fn encoded_bytes_are_avif_reply() {
    let r = after_encode(Ok(vec![1, 2, 3]));
    assert_eq!(r.status, 200);
    assert_eq!(r.content_type(), "image/avif");
    assert_eq!(r.body, ReplyBody::Avif(vec![1, 2, 3]));
    let e = after_encode(Err("too small".to_string()));
    assert_eq!(e.status, 500);
    assert_eq!(e.body, ReplyBody::Text("too small".to_string()));
}

#[test]
fn status_and_url_text() {
    assert_eq!(status_text(0), "0");
    assert_eq!(status_text(404), "404");
    assert_eq!(status_text(65535), "65535");
    assert!(is_success(200) && is_success(299) && !is_success(300) && !is_success(199));
    assert_eq!(upstream_url("https://img.example", "/a/b.jpg"), "https://img.example/a/b.jpg");
    let t = transport_reply("connection refused".to_string());
    assert_eq!(t.status, 502);
}

fn avif_of(buf: &PixelBuffer, cfg: &ConfigSnapshot) -> Result<Vec<u8>, String> {
    let p = cfg.encode_params();
    let pixels: Vec<ravif::RGBA8> =
        buf.pixels.iter().map(|px| ravif::RGBA8::new(px.r, px.g, px.b, px.a)).collect();
    let img = imgref::Img::new(pixels.as_slice(), buf.width, buf.height);
    let config = ravif::Config {
        quality: p.quality as f32,
        alpha_quality: p.alpha_quality_quarters as f32 / 4.0,
        speed: p.speed,
        premultiplied_alpha: p.premultiplied_alpha,
        color_space: ravif::ColorSpace::YCbCr,
        threads: p.threads,
    };
    ravif::encode_rgba(img, &config).map(|(bytes, _, _)| bytes).map_err(|e| e.to_string())
}

#[test]
fn decoded_png_encodes_to_avif_reply() {
    let cfg = ConfigSnapshot {
        listen: "127.0.0.1:8080".to_string(),
        upstream_base: "http://upstream".to_string(),
        quality: 80,
        speed: 10,
    };
    let data = png_bytes(2, 2, &[255, 0, 0, 255, 0, 255, 0, 255, 0, 0, 255, 255, 9, 9, 9, 128]);
    let buf = after_fetch(200, &data).unwrap();
    let reply = after_encode(avif_of(&buf, &cfg));
    assert_eq!(reply.status, 200);
    assert_eq!(reply.content_type(), "image/avif");
    match reply.body {
        ReplyBody::Avif(bytes) => assert!(!bytes.is_empty()),
        _ => panic!("expected avif bytes"),
    }
}

#[test]
fn zero_dimension_and_size_mismatch_are_refused() {
    assert_eq!(check_grid(0, 1, vec![]).unwrap_err(), DecodeError::ZeroDimension);
    assert_eq!(check_grid(1, 0, vec![]).unwrap_err(), DecodeError::ZeroDimension);
    let px = vec![Rgba8::new(0, 0, 0, 0); 3];
    assert_eq!(check_grid(2, 2, px).unwrap_err(), DecodeError::SizeMismatch);
    let ok = check_grid(3, 1, vec![Rgba8::new(1, 1, 1, 1); 3]).unwrap();
    assert_eq!((ok.width, ok.height, ok.pixels.len()), (3, 1, 3));
}

#[test]
fn decode_error_messages() {
    assert_eq!(DecodeError::MissingJpegInfo.message(), "Error reading JPEG info");
    assert_eq!(
        DecodeError::UnsupportedCmyk.message(),
        "CMYK JPEG is not supported. Please convert to PNG first"
    );
    assert_eq!(DecodeError::Png("bad crc".to_string()).message(), "bad crc");
    assert_eq!(DecodeError::Jpeg("no SOI".to_string()).message(), "no SOI");
    let r = decode_reply(&DecodeError::ZeroDimension);
    assert_eq!(r.status, 500);
    assert_eq!(r.body, ReplyBody::Text("image has a zero dimension".to_string()));
}

#[test]
fn upstream_failure_statuses_pass_through() {
    let r = after_fetch(503, b"ignored").unwrap_err();
    assert_eq!(r.status, 503);
    assert_eq!(r.body, ReplyBody::Text("503".to_string()));
    let r = after_fetch(301, b"").unwrap_err();
    assert_eq!(r.status, 301);
}
