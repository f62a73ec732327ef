use std::io::Cursor;

use image::{DynamicImage, ImageFormat, Rgba, RgbaImage};
use wire_img::config::ImageSettings;
use wire_img::encoding::ImageEncoding;
use wire_img::request::{plan_request, process, render_request, status_code, RequestError};
use wire_img::storage::StorageError;
use wire_img::templates::{TemplateSettings, TemplateType};
use wire_img::transcoder::PixelSize;

/// The canonical bytes used by these tests: a PNG built in memory.
fn canonical_png(w: u32, h: u32) -> Vec<u8> {
    let mut img = RgbaImage::new(w, h);
    for p in img.pixels_mut() {
        *p = Rgba([200, 100, 50, 255]);
    }
    let mut c = Cursor::new(Vec::new());
    DynamicImage::ImageRgba8(img)
        .write_to(&mut c, ImageFormat::Png)
        .unwrap();
    c.into_inner()
}

/// PNG canonical storage, PNG and JPEG allowed.
fn settings() -> ImageSettings {
    ImageSettings {
        formats: vec![ImageEncoding::PNG, ImageEncoding::JPEG],
        storage_format: ImageEncoding::PNG,
        input_path: "/tmp/watch-in".to_string(),
        output_path: "/tmp/watch-out".to_string(),
    }
}

fn templates() -> Vec<TemplateSettings> {
    vec![TemplateSettings {
        location: TemplateType::Prefix,
        name: "large".to_string(),
        size: PixelSize::new(4, 3),
        format: ImageEncoding::JPEG,
    }]
}

#[test]
fn disallowed_extension_is_bad_request_even_if_file_exists() {
    // AVIF parses but is absent from the allow-list; the canonical file
    // exists and could have been transcoded — still rejected.
    let read = Ok(canonical_png(8, 8));
    let r = process(
        &"photo".to_string(),
        "avif",
        None,
        &settings(),
        &templates(),
        read,
    );
    assert_eq!(r.unwrap_err(), RequestError::BadRequest);
}

#[test]
fn unknown_extension_is_bad_request() {
    let r = plan_request(&"photo".to_string(), "bmp", None, &settings(), &templates());
    assert_eq!(r.unwrap_err(), RequestError::BadRequest);
}

#[test]
fn canonical_format_without_operations_passes_bytes_through() {
    let bytes = canonical_png(8, 8);
    let r = process(
        &"photo".to_string(),
        "png",
        None,
        &settings(),
        &templates(),
        Ok(bytes.clone()),
    )
    .unwrap();
    assert_eq!(r, bytes);
}

#[test]
fn different_target_format_is_transcoded() {
    let bytes = canonical_png(8, 6);
    let r = process(
        &"photo".to_string(),
        "jpeg",
        None,
        &settings(),
        &templates(),
        Ok(bytes),
    )
    .unwrap();
    let img = image::load_from_memory_with_format(&r, ImageFormat::Jpeg).unwrap();
    assert_eq!(img.width(), 8);
    assert_eq!(img.height(), 6);
}

#[test]
fn explicit_resize_is_applied_even_to_the_canonical_format() {
    let bytes = canonical_png(8, 8);
    let r = process(
        &"photo".to_string(),
        "png",
        Some(PixelSize::new(6, 5)),
        &settings(),
        &templates(),
        Ok(bytes),
    )
    .unwrap();
    let img = image::load_from_memory_with_format(&r, ImageFormat::Png).unwrap();
    assert_eq!(img.width(), 6);
    assert_eq!(img.height(), 5);
}

#[test]
fn template_preset_overrides_requested_format_and_size() {
    let plan = plan_request(
        &"large_photo".to_string(),
        "png",
        None,
        &settings(),
        &templates(),
    )
    .unwrap();
    assert_eq!(plan.stem, "photo");
    assert_eq!(plan.requested, ImageEncoding::PNG);
    assert_eq!(plan.target, ImageEncoding::JPEG);

    let bytes = canonical_png(8, 8);
    let r = render_request(&plan, ImageEncoding::PNG, Ok(bytes)).unwrap();
    let img = image::load_from_memory_with_format(&r, ImageFormat::Jpeg).unwrap();
    assert_eq!(img.width(), 4);
    assert_eq!(img.height(), 3);
}

#[test]
fn missing_canonical_file_is_not_found() {
    let r = process(
        &"photo".to_string(),
        "png",
        None,
        &settings(),
        &templates(),
        Err(StorageError::NotFound),
    );
    assert_eq!(r.unwrap_err(), RequestError::NotFound);
}

#[test]
fn other_read_failures_are_internal() {
    let r = process(
        &"photo".to_string(),
        "png",
        None,
        &settings(),
        &templates(),
        Err(StorageError::Io),
    );
    assert_eq!(r.unwrap_err(), RequestError::Internal);
}

#[test]
fn corrupt_canonical_bytes_are_internal() {
    let r = process(
        &"photo".to_string(),
        "jpeg",
        None,
        &settings(),
        &templates(),
        Ok(b"corrupt".to_vec()),
    );
    assert_eq!(r.unwrap_err(), RequestError::Internal);
}

#[test]
fn repeated_requests_return_byte_identical_output() {
    let bytes = canonical_png(9, 7);
    let r1 = process(
        &"photo".to_string(),
        "jpeg",
        Some(PixelSize::new(5, 5)),
        &settings(),
        &templates(),
        Ok(bytes.clone()),
    )
    .unwrap();
    let r2 = process(
        &"photo".to_string(),
        "jpeg",
        Some(PixelSize::new(5, 5)),
        &settings(),
        &templates(),
        Ok(bytes),
    )
    .unwrap();
    assert_eq!(r1, r2);
}

#[test]
fn status_codes_follow_the_delivery_contract() {
    assert_eq!(status_code(RequestError::BadRequest), 400);
    assert_eq!(status_code(RequestError::NotFound), 404);
    assert_eq!(status_code(RequestError::Internal), 500);
}
