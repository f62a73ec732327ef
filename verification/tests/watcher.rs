use std::io::Cursor;

use image::{DynamicImage, ImageFormat, Rgba, RgbaImage};
use wire_img::encoding::ImageEncoding;
use wire_img::transcoder::TranscodeError;
use wire_img::watcher::{plan_ingest, should_ingest, FsEventKind, IngestOutcome};

fn png_bytes(w: u32, h: u32) -> Vec<u8> {
    let mut img = RgbaImage::new(w, h);
    for p in img.pixels_mut() {
        *p = Rgba([5, 5, 250, 255]);
    }
    let mut c = Cursor::new(Vec::new());
    DynamicImage::ImageRgba8(img)
        .write_to(&mut c, ImageFormat::Png)
        .unwrap();
    c.into_inner()
}

#[test]
fn only_file_creations_are_ingested() {
    assert!(should_ingest(FsEventKind::CreateFile));
    assert!(!should_ingest(FsEventKind::CreateOther));
    assert!(!should_ingest(FsEventKind::Other));
}

#[test]
fn zero_byte_file_is_never_stored() {
    // A zero-length read is a transient condition: nothing is stored, the
    // read is retried.
    let empty: Vec<u8> = Vec::new();
    let outcome = plan_ingest("photo", "png", &empty, ImageEncoding::PNG, false);
    assert!(matches!(outcome, IngestOutcome::NotReady));
}

#[test]
fn readable_content_is_stored_under_stem_and_canonical_extension() {
    let bytes = png_bytes(6, 4);
    let outcome = plan_ingest("photo", "png", &bytes, ImageEncoding::JPEG, false);
    match outcome {
        IngestOutcome::Store(plan) => {
            assert_eq!(plan.name, "photo");
            assert_eq!(plan.extension, "jpg");
            assert!(!plan.delete_source);
            let img = image::load_from_memory_with_format(&plan.bytes, ImageFormat::Jpeg).unwrap();
            assert_eq!(img.width(), 6);
            assert_eq!(img.height(), 4);
        }
        other => panic!("expected a store plan, got {:?}", other),
    }
}

#[test]
fn delete_original_toggle_is_carried_into_the_plan() {
    let bytes = png_bytes(3, 3);
    let outcome = plan_ingest("photo", "png", &bytes, ImageEncoding::PNG, true);
    match outcome {
        IngestOutcome::Store(plan) => assert!(plan.delete_source),
        other => panic!("expected a store plan, got {:?}", other),
    }
}

#[test]
fn unreadable_content_fails_without_storing() {
    let garbage = b"not an image".to_vec();
    let outcome = plan_ingest("photo", "txt", &garbage, ImageEncoding::PNG, false);
    assert!(matches!(
        outcome,
        IngestOutcome::Failed(TranscodeError::UnsupportedFormat)
    ));
}

#[test]
fn undecodable_content_with_known_hint_fails_without_storing() {
    let garbage = b"not an image".to_vec();
    let outcome = plan_ingest("photo", "png", &garbage, ImageEncoding::PNG, false);
    assert!(matches!(
        outcome,
        IngestOutcome::Failed(TranscodeError::DecodeFailure)
    ));
}
