use wire_img::encoding::ImageEncoding;

#[test]
fn content_types_are_canonical() {
    assert_eq!(ImageEncoding::AVIF.content_type(), "image/avif");
    assert_eq!(ImageEncoding::JPEG.content_type(), "image/jpeg");
    assert_eq!(ImageEncoding::PNG.content_type(), "image/png");
}

#[test]
fn extensions_are_canonical() {
    assert_eq!(ImageEncoding::AVIF.extension(), ".avif");
    assert_eq!(ImageEncoding::JPEG.extension(), ".jpg");
    assert_eq!(ImageEncoding::PNG.extension(), ".png");
    assert_eq!(ImageEncoding::AVIF.bare_extension(), "avif");
    assert_eq!(ImageEncoding::JPEG.bare_extension(), "jpg");
    assert_eq!(ImageEncoding::PNG.bare_extension(), "png");
}

#[test]
fn parsing_accepts_known_extensions() {
    assert_eq!(ImageEncoding::from_extension("png"), Some(ImageEncoding::PNG));
    assert_eq!(ImageEncoding::from_extension("jpg"), Some(ImageEncoding::JPEG));
    assert_eq!(ImageEncoding::from_extension("jpeg"), Some(ImageEncoding::JPEG));
    assert_eq!(ImageEncoding::from_extension("avif"), Some(ImageEncoding::AVIF));
}

#[test]
fn parsing_is_case_insensitive() {
    assert_eq!(ImageEncoding::from_extension("PNG"), Some(ImageEncoding::PNG));
    assert_eq!(ImageEncoding::from_extension("Png"), Some(ImageEncoding::PNG));
    assert_eq!(ImageEncoding::from_extension("JPG"), Some(ImageEncoding::JPEG));
    assert_eq!(ImageEncoding::from_extension("Jpeg"), Some(ImageEncoding::JPEG));
    assert_eq!(ImageEncoding::from_extension("AVIF"), Some(ImageEncoding::AVIF));
}

#[test]
fn parsing_rejects_unknown_extensions() {
    assert_eq!(ImageEncoding::from_extension("gif"), None);
    assert_eq!(ImageEncoding::from_extension(""), None);
    assert_eq!(ImageEncoding::from_extension("avif2"), None);
    assert_eq!(ImageEncoding::from_extension("jp"), None);
}

#[test]
fn default_encoding_is_avif() {
    assert_eq!(ImageEncoding::default(), ImageEncoding::AVIF);
}
