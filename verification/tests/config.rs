use wire_img::config::{ImageSettings, ServerSettings, Settings};
use wire_img::encoding::ImageEncoding;

#[test]
fn server_defaults_are_loopback_port_3000() {
    let s = ServerSettings::default();
    assert_eq!(s.port, 3000);
    assert_eq!(s.host, [127, 0, 0, 1]);
}

#[test]
fn image_defaults_allow_all_formats_and_store_avif() {
    let s = ImageSettings::default();
    assert_eq!(
        s.formats,
        vec![ImageEncoding::AVIF, ImageEncoding::JPEG, ImageEncoding::PNG]
    );
    assert_eq!(s.storage_format, ImageEncoding::AVIF);
    assert_eq!(s.input_path, "/var/lib/wire-img/in");
    assert_eq!(s.output_path, "/var/lib/wire-img/out");
}

#[test]
fn settings_default_has_no_templates() {
    let s = Settings::default();
    assert_eq!(s.server.port, 3000);
    assert_eq!(s.image.storage_format, ImageEncoding::AVIF);
    assert!(s.templates.is_empty());
}
