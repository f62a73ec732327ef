use wire_img::encoding::ImageEncoding;
use wire_img::templates::{check_templates, remove_template_pattern, TemplateSettings, TemplateType};
use wire_img::transcoder::PixelSize;

fn sample_templates() -> Vec<TemplateSettings> {
    vec![
        TemplateSettings {
            location: TemplateType::Prefix,
            name: "large".to_string(),
            size: PixelSize::new(1920, 1080),
            format: ImageEncoding::PNG,
        },
        TemplateSettings {
            location: TemplateType::Suffix,
            name: "full".to_string(),
            size: PixelSize::new(1280, 720),
            format: ImageEncoding::JPEG,
        },
    ]
}

#[test]
fn prefix_template_matches_and_strips() {
    let templates = sample_templates();
    let name = "large_photo".to_string();
    let t = check_templates(&name, &templates).expect("prefix template should match");
    assert_eq!(t.location, TemplateType::Prefix);
    assert_eq!(t.name, "large");
    assert_eq!(t.format, ImageEncoding::PNG);
    assert_eq!(remove_template_pattern(&name, t), "photo");
}

#[test]
fn suffix_template_matches_and_strips() {
    let templates = sample_templates();
    let name = "photo_full".to_string();
    let t = check_templates(&name, &templates).expect("suffix template should match");
    assert_eq!(t.location, TemplateType::Suffix);
    assert_eq!(t.name, "full");
    assert_eq!(t.format, ImageEncoding::JPEG);
    assert_eq!(remove_template_pattern(&name, t), "photo");
}

#[test]
fn name_without_delimiter_matches_nothing() {
    let templates = sample_templates();
    let name = "photo".to_string();
    assert!(check_templates(&name, &templates).is_none());
}

#[test]
fn name_equal_to_template_name_without_delimiter_matches_nothing() {
    let templates = sample_templates();
    let name = "large".to_string();
    assert!(check_templates(&name, &templates).is_none());
}

#[test]
fn first_match_wins_in_configured_order() {
    // Both templates are triggered by the same token in "big_big": the
    // scan returns the first in list order.
    let templates = vec![
        TemplateSettings {
            location: TemplateType::Suffix,
            name: "big".to_string(),
            size: PixelSize::new(10, 10),
            format: ImageEncoding::JPEG,
        },
        TemplateSettings {
            location: TemplateType::Prefix,
            name: "big".to_string(),
            size: PixelSize::new(20, 20),
            format: ImageEncoding::PNG,
        },
    ];
    let name = "big_big".to_string();
    let t = check_templates(&name, &templates).expect("should match");
    assert_eq!(t.location, TemplateType::Suffix);
    assert_eq!(*t.size.width(), 10);
}

#[test]
fn unmatched_token_falls_through() {
    let templates = sample_templates();
    let name = "thumb_photo".to_string();
    assert!(check_templates(&name, &templates).is_none());
}

#[test]
fn leading_delimiter_gives_empty_prefix_candidate() {
    let templates = vec![TemplateSettings {
        location: TemplateType::Prefix,
        name: "".to_string(),
        size: PixelSize::new(1, 1),
        format: ImageEncoding::PNG,
    }];
    let name = "_photo".to_string();
    let t = check_templates(&name, &templates).expect("empty prefix candidate should match");
    assert_eq!(t.name, "");
    assert_eq!(remove_template_pattern(&name, t), "photo");
}
