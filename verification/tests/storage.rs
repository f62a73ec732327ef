use wire_img::storage::{parse_bucket_name, BucketedStorage, DiskStorage, File};

#[test]
fn file_accessors_return_parts() {
    let file = File::new("empty", "jpg");
    assert_eq!(file.name(), "empty");
    assert_eq!(file.extension(), "jpg");
}

#[test]
fn file_name_joins_stem_and_extension() {
    let file = File::new("empty", "jpg");
    assert_eq!(file.file_name(), "empty.jpg");
}

#[test]
fn flat_storage_addresses_base_slash_name_dot_extension() {
    let storage = DiskStorage::new("/tmp/pixel_tester");
    let file = File::new("empty", "jpg");
    let path = storage.file_path(&file);
    assert_eq!(path, format!("{}/{}", "/tmp/pixel_tester", file.file_name()));
    assert_eq!(path, "/tmp/pixel_tester/empty.jpg");
}

#[test]
fn bucket_name_parses_as_hex_id() {
    assert_eq!(
        parse_bucket_name("00000000000000000000000000000001"),
        Some(1)
    );
    assert_eq!(
        parse_bucket_name("000000000000000000000000000000ff"),
        Some(255)
    );
    assert_eq!(
        parse_bucket_name("00000000000000000000000000000010"),
        Some(16)
    );
    assert_eq!(
        parse_bucket_name("ffffffffffffffffffffffffffffffff"),
        Some(u128::MAX)
    );
}

#[test]
fn bucket_name_of_wrong_shape_is_discarded() {
    assert_eq!(parse_bucket_name(""), None);
    assert_eq!(parse_bucket_name("0123"), None);
    assert_eq!(parse_bucket_name("0000000000000000000000000000000g"), None);
    // Upper-case digits are not the on-disk form.
    assert_eq!(parse_bucket_name("000000000000000000000000000000FF"), None);
    assert_eq!(parse_bucket_name("000000000000000000000000000000001"), None);
}

#[test]
fn scan_keeps_only_bucket_names() {
    let names = vec![
        "00000000000000000000000000000002".to_string(),
        "not-a-bucket".to_string(),
        "00000000000000000000000000000001".to_string(),
        "lost+found".to_string(),
    ];
    let storage = BucketedStorage::from_scan("/data".to_string(), &names);
    assert_eq!(storage.bucket_count(), 2);
    assert_eq!(storage.base_path(), "/data");
}

#[test]
fn first_write_creates_a_single_bucket() {
    let names: Vec<String> = Vec::new();
    let mut storage = BucketedStorage::from_scan("/data".to_string(), &names);
    assert_eq!(storage.bucket_count(), 0);

    let fresh = "0000000000000000000000000000000a";
    let plan = storage.add_file_plan(fresh, "0000000000000000000000000000000b", "avif");
    assert!(plan.create_bucket);
    assert_eq!(plan.bucket_name, fresh);
    assert_eq!(
        plan.path,
        "/data/0000000000000000000000000000000a/0000000000000000000000000000000b.avif"
    );
    assert_eq!(storage.bucket_count(), 1);
}

#[test]
fn second_write_reuses_the_single_bucket() {
    let names: Vec<String> = Vec::new();
    let mut storage = BucketedStorage::from_scan("/data".to_string(), &names);

    let plan1 = storage.add_file_plan(
        "0000000000000000000000000000000a",
        "00000000000000000000000000000001",
        "avif",
    );
    assert!(plan1.create_bucket);

    let plan2 = storage.add_file_plan(
        "0000000000000000000000000000000c",
        "00000000000000000000000000000002",
        "avif",
    );
    assert!(!plan2.create_bucket);
    assert_eq!(plan2.bucket_name, plan1.bucket_name);
    assert_eq!(storage.bucket_count(), 1);
}

#[test]
fn writes_go_to_the_bucket_with_the_maximum_id() {
    let names = vec![
        "00000000000000000000000000000009".to_string(),
        "000000000000000000000000000000ff".to_string(),
        "00000000000000000000000000000010".to_string(),
    ];
    let mut storage = BucketedStorage::from_scan("/data".to_string(), &names);
    assert_eq!(storage.bucket_count(), 3);

    let plan = storage.add_file_plan(
        "00000000000000000000000000000001",
        "00000000000000000000000000000002",
        "png",
    );
    assert!(!plan.create_bucket);
    assert_eq!(plan.bucket_name, "000000000000000000000000000000ff");
    assert_eq!(
        plan.path,
        "/data/000000000000000000000000000000ff/00000000000000000000000000000002.png"
    );
}
