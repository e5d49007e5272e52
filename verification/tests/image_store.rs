use clipboard_png::store::{file_name, hash_bytes, plan_store, push_decimal, write_needed};
use std::collections::hash_map::DefaultHasher;
use std::hash::{Hash, Hasher};

fn png_prefix(width: u32, height: u32) -> Vec<u8> {
    let mut bytes = vec![137, 80, 78, 71, 13, 10, 26, 10, 0, 0, 0, 13, 73, 72, 68, 82];
    bytes.extend_from_slice(&width.to_be_bytes());
    bytes.extend_from_slice(&height.to_be_bytes());
    bytes.extend_from_slice(&[8, 2, 0, 0, 0]);
    bytes
}

fn expected_hash(data: &[u8]) -> u64 {
    let mut hasher = DefaultHasher::new();
    data.hash(&mut hasher);
    hasher.finish()
}

#[test]
fn hash_is_that_of_a_fresh_default_hasher() {
    for data in [&b""[..], &b"a"[..], &b"hello world"[..], &[0u8; 300][..]] {
        assert_eq!(hash_bytes(data), expected_hash(data));
    }
}

#[test]
fn hash_is_stable_and_tells_contents_apart() {
    let first = png_prefix(1, 1);
    let second = png_prefix(1, 2);
    assert_eq!(hash_bytes(&first), hash_bytes(&first.clone()));
    assert_ne!(hash_bytes(&first), hash_bytes(&second));
    assert_ne!(hash_bytes(&[]), hash_bytes(&[0]));
}

#[test]
fn file_name_is_the_hash_in_decimal() {
    assert_eq!(file_name(0), "0.png");
    assert_eq!(file_name(7), "7.png");
    assert_eq!(file_name(10), "10.png");
    assert_eq!(file_name(1234567890), "1234567890.png");
    assert_eq!(file_name(u64::MAX), "18446744073709551615.png");
    assert_eq!(file_name(9_000_000_000_000_000_009), format!("{}.png", 9_000_000_000_000_000_009u64));
}

#[test]
fn decimal_is_appended() {
    let mut text = String::from("n=");
    push_decimal(&mut text, 405);
    assert_eq!(text, "n=405");
    push_decimal(&mut text, 0);
    assert_eq!(text, "n=4050");
}

#[test]
fn different_hashes_get_different_names() {
    assert_ne!(file_name(1), file_name(10));
    assert_ne!(file_name(12), file_name(21));
    assert_ne!(file_name(0), file_name(u64::MAX));
}

#[test]
fn plan_names_the_file_by_content() {
    let png = png_prefix(1, 1);
    let plan = plan_store(&png).unwrap();
    assert_eq!(plan.width, 1);
    assert_eq!(plan.height, 1);
    assert_eq!(plan.file_name, format!("{}.png", expected_hash(&png)));
    assert!(plan.file_name.ends_with(".png"));
}

#[test]
fn same_bytes_get_the_same_plan() {
    let png = png_prefix(3, 2);
    let first = plan_store(&png).unwrap();
    let second = plan_store(&png.clone()).unwrap();
    assert_eq!(first.file_name, second.file_name);
    assert_eq!((first.width, first.height), (3, 2));
    assert_eq!((second.width, second.height), (3, 2));
}

#[test]
fn different_bytes_get_different_names() {
    let mut first = png_prefix(4, 4);
    let mut second = png_prefix(4, 4);
    first.push(1);
    second.push(2);
    let first = plan_store(&first).unwrap();
    let second = plan_store(&second).unwrap();
    assert_ne!(first.file_name, second.file_name);
}

#[test]
fn nothing_is_planned_for_unusable_streams() {
    assert!(plan_store(&[]).is_none());
    assert!(plan_store(b"not a png stream, though long enough to be one").is_none());
    assert!(plan_store(&png_prefix(0, 5)).is_none());
    assert!(plan_store(&png_prefix(5, 0)).is_none());
    assert!(plan_store(&png_prefix(0, 0)).is_none());
    assert!(plan_store(&png_prefix(5, 5)[..23]).is_none());
}

#[test]
fn a_file_is_written_once() {
    assert!(write_needed(false));
    assert!(!write_needed(true));
}

#[test]
fn record_takes_size_from_the_file_system() {
    let png = png_prefix(6, 7);
    let plan = plan_store(&png).unwrap();
    let record = plan.into_record(String::from("/data/images/1.png"), 4096);
    assert_eq!(record.path, "/data/images/1.png");
    assert_eq!(record.size, 4096);
    assert_eq!(record.width, 6);
    assert_eq!(record.height, 7);
}
