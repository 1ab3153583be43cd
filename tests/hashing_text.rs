use pastepaw_core::{calculate_hash, extract_text, text_preview};

#[test]
fn hash_of_abc_is_known_digest() {
    assert_eq!(
        calculate_hash(b"abc"),
        "ba7816bf8f01cfea414140de5dae2223b00361a396177a9cb410ff61f20015ad"
    );
}

#[test]
fn hash_of_empty_input_is_known_digest() {
    assert_eq!(
        calculate_hash(b""),
        "e3b0c44298fc1c149afbf4c8996fb92427ae41e4649b934ca495991b7852b855"
    );
}

#[test]
fn hashing_is_deterministic() {
    let data: Vec<u8> = (0u16..1000).map(|i| (i % 251) as u8).collect();
    let first = calculate_hash(&data);
    let second = calculate_hash(&data.clone());
    assert_eq!(first, second);
    assert_eq!(first.len(), 64);
    assert_ne!(first, calculate_hash(&data[1..]));
}

#[test]
fn preview_keeps_short_text() {
    assert_eq!(text_preview("Hello"), "Hello");
    assert_eq!(text_preview(""), "");
}

#[test]
fn preview_cuts_at_two_hundred_characters() {
    let long = "a".repeat(250);
    let p = text_preview(&long);
    assert_eq!(p.chars().count(), 200);
    assert_eq!(p, "a".repeat(200));
    let exact = "b".repeat(200);
    assert_eq!(text_preview(&exact), exact);
}

#[test]
fn preview_never_splits_multibyte_characters() {
    let emoji = "😀".repeat(300);
    let p = text_preview(&emoji);
    assert_eq!(p.chars().count(), 200);
    assert_eq!(p, "😀".repeat(200));
    let mixed = format!("{}é😀", "x".repeat(199));
    let q = text_preview(&mixed);
    assert_eq!(q.chars().count(), 200);
    assert!(q.ends_with('é'));
}

#[test]
fn text_is_trimmed_before_hashing() {
    let t = extract_text("  Hello \n").unwrap();
    assert_eq!(t.bytes, b"Hello".to_vec());
    assert_eq!(t.hash, calculate_hash(b"Hello"));
    assert_eq!(t.preview, "Hello");
}

#[test]
fn blank_text_is_no_content() {
    assert!(extract_text("   \t\n ").is_none());
    assert!(extract_text("").is_none());
}
