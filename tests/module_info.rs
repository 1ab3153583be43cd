use base64::Engine;
use pastepaw_core::{bgra_to_rgba, icon_png_base64, pick_description, pick_translation, version_queries};

#[test]
fn translation_prefers_the_preferred_language() {
    assert_eq!(pick_translation(&[0x0409, 0x04b0]), Some((0x0409, 0x04b0)));
    assert_eq!(pick_translation(&[0x0409, 0x04b0, 0x0804, 0x03a8]), Some((0x0804, 0x03a8)));
    assert_eq!(
        pick_translation(&[0x0804, 0x0001, 0x0409, 0x04b0, 0x0804, 0x0002]),
        Some((0x0804, 0x0002))
    );
    assert_eq!(pick_translation(&[0x0409, 0x04b0, 0x0804]), Some((0x0409, 0x04b0)));
    assert_eq!(pick_translation(&[0x0409]), None);
    assert_eq!(pick_translation(&[]), None);
}

#[test]
fn version_queries_name_description_then_product() {
    let q = version_queries(0x0409, 0x04b0);
    assert_eq!(q, vec![
        "\\StringFileInfo\\040904b0\\FileDescription".to_string(),
        "\\StringFileInfo\\040904b0\\ProductName".to_string(),
    ]);
    assert_eq!(version_queries(0x0804, 0x0003)[0], "\\StringFileInfo\\08040003\\FileDescription");
}

fn units(s: &str) -> Vec<u16> {
    s.encode_utf16().collect()
}

#[test]
fn description_is_first_non_empty_value_without_nul() {
    let mut with_nul = units("Notepad");
    with_nul.push(0);
    assert_eq!(pick_description(&vec![Some(with_nul), Some(units("Other"))]).as_deref(), Some("Notepad"));
    assert_eq!(pick_description(&vec![None, Some(units("Product"))]).as_deref(), Some("Product"));
    assert_eq!(pick_description(&vec![Some(vec![0]), Some(units("Product"))]).as_deref(), Some("Product"));
    assert_eq!(pick_description(&vec![Some(vec![]), None]), None);
    assert_eq!(pick_description(&vec![]), None);
}

#[test]
fn bgra_pixels_become_rgba() {
    let mut px = vec![1, 2, 3, 4, 5, 6, 7, 8, 9, 10];
    bgra_to_rgba(&mut px);
    assert_eq!(px, vec![3, 2, 1, 4, 7, 6, 5, 8, 9, 10]);
}

#[test]
fn icon_is_png_in_base64() {
    let bgra = vec![10, 20, 30, 255, 40, 50, 60, 128];
    let encoded = icon_png_base64(bgra, 2, 1).unwrap();
    let png = base64::engine::general_purpose::STANDARD.decode(encoded).unwrap();
    let img = image::load_from_memory(&png).unwrap().to_rgba8();
    assert_eq!(img.dimensions(), (2, 1));
    assert_eq!(img.as_raw(), &vec![30, 20, 10, 255, 60, 50, 40, 128]);
    assert!(icon_png_base64(vec![0; 7], 2, 1).is_none());
}
