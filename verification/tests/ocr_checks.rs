use clipscan::bitmap::Bitmap;
use clipscan::error::Error;
use clipscan::ocr::{present_lines, recognize};

#[test]
fn malformed_model_blob_is_model_load_error() {
    let bmp = Bitmap::from_raw(1, 1, vec![0, 0, 0, 255]).unwrap();
    let r = recognize(&bmp, vec![1, 2, 3], vec![4, 5, 6]);
    assert_eq!(r.err(), Some(Error::ModelLoadError));
}

#[test]
fn present_lines_drops_absent_entries() {
    let raw = vec![
        Some("Total 41.90".to_string()),
        None,
        Some("Card ****1234".to_string()),
        Some("ok".to_string()),
        None,
    ];
    let kept = present_lines(&raw);
    assert_eq!(
        kept,
        vec![
            "Total 41.90".to_string(),
            "Card ****1234".to_string(),
            "ok".to_string(),
        ]
    );
}

#[test]
fn present_lines_of_all_absent_is_empty() {
    let raw: Vec<Option<String>> = vec![None, None];
    assert!(present_lines(&raw).is_empty());
}

#[test]
fn present_lines_keeps_order() {
    let raw = vec![Some("b".to_string()), Some("a".to_string())];
    assert_eq!(present_lines(&raw), vec!["b".to_string(), "a".to_string()]);
}
