use serde_json::Value;
use sozu_client::batch::{build_batch, render_decimal, request_id};

#[test]
fn render_decimal_exact_values() {
    assert_eq!(render_decimal(0), b"0".to_vec());
    assert_eq!(render_decimal(7), b"7".to_vec());
    assert_eq!(render_decimal(10), b"10".to_vec());
    assert_eq!(render_decimal(305), b"305".to_vec());
    assert_eq!(
        render_decimal(usize::MAX),
        usize::MAX.to_string().into_bytes()
    );
}

#[test]
fn request_id_uppercases_prefix_and_appends_index() {
    assert_eq!(request_id(b"sozu-client", 0), b"SOZU-CLIENT-0".to_vec());
    assert_eq!(request_id(b"sozu-client", 42), b"SOZU-CLIENT-42".to_vec());
    assert_eq!(request_id(b"App_3", 1), b"APP_3-1".to_vec());
}

#[test]
fn request_ids_are_unique_within_a_batch() {
    let mut ids: Vec<Vec<u8>> = (0..25).map(|i| request_id(b"sozu-client", i)).collect();
    ids.sort();
    ids.dedup();
    assert_eq!(ids.len(), 25);
}

#[test]
fn batch_of_three_has_three_lines_in_input_order() {
    let contents = vec![
        Value::String("first".to_string()),
        Value::Bool(true),
        Value::from(3i64),
    ];
    let bytes = build_batch(b"sozu-client", &contents);

    let newlines = bytes.iter().filter(|&&b| b == b'\n').count();
    let nuls = bytes.iter().filter(|&&b| b == 0u8).count();
    assert_eq!(newlines, 3);
    assert_eq!(nuls, 3);

    // Each line is `<record>\n\0`; splitting on NUL leaves the records, each
    // with its trailing newline, plus one empty tail.
    let chunks: Vec<&[u8]> = bytes.split(|&b| b == 0u8).collect();
    assert_eq!(chunks.len(), 4);
    assert!(chunks[3].is_empty());
    for (idx, chunk) in chunks[..3].iter().enumerate() {
        assert_eq!(chunk.last(), Some(&b'\n'));
        let record: Value =
            serde_json::from_slice(&chunk[..chunk.len() - 1]).expect("each line is valid JSON");
        assert_eq!(
            record["id"],
            Value::String(format!("SOZU-CLIENT-{idx}"))
        );
        assert_eq!(record["content"], contents[idx]);
    }
}

#[test]
fn batch_of_none_is_empty() {
    let contents: Vec<Value> = Vec::new();
    let bytes = build_batch(b"sozu-client", &contents);
    assert!(bytes.is_empty());
}

#[test]
fn content_with_control_characters_stays_on_one_line() {
    let contents = vec![Value::String("a\nb\u{0}c".to_string())];
    let bytes = build_batch(b"sozu-client", &contents);
    let newlines = bytes.iter().filter(|&&b| b == b'\n').count();
    let nuls = bytes.iter().filter(|&&b| b == 0u8).count();
    assert_eq!(newlines, 1);
    assert_eq!(nuls, 1);
    let record: Value =
        serde_json::from_slice(&bytes[..bytes.len() - 2]).expect("the line is valid JSON");
    assert_eq!(record["content"], contents[0]);
}
