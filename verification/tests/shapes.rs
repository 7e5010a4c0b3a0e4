use serde_json::Value;
use tauri_global_sys::cli::ArgMatchValue;
use tauri_global_sys::http::raw::{FilePart, FilePartFile, Part, RawEntry, RawPart, RawValue};

fn json(text: &str) -> Value {
    serde_json::from_str(text).unwrap()
}

#[test]
fn arg_value_parse() {
    assert_eq!(
        Some(ArgMatchValue::Boolean(true)),
        ArgMatchValue::from_json(&Value::Bool(true))
    );
    let test_str = String::from("Tony");
    assert_eq!(
        Some(ArgMatchValue::String(test_str.clone())),
        ArgMatchValue::from_json(&Value::String(test_str.clone()))
    );
    assert_eq!(
        Some(ArgMatchValue::Strings(vec![test_str.clone()])),
        ArgMatchValue::from_json(&Value::Array(vec![test_str.clone().into()]))
    );
}

#[test]
fn an_argument_value_of_another_shape_is_none() {
    assert_eq!(ArgMatchValue::from_json(&json("[]")), Some(ArgMatchValue::Strings(Vec::new())));
    assert_eq!(
        ArgMatchValue::from_json(&json(r#"["a", "b"]"#)),
        Some(ArgMatchValue::Strings(vec![String::from("a"), String::from("b")]))
    );
    assert_eq!(ArgMatchValue::from_json(&json("false")), Some(ArgMatchValue::Boolean(false)));
    for text in ["null", "1", r#"["a", 1]"#, r#"[["a"]]"#, r#"{"a": "b"}"#, "1.5"] {
        assert_eq!(ArgMatchValue::from_json(&json(text)), None, "{text}");
    }
}

#[test]
fn a_part_is_told_by_its_shape() {
    assert_eq!(Part::from_json(&json(r#""text""#)), Some(Part::String(String::from("text"))));
    assert_eq!(Part::from_json(&json(r#""""#)), Some(Part::String(String::new())));
    assert_eq!(Part::from_json(&json("[0, 1, 255]")), Some(Part::Bytes(vec![0, 1, 255])));
    assert_eq!(Part::from_json(&json("[]")), Some(Part::Bytes(Vec::new())));
    assert_eq!(
        Part::from_json(&json(r#"{"file": "/tmp/a", "fileName": "a", "mime": "text/plain"}"#)),
        Some(Part::File(FilePart {
            file: FilePartFile::Path(String::from("/tmp/a")),
            file_name: Some(String::from("a")),
            mime: Some(String::from("text/plain")),
        }))
    );
    assert_eq!(
        Part::from_json(&json(r#"{"file": [1, 2], "fileName": null}"#)),
        Some(Part::File(FilePart {
            file: FilePartFile::File(vec![1, 2]),
            file_name: None,
            mime: None,
        }))
    );
    assert_eq!(
        Part::from_json(&json(r#"{"file": [], "other": 1}"#)),
        Some(Part::File(FilePart {
            file: FilePartFile::File(Vec::new()),
            file_name: None,
            mime: None,
        }))
    );
}

#[test]
fn a_value_of_no_shape_or_a_spoilt_one_is_no_part() {
    for text in [
        "null",
        "true",
        "1",
        "1.5",
        "[256]",
        "[-1]",
        "[1.5]",
        r#"["a"]"#,
        "[1, [2]]",
        "{}",
        r#"{"fileName": "a", "mime": "b"}"#,
        r#"{"file": null}"#,
        r#"{"file": 1}"#,
        r#"{"file": [1, 256]}"#,
        r#"{"file": {"path": "a"}}"#,
        r#"{"file": "a", "fileName": 1}"#,
        r#"{"file": "a", "mime": ["b"]}"#,
        r#"{"file": "a", "fileName": "n", "mime": false}"#,
    ] {
        assert_eq!(Part::from_json(&json(text)), None, "{text}");
    }
}

#[test]
fn a_file_is_read_from_an_object_only() {
    assert_eq!(FilePart::from_json(&json(r#""path""#)), None);
    assert_eq!(FilePart::from_json(&json("[1]")), None);
    assert_eq!(
        FilePart::from_json(&json(r#"{"file": "p", "mime": "m"}"#)),
        Some(FilePart {
            file: FilePartFile::Path(String::from("p")),
            file_name: None,
            mime: Some(String::from("m")),
        })
    );
}

#[test]
fn a_part_that_was_read_goes_to_the_host_as_it_was_written() {
    let part = Part::from_json(&json(r#"{"file": [7], "fileName": "n"}"#)).unwrap();
    assert_eq!(
        part.into_js_value(),
        RawPart::Object(vec![
            RawEntry { key: String::from("fileName"), value: RawValue::Text(String::from("n")) },
            RawEntry { key: String::from("mime"), value: RawValue::Undefined },
            RawEntry { key: String::from("file"), value: RawValue::Bytes(vec![7]) },
        ])
    );
}
