use exiftool::binary::binary_payload;
use exiftool::error::ExifToolError;
use exiftool::json::JsonValue;
use exiftool::query::{batch_entries, single_entry, structured_response, tag_value};
use exiftool::typed::{absent_value, present_value, read_tag, record_value, typed_step, TypedStep};

fn strings(items: &[&str]) -> Vec<String> {
    items.iter().map(|item| item.to_string()).collect()
}

fn lower(value: JsonValue) -> serde_json::Value {
    match value {
        JsonValue::Null => serde_json::Value::Null,
        JsonValue::Bool(flag) => serde_json::Value::Bool(flag),
        JsonValue::Number(number) => serde_json::from_str(&number).unwrap(),
        JsonValue::Text(text) => serde_json::Value::String(text),
        JsonValue::Array(items) => serde_json::Value::Array(items.into_iter().map(lower).collect()),
        JsonValue::Object(members) => {
            serde_json::Value::Object(members.into_iter().map(|(key, value)| (key, lower(value))).collect())
        }
    }
}

const IMAGE: &str = "data/valid/IMG_20170801_162043.jpg";
const RESPONSE: &str = "[{\"SourceFile\": \"data/valid/IMG_20170801_162043.jpg\", \"Make\": \"Huawei\", \"Model\": \"Nexus 6P\", \"ImageWidth\": 2688, \"ISO\": 2897, \"Rating\": 5, \"Author\": \"Rust Writer Test\"}]";

fn lookup(tag: &str) -> Result<JsonValue, ExifToolError> {
    let selector = format!("-{}", tag);
    let value = structured_response(&strings(&[&selector, IMAGE]), &RESPONSE.as_bytes().to_vec())?;
    let entries = batch_entries(value, &strings(&[IMAGE]), &strings(&[&selector]))?;
    let entry = single_entry(entries, IMAGE, &strings(&[&selector]))?;
    tag_value(entry, IMAGE, tag)
}

fn read<T: serde::de::DeserializeOwned>(tag: &str) -> Result<T, ExifToolError> {
    read_tag(
        lookup(tag),
        IMAGE,
        tag,
        |value| serde_json::from_value::<T>(lower(value)),
        || serde_json::from_value::<T>(serde_json::Value::Null),
    )
}

fn read_text(tag: &str) -> Result<String, ExifToolError> {
    read(tag)
}

fn read_number(tag: &str) -> Result<u32, ExifToolError> {
    read(tag)
}

fn read_optional_text(tag: &str) -> Result<Option<String>, ExifToolError> {
    read(tag)
}

#[test]
fn steps_of_a_typed_read_agree_with_the_whole() {
    for tag in ["Make", "ImageWidth", "NoSuchTag"] {
        let by_steps: Result<String, ExifToolError> = match typed_step(lookup(tag)) {
            TypedStep::Convert(value) => present_value(serde_json::from_value::<String>(lower(value)), IMAGE, tag),
            TypedStep::ConvertAbsent => absent_value(serde_json::from_value::<String>(serde_json::Value::Null), IMAGE, tag),
            TypedStep::Fail(error) => Err(error),
        };
        assert_eq!(format!("{:?}", by_steps), format!("{:?}", read_text(tag)));
    }
}

#[test]
fn absent_value_is_not_tried_for_a_present_tag() {
    let read: Result<Option<String>, ExifToolError> = read_tag(
        lookup("ImageWidth"),
        IMAGE,
        "ImageWidth",
        |value| serde_json::from_value::<Option<String>>(lower(value)),
        || panic!("the absent value must not be tried"),
    );
    assert!(matches!(read, Err(ExifToolError::TagDeserialization { tag, .. }) if tag == "ImageWidth"));
}

#[test]
fn nothing_is_converted_after_another_failure() {
    let read: Result<Option<String>, ExifToolError> = read_tag(
        Err(ExifToolError::ProcessTerminated),
        IMAGE,
        "Make",
        |_| panic!("no value must be tried"),
        || panic!("the absent value must not be tried"),
    );
    assert!(matches!(read, Err(ExifToolError::ProcessTerminated)));
}

#[test]
fn test_read_tag_generic() {
    let make = read_text("Make").unwrap();
    assert_eq!(make, "Huawei");

    let width = read_number("ImageWidth").unwrap();
    assert_eq!(width, 2688);

    let desc = read_optional_text("Model").unwrap();
    assert!(desc.is_some());

    let desc = read_optional_text("ImageDescription").unwrap();
    assert!(desc.is_none());

    let missing = read_text("NonExistentTag456");
    assert!(matches!(
        missing,
        Err(ExifToolError::TagNotFound { tag, .. }) if tag == "NonExistentTag456"
    ));

    let width_as_string = read_text("ImageWidth");
    assert!(matches!(
        width_as_string,
        Err(ExifToolError::TagDeserialization { tag, .. }) if tag == "ImageWidth"
    ));
}

#[test]
fn present_tag_of_the_type_asked_for() {
    assert_eq!(read_text("Make").unwrap(), "Huawei");
    assert_eq!(read_number("ImageWidth").unwrap(), 2688);
    assert_eq!(read_optional_text("Make").unwrap(), Some("Huawei".to_string()));
}

#[test]
fn missing_tag_read_as_optional_is_absent() {
    assert_eq!(read_optional_text("NoSuchTag").unwrap(), None);
}

#[test]
fn missing_tag_read_as_required_is_not_found() {
    match read_text("NoSuchTag") {
        Err(ExifToolError::TagNotFound { path, tag }) => {
            assert_eq!(path, IMAGE);
            assert_eq!(tag, "NoSuchTag");
        }
        other => panic!("Expected TagNotFound, got {:?}", other),
    }
    assert!(matches!(read_number("NoSuchTag"), Err(ExifToolError::TagNotFound { .. })));
}

#[test]
fn present_tag_of_another_type_is_a_mismatch() {
    match read_number("Make") {
        Err(ExifToolError::TagDeserialization { path, tag, error: _ }) => {
            assert_eq!(path, IMAGE);
            assert_eq!(tag, "Make");
        }
        other => panic!("Expected TagDeserialization, got {:?}", other),
    }
    assert!(matches!(read_optional_text("ImageWidth"), Err(ExifToolError::TagDeserialization { .. })));
}

#[test]
fn written_values_read_back() {
    assert_eq!(read_number("Rating").unwrap(), 5);
    assert_eq!(read_number("ISO").unwrap(), 2897);
    assert_eq!(read_text("Author").unwrap(), "Rust Writer Test");
}

#[test]
fn other_failures_of_the_lookup_pass_through() {
    let step = typed_step(Err(ExifToolError::ProcessTerminated));
    assert!(matches!(step, TypedStep::Fail(ExifToolError::ProcessTerminated)));
    let step = typed_step(Err(ExifToolError::FileNotFound { path: "a.jpg".to_string(), command_args: "-json a.jpg".to_string() }));
    assert!(matches!(step, TypedStep::Fail(ExifToolError::FileNotFound { path, .. }) if path == "a.jpg"));
    let step = typed_step(Err(ExifToolError::TagNotFound { path: "a.jpg".to_string(), tag: "T".to_string() }));
    assert!(matches!(step, TypedStep::ConvertAbsent));
    let step = typed_step(Ok(JsonValue::Null));
    assert!(matches!(step, TypedStep::Convert(JsonValue::Null)));
}

#[test]
fn present_null_is_tried_as_it_is() {
    let conversion = serde_json::from_value::<String>(serde_json::Value::Null);
    assert!(matches!(present_value(conversion, "a.jpg", "T"), Err(ExifToolError::TagDeserialization { .. })));
    let conversion = serde_json::from_value::<String>(serde_json::Value::Null);
    assert!(matches!(absent_value(conversion, "a.jpg", "T"), Err(ExifToolError::TagNotFound { .. })));
}

#[derive(Debug)]
struct TestError {
    wrong_field: String,
}

struct TestErrorVisitor;

impl<'de> serde::de::Visitor<'de> for TestErrorVisitor {
    type Value = TestError;

    fn expecting(&self, formatter: &mut std::fmt::Formatter) -> std::fmt::Result {
        formatter.write_str("struct TestError")
    }

    fn visit_map<A: serde::de::MapAccess<'de>>(self, mut map: A) -> Result<TestError, A::Error> {
        let mut wrong_field: Option<String> = None;
        while let Some(key) = map.next_key::<String>()? {
            if key == "wrong_field" {
                wrong_field = Some(map.next_value()?);
            } else {
                map.next_value::<serde::de::IgnoredAny>()?;
            }
        }
        match wrong_field {
            Some(wrong_field) => Ok(TestError { wrong_field }),
            None => Err(serde::de::Error::missing_field("wrong_field")),
        }
    }
}

impl<'de> serde::Deserialize<'de> for TestError {
    fn deserialize<D: serde::Deserializer<'de>>(deserializer: D) -> Result<Self, D::Error> {
        deserializer.deserialize_struct("TestError", &["wrong_field"], TestErrorVisitor)
    }
}

#[test]
fn test_deserialization_error() {
    let json = lower(JsonValue::Object(vec![("existing_field".to_string(), JsonValue::Text("value".to_string()))]));

    let result: Result<TestError, _> = record_value(serde_path_to_error::deserialize(json));
    assert!(result.is_err());

    match result {
        Err(ExifToolError::Deserialization { path, source }) => {
            assert_eq!(path, ".");
            assert!(source.to_string().contains("missing field"));
        }
        other => panic!("Expected Deserialization, got {:?}", other.map(|record| record.wrong_field)),
    }
}

#[test]
fn record_error_names_the_field() {
    let value: serde_json::Value = serde_json::from_str("{\"Camera\": {\"Widths\": [1, \"two\"]}}").unwrap();
    let conversion: Result<std::collections::BTreeMap<String, std::collections::BTreeMap<String, Vec<u32>>>, _> =
        serde_path_to_error::deserialize(value);
    match record_value(conversion) {
        Err(ExifToolError::Deserialization { path, .. }) => assert_eq!(path, "Camera.Widths[1]"),
        other => panic!("Expected Deserialization, got {:?}", other),
    }
    let value: serde_json::Value = serde_json::from_str("{\"a\": [1, 2]}").unwrap();
    let conversion: Result<std::collections::BTreeMap<String, Vec<u32>>, _> = serde_path_to_error::deserialize(value);
    assert_eq!(record_value(conversion).unwrap().get("a"), Some(&vec![1, 2]));
}

#[test]
fn test_read_tag_binary_not_found() {
    let result = binary_payload(Vec::new(), IMAGE, "NonExistentBinaryTag");
    assert!(matches!(
        result,
        Err(ExifToolError::TagNotFound { tag, path }) if tag == "NonExistentBinaryTag" && path == IMAGE
    ));
}

#[test]
fn binary_value_is_the_response() {
    let bytes: Vec<u8> = vec![0xff, 0xd8, 0x00, 0xff, 0xd9];
    assert_eq!(binary_payload(bytes.clone(), IMAGE, "ThumbnailImage").unwrap(), bytes);
    assert_eq!(binary_payload(vec![0], IMAGE, "ThumbnailImage").unwrap(), vec![0]);
}

#[test]
fn test_read_tag() {
    let response = "[{\"SourceFile\": \"test_data/IMG_20170801_162043.jpg\", \"Author\": \"Ruurd\"}]";
    let value = structured_response(&strings(&["-Author", "a.jpg"]), &response.as_bytes().to_vec()).unwrap();
    let entries = batch_entries(value, &strings(&["a.jpg"]), &strings(&["-Author"])).unwrap();
    let entry = single_entry(entries, "a.jpg", &strings(&["-Author"])).unwrap();
    let result: String = read_tag(
        tag_value(entry, "a.jpg", "Author"),
        "a.jpg",
        "Author",
        |value| serde_json::from_value::<String>(lower(value)),
        || serde_json::from_value::<String>(serde_json::Value::Null),
    )
    .unwrap();
    assert_eq!(result, "Ruurd");
}

#[test]
fn test_write_tag_string() {
    let new_author = "Rust Writer Test";
    let args = exiftool::command::write_arguments(
        exiftool::command::assignment("Author", new_author),
        &Vec::new(),
        "data/.tmpAbCdEf.jpg",
    );
    assert_eq!(args, strings(&["-Author=Rust Writer Test", "data/.tmpAbCdEf.jpg"]));

    let read_author = read_text("Author").unwrap();
    assert_eq!(read_author, new_author);

    let new_iso = 2897;
    let args = exiftool::command::write_arguments(
        exiftool::command::assignment("ISO", &new_iso.to_string()),
        &Vec::new(),
        "data/.tmpAbCdEf.jpg",
    );
    assert_eq!(args, strings(&["-ISO=2897", "data/.tmpAbCdEf.jpg"]));

    let read_iso = read_number("ISO").unwrap();
    assert_eq!(read_iso, new_iso);
}

#[test]
fn test_write_tag_binary() {
    let dummy_thumb: &[u8] = b"\xFF\xD8\xFF\xE0\x00\x10JFIF\x00\x01\x01\x00\x00\x01\x00\x01\x00\x00\xFF\xDB\x00C\x00\x01\x01\x01\x01\x01\x01\x01\x01\x01\x01\x01\x01\x01\x01\x01\x01\x01\x01\x01\x01\x01\x01\x01\x01\x01\x01\x01\x01\x01\x01\x01\x01\x01\x01\x01\x01\x01\x01\x01\x01\x01\x01\x01\x01\x01\x01\x01\x01\x01\x01\x01\x01\x01\x01\xFF\xC0\x00\x11\x08\x00\x01\x00\x01\x03\x01\x22\x00\x02\x11\x01\x03\x11\x01\xFF\xC4\x00\x15\x00\x01\x01\x00\x00\x00\x00\x00\x00\x00\x00\x00\x00\x00\x00\x00\x00\x00\xFF\xDA\x00\x0C\x03\x01\x00\x02\x11\x03\x11\x00\x3F\x00\xA8\xFF\xD9";

    let args = exiftool::command::write_arguments(
        exiftool::command::file_assignment("ThumbnailImage", "/tmp/.tmpQ1w2E3"),
        &Vec::new(),
        "data/.tmpAbCdEf.jpg",
    );
    assert_eq!(args, strings(&["-ThumbnailImage<=/tmp/.tmpQ1w2E3", "data/.tmpAbCdEf.jpg"]));

    let mut answer = dummy_thumb.to_vec();
    answer.extend_from_slice(b"{ready}\n");
    let mut framer = exiftool::framer::ResponseFramer::new();
    let payload = match framer.feed(&answer) {
        exiftool::framer::FrameStep::Complete(payload) => payload,
        other => panic!("expected a complete response, got {:?}", other),
    };
    let read_thumb = binary_payload(payload, "data/.tmpAbCdEf.jpg", "ThumbnailImage").unwrap();
    assert_eq!(read_thumb, dummy_thumb);
}

#[test]
fn test_read_tag_binary() {
    let mut answer: Vec<u8> = vec![0xff, 0xd8, 0xff, 0xe0, 0x00, 0x10, 0x0a, 0x7b, 0xff, 0xd9];
    answer.extend_from_slice(b"{ready}\r\n");
    let mut framer = exiftool::framer::ResponseFramer::new();
    let payload = match framer.feed(&answer) {
        exiftool::framer::FrameStep::Complete(payload) => payload,
        other => panic!("expected a complete response, got {:?}", other),
    };
    let thumb_bytes = binary_payload(payload, IMAGE, "ThumbnailImage").unwrap();
    assert!(!thumb_bytes.is_empty());
    assert!(thumb_bytes.starts_with(b"\xFF\xD8"));
    assert!(thumb_bytes.ends_with(b"\xFF\xD9"));
}
