use blueos_recorder::channel_descriptor::{
    load_cdr_schema, needed_schema_file, needs_payload, schema_file_path, ChannelDescriptor, MessageEncoding,
    SchemaEncoding, SchemaError, SchemaSource,
};
use blueos_recorder::json::{create_schema, document_of, read_json5, Json};
use include_dir::{Dir, DirEntry, File};

fn tree() -> &'static Dir<'static> {
    let text = DirEntry::File(File::new("pkg/Name.msg", b"int32 x"));
    let binary = DirEntry::File(File::new("pkg/Broken.msg", &[0xff, 0xfe]));
    let files: &'static [DirEntry<'static>] = Box::leak(Box::new([text, binary]));
    let pkg = DirEntry::Dir(Dir::new("pkg", files));
    let entries: &'static [DirEntry<'static>] = Box::leak(Box::new([pkg]));
    Box::leak(Box::new(Dir::new("", entries)))
}

fn content(descriptor: ChannelDescriptor) -> (String, String) {
    let content = descriptor.schema.expect("schema").content.expect("content");
    (content.name, content.data)
}

fn schema_text(text: &str) -> String {
    create_schema(&read_json5(text).expect("JSON5")).to_text()
}

#[test]
fn encoding_names() {
    assert_eq!(SchemaEncoding::Ros2Msg.as_str(), "ros2msg");
    assert_eq!(SchemaEncoding::JsonSchema.as_str(), "jsonschema");
    assert_eq!(MessageEncoding::Cdr.as_str(), "cdr");
    assert_eq!(MessageEncoding::Json.as_str(), "json");
}

#[test]
fn schema_files() {
    assert_eq!(
        schema_file_path("pkg.Name").as_deref(),
        Some("pkg/Name.msg")
    );
    assert_eq!(
        schema_file_path("pkg.Name.More").as_deref(),
        Some("pkg/Name.msg")
    );
    assert_eq!(schema_file_path("."), Some("/.msg".to_string()));
    assert_eq!(schema_file_path("pkg"), None);
    assert_eq!(schema_file_path(""), None);
    assert_eq!(
        needed_schema_file("application/cdr;pkg.Name;x").as_deref(),
        Some("pkg/Name.msg")
    );
    assert_eq!(needed_schema_file("application/cdr"), None);
    assert_eq!(needed_schema_file("application/cdr;pkg"), None);
    assert_eq!(needed_schema_file("application/json;pkg.Name"), None);
}

#[test]
fn payloads_matter_for_json_only() {
    assert!(needs_payload("application/json"));
    assert!(needs_payload("application/json;x"));
    assert!(!needs_payload("application/cdr;pkg.Name"));
    assert!(!needs_payload("text/json"));
    for payload in [b"{}".to_vec(), b"nonsense".to_vec(), vec![]] {
        let found = ChannelDescriptor::new(
            "a",
            "application/cdr;pkg.Name",
            &payload,
            SchemaSource::Embedded(tree()),
        );
        assert!(found.is_some());
    }
}

#[test]
fn schemas_are_loaded() {
    let built_in = || SchemaSource::Embedded(tree());
    assert_eq!(
        load_cdr_schema("pkg.Name", built_in()),
        Ok("int32 x".to_string())
    );
    assert_eq!(
        load_cdr_schema("pkg.Other", built_in()),
        Err(SchemaError::NotFound)
    );
    assert_eq!(
        load_cdr_schema("pkg.Broken", built_in()),
        Err(SchemaError::NotText)
    );
    assert_eq!(
        load_cdr_schema("pkg", built_in()),
        Err(SchemaError::MissingName)
    );
    assert_eq!(
        load_cdr_schema("pkg.Name", SchemaSource::Directory(Some("y".to_string()))),
        Ok("y".to_string())
    );
    assert_eq!(
        load_cdr_schema("pkg.Name", SchemaSource::Directory(None)),
        Err(SchemaError::Unreadable)
    );
}

#[test]
fn cdr_topics() {
    let found = ChannelDescriptor::new(
        "a/b",
        "application/cdr;pkg.Name",
        &[],
        SchemaSource::Embedded(tree()),
    )
    .expect("a descriptor");
    assert_eq!(found.topic, "a/b");
    assert_eq!(found.message_encoding, MessageEncoding::Cdr);
    assert_eq!(
        found.schema.as_ref().expect("schema").encoding,
        SchemaEncoding::Ros2Msg
    );
    assert_eq!(
        content(found),
        ("pkg.Name".to_string(), "int32 x".to_string())
    );
    for encoding in [
        "application/cdr",
        "application/cdr;pkg.Other",
        "application/cdr;pkg",
    ] {
        assert!(
            ChannelDescriptor::new("a", encoding, &[], SchemaSource::Embedded(tree())).is_none()
        );
    }
}

#[test]
fn json_topics() {
    let found = ChannelDescriptor::new(
        "a/b/c",
        "application/json",
        b"{x: [1.5], 'y': null,}",
        SchemaSource::Directory(None),
    )
    .expect("a descriptor");
    assert_eq!(found.message_encoding, MessageEncoding::Json);
    assert_eq!(
        found.schema.as_ref().expect("schema").encoding,
        SchemaEncoding::JsonSchema
    );
    assert_eq!(
        content(found),
        (
            "a.b.c".to_string(),
            "{\"properties\":{\"x\":{\"items\":{\"type\":\"number\"},\"type\":\"array\"},\"y\":{\"type\":\"null\"}},\"type\":\"object\"}".to_string()
        )
    );
    let named = ChannelDescriptor::new(
        "a/b",
        "application/json;Given",
        b"{}",
        SchemaSource::Directory(None),
    )
    .expect("a descriptor");
    assert_eq!(
        content(named),
        (
            "Given".to_string(),
            "{\"properties\":{},\"type\":\"object\"}".to_string()
        )
    );
    let refused: [&[u8]; 4] = [b"[1]", b"nonsense", b"", &[0xff]];
    for payload in refused {
        assert!(ChannelDescriptor::new(
            "a",
            "application/json",
            payload,
            SchemaSource::Directory(None)
        )
        .is_none());
    }
}

#[test]
fn other_topics_have_no_descriptor() {
    for encoding in ["", "text/plain", "application/jsonx", "zenoh/bytes;x"] {
        assert!(
            ChannelDescriptor::new("a", encoding, b"{}", SchemaSource::Directory(None)).is_none()
        );
    }
}

#[test]
fn schemas_of_documents() {
    assert_eq!(schema_text("null"), "{\"type\":\"null\"}");
    assert_eq!(schema_text("true"), "{\"type\":\"boolean\"}");
    assert_eq!(schema_text("-3"), "{\"type\":\"integer\"}");
    assert_eq!(schema_text("1.5"), "{\"type\":\"number\"}");
    assert_eq!(schema_text("9223372036854775808.0"), "{\"type\":\"number\"}");
    assert_eq!(schema_text("'x'"), "{\"type\":\"string\"}");
    assert_eq!(schema_text("[]"), "{\"items\":{},\"type\":\"array\"}");
    assert_eq!(
        schema_text("['a', 1]"),
        "{\"items\":{\"type\":\"string\"},\"type\":\"array\"}"
    );
    assert_eq!(
        schema_text("{b: {c: 1}, a: []}"),
        "{\"properties\":{\"a\":{\"items\":{},\"type\":\"array\"},\"b\":{\"properties\":{\"c\":{\"type\":\"integer\"}},\"type\":\"object\"}},\"type\":\"object\"}"
    );
    assert_eq!(
        schema_text("{a: 1, a: 'x'}"),
        "{\"properties\":{\"a\":{\"type\":\"string\"}},\"type\":\"object\"}"
    );
}

#[test]
fn documents_are_read() {
    assert!(matches!(read_json5("7"), Some(Json::Integer(7))));
    assert!(matches!(read_json5("7.5"), Some(Json::Number)));
    assert!(matches!(read_json5("false"), Some(Json::Bool(false))));
    assert!(matches!(read_json5("// x\nnull"), Some(Json::Null)));
    match read_json5("\"a\\n\"") {
        Some(Json::Text(text)) => assert_eq!(text, "a\n"),
        _ => panic!("a text"),
    }
    assert!(read_json5("{").is_none());
    assert!(read_json5("9223372036854775808").is_none());
}

#[test]
fn given_documents() {
    let object = Json::Object(vec![("k".to_string(), Json::Text("v".to_string()))]);
    let found = ChannelDescriptor::for_json("t/u", None, &object).expect("a descriptor");
    assert_eq!(
        content(found),
        (
            "t.u".to_string(),
            "{\"properties\":{\"k\":{\"type\":\"string\"}},\"type\":\"object\"}".to_string()
        )
    );
    for other in [
        Json::Null,
        Json::Bool(true),
        Json::Integer(1),
        Json::Number,
        Json::Text(String::new()),
        Json::Array(vec![]),
    ] {
        assert!(ChannelDescriptor::for_json("t", Some("n"), &other).is_none());
    }
}

#[test]
fn documents_of_values() {
    assert!(document_of(None).is_none());
    assert!(matches!(
        document_of(Some(serde_json::Value::Null)),
        Some(Json::Null)
    ));
    assert!(matches!(
        document_of(Some(serde_json::Value::from(u64::MAX))),
        Some(Json::Number)
    ));
    let array = serde_json::Value::Array(vec![
        serde_json::Value::from(-5),
        serde_json::Value::from("x"),
    ]);
    match document_of(Some(array)) {
        Some(Json::Array(items)) => {
            assert_eq!(items.len(), 2);
            assert!(matches!(items[0], Json::Integer(-5)));
            match &items[1] {
                Json::Text(text) => assert_eq!(text, "x"),
                _ => panic!("a text"),
            }
        }
        _ => panic!("an array"),
    }
    let mut map = serde_json::Map::new();
    map.insert("k".to_string(), serde_json::Value::Bool(true));
    match document_of(Some(serde_json::Value::Object(map))) {
        Some(Json::Object(entries)) => {
            assert_eq!(entries.len(), 1);
            assert_eq!(entries[0].0, "k");
            assert!(matches!(entries[0].1, Json::Bool(true)));
        }
        _ => panic!("an object"),
    }
}
