use card_atlas::document::{deserialize, loaded_from_value, Loaded, ParseError, RegionDocument};
use card_atlas::geometry::CardSize;
use card_atlas::region::{Region, RegionStore};

fn region(name: &str, x: usize, y: usize, width: usize, height: usize) -> Region {
    Region { name: name.to_string(), x, y, width, height }
}

fn sample() -> RegionDocument {
    RegionDocument {
        image_size: (460, 456),
        regions: vec![region("title", 1, 2, 3, 4), region("art", 10, 60, 440, 300)],
    }
}

fn number(n: u64) -> serde_json::Value {
    serde_json::Value::from(n)
}

fn object(members: Vec<(&str, serde_json::Value)>) -> serde_json::Value {
    let mut map = serde_json::Map::new();
    for (key, value) in members {
        map.insert(key.to_string(), value);
    }
    serde_json::Value::Object(map)
}

fn region_value(name: &str, x: u64, y: u64, width: u64, height: u64) -> serde_json::Value {
    object(vec![
        ("name", serde_json::Value::from(name)),
        ("x", number(x)),
        ("y", number(y)),
        ("width", number(width)),
        ("height", number(height)),
    ])
}

#[test]
fn document_is_written_as_indented_json_in_field_order() {
    let document = RegionDocument { image_size: (460, 456), regions: vec![region("title", 1, 2, 3, 4)] };
    let text = String::from_utf8(document.to_bytes().unwrap()).unwrap();
    let expected = "{\n  \"image_size\": [\n    460,\n    456\n  ],\n  \"regions\": [\n    {\n      \"name\": \"title\",\n      \"x\": 1,\n      \"y\": 2,\n      \"width\": 3,\n      \"height\": 4\n    }\n  ]\n}";
    assert_eq!(text, expected);
}

#[test]
fn empty_document_is_written_with_an_empty_list() {
    let document = RegionDocument { image_size: (1, 1), regions: Vec::new() };
    let text = String::from_utf8(document.to_bytes().unwrap()).unwrap();
    assert_eq!(text, "{\n  \"image_size\": [\n    1,\n    1\n  ],\n  \"regions\": []\n}");
}

#[test]
fn document_value_holds_size_and_regions() {
    let value = sample().to_value();
    assert_eq!(value["image_size"][0], 460);
    assert_eq!(value["image_size"][1], 456);
    assert_eq!(value["regions"].as_array().unwrap().len(), 2);
    assert_eq!(value["regions"][1], region_value("art", 10, 60, 440, 300));
    let keys: Vec<&String> = value["regions"][0].as_object().unwrap().keys().collect();
    assert_eq!(keys, vec!["name", "x", "y", "width", "height"]);
}

#[test]
fn written_document_reads_back_the_same() {
    let document = sample();
    let text = document.to_bytes().unwrap();
    assert_eq!(deserialize(&text), Ok(Loaded::Document(sample())));
}

#[test]
fn round_trip_keeps_order_duplicates_and_odd_names() {
    let document = RegionDocument {
        image_size: (usize::MAX, 1),
        regions: vec![
            region("same", 0, 0, 1, 1),
            region("same", 0, 0, 1, 1),
            region("", usize::MAX, usize::MAX, usize::MAX, usize::MAX),
            region("quote \" backslash \\ newline \n tab \t", 7, 8, 9, 10),
            region("\u{00e9}t\u{00e9} \u{1f0cf} \u{0001}", 0, 0, 0, 0),
        ],
    };
    let text = document.to_bytes().unwrap();
    match deserialize(&text) {
        Ok(Loaded::Document(back)) => assert_eq!(back, document),
        other => panic!("not a document: {:?}", other),
    }
}

#[test]
fn store_serializes_with_the_card_size_in_effect() {
    let mut store = RegionStore::new();
    store.add(region("title", 1, 2, 3, 4));
    store.add(region("art", 10, 60, 440, 300));
    let document = store.serialize(CardSize::new(460, 456));
    assert_eq!(document, sample());
    let back = deserialize(&document.to_bytes().unwrap()).unwrap();
    match back {
        Loaded::Document(d) => {
            assert_eq!(d.image_size, (460, 456));
            assert_eq!(RegionStore::from_regions(d.regions), store);
        }
        Loaded::Legacy(_) => panic!("read as a bare list"),
    }
}

#[test]
fn bare_array_reads_as_legacy_list() {
    let text = br#"[
        {"name": "a", "x": 1, "y": 2, "width": 3, "height": 4},
        {"name": "b", "x": 5, "y": 6, "width": 7, "height": 8},
        {"name": "a", "x": 0, "y": 0, "width": 0, "height": 0}
    ]"#;
    assert_eq!(
        deserialize(text),
        Ok(Loaded::Legacy(vec![region("a", 1, 2, 3, 4), region("b", 5, 6, 7, 8), region("a", 0, 0, 0, 0)]))
    );
    assert_eq!(deserialize(b"[]"), Ok(Loaded::Legacy(Vec::new())));
}

#[test]
fn members_may_come_in_any_order_and_others_are_passed_over() {
    let text = br#"{"regions": [{"height": 4, "note": "x", "width": 3, "y": 2, "x": 1, "name": "t"}],
                    "version": 2, "image_size": [10, 20]}"#;
    assert_eq!(
        deserialize(text),
        Ok(Loaded::Document(RegionDocument { image_size: (10, 20), regions: vec![region("t", 1, 2, 3, 4)] }))
    );
}

#[test]
fn negative_width_rejects_the_whole_document() {
    let text = br#"{"image_size": [10, 20], "regions": [
        {"name": "ok", "x": 1, "y": 2, "width": 3, "height": 4},
        {"name": "bad", "x": 1, "y": 2, "width": -1, "height": 4}]}"#;
    assert_eq!(deserialize(text), Err(ParseError::UnknownFormat));
    let legacy = br#"[{"name": "bad", "x": 1, "y": 2, "width": -1, "height": 4}]"#;
    assert_eq!(deserialize(legacy), Err(ParseError::UnknownFormat));
}

#[test]
fn missing_name_rejects_the_whole_document() {
    let text = br#"{"image_size": [10, 20], "regions": [{"x": 1, "y": 2, "width": 3, "height": 4}]}"#;
    assert_eq!(deserialize(text), Err(ParseError::UnknownFormat));
    let legacy = br#"[{"name": "ok", "x": 1, "y": 2, "width": 3, "height": 4}, {"x": 1, "y": 2, "width": 3, "height": 4}]"#;
    assert_eq!(deserialize(legacy), Err(ParseError::UnknownFormat));
}

#[test]
fn members_of_the_wrong_kind_are_rejected() {
    let cases: Vec<&[u8]> = vec![
        br#"[{"name": 5, "x": 1, "y": 2, "width": 3, "height": 4}]"#,
        br#"[{"name": "a", "x": "1", "y": 2, "width": 3, "height": 4}]"#,
        br#"[{"name": "a", "x": 1.5, "y": 2, "width": 3, "height": 4}]"#,
        br#"[{"name": "a", "x": 1.0, "y": 2, "width": 3, "height": 4}]"#,
        br#"[{"name": "a", "x": 1, "y": null, "width": 3, "height": 4}]"#,
        br#"[{"name": "a", "x": 1, "y": 2, "width": 3, "height": 18446744073709551616}]"#,
        br#"[{"name": "a", "x": 1, "y": 2, "width": 3}]"#,
        br#"[["a", 1, 2, 3, 4]]"#,
        br#"[5]"#,
    ];
    for text in cases {
        assert_eq!(deserialize(text), Err(ParseError::UnknownFormat));
    }
}

#[test]
fn image_size_must_be_two_unsigned_numbers() {
    let cases: Vec<&[u8]> = vec![
        br#"{"image_size": [10], "regions": []}"#,
        br#"{"image_size": [10, 20, 30], "regions": []}"#,
        br#"{"image_size": [10, -20], "regions": []}"#,
        br#"{"image_size": [10, 18446744073709551616], "regions": []}"#,
        br#"{"image_size": [10.0, 20], "regions": []}"#,
        br#"{"image_size": "10x20", "regions": []}"#,
        br#"{"image_size": {"width": 10, "height": 20}, "regions": []}"#,
        br#"{"regions": []}"#,
        br#"{"image_size": [10, 20]}"#,
        br#"{"image_size": [10, 20], "regions": {}}"#,
    ];
    for text in cases {
        assert_eq!(deserialize(text), Err(ParseError::UnknownFormat));
    }
    assert_eq!(
        deserialize(br#"{"image_size": [0, 4294967295], "regions": []}"#),
        Ok(Loaded::Document(RegionDocument { image_size: (0, 4294967295), regions: Vec::new() }))
    );
    assert_eq!(
        deserialize(br#"{"image_size": [5000000000, 18446744073709551615], "regions": []}"#),
        Ok(Loaded::Document(RegionDocument {
            image_size: (5_000_000_000, usize::MAX),
            regions: Vec::new()
        }))
    );
}

#[test]
fn text_that_is_no_json_is_of_unknown_format() {
    let cases: Vec<&[u8]> = vec![b"", b"not json", b"{", b"[1, 2", b"{} trailing", b"\xff\xfe", b"null", b"5", b"\"text\"", b"{}"];
    for text in cases {
        assert_eq!(deserialize(text), Err(ParseError::UnknownFormat));
    }
    assert_eq!(ParseError::UnknownFormat.message(), "unknown format");
}

#[test]
fn parsed_value_is_read_as_document_before_list() {
    let value = object(vec![
        ("image_size", serde_json::Value::Array(vec![number(3), number(4)])),
        ("regions", serde_json::Value::Array(vec![region_value("r", 1, 2, 3, 4)])),
    ]);
    assert_eq!(
        loaded_from_value(&value),
        Ok(Loaded::Document(RegionDocument { image_size: (3, 4), regions: vec![region("r", 1, 2, 3, 4)] }))
    );
    let list = serde_json::Value::Array(vec![region_value("r", 1, 2, 3, 4), region_value("s", 0, 0, 0, 0)]);
    assert_eq!(
        loaded_from_value(&list),
        Ok(Loaded::Legacy(vec![region("r", 1, 2, 3, 4), region("s", 0, 0, 0, 0)]))
    );
    assert_eq!(loaded_from_value(&serde_json::Value::Null), Err(ParseError::UnknownFormat));
    assert_eq!(loaded_from_value(&number(1)), Err(ParseError::UnknownFormat));
    let negative = object(vec![
        ("name", serde_json::Value::from("r")),
        ("x", serde_json::Value::from(-1i64)),
        ("y", number(0)),
        ("width", number(1)),
        ("height", number(1)),
    ]);
    assert_eq!(
        loaded_from_value(&serde_json::Value::Array(vec![negative])),
        Err(ParseError::UnknownFormat)
    );
}

#[test]
fn documents_are_the_same_when_size_and_regions_are() {
    let a = sample();
    assert!(a.same_as(&sample()));
    let mut b = sample();
    b.image_size = (460, 457);
    assert!(!a.same_as(&b));
    let mut b = sample();
    b.regions[1].name = "Art".to_string();
    assert!(!a.same_as(&b));
    let mut b = sample();
    b.regions[0].height = 5;
    assert!(!a.same_as(&b));
    let mut b = sample();
    b.regions.swap(0, 1);
    assert!(!a.same_as(&b));
    let mut b = sample();
    b.regions.pop();
    assert!(!a.same_as(&b));
    assert!(!b.same_as(&a));
}
