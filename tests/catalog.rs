use serde_json::Value;
use wallhaven_picker::catalog::{catalog_from_json, convert_to_image_list, read_record, CatalogError, ImageData};

fn item(path: &str, large: &str) -> String {
    format!(
        "{{\"id\":\"x\",\"path\":\"{}\",\"thumbs\":{{\"large\":\"{}\",\"small\":\"s\"}}}}",
        path, large
    )
}

fn paths(list: &[ImageData]) -> Vec<(String, String)> {
    list.iter().map(|d| (d.path.clone(), d.thumb.clone())).collect()
}

#[test]
fn catalog_keeps_records_in_order() {
    let text = format!(
        "{{\"data\":[{},{}],\"meta\":{{\"total\":2}}}}",
        item("https://w.cc/full/a.jpg", "https://th.cc/lg/a.jpg"),
        item("https://w.cc/full/b.png", "https://th.cc/lg/b.jpg")
    );
    let list = convert_to_image_list(text).unwrap();
    assert_eq!(
        paths(&list),
        vec![
            ("https://w.cc/full/a.jpg".to_string(), "https://th.cc/lg/a.jpg".to_string()),
            ("https://w.cc/full/b.png".to_string(), "https://th.cc/lg/b.jpg".to_string()),
        ]
    );
}

#[test]
fn catalog_of_empty_data_is_empty() {
    let list = convert_to_image_list("{\"data\":[]}".to_string()).unwrap();
    assert!(list.is_empty());
}

#[test]
fn catalog_without_data_array_is_an_error() {
    let r = convert_to_image_list("{\"meta\":{\"total\":0}}".to_string());
    assert_eq!(r.unwrap_err(), CatalogError::MissingData);
    let r = convert_to_image_list("{\"data\":{\"path\":\"p\"}}".to_string());
    assert_eq!(r.unwrap_err(), CatalogError::MissingData);
    let r = convert_to_image_list("[1,2,3]".to_string());
    assert_eq!(r.unwrap_err(), CatalogError::MissingData);
}

#[test]
fn catalog_names_first_bad_record() {
    let text = format!(
        "{{\"data\":[{},{{\"path\":\"p\",\"thumbs\":{{\"small\":\"s\"}}}},{{\"path\":3}}]}}",
        item("a", "b")
    );
    assert_eq!(convert_to_image_list(text).unwrap_err(), CatalogError::BadRecord(1));
}

#[test]
fn catalog_rejects_non_json() {
    let r = convert_to_image_list("{\"data\": [".to_string());
    assert_eq!(r.unwrap_err(), CatalogError::Syntax);
    let r = convert_to_image_list("not json".to_string());
    assert_eq!(r.unwrap_err(), CatalogError::Syntax);
}

fn object(members: Vec<(&str, Value)>) -> Value {
    let mut m = serde_json::Map::new();
    for (k, v) in members {
        m.insert(k.to_string(), v);
    }
    Value::Object(m)
}

#[test]
fn catalog_from_built_document() {
    let record = object(vec![
        ("path", Value::String("full".to_string())),
        ("thumbs", object(vec![("large", Value::String("thumb".to_string()))])),
    ]);
    let doc = object(vec![("data", Value::Array(vec![record]))]);
    let list = catalog_from_json(&doc).unwrap();
    assert_eq!(paths(&list), vec![("full".to_string(), "thumb".to_string())]);
    let no_data = object(vec![("items", Value::Array(vec![]))]);
    assert_eq!(catalog_from_json(&no_data).unwrap_err(), CatalogError::MissingData);
}

#[test]
fn record_needs_string_fields() {
    let bad = object(vec![
        ("path", Value::Number(1.into())),
        ("thumbs", object(vec![("large", Value::String("t".to_string()))])),
    ]);
    assert!(read_record(&bad).is_none());
    assert!(read_record(&Value::Null).is_none());
    let no_large = object(vec![
        ("path", Value::String("p".to_string())),
        ("thumbs", object(vec![("small", Value::String("t".to_string()))])),
    ]);
    assert!(read_record(&no_large).is_none());
}

#[test]
fn catalog_reads_deep_documents() {
    let text = format!("{{\"data\":[{}{}]}}", "[".repeat(120), "]".repeat(120));
    assert_eq!(convert_to_image_list(text).unwrap_err(), CatalogError::BadRecord(0));
    let text = format!("{{\"data\":[{}{}]}}", "[".repeat(200), "]".repeat(200));
    assert_eq!(convert_to_image_list(text).unwrap_err(), CatalogError::Syntax);
}
