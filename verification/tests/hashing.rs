use frontend_forge::api::{
    BuilderSpec, ColumnRenderSpec, ColumnRenderType, ColumnSpec, CrdNamesSpec, CrdScope, CrdTablePageSpec,
    FrontendIntegrationSpec, MenuNodeType, MenuPlacement, PageSpec, PageType, PrimaryMenuSpec, SecondaryMenuSpec,
};
use frontend_forge::canonical::{canonical_text, key_less, manifest_content_and_hash, write_json};
use frontend_forge::digest::content_hash;
use frontend_forge::json::JsonValue;
use frontend_forge::spec_json::spec_to_json;

fn s(text: &str) -> JsonValue {
    JsonValue::Str(text.to_string())
}

fn n(text: &str) -> JsonValue {
    JsonValue::Number(text.to_string())
}

fn obj(entries: Vec<(&str, JsonValue)>) -> JsonValue {
    JsonValue::Object(entries.into_iter().map(|(k, v)| (k.to_string(), v)).collect())
}

#[test]
fn keys_order_by_code_point_with_prefixes_first() {
    assert!(key_less("a", "b"));
    assert!(!key_less("b", "a"));
    assert!(key_less("ab", "abc"));
    assert!(!key_less("abc", "ab"));
    assert!(!key_less("same", "same"));
    assert!(key_less("", "a"));
    assert!(key_less("Z", "a"));
    assert!(key_less("z", "é"));
}

#[test]
fn canonical_text_sorts_keys_at_every_level() {
    let j = obj(vec![
        ("b", n("1")),
        ("a", obj(vec![("d", n("2")), ("c", JsonValue::Array(vec![obj(vec![("y", JsonValue::Null), ("x", JsonValue::Bool(true))])]))])),
    ]);
    assert_eq!(canonical_text(&j), "{\"a\":{\"c\":[{\"x\":true,\"y\":null}],\"d\":2},\"b\":1}");
}

#[test]
fn canonical_text_keeps_the_last_of_repeated_keys() {
    let j = obj(vec![("k", n("1")), ("j", n("0")), ("k", n("2"))]);
    assert_eq!(canonical_text(&j), "{\"j\":0,\"k\":2}");
}

#[test]
fn strings_are_escaped_as_json_writers_do() {
    let j = s("q\"b\\n\nr\rt\tb\u{8}f\u{c}c\u{1}/é");
    let mut out = String::new();
    write_json(&mut out, &j);
    assert_eq!(out, "\"q\\\"b\\\\n\\nr\\rt\\tb\\bf\\fc\\u0001/é\"");
    assert_eq!(out, serde_json::to_string(&serde_json::Value::String("q\"b\\n\nr\rt\tb\u{8}f\u{c}c\u{1}/é".to_string())).unwrap());
}

#[test]
fn manifest_hash_is_the_content_hash_of_the_canonical_text() {
    let j = obj(vec![("version", s("1.0")), ("kind", s("Extension"))]);
    let (text, hash) = manifest_content_and_hash(&j);
    assert_eq!(text, "{\"kind\":\"Extension\",\"version\":\"1.0\"}");
    assert_eq!(hash, content_hash(&text));
}

#[test]
fn spec_json_uses_resource_field_names_and_omits_absent_fields() {
    let spec = FrontendIntegrationSpec {
        display_name: Some("Demo".to_string()),
        locales: vec![("zh".to_string(), vec![("title".to_string(), "演示".to_string())])],
        enabled: None,
        menus: vec![PrimaryMenuSpec {
            display_name: "Org".to_string(),
            key: "org".to_string(),
            placement: MenuPlacement::Workspace,
            type_: MenuNodeType::Organization,
            children: vec![SecondaryMenuSpec { display_name: "Tasks".to_string(), key: "tasks".to_string() }],
        }],
        pages: vec![PageSpec {
            key: "tasks".to_string(),
            type_: PageType::CrdTable,
            crd_table: Some(CrdTablePageSpec {
                names: CrdNamesSpec { kind: "Task".to_string(), plural: "tasks".to_string() },
                group: "example.io".to_string(),
                version: "v1".to_string(),
                auth_key: None,
                scope: CrdScope::Namespaced,
                columns: vec![ColumnSpec {
                    key: "name".to_string(),
                    title: "Name".to_string(),
                    render: ColumnRenderSpec {
                        type_: ColumnRenderType::Text,
                        path: "metadata.name".to_string(),
                        format: None,
                        pattern: None,
                        link: None,
                        payload: None,
                    },
                    enable_sorting: Some(true),
                    enable_hiding: None,
                }],
            }),
            iframe: None,
        }],
        builder: Some(BuilderSpec { engine_version: None }),
    };
    let text = canonical_text(&spec_to_json(&spec));
    assert_eq!(
        text,
        "{\"builder\":{},\"displayName\":\"Demo\",\"locales\":{\"zh\":{\"title\":\"演示\"}},\"menus\":[{\"children\":[{\"displayName\":\"Tasks\",\"key\":\"tasks\"}],\"displayName\":\"Org\",\"key\":\"org\",\"placement\":\"workspace\",\"type\":\"organization\"}],\"pages\":[{\"crdTable\":{\"columns\":[{\"enableSorting\":true,\"key\":\"name\",\"render\":{\"path\":\"metadata.name\",\"type\":\"text\"},\"title\":\"Name\"}],\"group\":\"example.io\",\"names\":{\"kind\":\"Task\",\"plural\":\"tasks\"},\"scope\":\"Namespaced\",\"version\":\"v1\"},\"key\":\"tasks\",\"type\":\"crdTable\"}]}"
    );
}

#[test]
fn canonical_text_does_not_depend_on_entry_order() {
    let a = obj(vec![("x", n("1")), ("y", obj(vec![("p", s("a")), ("q", s("b"))])), ("z", JsonValue::Null)]);
    let b = obj(vec![("z", JsonValue::Null), ("y", obj(vec![("q", s("b")), ("p", s("a"))])), ("x", n("1"))]);
    assert_eq!(canonical_text(&a), canonical_text(&b));
    assert_eq!(manifest_content_and_hash(&a).1, manifest_content_and_hash(&b).1);
}
