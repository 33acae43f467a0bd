use rscoop::info::{
    format_bin_value, get_installed_version, parse_manifest_details, read_manifest_details,
};
use rscoop::json::{
    as_bool, as_text, format_json_value, member, member_flag, member_text, trim_quotes, JsonField,
    JsonKind, JsonNode,
};
use rscoop::models::MatchSource;
use rscoop::search::{binary_names, search_manifest, search_pattern};

const JS_MANIFEST: &str = r#"{
  "version": "2.1",
  "description": "VCS",
  "bin": ["git.exe", ["cmd\\git.exe", "g"], ["only.exe"], {"alias": "p"}, 5, [], [1, 2]],
  "notes": ["line1", 2, "l\"3"],
  "license": {"identifier": "MIT"},
  "depends": ["a", "say \"hi\""],
  "homepage": "https://x",
  "count": 7,
  "flag": true,
  "nothing": null
}"#;

fn js_pairs(items: &[(&str, &str)]) -> Vec<(String, String)> {
    items.iter().map(|(k, v)| (k.to_string(), v.to_string())).collect()
}

fn js_text(text: &str) -> JsonNode {
    JsonNode { kind: JsonKind::Text(text.to_string()), json: format!("{:?}", text) }
}

fn js_node(kind: JsonKind, json: &str) -> JsonNode {
    JsonNode { kind, json: json.to_string() }
}

fn js_strings(items: &[&str]) -> Vec<String> {
    items.iter().map(|s| s.to_string()).collect()
}

#[test]
fn manifest_details_are_read_in_key_order() {
    let read = read_manifest_details(JS_MANIFEST).unwrap();
    assert_eq!(
        read.details,
        js_pairs(&[
            ("Includes", "git.exe, g, only.exe, alias"),
            ("Count", "7"),
            ("Depends", "a, say \\\"hi\\"),
            ("Description", "VCS"),
            ("Flag", "true"),
            ("Homepage", "https://x"),
            ("License", "{\"identifier\":\"MIT\"}"),
            ("Nothing", "null"),
            ("Version", "2.1"),
        ])
    );
    assert_eq!(read.notes, Some("line1\n2\nl\"3".to_string()));
    assert_eq!(read.version, Some("2.1".to_string()));
}

#[test]
fn manifest_that_is_no_object_has_no_details() {
    let read = read_manifest_details("[1, 2]").unwrap();
    assert!(read.details.is_empty());
    assert_eq!((read.notes, read.version), (None, None));
    assert!(read_manifest_details("{").is_none());
    assert!(read_manifest_details("").is_none());
    let read = read_manifest_details(r#"{"notes": "one line", "bin": "tool.exe", "version": 3}"#).unwrap();
    assert_eq!(read.details, js_pairs(&[("Includes", "tool.exe"), ("Version", "3")]));
    assert_eq!(read.notes, Some("one line".to_string()));
    assert_eq!(read.version, None);
    let read = read_manifest_details(r#"{"notes": {"a": 1}, "x": "\"q\""}"#).unwrap();
    assert_eq!(read.notes, Some("{\"a\":1}".to_string()));
    assert_eq!(read.details, js_pairs(&[("X", "\"q\"")]));
}

#[test]
fn installed_version_is_the_version_string() {
    assert_eq!(get_installed_version(r#"{"version": "1.2.3"}"#), Some("1.2.3".to_string()));
    assert_eq!(get_installed_version(r#"{"version": 1}"#), None);
    assert_eq!(get_installed_version(r#"{"Version": "1"}"#), None);
    assert_eq!(get_installed_version(r#"["version"]"#), None);
    assert_eq!(get_installed_version("nonsense"), None);
    assert_eq!(get_installed_version(r#"{"version": "a", "version": "b"}"#), Some("b".to_string()));
}

#[test]
fn quotes_are_trimmed_at_both_ends() {
    assert_eq!(trim_quotes("\"a\""), "a");
    assert_eq!(trim_quotes("\"\"a\"b\"\"\""), "a\"b");
    assert_eq!(trim_quotes("\"\"\""), "");
    assert_eq!(trim_quotes(""), "");
    assert_eq!(trim_quotes("plain"), "plain");
    for s in ["\"", "a\"", "\"a", " \"a\" ", "\"é\""] {
        assert_eq!(trim_quotes(s), s.trim_matches('"'), "for {:?}", s);
    }
}

#[test]
fn values_are_shown_by_kind() {
    assert_eq!(format_json_value(&js_text("plain \"text\"")), "plain \"text\"");
    assert_eq!(format_json_value(&js_node(JsonKind::Number, "42")), "42");
    assert_eq!(format_json_value(&js_node(JsonKind::Bool(false), "false")), "false");
    assert_eq!(format_json_value(&js_node(JsonKind::Null, "null")), "null");
    let array = js_node(
        JsonKind::Array(vec![js_text("a"), js_node(JsonKind::Number, "1"), js_node(JsonKind::Array(vec![]), "[]")]),
        "[\"a\",1,[]]",
    );
    assert_eq!(format_json_value(&array), "a, 1, []");
    assert_eq!(format_json_value(&js_node(JsonKind::Array(vec![]), "[]")), "");
    let object = js_node(JsonKind::Object(vec![]), "{}");
    assert_eq!(format_json_value(&object), "{}");
}

#[test]
fn bin_entries_are_shown_by_name() {
    let pair = js_node(JsonKind::Array(vec![js_text("path"), js_text("alias")]), "[]");
    let odd_pair = js_node(JsonKind::Array(vec![js_text("path"), js_node(JsonKind::Number, "1")]), "[]");
    let object = js_node(
        JsonKind::Object(vec![
            JsonField { key: "first".to_string(), value: js_text("x") },
            JsonField { key: "second".to_string(), value: js_text("y") },
        ]),
        "{}",
    );
    let bin = js_node(JsonKind::Array(vec![js_text("tool.exe"), pair, odd_pair, object]), "[]");
    assert_eq!(format_bin_value(&bin), "tool.exe, alias, first");
    assert_eq!(format_bin_value(&js_text("single.exe")), "single.exe");
    assert_eq!(format_bin_value(&js_node(JsonKind::Number, "3")), "3");
}

#[test]
fn members_are_found_by_key() {
    let object = js_node(
        JsonKind::Object(vec![
            JsonField { key: "hold".to_string(), value: js_node(JsonKind::Bool(true), "true") },
            JsonField { key: "bucket".to_string(), value: js_text("main") },
        ]),
        "{}",
    );
    assert_eq!(member(&object, "bucket").and_then(as_text), Some("main"));
    assert_eq!(member(&object, "hold").and_then(as_bool), Some(true));
    assert_eq!(member(&object, "hold").and_then(as_text), None);
    assert!(member(&object, "Bucket").is_none());
    assert!(member(&js_text("bucket"), "bucket").is_none());
    let document = Some(object);
    assert_eq!(member_text(&document, "bucket"), Some("main".to_string()));
    assert_eq!(member_text(&document, "hold"), None);
    assert_eq!(member_flag(&document, "hold"), Some(true));
    assert_eq!(member_flag(&document, "bucket"), None);
    assert_eq!(member_text(&None, "bucket"), None);
    assert_eq!(member_flag(&None, "hold"), None);
    let (details, notes) = parse_manifest_details(document.as_ref().unwrap());
    assert_eq!(details, js_pairs(&[("Hold", "true"), ("Bucket", "main")]));
    assert_eq!(notes, None);
}

#[test]
fn binaries_of_a_manifest() {
    let object = |fields: Vec<(&str, JsonNode)>| {
        js_node(
            JsonKind::Object(fields.into_iter().map(|(k, v)| JsonField { key: k.to_string(), value: v }).collect()),
            "{}",
        )
    };
    let entry = object(vec![("alias", js_text("path\\a.exe")), ("n", js_node(JsonKind::Number, "1"))]);
    let pair = js_node(JsonKind::Array(vec![js_text("p"), js_text("a")]), "[]");
    let manifest = object(vec![("bin", js_node(JsonKind::Array(vec![js_text("x.exe"), pair, entry]), "[]"))]);
    assert_eq!(binary_names(&manifest), js_strings(&["x.exe", "alias", "n", "path\\a.exe"]));
    assert_eq!(binary_names(&object(vec![("bin", js_text("one.exe"))])), js_strings(&["one.exe"]));
    let direct = object(vec![("bin", object(vec![("k", js_text("v"))]))]);
    assert_eq!(binary_names(&direct), js_strings(&["k", "v"]));
    assert_eq!(binary_names(&object(vec![("bin", js_node(JsonKind::Number, "1"))])), js_strings(&[]));
    assert_eq!(binary_names(&object(vec![])), js_strings(&[]));
    assert_eq!(binary_names(&js_text("bin")), js_strings(&[]));
}

#[test]
fn manifest_is_found_by_name_or_binary() {
    let pattern = search_pattern("git");
    let content = r#"{"version": "2.1", "bin": ["x.exe"]}"#;
    let found = search_manifest(&pattern, Some("git-lfs"), Some("main"), Some(content)).unwrap();
    assert_eq!((found.name.as_str(), found.version.as_str(), found.source.as_str()), ("git-lfs", "2.1", "main"));
    assert_eq!(found.match_source, MatchSource::Name);
    assert!(!found.is_installed);

    let by_binary = r#"{"version": "1", "bin": [["tools\\GIT.exe", "g"], {"gitk": "x"}]}"#;
    assert!(search_manifest(&pattern, Some("tools"), Some("extras"), Some(r#"{"version": "1", "bin": [["tools\\GIT.exe", "g"]]}"#)).is_none());
    let found = search_manifest(&pattern, Some("tools"), Some("extras"), Some(by_binary)).unwrap();
    assert_eq!(found.match_source, MatchSource::Binary);
    assert_eq!(found.source, "extras");

    assert!(search_manifest(&pattern, Some("vim"), Some("main"), Some(content)).is_none());
    assert!(search_manifest(&pattern, None, Some("main"), Some(content)).is_none());
    assert!(search_manifest(&pattern, Some("git"), None, Some(content)).is_none());
    assert!(search_manifest(&pattern, Some("git"), Some("main"), None).is_none());
    assert!(search_manifest(&pattern, Some("git"), Some("main"), Some("not json")).is_none());
    assert!(search_manifest(&pattern, Some("git"), Some("main"), Some(r#"{"version": 2}"#)).is_none());
    assert!(search_manifest(&pattern, Some("git"), Some("main"), Some(r#"{"bin": "git"}"#)).is_none());
}
