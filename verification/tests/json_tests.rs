use cacherch::errors::CacherchError;
use cacherch::json::{same_text, JsonValue};
use cacherch::searcher::{result_from_stored, stored_result};
use cacherch::types::SearchResult;

fn text(s: &str) -> JsonValue {
    JsonValue::Text(s.to_string())
}

fn stored(title: JsonValue, path: JsonValue) -> JsonValue {
    JsonValue::Object(vec![("path".to_string(), path), ("title".to_string(), title)])
}

#[test]
fn member_finds_the_named_value() {
    let doc = stored(text("t"), text("p"));
    assert_eq!(doc.member("title"), Some(&text("t")));
    assert_eq!(doc.member("path"), Some(&text("p")));
    assert_eq!(doc.member("body"), None);
    assert_eq!(doc.member("Title"), None);
}

#[test]
fn member_takes_the_first_of_two_with_one_name() {
    let doc = JsonValue::Object(vec![("k".to_string(), text("one")), ("k".to_string(), text("two"))]);
    assert_eq!(doc.member("k"), Some(&text("one")));
}

#[test]
fn member_of_what_is_no_object_is_absent() {
    assert_eq!(text("title").member("title"), None);
    assert_eq!(JsonValue::Array(vec![text("title")]).member("title"), None);
    assert_eq!(JsonValue::Null.member(""), None);
}

#[test]
fn element_is_bounded_by_the_length() {
    let list = JsonValue::Array(vec![text("a"), JsonValue::Bool(true)]);
    assert_eq!(list.element(0), Some(&text("a")));
    assert_eq!(list.element(1), Some(&JsonValue::Bool(true)));
    assert_eq!(list.element(2), None);
    assert_eq!(text("a").element(0), None);
}

#[test]
fn text_is_had_of_strings_only() {
    assert_eq!(text("a").text(), Some(&"a".to_string()));
    assert_eq!(JsonValue::Number("1".to_string()).text(), None);
    assert_eq!(JsonValue::Null.text(), None);
}

#[test]
fn first_text_reads_the_first_value_of_a_field() {
    let doc = stored(JsonValue::Array(vec![text("a.txt"), text("other")]), JsonValue::Array(vec![text("/d/a.txt")]));
    assert_eq!(doc.first_text("title"), "a.txt");
    assert_eq!(doc.first_text("path"), "/d/a.txt");
}

#[test]
fn first_text_is_empty_where_there_is_none() {
    let doc = stored(JsonValue::Array(Vec::new()), text("not a list"));
    assert_eq!(doc.first_text("title"), "");
    assert_eq!(doc.first_text("path"), "");
    assert_eq!(doc.first_text("body"), "");
    let doc = stored(JsonValue::Array(vec![JsonValue::Number("7".to_string()), text("late")]), JsonValue::Null);
    assert_eq!(doc.first_text("title"), "");
    assert_eq!(JsonValue::Null.first_text("title"), "");
}

#[test]
fn same_text_compares_characters() {
    assert!(same_text("", ""));
    assert!(same_text("été", "été"));
    assert!(!same_text("abc", "abd"));
    assert!(!same_text("abc", "ab"));
    assert!(!same_text("a", "A"));
}

#[test]
fn result_takes_title_path_and_score() {
    let doc = stored(JsonValue::Array(vec![text("a.txt")]), JsonValue::Array(vec![text("/d/a.txt")]));
    let bits = 2.5f32.to_bits();
    assert_eq!(
        result_from_stored(&doc, bits),
        SearchResult::new("a.txt".to_string(), "/d/a.txt".to_string(), bits)
    );
}

#[test]
fn result_of_an_empty_document_has_empty_fields() {
    let got = result_from_stored(&JsonValue::Object(Vec::new()), 0);
    assert_eq!(got, SearchResult::new(String::new(), String::new(), 0));
}

#[test]
fn stored_result_reads_json_text() {
    let got = stored_result(r#"{"path":["/d/a.txt"],"title":["a.txt"]}"#, 9);
    assert_eq!(got, Ok(SearchResult::new("a.txt".to_string(), "/d/a.txt".to_string(), 9)));
    let got = stored_result(r#"{"title":[3.5,"late"],"path":"flat","n":[null,true,{"k":[1]}]}"#, 9);
    assert_eq!(got, Ok(SearchResult::new(String::new(), String::new(), 9)));
    let got = stored_result(r#"{"title":["first"],"title":["second"]}"#, 1);
    assert_eq!(got, Ok(SearchResult::new("second".to_string(), String::new(), 1)));
}

#[test]
fn stored_result_rejects_what_is_not_json() {
    assert!(matches!(stored_result("{\"title\":", 1), Err(CacherchError::IndexStorage(_))));
    assert!(matches!(stored_result("", 1), Err(CacherchError::IndexStorage(_))));
    assert!(matches!(stored_result("title", 1), Err(CacherchError::IndexStorage(_))));
}
