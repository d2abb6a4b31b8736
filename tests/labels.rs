use laravel_extension::labels::{label_for_completion, CodeLabel, CompletionKind};

fn spans(l: &CodeLabel) -> Vec<(String, Option<String>)> {
    l.spans.iter().map(|s| (s.text.clone(), s.highlight.clone())).collect()
}

fn single(kind: CompletionKind, highlight: &str) {
    let label = "users.index".to_string();
    let l = label_for_completion(&label, Some(kind)).expect("a label");
    assert_eq!(l.code, "users.index");
    assert_eq!(spans(&l), vec![("users.index".to_string(), Some(highlight.to_string()))]);
    assert_eq!((l.filter_start, l.filter_end), (0, 11));
}

#[test]
fn single_span_kinds() {
    single(CompletionKind::Value, "string");
    single(CompletionKind::File, "string.special");
    single(CompletionKind::Field, "property");
    single(CompletionKind::Class, "type");
    single(CompletionKind::Snippet, "keyword");
    single(CompletionKind::EnumMember, "constant");
    single(CompletionKind::Reference, "function");
    single(CompletionKind::Event, "string");
}

#[test]
fn module_label_gets_tag_prefix() {
    let l = label_for_completion(&"alert".to_string(), Some(CompletionKind::Module)).unwrap();
    assert_eq!(l.code, "x-alert");
    assert_eq!(
        spans(&l),
        vec![
            ("x-".to_string(), Some("tag".to_string())),
            ("alert".to_string(), Some("tag".to_string())),
        ]
    );
    assert_eq!((l.filter_start, l.filter_end), (0, 7));
}

#[test]
fn method_label_gets_parentheses() {
    let l = label_for_completion(&"where".to_string(), Some(CompletionKind::Method)).unwrap();
    assert_eq!(l.code, "where()");
    assert_eq!(
        spans(&l),
        vec![
            ("where".to_string(), Some("function".to_string())),
            ("()".to_string(), Some("punctuation".to_string())),
        ]
    );
    assert_eq!((l.filter_start, l.filter_end), (0, 5));
}

#[test]
fn filter_range_counts_bytes() {
    let l = label_for_completion(&"café".to_string(), Some(CompletionKind::Value)).unwrap();
    assert_eq!(l.filter_end, 5);
    let l = label_for_completion(&"é".to_string(), Some(CompletionKind::Module)).unwrap();
    assert_eq!(l.filter_end, 4);
}

#[test]
fn other_kinds_get_no_label() {
    let label = "x".to_string();
    assert!(label_for_completion(&label, None).is_none());
    assert!(label_for_completion(&label, Some(CompletionKind::Text)).is_none());
    assert!(label_for_completion(&label, Some(CompletionKind::Keyword)).is_none());
    assert!(label_for_completion(&label, Some(CompletionKind::Other(42))).is_none());
}

#[test]
fn empty_label_has_empty_range() {
    let l = label_for_completion(&String::new(), Some(CompletionKind::Class)).unwrap();
    assert_eq!(l.code, "");
    assert_eq!((l.filter_start, l.filter_end), (0, 0));
}
