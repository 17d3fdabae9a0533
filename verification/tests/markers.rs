use realtime_lint::lint::RealtimeCallsNonrealtime;
use realtime_lint::marker::{
    call_info_doc, non_realtime_doc, read_text_call_info, read_text_marker, realtime_doc,
    AttrInfo, CallInfoTarget, ItemShape,
};
use realtime_lint::text::{contains, strip_prefix};

fn other_attr(name: &str, value: Option<&str>) -> AttrInfo {
    AttrInfo { name: Some(name.to_string()), value: value.map(|v| v.to_string()) }
}

#[test]
fn realtime_marks_every_function_form() {
    assert_eq!(realtime_doc(ItemShape::TraitMethod), Some("rt:realtime".to_string()));
    assert_eq!(realtime_doc(ItemShape::ImplMethod), Some("rt:realtime".to_string()));
    assert_eq!(realtime_doc(ItemShape::Function), Some("rt:realtime".to_string()));
    assert_eq!(realtime_doc(ItemShape::Other), None);
}

#[test]
fn non_realtime_marks_every_function_form() {
    assert_eq!(non_realtime_doc(ItemShape::TraitMethod), Some("rt:non_realtime".to_string()));
    assert_eq!(non_realtime_doc(ItemShape::ImplMethod), Some("rt:non_realtime".to_string()));
    assert_eq!(non_realtime_doc(ItemShape::Function), Some("rt:non_realtime".to_string()));
    assert_eq!(non_realtime_doc(ItemShape::Other), None);
}

#[test]
fn call_info_doc_marks_lets_and_functions_only() {
    let args = vec!["closure".to_string(), "non_realtime".to_string()];
    let expected = Some("rt:call-info:closure:non_realtime".to_string());
    assert_eq!(call_info_doc(&args, CallInfoTarget::LetStatement), expected);
    assert_eq!(call_info_doc(&args, CallInfoTarget::FunctionItem), expected);
    assert_eq!(call_info_doc(&args, CallInfoTarget::OtherStatement), None);
    assert_eq!(call_info_doc(&args, CallInfoTarget::OtherItem), None);
    assert_eq!(call_info_doc(&args, CallInfoTarget::Unparsed), None);
}

#[test]
fn marker_texts_read_back() {
    assert_eq!(read_text_marker("rt:realtime"), Some(true));
    assert_eq!(read_text_marker("rt:non_realtime"), Some(false));
    assert_eq!(read_text_marker(" Realtime function A"), None);
    assert_eq!(read_text_marker("calls rt:realtime here"), Some(true));
    assert_eq!(read_text_marker("rt:non_realtime and rt:realtime"), Some(true));
    assert_eq!(read_text_marker(""), None);
    assert_eq!(read_text_marker("rt:nonrealtime:alloc"), Some(false));
    assert_eq!(read_text_marker("rt:nonrealtime"), Some(false));
    assert_eq!(read_text_marker("rt:nonrealtime:rt:realtime"), Some(true));
}

#[test]
fn nonrealtime_spelling_in_attribute_list() {
    let attrs = vec![AttrInfo::doc(" Non-realtime function: does I/O"), AttrInfo::doc("rt:nonrealtime:io")];
    assert_eq!(RealtimeCallsNonrealtime::doc_marker_is_realtime(&attrs), Some(false));
}

#[test]
fn doc_marker_first_marking_attribute_decides() {
    let attrs = vec![
        other_attr("inline", None),
        AttrInfo::doc(" Non-realtime function A: I/O operations"),
        AttrInfo::doc("rt:non_realtime"),
        AttrInfo::doc("rt:realtime"),
    ];
    assert_eq!(RealtimeCallsNonrealtime::doc_marker_is_realtime(&attrs), Some(false));
}

#[test]
fn doc_marker_ignores_other_attributes() {
    let attrs = vec![
        other_attr("allow", Some("rt:realtime")),
        AttrInfo { name: None, value: Some("rt:realtime".to_string()) },
        AttrInfo { name: Some("doc".to_string()), value: None },
    ];
    assert_eq!(RealtimeCallsNonrealtime::doc_marker_is_realtime(&attrs), None);
    assert_eq!(RealtimeCallsNonrealtime::doc_marker_is_realtime(&vec![]), None);
}

#[test]
fn call_info_fields() {
    assert_eq!(
        read_text_call_info("rt:call-info:closure:non_realtime"),
        Some(("closure".to_string(), false))
    );
    assert_eq!(
        read_text_call_info("rt:call-info:closure:realtime"),
        Some(("closure".to_string(), true))
    );
    assert_eq!(
        read_text_call_info("rt:call-info:print_rt:realtime:extra"),
        Some(("print_rt".to_string(), true))
    );
    assert_eq!(read_text_call_info("rt:call-info:foo"), Some(("foo".to_string(), false)));
    assert_eq!(read_text_call_info("rt:call-info:"), Some(("".to_string(), false)));
    assert_eq!(read_text_call_info("rt:call-info::realtime"), Some(("".to_string(), true)));
    assert_eq!(
        read_text_call_info("rt:call-info:closure:nonrealtime"),
        Some(("closure".to_string(), false))
    );
    assert_eq!(read_text_call_info("rt:realtime"), None);
    assert_eq!(read_text_call_info(" rt:call-info:closure:realtime"), None);
}

#[test]
fn call_info_from_attribute_list() {
    let attrs = vec![
        AttrInfo::doc("rt:realtime"),
        other_attr("cfg", Some("rt:call-info:x:realtime")),
        AttrInfo::doc("rt:call-info:closure:non_realtime"),
        AttrInfo::doc("rt:call-info:other:realtime"),
    ];
    assert_eq!(
        RealtimeCallsNonrealtime::extract_call_info_from_doc_attrs(&attrs),
        Some(("closure".to_string(), false))
    );
    let none = vec![AttrInfo::doc("rt:non_realtime")];
    assert_eq!(RealtimeCallsNonrealtime::extract_call_info_from_doc_attrs(&none), None);
}

#[test]
fn written_call_info_reads_back() {
    let args = vec!["closure".to_string(), "realtime".to_string()];
    let text = call_info_doc(&args, CallInfoTarget::LetStatement).unwrap();
    let attrs = vec![AttrInfo::doc(&text)];
    assert_eq!(
        RealtimeCallsNonrealtime::extract_call_info_from_doc_attrs(&attrs),
        Some(("closure".to_string(), true))
    );
}

#[test]
fn written_markers_read_back() {
    let rt = vec![AttrInfo::doc(&realtime_doc(ItemShape::Function).unwrap())];
    assert_eq!(RealtimeCallsNonrealtime::doc_marker_is_realtime(&rt), Some(true));
    let nrt = vec![AttrInfo::doc(&non_realtime_doc(ItemShape::ImplMethod).unwrap())];
    assert_eq!(RealtimeCallsNonrealtime::doc_marker_is_realtime(&nrt), Some(false));
}

#[test]
fn name_with_separator_does_not_read_back() {
    let args = vec!["a:b".to_string(), "realtime".to_string()];
    let text = call_info_doc(&args, CallInfoTarget::LetStatement).unwrap();
    assert_eq!(read_text_call_info(&text), Some(("a".to_string(), false)));
}

#[test]
fn text_search_and_prefix() {
    assert!(contains("abcabd", "abd"));
    assert!(!contains("abcab", "abd"));
    assert!(contains("abc", ""));
    assert!(!contains("", "a"));
    assert_eq!(strip_prefix("rt:call-info:x", "rt:call-info:"), Some("x".to_string()));
    assert_eq!(strip_prefix("rt:call", "rt:call-info:"), None);
    assert_eq!(strip_prefix("héllo", "hé"), Some("llo".to_string()));
}
