use lsp_types::{
    Command, Diagnostic, DiagnosticRelatedInformation, DiagnosticSeverity, DiagnosticTag,
    FileChangeType, FileEvent, GotoDefinitionResponse, ImplementationProviderCapability,
    LanguageString, Location, LocationLink, MarkedString, NumberOrString,
    OptionalVersionedTextDocumentIdentifier, Position, PublishDiagnosticsParams, Range, SaveOptions,
    StaticTextDocumentRegistrationOptions, TextDocumentIdentifier, TextDocumentItem,
    TextDocumentPositionParams, TextDocumentSyncCapability, TextDocumentSyncKind,
    TextDocumentSyncOptions, TextDocumentSyncSaveOptions, TextEdit, TraceOption,
    TypeDefinitionProviderCapability, Url, VersionedTextDocumentIdentifier, WorkspaceEdit,
};
use std::cmp::Ordering;
use std::collections::HashMap;

fn parse_url(s: &str) -> Url {
    Url::parse(s).unwrap()
}

#[test]
fn position_new_keeps_line_and_character() {
    let p = Position::new(3, 7);
    assert_eq!(p.line, 3);
    assert_eq!(p.character, 7);
    assert_eq!(Position::default(), Position::new(0, 0));
}

#[test]
fn positions_order_by_line_then_character() {
    let a = Position::new(1, 9);
    let b = Position::new(2, 0);
    let c = Position::new(2, 5);
    assert_eq!(a.partial_cmp(&b), Some(Ordering::Less));
    assert_eq!(b.partial_cmp(&a), Some(Ordering::Greater));
    assert_eq!(b.partial_cmp(&c), Some(Ordering::Less));
    assert_eq!(c.partial_cmp(&c), Some(Ordering::Equal));
    assert!(a < b && b < c && a < c);
    assert_eq!(a.cmp(&c), Ordering::Less);
    assert_eq!(c.cmp(&b), Ordering::Greater);
    assert_eq!(std::cmp::max(a, c), c);
}

#[test]
fn range_new_keeps_ends() {
    let r = Range::new(Position::new(1, 2), Position::new(3, 4));
    assert_eq!(r.start, Position::new(1, 2));
    assert_eq!(r.end, Position::new(3, 4));
}

#[test]
fn location_new_keeps_uri_and_range() {
    let r = Range::new(Position::new(0, 1), Position::new(0, 5));
    let l = Location::new(parse_url("file:///a.rs"), r);
    assert_eq!(l.uri.as_str(), "file:///a.rs");
    assert_eq!(l.range, r);
}

#[test]
fn diagnostic_new_has_no_code_description_or_data() {
    let r = Range::new(Position::new(1, 0), Position::new(1, 4));
    let related = DiagnosticRelatedInformation {
        location: Location::new(parse_url("file:///b.rs"), r),
        message: "here".to_string(),
    };
    let d = Diagnostic::new(
        r,
        Some(DiagnosticSeverity::Warning),
        Some(NumberOrString::String("E1".to_string())),
        Some("lint".to_string()),
        "unused".to_string(),
        Some(vec![related.clone()]),
        Some(vec![DiagnosticTag::Unnecessary]),
    );
    assert_eq!(d.range, r);
    assert_eq!(d.severity, Some(DiagnosticSeverity::Warning));
    assert_eq!(d.code, Some(NumberOrString::String("E1".to_string())));
    assert_eq!(d.code_description, None);
    assert_eq!(d.source, Some("lint".to_string()));
    assert_eq!(d.message, "unused");
    assert_eq!(d.related_information, Some(vec![related]));
    assert_eq!(d.tags, Some(vec![DiagnosticTag::Unnecessary]));
    assert_eq!(d.data, None);
}

#[test]
fn diagnostic_new_simple_is_new_without_options() {
    let r = Range::new(Position::new(2, 0), Position::new(2, 3));
    let simple = Diagnostic::new_simple(r, "oops".to_string());
    let full = Diagnostic::new(r, None, None, None, "oops".to_string(), None, None);
    assert_eq!(simple, full);
    assert_eq!(simple, Diagnostic { range: r, message: "oops".to_string(), ..Diagnostic::default() });
}

#[test]
fn diagnostic_new_with_code_number_sets_numeric_code() {
    let r = Range::new(Position::new(0, 0), Position::new(0, 1));
    let d = Diagnostic::new_with_code_number(
        r,
        DiagnosticSeverity::Error,
        42,
        Some("rustc".to_string()),
        "bad".to_string(),
    );
    let full = Diagnostic::new(
        r,
        Some(DiagnosticSeverity::Error),
        Some(NumberOrString::Number(42)),
        Some("rustc".to_string()),
        "bad".to_string(),
        None,
        None,
    );
    assert_eq!(d, full);
    assert_eq!(d.code, Some(NumberOrString::Number(42)));
}

#[test]
fn diagnostic_severities_are_ordered_from_error_to_hint() {
    assert!(DiagnosticSeverity::Error < DiagnosticSeverity::Warning);
    assert!(DiagnosticSeverity::Warning < DiagnosticSeverity::Information);
    assert!(DiagnosticSeverity::Information < DiagnosticSeverity::Hint);
}

#[test]
fn publish_diagnostics_params_new_keeps_fields() {
    let r = Range::new(Position::new(0, 0), Position::new(0, 1));
    let d = Diagnostic::new_simple(r, "m".to_string());
    let p = PublishDiagnosticsParams::new(parse_url("file:///c.rs"), vec![d.clone()], Some(3));
    assert_eq!(p.uri, parse_url("file:///c.rs"));
    assert_eq!(p.diagnostics, vec![d]);
    assert_eq!(p.version, Some(3));
}

#[test]
fn command_new_keeps_fields() {
    let c = Command::new(
        "Save".to_string(),
        "editor.save".to_string(),
        Some(vec![serde_json::Value::Bool(true)]),
    );
    assert_eq!(c.title, "Save");
    assert_eq!(c.command, "editor.save");
    assert_eq!(c.arguments, Some(vec![serde_json::Value::Bool(true)]));
    let none = Command::new(String::new(), String::new(), None);
    assert_eq!(none.arguments, None);
}

#[test]
fn text_edit_new_keeps_fields() {
    let r = Range::new(Position::new(4, 1), Position::new(4, 1));
    let e = TextEdit::new(r, "x".to_string());
    assert_eq!(e.range, r);
    assert_eq!(e.new_text, "x");
}

#[test]
fn workspace_edit_new_holds_only_changes() {
    let mut changes = HashMap::new();
    changes.insert(parse_url("file://test"), vec![]);
    let w = WorkspaceEdit::new(changes.clone());
    assert_eq!(w.changes, Some(changes));
    assert_eq!(w.document_changes, None);
    assert_eq!(w.change_annotations, None);
    let empty = WorkspaceEdit::new(HashMap::new());
    assert_eq!(empty.changes, Some(HashMap::new()));
}

#[test]
fn text_document_constructors_keep_fields() {
    let u = parse_url("file:///d.rs");
    assert_eq!(TextDocumentIdentifier::new(u.clone()).uri, u);
    let item = TextDocumentItem::new(u.clone(), "rust".to_string(), 5, "fn main() {}".to_string());
    assert_eq!(item.uri, u);
    assert_eq!(item.language_id, "rust");
    assert_eq!(item.version, 5);
    assert_eq!(item.text, "fn main() {}");
    let v = VersionedTextDocumentIdentifier::new(u.clone(), -1);
    assert_eq!(v.uri, u);
    assert_eq!(v.version, -1);
    let o = OptionalVersionedTextDocumentIdentifier::new(u.clone(), 9);
    assert_eq!(o.uri, u);
    assert_eq!(o.version, Some(9));
    let p = TextDocumentPositionParams::new(TextDocumentIdentifier::new(u.clone()), Position::new(1, 1));
    assert_eq!(p.text_document, TextDocumentIdentifier::new(u));
    assert_eq!(p.position, Position::new(1, 1));
}

#[test]
fn file_event_new_keeps_fields() {
    let e = FileEvent::new(parse_url("file:///e.rs"), FileChangeType::Deleted);
    assert_eq!(e.uri, parse_url("file:///e.rs"));
    assert_eq!(e.typ, FileChangeType::Deleted);
}

#[test]
fn trace_option_default_is_off() {
    assert_eq!(TraceOption::default(), TraceOption::Off);
}

#[test]
fn marked_string_constructors() {
    assert_eq!(MarkedString::from_markdown("xxx".to_string()), MarkedString::String("xxx".to_string()));
    assert_eq!(
        MarkedString::from_language_code("lang".to_string(), "code".to_string()),
        MarkedString::LanguageString(LanguageString { language: "lang".to_string(), value: "code".to_string() })
    );
}

#[test]
fn goto_definition_response_from_conversions() {
    let r = Range::new(Position::new(0, 0), Position::new(0, 2));
    let l = Location::new(parse_url("file:///f.rs"), r);
    assert_eq!(GotoDefinitionResponse::from(l.clone()), GotoDefinitionResponse::Scalar(l.clone()));
    assert_eq!(GotoDefinitionResponse::from(vec![l.clone()]), GotoDefinitionResponse::Array(vec![l.clone()]));
    let link = LocationLink {
        origin_selection_range: None,
        target_uri: l.uri.clone(),
        target_range: r,
        target_selection_range: r,
    };
    assert_eq!(GotoDefinitionResponse::from(vec![link.clone()]), GotoDefinitionResponse::Link(vec![link]));
}

#[test]
fn capability_from_conversions() {
    let save = SaveOptions { include_text: Some(true) };
    assert_eq!(TextDocumentSyncSaveOptions::from(save.clone()), TextDocumentSyncSaveOptions::SaveOptions(save));
    assert_eq!(TextDocumentSyncSaveOptions::from(false), TextDocumentSyncSaveOptions::Supported(false));
    let opts = TextDocumentSyncOptions { open_close: Some(true), ..TextDocumentSyncOptions::default() };
    assert_eq!(TextDocumentSyncCapability::from(opts.clone()), TextDocumentSyncCapability::Options(opts));
    assert_eq!(
        TextDocumentSyncCapability::from(TextDocumentSyncKind::Incremental),
        TextDocumentSyncCapability::Kind(TextDocumentSyncKind::Incremental)
    );
    let reg = StaticTextDocumentRegistrationOptions { document_selector: None, id: Some("i".to_string()) };
    assert_eq!(ImplementationProviderCapability::from(reg.clone()), ImplementationProviderCapability::Options(reg.clone()));
    assert_eq!(ImplementationProviderCapability::from(true), ImplementationProviderCapability::Simple(true));
    assert_eq!(TypeDefinitionProviderCapability::from(reg.clone()), TypeDefinitionProviderCapability::Options(reg));
    assert_eq!(TypeDefinitionProviderCapability::from(false), TypeDefinitionProviderCapability::Simple(false));
}
