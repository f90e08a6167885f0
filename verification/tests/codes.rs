use lsp_types::{
    DiagnosticSeverity, DiagnosticTag, FileChangeType, SymbolKind, SymbolTag, TextDocumentSaveReason,
    TextDocumentSyncKind, WatchKind,
};

#[test]
fn diagnostic_codes_are_protocol_numbers() {
    assert_eq!(DiagnosticSeverity::Error.code(), 1);
    assert_eq!(DiagnosticSeverity::Warning.code(), 2);
    assert_eq!(DiagnosticSeverity::Information.code(), 3);
    assert_eq!(DiagnosticSeverity::Hint.code(), 4);
    assert_eq!(DiagnosticTag::Unnecessary.code(), 1);
    assert_eq!(DiagnosticTag::Deprecated.code(), 2);
}

#[test]
fn document_codes_are_protocol_numbers() {
    assert_eq!(TextDocumentSyncKind::NoSync.code(), 0);
    assert_eq!(TextDocumentSyncKind::Full.code(), 1);
    assert_eq!(TextDocumentSyncKind::Incremental.code(), 2);
    assert_eq!(TextDocumentSaveReason::Manual.code(), 1);
    assert_eq!(TextDocumentSaveReason::AfterDelay.code(), 2);
    assert_eq!(TextDocumentSaveReason::FocusOut.code(), 3);
    assert_eq!(FileChangeType::Created.code(), 1);
    assert_eq!(FileChangeType::Changed.code(), 2);
    assert_eq!(FileChangeType::Deleted.code(), 3);
    assert_eq!(SymbolTag::Deprecated.code(), 1);
}

#[test]
fn symbol_kind_codes_are_protocol_numbers() {
    assert_eq!(SymbolKind::File.code(), 1);
    assert_eq!(SymbolKind::Class.code(), 5);
    assert_eq!(SymbolKind::Function.code(), 12);
    assert_eq!(SymbolKind::TypeParameter.code(), 26);
    assert_eq!(SymbolKind::Unknown.code(), 255);
}

#[test]
fn watch_kind_assign_operators() {
    let mut k = WatchKind::Create();
    k |= WatchKind::Delete();
    assert_eq!(k.bits(), 5);
    k ^= WatchKind::Change() | WatchKind::Create();
    assert_eq!(k.bits(), 6);
    k -= WatchKind::Delete();
    assert_eq!(k.bits(), 2);
    k &= WatchKind::Create() | WatchKind::Change();
    assert_eq!(k.bits(), 2);
    k &= WatchKind::Delete();
    assert_eq!(k.bits(), 0);
}
