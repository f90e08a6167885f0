use vstd::prelude::*;
use core::cmp::Ordering;
use vstd::std_specs::cmp::PartialOrdSpec;
use url::Url;
use serde_json::Value;
use crate::{Location, NumberOrString, Range};

verus! {

/// A diagnostic, such as a compiler error or warning, valid in the scope of one resource.
#[derive(Debug, Eq, PartialEq, Clone, Default)]
pub struct Diagnostic {
    /// The range at which the message applies.
    pub range: Range,
    /// The severity; clients decide when it is omitted.
    pub severity: Option<DiagnosticSeverity>,
    /// The diagnostic's code.
    pub code: Option<NumberOrString>,
    /// A description of the error code.
    pub code_description: Option<CodeDescription>,
    /// A human-readable name of the source of this diagnostic.
    pub source: Option<String>,
    /// The diagnostic's message.
    pub message: String,
    /// Related diagnostic information.
    pub related_information: Option<Vec<DiagnosticRelatedInformation>>,
    /// Additional metadata about the diagnostic.
    pub tags: Option<Vec<DiagnosticTag>>,
    /// Data preserved between a publishDiagnostics notification and a codeAction request.
    pub data: Option<Value>,
}

impl Diagnostic {
    /// The diagnostic that `new` builds: the given fields, with no code
    /// description and no data.
    pub open spec fn new_spec(
        range: Range,
        severity: Option<DiagnosticSeverity>,
        code: Option<NumberOrString>,
        source: Option<String>,
        message: String,
        related_information: Option<Vec<DiagnosticRelatedInformation>>,
        tags: Option<Vec<DiagnosticTag>>,
    ) -> Diagnostic {
        Diagnostic {
            range,
            severity,
            code,
            code_description: None,
            source,
            message,
            related_information,
            tags,
            data: None,
        }
    }

    /// A diagnostic built by `new` keeps every argument in its own field, and
    /// has no code description and no data.
    pub proof fn lemma_new_keeps_arguments(
        range: Range,
        severity: Option<DiagnosticSeverity>,
        code: Option<NumberOrString>,
        source: Option<String>,
        message: String,
        related_information: Option<Vec<DiagnosticRelatedInformation>>,
        tags: Option<Vec<DiagnosticTag>>,
    )
        ensures
            ({
                let d = Self::new_spec(range, severity, code, source, message, related_information, tags);
                &&& d.range == range
                &&& d.severity == severity
                &&& d.code == code
                &&& d.code_description is None
                &&& d.source == source
                &&& d.message == message
                &&& d.related_information == related_information
                &&& d.tags == tags
                &&& d.data is None
            }),
    {
    }

    pub fn new(
        range: Range,
        severity: Option<DiagnosticSeverity>,
        code: Option<NumberOrString>,
        source: Option<String>,
        message: String,
        related_information: Option<Vec<DiagnosticRelatedInformation>>,
        tags: Option<Vec<DiagnosticTag>>,
    ) -> (res: Diagnostic)
        ensures
            res == Self::new_spec(range, severity, code, source, message, related_information, tags),
            res.range == range,
            res.severity == severity,
            res.code == code,
            res.code_description is None,
            res.source == source,
            res.message == message,
            res.related_information == related_information,
            res.tags == tags,
            res.data is None,
    {
        Diagnostic {
            range,
            severity,
            code,
            code_description: None,
            source,
            message,
            related_information,
            tags,
            data: None,
        }
    }

    /// A diagnostic with only a range and a message.
    pub fn new_simple(range: Range, message: String) -> (res: Diagnostic)
        ensures
            res == Self::new_spec(range, None, None, None, message, None, None),
            res.range == range,
            res.severity is None,
            res.code is None,
            res.code_description is None,
            res.source is None,
            res.message == message,
            res.related_information is None,
            res.tags is None,
            res.data is None,
    {
        Self::new(range, None, None, None, message, None, None)
    }

    /// A diagnostic with a severity and a numeric code.
    pub fn new_with_code_number(
        range: Range,
        severity: DiagnosticSeverity,
        code_number: i32,
        source: Option<String>,
        message: String,
    ) -> (res: Diagnostic)
        ensures
            res == Self::new_spec(
                range,
                Some(severity),
                Some(NumberOrString::Number(code_number)),
                source,
                message,
                None,
                None,
            ),
            res.range == range,
            res.severity == Some(severity),
            res.code == Some(NumberOrString::Number(code_number)),
            res.code_description is None,
            res.source == source,
            res.message == message,
            res.related_information is None,
            res.tags is None,
            res.data is None,
    {
        let code = Some(NumberOrString::Number(code_number));
        Self::new(range, Some(severity), code, source, message, None, None)
    }
}

/// A link that describes an error code.
#[derive(Debug, Eq, PartialEq, Clone)]
pub struct CodeDescription {
    pub href: Url,
}

/// The severities a diagnostic can have.
#[derive(Debug, Eq, PartialEq, Structural, Ord, Clone, Copy)]
pub enum DiagnosticSeverity {
    /// Reports an error.
    Error,
    /// Reports a warning.
    Warning,
    /// Reports an information.
    Information,
    /// Reports a hint.
    Hint,
}

/// The protocol code of a severity: 1 for errors up to 4 for hints. Severities
/// are ordered by it, the most severe first.
pub open spec fn severity_code(s: DiagnosticSeverity) -> int {
    match s {
        DiagnosticSeverity::Error => 1,
        DiagnosticSeverity::Warning => 2,
        DiagnosticSeverity::Information => 3,
        DiagnosticSeverity::Hint => 4,
    }
}

/// The order of severities, by their protocol codes.
pub open spec fn severity_order(a: DiagnosticSeverity, b: DiagnosticSeverity) -> Ordering {
    if severity_code(a) < severity_code(b) {
        Ordering::Less
    } else if severity_code(a) > severity_code(b) {
        Ordering::Greater
    } else {
        Ordering::Equal
    }
}

impl DiagnosticSeverity {
    /// The number that stands for this severity in the protocol.
    pub fn code(&self) -> (res: u8)
        ensures
            res == severity_code(*self),
    {
        match self {
            DiagnosticSeverity::Error => 1,
            DiagnosticSeverity::Warning => 2,
            DiagnosticSeverity::Information => 3,
            DiagnosticSeverity::Hint => 4,
        }
    }
}

impl PartialOrd for DiagnosticSeverity {
    fn partial_cmp(&self, other: &DiagnosticSeverity) -> (res: Option<Ordering>) {
        let a = self.code();
        let b = other.code();
        if a < b {
            Some(Ordering::Less)
        } else if a > b {
            Some(Ordering::Greater)
        } else {
            Some(Ordering::Equal)
        }
    }
}

impl vstd::std_specs::cmp::PartialOrdSpecImpl for DiagnosticSeverity {
    open spec fn obeys_partial_cmp_spec() -> bool {
        true
    }

    open spec fn partial_cmp_spec(&self, other: &DiagnosticSeverity) -> Option<Ordering> {
        Some(severity_order(*self, *other))
    }
}

/// Each severity has its fixed protocol number: error 1, warning 2,
/// information 3, hint 4.
pub proof fn lemma_severity_codes()
    ensures
        severity_code(DiagnosticSeverity::Error) == 1,
        severity_code(DiagnosticSeverity::Warning) == 2,
        severity_code(DiagnosticSeverity::Information) == 3,
        severity_code(DiagnosticSeverity::Hint) == 4,
{
}

/// Each diagnostic tag has its fixed protocol number: unnecessary 1, deprecated 2.
pub proof fn lemma_diagnostic_tag_codes()
    ensures
        DiagnosticTag::Unnecessary.protocol_code() == 1,
        DiagnosticTag::Deprecated.protocol_code() == 2,
{
}

/// Severities are ordered by their protocol numbers, from errors to hints:
/// whatever a severity is, the comparison of two severities is the comparison
/// of their numbers.
pub proof fn lemma_severity_order_by_code(a: DiagnosticSeverity, b: DiagnosticSeverity)
    ensures
        severity_code(a) < severity_code(b) ==> a.partial_cmp_spec(&b) == Some(Ordering::Less),
        severity_code(a) > severity_code(b) ==> a.partial_cmp_spec(&b) == Some(Ordering::Greater),
        a == b ==> a.partial_cmp_spec(&b) == Some(Ordering::Equal),
        1 <= severity_code(a) <= 4,
{
}

/// Two severities compare equal exactly when they are the same severity.
pub proof fn lemma_severity_order_equal(a: DiagnosticSeverity, b: DiagnosticSeverity)
    ensures
        (severity_order(a, b) == Ordering::Equal) <==> (a == b),
{
}

/// Errors come before warnings, warnings before information, information before hints.
pub proof fn lemma_severity_order_chain()
    ensures
        severity_order(DiagnosticSeverity::Error, DiagnosticSeverity::Warning) == Ordering::Less,
        severity_order(DiagnosticSeverity::Warning, DiagnosticSeverity::Information) == Ordering::Less,
        severity_order(DiagnosticSeverity::Information, DiagnosticSeverity::Hint) == Ordering::Less,
{
}

/// The order of severities is transitive.
pub proof fn lemma_severity_order_transitive(a: DiagnosticSeverity, b: DiagnosticSeverity, c: DiagnosticSeverity)
    requires
        severity_order(a, b) == Ordering::Less,
        severity_order(b, c) == Ordering::Less,
    ensures
        severity_order(a, c) == Ordering::Less,
{
}

/// A related message and source code location for a diagnostic.
#[derive(Debug, Eq, PartialEq, Clone)]
pub struct DiagnosticRelatedInformation {
    /// The location of this related diagnostic information.
    pub location: Location,
    /// The message of this related diagnostic information.
    pub message: String,
}

/// The diagnostic tags.
#[derive(Debug, Eq, PartialEq, Clone)]
pub enum DiagnosticTag {
    /// Unused or unnecessary code.
    Unnecessary,
    /// Deprecated or obsolete code.
    Deprecated,
}

impl DiagnosticTag {
    /// The number that stands for this value in the protocol.
    pub open spec fn protocol_code(self) -> u8 {
        match self {
            DiagnosticTag::Unnecessary => 1,
            DiagnosticTag::Deprecated => 2,
        }
    }

    /// The number that stands for this value in the protocol.
    pub fn code(&self) -> (res: u8)
        ensures
            res == self.protocol_code(),
    {
        match self {
            DiagnosticTag::Unnecessary => 1,
            DiagnosticTag::Deprecated => 2,
        }
    }
}

/// Parameters of a `textDocument/publishDiagnostics` notification.
#[derive(Debug, Eq, PartialEq, Clone)]
pub struct PublishDiagnosticsParams {
    /// The URI for which diagnostic information is reported.
    pub uri: Url,
    /// The diagnostics.
    pub diagnostics: Vec<Diagnostic>,
    /// The version of the document the diagnostics are published for.
    pub version: Option<i32>,
}

impl PublishDiagnosticsParams {
    pub fn new(uri: Url, diagnostics: Vec<Diagnostic>, version: Option<i32>) -> (res: PublishDiagnosticsParams)
        ensures
            res.uri == uri,
            res.diagnostics == diagnostics,
            res.version == version,
    {
        PublishDiagnosticsParams { uri, diagnostics, version }
    }
}

} // verus!
