use vstd::prelude::*;

verus! {

/// Documentation: a plain string or markup content.
#[derive(Debug, Eq, PartialEq, Clone)]
pub enum Documentation {
    String(String),
    MarkupContent(MarkupContent),
}

/// A string rendered as markdown, or a code block of a given language.
#[derive(Debug, Eq, PartialEq, Clone)]
pub enum MarkedString {
    String(String),
    LanguageString(LanguageString),
}

impl MarkedString {
    /// A marked string rendered as markdown.
    pub fn from_markdown(markdown: String) -> (res: MarkedString)
        ensures
            res == MarkedString::String(markdown),
    {
        MarkedString::String(markdown)
    }

    /// A marked string rendered as a code block of the given language.
    pub fn from_language_code(language: String, code_block: String) -> (res: MarkedString)
        ensures
            res == MarkedString::LanguageString(LanguageString { language, value: code_block }),
    {
        MarkedString::LanguageString(LanguageString { language, value: code_block })
    }
}

/// A code block and its language.
#[derive(Debug, Eq, PartialEq, Clone)]
pub struct LanguageString {
    pub language: String,
    pub value: String,
}

/// The content formats a client supports.
#[derive(Debug, Eq, PartialEq, Clone)]
pub enum MarkupKind {
    /// Plain text.
    PlainText,
    /// Markdown.
    Markdown,
}

/// A string value in a given content format.
#[derive(Debug, Eq, PartialEq, Clone)]
pub struct MarkupContent {
    pub kind: MarkupKind,
    pub value: String,
}

/// Extra annotations that tweak the rendering of a symbol.
#[derive(Debug, Eq, PartialEq, Clone)]
pub enum SymbolTag {
    /// Render a symbol as obsolete.
    Deprecated,
}

impl SymbolTag {
    /// The number that stands for this value in the protocol.
    pub open spec fn protocol_code(self) -> u8 {
        match self {
            SymbolTag::Deprecated => 1,
        }
    }

    /// The number that stands for this value in the protocol.
    pub fn code(&self) -> (res: u8)
        ensures
            res == self.protocol_code(),
    {
        match self {
            SymbolTag::Deprecated => 1,
        }
    }
}

/// Each value has its fixed protocol number.
pub proof fn lemma_symbol_tag_codes()
    ensures
        SymbolTag::Deprecated.protocol_code() == 1,
{
}

} // verus!
