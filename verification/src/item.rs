//! The normalized completion-candidate representation.
//!
//! A [`CompletionItem`] is pure data: what to display, what to insert, in
//! which format, over which replacement range, plus optional detail text,
//! documentation, a relevance score and an optional extra edit (such as an
//! import statement inserted elsewhere in the file).

use vstd::prelude::*;

verus! {

/// The closed set of syntactic categories a candidate can belong to.
#[derive(Clone, Copy, PartialEq, Eq, Structural, Debug)]
pub enum CompletionItemKind {
    Keyword,
    Snippet,
    Function,
    Method,
    Field,
    Struct,
    EnumVariant,
    Module,
    Macro,
    Attribute,
    Binding,
    TraitMember,
}

/// Whether the insertion text is literal or a template with placeholder
/// markers and a final cursor position.
#[derive(Clone, Copy, PartialEq, Eq, Structural, Debug)]
pub enum InsertTextFormat {
    PlainText,
    Snippet,
}

/// Relevance of a candidate relative to the expected type at the cursor.
#[derive(Clone, Copy, PartialEq, Eq, Structural, Debug)]
pub enum CompletionScore {
    /// The candidate's type matches the type expected at the position.
    TypeMatch,
    /// Both the type and the name match what is expected.
    TypeAndNameMatch,
}

/// An edit applied elsewhere in the file alongside the main insertion,
/// e.g. a `use` statement for an auto-imported candidate.
pub struct ImportEdit {
    /// Byte offset at which the text is inserted.
    pub offset: usize,
    /// The text to insert there.
    pub text: Vec<u8>,
}

/// Mathematical value of an [`ImportEdit`].
pub struct ImportEditView {
    pub offset: int,
    pub text: Seq<u8>,
}

impl View for ImportEdit {
    type V = ImportEditView;

    open spec fn view(&self) -> ImportEditView {
        ImportEditView { offset: self.offset as int, text: self.text@ }
    }
}

/// One completion candidate.
pub struct CompletionItem {
    /// Display text.
    pub label: Vec<u8>,
    /// Syntactic category of the candidate.
    pub kind: CompletionItemKind,
    /// Text inserted when the candidate is accepted.
    pub insert_text: Vec<u8>,
    /// Whether `insert_text` is plain or a placeholder template.
    pub insert_text_format: InsertTextFormat,
    /// Start of the replacement range, a byte offset into the file.
    pub range_start: usize,
    /// End (exclusive) of the replacement range.
    pub range_end: usize,
    /// Optional short description, e.g. a rendered signature.
    pub detail: Option<Vec<u8>>,
    /// Optional documentation text.
    pub documentation: Option<Vec<u8>>,
    /// Optional relevance score.
    pub score: Option<CompletionScore>,
    /// Optional extra edit applied elsewhere in the file.
    pub import_edit: Option<ImportEdit>,
}

/// Mathematical value of a [`CompletionItem`].
pub struct ItemView {
    pub label: Seq<u8>,
    pub kind: CompletionItemKind,
    pub insert_text: Seq<u8>,
    pub insert_text_format: InsertTextFormat,
    pub range_start: int,
    pub range_end: int,
    pub detail: Option<Seq<u8>>,
    pub documentation: Option<Seq<u8>>,
    pub score: Option<CompletionScore>,
    pub import_edit: Option<ImportEditView>,
}

impl View for CompletionItem {
    type V = ItemView;

    open spec fn view(&self) -> ItemView {
        ItemView {
            label: self.label@,
            kind: self.kind,
            insert_text: self.insert_text@,
            insert_text_format: self.insert_text_format,
            range_start: self.range_start as int,
            range_end: self.range_end as int,
            detail: self.detail.deep_view(),
            documentation: self.documentation.deep_view(),
            score: self.score,
            import_edit: match self.import_edit {
                Some(e) => Some(e@),
                None => None,
            },
        }
    }
}

impl CompletionItem {
    /// Whether the replacement range is a well-formed sub-range of the span
    /// `[span_start, span_end]`.  Item construction throughout the engine is
    /// verified against this predicate, so a malformed item (one whose range
    /// escapes the context's classified span) cannot be built.
    pub open spec fn range_within(&self, span_start: int, span_end: int) -> bool {
        span_start <= self.range_start as int && self.range_start as int
            <= self.range_end as int && self.range_end as int <= span_end
    }

    /// Display text.
    pub fn label(&self) -> (r: &Vec<u8>)
        ensures
            r@ == self@.label,
    {
        &self.label
    }

    /// Optional short description, e.g. a rendered signature.
    pub fn detail(&self) -> (r: &Option<Vec<u8>>)
        ensures
            r.deep_view() == self@.detail,
    {
        &self.detail
    }

    /// Optional documentation text.
    pub fn documentation(&self) -> (r: &Option<Vec<u8>>)
        ensures
            r.deep_view() == self@.documentation,
    {
        &self.documentation
    }
}

/// An item view with no score and no extra edit: the shape every simple
/// candidate (keyword, snippet, reference, field, member) takes.
pub open spec fn simple_item_s(
    label: Seq<u8>,
    kind: CompletionItemKind,
    insert: Seq<u8>,
    fmt: InsertTextFormat,
    rs: int,
    re: int,
    detail: Option<Seq<u8>>,
    doc: Option<Seq<u8>>,
) -> ItemView {
    ItemView {
        label: label,
        kind: kind,
        insert_text: insert,
        insert_text_format: fmt,
        range_start: rs,
        range_end: re,
        detail: detail,
        documentation: doc,
        score: Option::None,
        import_edit: Option::None,
    }
}

/// Builds a simple candidate; the result's value is pinned exactly.
pub fn make_item(
    label: Vec<u8>,
    kind: CompletionItemKind,
    insert: Vec<u8>,
    fmt: InsertTextFormat,
    rs: usize,
    re: usize,
    detail: Option<Vec<u8>>,
    doc: Option<Vec<u8>>,
) -> (r: CompletionItem)
    ensures
        r@ == simple_item_s(
            label@,
            kind,
            insert@,
            fmt,
            rs as int,
            re as int,
            detail.deep_view(),
            doc.deep_view(),
        ),
        r.range_start == rs,
        r.range_end == re,
{
    CompletionItem {
        label,
        kind,
        insert_text: insert,
        insert_text_format: fmt,
        range_start: rs,
        range_end: re,
        detail,
        documentation: doc,
        score: Option::None,
        import_edit: Option::None,
    }
}

} // verus!
