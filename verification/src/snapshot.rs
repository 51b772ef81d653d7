//! The immutable, per-request view of the project that the engine reads its
//! semantic facts from.
//!
//! The surrounding tooling owns the incremental source database, the type
//! inference and the name resolution; for one completion request it
//! materializes the relevant facts as the plain values below: file texts,
//! the lexically visible items (macro-expanded code included), importable
//! out-of-scope items, members of resolvable qualifiers, methods and fields
//! by receiver type, enum variants by type, an inference table from
//! expression text to type, auto-deref edges, wrapper (option- or
//! result-like) types, the still-unimplemented members of the enclosing
//! trait implementation, candidate submodule names, and parameter-name
//! suggestions.  The engine never mutates a snapshot, and two requests never
//! share one.

use vstd::prelude::*;

use crate::item::CompletionItemKind;

verus! {

/// A caller-supplied cursor position: a file index and a byte offset.
#[derive(Clone, Copy, PartialEq, Eq, Structural, Debug)]
pub struct FilePosition {
    /// Index into the snapshot's file table.
    pub file_id: usize,
    /// Byte offset of the cursor inside that file.
    pub offset: usize,
}

/// One item visible in a scope: its name, category, and optional rendered
/// signature and documentation.
pub struct ScopeItem {
    pub name: Vec<u8>,
    pub kind: CompletionItemKind,
    pub detail: Option<Vec<u8>>,
    pub documentation: Option<Vec<u8>>,
}

/// A method of some type, as the semantic model resolves it.
pub struct MethodInfo {
    pub name: Vec<u8>,
    /// The type the method is defined on.
    pub receiver: u32,
    /// Whether the method is inherent (not supplied by a blanket trait
    /// implementation); inherent methods rank above trait methods.
    pub inherent: bool,
    pub detail: Option<Vec<u8>>,
    pub documentation: Option<Vec<u8>>,
}

/// A named field of a struct type.
pub struct FieldInfo {
    /// The type the field belongs to.
    pub owner: u32,
    pub name: Vec<u8>,
    pub detail: Option<Vec<u8>>,
    pub documentation: Option<Vec<u8>>,
}

/// A bindable constructor (enum variant or struct pattern) of a type.
pub struct VariantInfo {
    /// The type the constructor belongs to.
    pub owner: u32,
    pub name: Vec<u8>,
    pub detail: Option<Vec<u8>>,
    pub documentation: Option<Vec<u8>>,
}

/// A member visible behind a resolvable path qualifier.
pub struct QualifiedItem {
    /// The qualifier text (the path segment before `::`).
    pub qualifier: Vec<u8>,
    pub item: ScopeItem,
}

/// An out-of-scope item reachable through an import, together with the
/// edit that would insert the import statement.
pub struct ImportableItem {
    pub item: ScopeItem,
    /// Where the import statement is inserted.
    pub import_offset: usize,
    /// The text of the import statement.
    pub import_text: Vec<u8>,
}

/// One entry of the inference table: the source text of an expression and
/// the type the semantic model infers for it.
pub struct TypeBinding {
    pub expr: Vec<u8>,
    pub type_id: u32,
}

/// One entry of the type-name table: a path segment naming a type.
pub struct TypeName {
    pub name: Vec<u8>,
    pub type_id: u32,
}

/// One auto-deref step: `from` dereferences to `to`.
#[derive(Clone, Copy, PartialEq, Eq, Structural, Debug)]
pub struct DerefEdge {
    pub from: u32,
    pub to: u32,
}

/// A member of the implemented trait that the enclosing implementation has
/// not yet written out, with the full stub to insert.
pub struct TraitMemberStub {
    pub name: Vec<u8>,
    pub detail: Option<Vec<u8>>,
    pub documentation: Option<Vec<u8>>,
    /// The full member stub, a placeholder template.
    pub stub_text: Vec<u8>,
}

/// The immutable per-request snapshot of semantic facts.
pub struct Snapshot {
    /// File texts, indexed by file id.
    pub files: Vec<Vec<u8>>,
    /// Items visible by lexical scoping at the cursor (prelude included).
    pub scope: Vec<ScopeItem>,
    /// Importable out-of-scope items, for the auto-import feature.
    pub importable: Vec<ImportableItem>,
    /// Members visible behind resolvable qualifiers, visibility respected.
    pub qualified: Vec<QualifiedItem>,
    /// Methods by receiver type.
    pub methods: Vec<MethodInfo>,
    /// Fields by owner type.
    pub fields: Vec<FieldInfo>,
    /// Bindable constructors by matched type.
    pub variants: Vec<VariantInfo>,
    /// Inference table: expression text to inferred type.
    pub expr_types: Vec<TypeBinding>,
    /// Type-name table: path segment to named type.
    pub type_names: Vec<TypeName>,
    /// Auto-deref edges.
    pub derefs: Vec<DerefEdge>,
    /// Types with a known optional/result-like wrapper shape.
    pub wrapper_types: Vec<u32>,
    /// Unimplemented members of the enclosing trait implementation.
    pub missing_trait_members: Vec<TraitMemberStub>,
    /// Candidate submodule names derived from the file-system layout.
    pub submodules: Vec<Vec<u8>>,
    /// Parameter-name suggestions gathered from sibling functions.
    pub param_suggestions: Vec<Vec<u8>>,
}

/// First inferred type for the expression text `e` in the table from
/// index `i` on, if any.
pub open spec fn lookup_expr_type_s(tab: Seq<TypeBinding>, i: int, e: Seq<u8>) -> Option<u32>
    decreases tab.len() - i,
    when 0 <= i <= tab.len()
{
    if i >= tab.len() {
        Option::None
    } else if tab[i].expr@ == e {
        Option::Some(tab[i].type_id)
    } else {
        lookup_expr_type_s(tab, i + 1, e)
    }
}

/// First inferred type for the expression text `e`, if any.
pub fn lookup_expr_type(tab: &Vec<TypeBinding>, i: usize, e: &Vec<u8>) -> (r: Option<u32>)
    requires
        i <= tab@.len(),
    ensures
        r == lookup_expr_type_s(tab@, i as int, e@),
    decreases tab@.len() - i,
{
    if i >= tab.len() {
        Option::None
    } else if crate::bytes::bytes_eq(&tab[i].expr, e) {
        Option::Some(tab[i].type_id)
    } else {
        lookup_expr_type(tab, i + 1, e)
    }
}

/// First type named by the path segment `e` in the table from index `i`
/// on, if any.
pub open spec fn lookup_type_name_s(tab: Seq<TypeName>, i: int, e: Seq<u8>) -> Option<u32>
    decreases tab.len() - i,
    when 0 <= i <= tab.len()
{
    if i >= tab.len() {
        Option::None
    } else if tab[i].name@ == e {
        Option::Some(tab[i].type_id)
    } else {
        lookup_type_name_s(tab, i + 1, e)
    }
}

/// First type named by the path segment `e`, if any.
pub fn lookup_type_name(tab: &Vec<TypeName>, i: usize, e: &Vec<u8>) -> (r: Option<u32>)
    requires
        i <= tab@.len(),
    ensures
        r == lookup_type_name_s(tab@, i as int, e@),
    decreases tab@.len() - i,
{
    if i >= tab.len() {
        Option::None
    } else if crate::bytes::bytes_eq(&tab[i].name, e) {
        Option::Some(tab[i].type_id)
    } else {
        lookup_type_name(tab, i + 1, e)
    }
}

/// Whether `tid` is a known wrapper (optional/result-like) type.
pub fn is_wrapper_type(tab: &Vec<u32>, tid: u32) -> (r: bool)
    ensures
        r == tab@.contains(tid),
{
    let mut i: usize = 0;
    while i < tab.len()
        invariant
            i <= tab@.len(),
            forall|j: int| 0 <= j < i ==> tab@[j] != tid,
        decreases tab@.len() - i,
    {
        if tab[i] == tid {
            return true;
        }
        i = i + 1;
    }
    false
}

/// First deref target of `from` in the edge table from index `i` on.
pub open spec fn deref_of_s(edges: Seq<DerefEdge>, i: int, from: u32) -> Option<u32>
    decreases edges.len() - i,
    when 0 <= i <= edges.len()
{
    if i >= edges.len() {
        Option::None
    } else if edges[i].from == from {
        Option::Some(edges[i].to)
    } else {
        deref_of_s(edges, i + 1, from)
    }
}

/// First deref target of `from`, if any.
pub fn deref_of(edges: &Vec<DerefEdge>, i: usize, from: u32) -> (r: Option<u32>)
    requires
        i <= edges@.len(),
    ensures
        r == deref_of_s(edges@, i as int, from),
    decreases edges@.len() - i,
{
    if i >= edges.len() {
        Option::None
    } else if edges[i].from == from {
        Option::Some(edges[i].to)
    } else {
        deref_of(edges, i + 1, from)
    }
}

/// Whether `target` is reachable from `from` by at most `fuel` auto-deref
/// steps (zero steps included: every type reaches itself).
pub open spec fn in_deref_chain_s(edges: Seq<DerefEdge>, from: u32, target: u32, fuel: nat) -> bool
    decreases fuel,
{
    if from == target {
        true
    } else if fuel == 0 {
        false
    } else {
        match deref_of_s(edges, 0, from) {
            Option::Some(next) => in_deref_chain_s(edges, next, target, (fuel - 1) as nat),
            Option::None => false,
        }
    }
}

/// Whether `target` is reachable from `from` by at most `fuel` auto-deref
/// steps.
pub fn in_deref_chain(edges: &Vec<DerefEdge>, from: u32, target: u32, fuel: usize) -> (r: bool)
    ensures
        r == in_deref_chain_s(edges@, from, target, fuel as nat),
    decreases fuel,
{
    if from == target {
        true
    } else if fuel == 0 {
        false
    } else {
        match deref_of(edges, 0, from) {
            Option::Some(next) => in_deref_chain(edges, next, target, fuel - 1),
            Option::None => false,
        }
    }
}

} // verus!
