//! Code-completion engine for a language-tooling backend.
//!
//! Given a cursor position inside a source file that may be syntactically
//! incomplete, the engine produces the candidate insertions (keywords,
//! identifiers, snippets, record fields, trait members, postfix rewrites)
//! that a client may offer to the user.
//!
//! Completion runs as a two-phase process.  First the position is classified
//! into a [`context::CompletionContext`]: a placeholder identifier is
//! inserted at the cursor, the text is re-tokenized, and the cursor's
//! syntactic slot is read off the now well-formed token stream.  Second, a
//! fixed battery of independent completion strategies runs against that
//! immutable context, each appending zero or more items to a shared
//! accumulator.
//!
//! The engine never filters by the identifier prefix already typed: it
//! returns the full candidate set for the position, and prefix or fuzzy
//! filtering, ordering and deduplication are the client's responsibility.
//!
//! Semantic facts (types, scopes, trait members, macro-expanded items) are
//! read from a [`snapshot::Snapshot`]: an immutable, per-request view of the
//! project that the caller materializes from its source database.

use vstd::prelude::*;

mod bytes;
pub mod config;
pub mod item;
pub mod lexer;
pub mod patterns;
pub mod words;
pub mod snapshot;
pub mod context;
pub mod templates;
pub mod completions;
pub mod laws;

pub use crate::config::CompletionConfig;
pub use crate::item::{CompletionItem, CompletionItemKind, CompletionScore, InsertTextFormat};
pub use crate::snapshot::{FilePosition, Snapshot};

verus! {

/// Every candidate the engine produces for the classified context `c`, in
/// the fixed strategy order: attribute, fn-param, expression keyword,
/// use-tree keyword, expression snippet, item snippet, qualified path,
/// unqualified path, dot, record, pattern, postfix, macro in item
/// position, trait impl, module.  The order is semantically insignificant
/// except as a stable tie-break for client-side sorting.
pub open spec fn all_items_s(db: &Snapshot, c: context::CtxView) -> Seq<item::ItemView> {
    completions::attribute_items_s(c) + completions::fn_param_items_s(db, c)
        + completions::expr_keyword_items_s(c) + completions::use_tree_keyword_items_s(c)
        + completions::expr_snippet_items_s(c) + completions::item_snippet_items_s(c)
        + completions::qualified_path_items_s(db, c) + completions::unqualified_path_items_s(db, c)
        + completions::dot_items_s(db, c) + completions::record_items_s(db, c)
        + completions::pattern_items_s(db, c) + completions::postfix_items_s(c)
        + completions::macro_items_s(db, c) + completions::trait_impl_items_s(db, c)
        + completions::mod_items_s(db, c)
}

/// The whole engine as a mathematical function: nothing for an
/// unclassifiable position or a binding position, and otherwise exactly
/// the items of every strategy in the fixed order.  The executable entry
/// point is proved to return precisely this, which also makes the engine
/// deterministic: one snapshot and one position admit one outcome.
pub open spec fn completion_outcome_s(
    db: &Snapshot,
    config: CompletionConfig,
    pos: FilePosition,
) -> Option<Seq<item::ItemView>> {
    match context::build_s(db, config, pos) {
        Option::Some(c) => if c.no_completion {
            Option::None
        } else {
            Option::Some(all_items_s(db, c))
        },
        Option::None => Option::None,
    }
}

/// Main entry point for completion, a two-phase process.
///
/// First the position is classified into a `CompletionContext`: the
/// surrounding text is often syntactically incomplete, so a placeholder is
/// inserted at the cursor and the classification is read off the
/// re-tokenized text.  An unclassifiable position, and a binding position
/// (where reference completion makes no sense), short-circuit to nothing —
/// an expected outcome, not an error.
///
/// Then a fixed battery of completion strategies runs against the
/// immutable context, each appending its items to the accumulator.  The
/// engine does not filter by the identifier prefix already typed: it
/// returns every candidate for the slot, and prefix or fuzzy matching,
/// ordering and deduplication are done higher in the stack, by the client.
pub fn completions(
    db: &Snapshot,
    config: &CompletionConfig,
    position: FilePosition,
) -> (r: Option<completions::Completions>)
    ensures
        match r {
            Option::Some(acc) => completion_outcome_s(db, *config, position) == Option::Some(acc@)
                && acc.wf() && (match context::build_s(db, *config, position) {
                Option::Some(c) => acc.span_start as int == c.span_start && acc.span_end as int
                    == c.span_end,
                Option::None => false,
            }),
            Option::None => completion_outcome_s(db, *config, position) is None,
        },
{
    let ctx = match context::build(db, config, position) {
        Option::Some(c) => c,
        Option::None => {
            return Option::None;
        },
    };
    if ctx.no_completion_required() {
        return Option::None;
    }
    let mut acc = completions::Completions::new(ctx.span_start, ctx.span_end);
    completions::complete_attribute(&mut acc, &ctx, db);
    completions::complete_fn_param(&mut acc, &ctx, db);
    completions::complete_expr_keyword(&mut acc, &ctx, db);
    completions::complete_use_tree_keyword(&mut acc, &ctx, db);
    completions::complete_expr_snippet(&mut acc, &ctx, db);
    completions::complete_item_snippet(&mut acc, &ctx, db);
    completions::complete_qualified_path(&mut acc, &ctx, db);
    completions::complete_unqualified_path(&mut acc, &ctx, db);
    completions::complete_dot(&mut acc, &ctx, db);
    completions::complete_record(&mut acc, &ctx, db);
    completions::complete_pattern(&mut acc, &ctx, db);
    completions::complete_postfix(&mut acc, &ctx, db);
    completions::complete_macro_in_item_position(&mut acc, &ctx, db);
    completions::complete_trait_impl(&mut acc, &ctx, db);
    completions::complete_mod(&mut acc, &ctx, db);
    proof {
        assert(acc@ =~= all_items_s(db, ctx@));
    }
    Option::Some(acc)
}

} // verus!
