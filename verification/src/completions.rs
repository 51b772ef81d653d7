//! The accumulator of completion candidates, and the fixed battery of
//! completion strategies.
//!
//! Each strategy is a pure function of the accumulator, the immutable
//! context and the snapshot: it inspects the context's classification, does
//! nothing when the slot does not match its applicability predicate, and
//! otherwise appends exactly the items its specification lists.  Strategies
//! never read each other's output; the invocation order is fixed by the
//! entry point and is semantically insignificant except as a stable
//! tie-break for client-side sorting.
//!
//! The accumulator enforces the range invariant at construction: an item
//! whose replacement range escapes the context's classified span cannot be
//! pushed, so a malformed item is prevented rather than detected.

use vstd::prelude::*;

use crate::context::{CompletionContext, CtxView, Tag};
use crate::item::{
    simple_item_s, make_item, CompletionItem, CompletionItemKind, ImportEdit, ImportEditView,
    InsertTextFormat, ItemView,
};
use crate::snapshot::{FieldInfo, ImportableItem, MethodInfo, QualifiedItem, ScopeItem, Snapshot, TraitMemberStub, VariantInfo};
use crate::templates;
use crate::words;

verus! {

/// The append-only, insertion-order-preserving collector of candidates for
/// one request.  No deduplication is performed: overlapping candidates from
/// different strategies are a client concern.
pub struct Completions {
    /// Start of the span every item's range must lie within.
    pub span_start: usize,
    /// End of the span every item's range must lie within.
    pub span_end: usize,
    pub items: Vec<CompletionItem>,
}

impl View for Completions {
    type V = Seq<ItemView>;

    open spec fn view(&self) -> Seq<ItemView> {
        Seq::new(self.items@.len(), |i: int| self.items@[i]@)
    }
}

impl Completions {
    /// Every collected item's range lies within the accumulator's span.
    pub open spec fn wf(&self) -> bool {
        forall|i: int|
            0 <= i < self@.len() ==> self.span_start as int <= (#[trigger] self@[i]).range_start
                && self@[i].range_start <= self@[i].range_end && self@[i].range_end
                <= self.span_end as int
    }

    /// An empty accumulator over the given span.
    pub fn new(span_start: usize, span_end: usize) -> (r: Completions)
        requires
            span_start <= span_end,
        ensures
            r@ =~= Seq::<ItemView>::empty(),
            r.wf(),
            r.span_start == span_start,
            r.span_end == span_end,
    {
        Completions { span_start, span_end, items: Vec::new() }
    }

    /// Appends one candidate; its range must lie within the span, which is
    /// how a malformed item is prevented by construction.
    pub fn push(&mut self, item: CompletionItem)
        requires
            old(self).wf(),
            old(self).span_start <= item.range_start,
            item.range_start <= item.range_end,
            item.range_end <= old(self).span_end,
        ensures
            final(self).wf(),
            final(self)@ == old(self)@.push(item@),
            final(self).span_start == old(self).span_start,
            final(self).span_end == old(self).span_end,
    {
        let ghost old_view = self@;
        self.items.push(item);
        proof {
            assert(self@ =~= old_view.push(item@));
        }
    }

    /// The number of collected candidates.
    pub fn len(&self) -> (r: usize)
        ensures
            r == self@.len(),
    {
        self.items.len()
    }

    /// The candidate at index `i`.
    pub fn get(&self, i: usize) -> (r: &CompletionItem)
        requires
            i < self@.len(),
        ensures
            r@ == self@[i as int],
    {
        &self.items[i]
    }

    /// Hands the collected candidates to the caller, in insertion order.
    pub fn into_items(self) -> (r: Vec<CompletionItem>)
        ensures
            r@.len() == self@.len(),
            forall|i: int| 0 <= i < r@.len() ==> (#[trigger] r@[i])@ == self@[i],
    {
        self.items
    }
}

/// The simple keyword/snippet item every fixed-table strategy emits: label
/// and insertion over the context's replacement range, no detail and no
/// documentation.
pub open spec fn fixed_item_s(
    c: CtxView,
    label: Seq<u8>,
    kind: CompletionItemKind,
    insert: Seq<u8>,
    fmt: InsertTextFormat,
) -> ItemView {
    simple_item_s(
        label,
        kind,
        insert,
        fmt,
        c.replace_start,
        c.replace_end,
        Option::None,
        Option::None,
    )
}

/// What every strategy requires of the accumulator and context.
pub open spec fn strategy_pre(acc: &Completions, ctx: &CompletionContext) -> bool {
    acc.wf() && ctx.wf() && acc.span_start == ctx.span_start && acc.span_end == ctx.span_end
}

/// The attribute items: the fixed table of attribute names, applicable
/// only inside an attribute slot.
pub open spec fn attribute_items_s(c: CtxView) -> Seq<ItemView> {
    if c.tag == Tag::Attribute {
        seq![
            fixed_item_s(
                c,
                words::w_derive_s(),
                CompletionItemKind::Attribute,
                words::w_derive_s(),
                InsertTextFormat::PlainText,
            ),
            fixed_item_s(
                c,
                words::w_cfg_s(),
                CompletionItemKind::Attribute,
                words::w_cfg_s(),
                InsertTextFormat::PlainText,
            ),
            fixed_item_s(
                c,
                words::w_doc_s(),
                CompletionItemKind::Attribute,
                words::w_doc_s(),
                InsertTextFormat::PlainText,
            ),
            fixed_item_s(
                c,
                words::w_test_s(),
                CompletionItemKind::Attribute,
                words::w_test_s(),
                InsertTextFormat::PlainText,
            ),
            fixed_item_s(
                c,
                words::w_inline_s(),
                CompletionItemKind::Attribute,
                words::w_inline_s(),
                InsertTextFormat::PlainText,
            ),
            fixed_item_s(
                c,
                words::w_allow_s(),
                CompletionItemKind::Attribute,
                words::w_allow_s(),
                InsertTextFormat::PlainText,
            ),
        ]
    } else {
        Seq::empty()
    }
}

/// Completes attribute names inside `#[...]`.
pub fn complete_attribute(acc: &mut Completions, ctx: &CompletionContext, db: &Snapshot)
    requires
        strategy_pre(old(acc), ctx),
    ensures
        final(acc).wf(),
        final(acc)@ == old(acc)@ + attribute_items_s(ctx@),
        final(acc).span_start == old(acc).span_start,
        final(acc).span_end == old(acc).span_end,
{
    let ghost old_view = acc@;
    if matches!(ctx.tag, Tag::Attribute) {
        let rs = ctx.replace_start;
        let re = ctx.replace_end;
        acc.push(make_item(words::w_derive(), CompletionItemKind::Attribute, words::w_derive(),
            InsertTextFormat::PlainText, rs, re, Option::None, Option::None));
        acc.push(make_item(words::w_cfg(), CompletionItemKind::Attribute, words::w_cfg(),
            InsertTextFormat::PlainText, rs, re, Option::None, Option::None));
        acc.push(make_item(words::w_doc(), CompletionItemKind::Attribute, words::w_doc(),
            InsertTextFormat::PlainText, rs, re, Option::None, Option::None));
        acc.push(make_item(words::w_test(), CompletionItemKind::Attribute, words::w_test(),
            InsertTextFormat::PlainText, rs, re, Option::None, Option::None));
        acc.push(make_item(words::w_inline(), CompletionItemKind::Attribute, words::w_inline(),
            InsertTextFormat::PlainText, rs, re, Option::None, Option::None));
        acc.push(make_item(words::w_allow(), CompletionItemKind::Attribute, words::w_allow(),
            InsertTextFormat::PlainText, rs, re, Option::None, Option::None));
        proof {
            assert(acc@ =~= old_view + attribute_items_s(ctx@));
        }
    } else {
        proof {
            assert(acc@ =~= old_view + attribute_items_s(ctx@));
        }
    }
}

/// The parameter-suggestion items from index `i` on.
pub open spec fn fn_param_items_from_s(c: CtxView, tab: Seq<Vec<u8>>, i: int) -> Seq<ItemView>
    decreases tab.len() - i,
    when 0 <= i <= tab.len()
{
    if i >= tab.len() {
        Seq::empty()
    } else {
        seq![
            fixed_item_s(
                c,
                tab[i]@,
                CompletionItemKind::Binding,
                tab[i]@,
                InsertTextFormat::PlainText,
            ),
        ] + fn_param_items_from_s(c, tab, i + 1)
    }
}

/// The parameter-suggestion items: applicable only inside a function
/// parameter list.
pub open spec fn fn_param_items_s(db: &Snapshot, c: CtxView) -> Seq<ItemView> {
    if c.in_param_list {
        fn_param_items_from_s(c, db.param_suggestions@, 0)
    } else {
        Seq::empty()
    }
}

/// Completes parameter names (with types) gathered from sibling functions,
/// inside a function parameter list.
pub fn complete_fn_param(acc: &mut Completions, ctx: &CompletionContext, db: &Snapshot)
    requires
        strategy_pre(old(acc), ctx),
    ensures
        final(acc).wf(),
        final(acc)@ == old(acc)@ + fn_param_items_s(db, ctx@),
        final(acc).span_start == old(acc).span_start,
        final(acc).span_end == old(acc).span_end,
{
    let ghost old_view = acc@;
    if !ctx.in_param_list {
        proof {
            assert(acc@ =~= old_view + fn_param_items_s(db, ctx@));
        }
        return;
    }
    let ghost tab = db.param_suggestions@;
    let mut i: usize = 0;
    while i < db.param_suggestions.len()
        invariant
            strategy_pre(acc, ctx),
            i <= tab.len(),
            db.param_suggestions@ == tab,
            ctx.in_param_list,
            acc.span_start == old(acc).span_start,
            acc.span_end == old(acc).span_end,
            old_view + fn_param_items_from_s(ctx@, tab, 0) =~= acc@ + fn_param_items_from_s(
                ctx@,
                tab,
                i as int,
            ),
        decreases tab.len() - i,
    {
        let name = crate::bytes::clone_bytes(&db.param_suggestions[i]);
        let item = make_item(name, CompletionItemKind::Binding,
            crate::bytes::clone_bytes(&db.param_suggestions[i]), InsertTextFormat::PlainText,
            ctx.replace_start, ctx.replace_end, Option::None, Option::None);
        proof {
            assert(fn_param_items_from_s(ctx@, tab, i as int) == seq![
                fixed_item_s(
                    ctx@,
                    tab[i as int]@,
                    CompletionItemKind::Binding,
                    tab[i as int]@,
                    InsertTextFormat::PlainText,
                ),
            ] + fn_param_items_from_s(ctx@, tab, i as int + 1));
        }
        let ghost before = acc@;
        acc.push(item);
        proof {
            assert(old_view + fn_param_items_from_s(ctx@, tab, 0) =~= acc@
                + fn_param_items_from_s(ctx@, tab, i as int + 1));
        }
        i = i + 1;
    }
    proof {
        assert(fn_param_items_from_s(ctx@, tab, tab.len() as int) =~= Seq::<ItemView>::empty());
        assert(acc@ =~= old_view + fn_param_items_s(db, ctx@));
    }
}

/// Whether the expression-granularity strategies apply: an expression slot
/// with no dot receiver in front of the cursor.
pub open spec fn plain_expr_slot_s(c: CtxView) -> bool {
    c.tag == Tag::Expression && c.receiver_text is None
}

/// The expression-keyword items: flow keywords with braces and a cursor
/// placeholder, `return` shaped by the enclosing function's result type,
/// and the boolean literals.
pub open spec fn expr_keyword_items_s(c: CtxView) -> Seq<ItemView> {
    if plain_expr_slot_s(c) {
        seq![
            fixed_item_s(
                c,
                words::w_if_s(),
                CompletionItemKind::Keyword,
                words::w_if_s() + templates::tpl_block_s(),
                InsertTextFormat::Snippet,
            ),
            fixed_item_s(
                c,
                words::w_match_s(),
                CompletionItemKind::Keyword,
                words::w_match_s() + templates::tpl_block_s(),
                InsertTextFormat::Snippet,
            ),
            fixed_item_s(
                c,
                words::w_while_s(),
                CompletionItemKind::Keyword,
                words::w_while_s() + templates::tpl_block_s(),
                InsertTextFormat::Snippet,
            ),
            fixed_item_s(
                c,
                words::w_loop_s(),
                CompletionItemKind::Keyword,
                words::w_loop_s() + templates::tpl_block_s(),
                InsertTextFormat::Snippet,
            ),
            fixed_item_s(
                c,
                words::w_return_s(),
                CompletionItemKind::Keyword,
                if c.fn_has_ret_value {
                    templates::tpl_return_sp_s()
                } else {
                    templates::tpl_return_semi_s()
                },
                InsertTextFormat::PlainText,
            ),
            fixed_item_s(
                c,
                words::w_true_s(),
                CompletionItemKind::Keyword,
                words::w_true_s(),
                InsertTextFormat::PlainText,
            ),
            fixed_item_s(
                c,
                words::w_false_s(),
                CompletionItemKind::Keyword,
                words::w_false_s(),
                InsertTextFormat::PlainText,
            ),
        ]
    } else {
        Seq::empty()
    }
}

/// Builds `word + " {$0}"`, the braced keyword body.
fn kw_block_insert(word: &Vec<u8>) -> (r: Vec<u8>)
    ensures
        r@ == word@ + templates::tpl_block_s(),
{
    let mut v = crate::bytes::clone_bytes(word);
    let sfx = templates::tpl_block();
    crate::bytes::append_bytes(&mut v, &sfx);
    v
}

/// Completes expression keywords (`if`, `match`, `while`, `loop`,
/// `return`, `true`, `false`), braces and placeholder included; the shape
/// of `return` depends on whether the enclosing function returns a value.
pub fn complete_expr_keyword(acc: &mut Completions, ctx: &CompletionContext, db: &Snapshot)
    requires
        strategy_pre(old(acc), ctx),
    ensures
        final(acc).wf(),
        final(acc)@ == old(acc)@ + expr_keyword_items_s(ctx@),
        final(acc).span_start == old(acc).span_start,
        final(acc).span_end == old(acc).span_end,
{
    let ghost old_view = acc@;
    let applicable = matches!(ctx.tag, Tag::Expression) && matches!(
        ctx.receiver_text,
        Option::None,
    );
    if applicable {
        let rs = ctx.replace_start;
        let re = ctx.replace_end;
        acc.push(make_item(words::w_if(), CompletionItemKind::Keyword,
            kw_block_insert(&words::w_if()), InsertTextFormat::Snippet, rs, re, Option::None,
            Option::None));
        acc.push(make_item(words::w_match(), CompletionItemKind::Keyword,
            kw_block_insert(&words::w_match()), InsertTextFormat::Snippet, rs, re, Option::None,
            Option::None));
        acc.push(make_item(words::w_while(), CompletionItemKind::Keyword,
            kw_block_insert(&words::w_while()), InsertTextFormat::Snippet, rs, re, Option::None,
            Option::None));
        acc.push(make_item(words::w_loop(), CompletionItemKind::Keyword,
            kw_block_insert(&words::w_loop()), InsertTextFormat::Snippet, rs, re, Option::None,
            Option::None));
        let ret_insert = if ctx.fn_has_ret_value {
            templates::tpl_return_sp()
        } else {
            templates::tpl_return_semi()
        };
        acc.push(make_item(words::w_return(), CompletionItemKind::Keyword, ret_insert,
            InsertTextFormat::PlainText, rs, re, Option::None, Option::None));
        acc.push(make_item(words::w_true(), CompletionItemKind::Keyword, words::w_true(),
            InsertTextFormat::PlainText, rs, re, Option::None, Option::None));
        acc.push(make_item(words::w_false(), CompletionItemKind::Keyword, words::w_false(),
            InsertTextFormat::PlainText, rs, re, Option::None, Option::None));
        proof {
            assert(acc@ =~= old_view + expr_keyword_items_s(ctx@));
        }
    } else {
        proof {
            assert(acc@ =~= old_view + expr_keyword_items_s(ctx@));
        }
    }
}

/// The use-tree keyword items: `crate`, `self`, `super`.
pub open spec fn use_tree_keyword_items_s(c: CtxView) -> Seq<ItemView> {
    if c.tag == Tag::UseTree {
        seq![
            fixed_item_s(
                c,
                words::w_crate_s(),
                CompletionItemKind::Keyword,
                words::w_crate_s(),
                InsertTextFormat::PlainText,
            ),
            fixed_item_s(
                c,
                words::w_self_s(),
                CompletionItemKind::Keyword,
                words::w_self_s(),
                InsertTextFormat::PlainText,
            ),
            fixed_item_s(
                c,
                words::w_super_s(),
                CompletionItemKind::Keyword,
                words::w_super_s(),
                InsertTextFormat::PlainText,
            ),
        ]
    } else {
        Seq::empty()
    }
}

/// Completes path keywords inside a `use` tree.
pub fn complete_use_tree_keyword(acc: &mut Completions, ctx: &CompletionContext, db: &Snapshot)
    requires
        strategy_pre(old(acc), ctx),
    ensures
        final(acc).wf(),
        final(acc)@ == old(acc)@ + use_tree_keyword_items_s(ctx@),
        final(acc).span_start == old(acc).span_start,
        final(acc).span_end == old(acc).span_end,
{
    let ghost old_view = acc@;
    if matches!(ctx.tag, Tag::UseTree) {
        let rs = ctx.replace_start;
        let re = ctx.replace_end;
        acc.push(make_item(words::w_crate(), CompletionItemKind::Keyword, words::w_crate(),
            InsertTextFormat::PlainText, rs, re, Option::None, Option::None));
        acc.push(make_item(words::w_self(), CompletionItemKind::Keyword, words::w_self(),
            InsertTextFormat::PlainText, rs, re, Option::None, Option::None));
        acc.push(make_item(words::w_super(), CompletionItemKind::Keyword, words::w_super(),
            InsertTextFormat::PlainText, rs, re, Option::None, Option::None));
        proof {
            assert(acc@ =~= old_view + use_tree_keyword_items_s(ctx@));
        }
    } else {
        proof {
            assert(acc@ =~= old_view + use_tree_keyword_items_s(ctx@));
        }
    }
}

/// The expression-snippet items: the fixed debug-print templates, gated by
/// the snippet feature flag.
pub open spec fn expr_snippet_items_s(c: CtxView) -> Seq<ItemView> {
    if plain_expr_slot_s(c) && c.config.enable_snippets {
        seq![
            fixed_item_s(
                c,
                words::w_pd_s(),
                CompletionItemKind::Snippet,
                templates::tpl_pd_body_s(),
                InsertTextFormat::Snippet,
            ),
            fixed_item_s(
                c,
                words::w_ppd_s(),
                CompletionItemKind::Snippet,
                templates::tpl_ppd_body_s(),
                InsertTextFormat::Snippet,
            ),
        ]
    } else {
        Seq::empty()
    }
}

/// Completes the expression snippets (`pd`, `ppd`) when snippets are
/// enabled.
pub fn complete_expr_snippet(acc: &mut Completions, ctx: &CompletionContext, db: &Snapshot)
    requires
        strategy_pre(old(acc), ctx),
    ensures
        final(acc).wf(),
        final(acc)@ == old(acc)@ + expr_snippet_items_s(ctx@),
        final(acc).span_start == old(acc).span_start,
        final(acc).span_end == old(acc).span_end,
{
    let ghost old_view = acc@;
    let applicable = matches!(ctx.tag, Tag::Expression) && matches!(
        ctx.receiver_text,
        Option::None,
    ) && ctx.config.enable_snippets;
    if applicable {
        let rs = ctx.replace_start;
        let re = ctx.replace_end;
        acc.push(make_item(words::w_pd(), CompletionItemKind::Snippet, templates::tpl_pd_body(),
            InsertTextFormat::Snippet, rs, re, Option::None, Option::None));
        acc.push(make_item(words::w_ppd(), CompletionItemKind::Snippet, templates::tpl_ppd_body(),
            InsertTextFormat::Snippet, rs, re, Option::None, Option::None));
        proof {
            assert(acc@ =~= old_view + expr_snippet_items_s(ctx@));
        }
    } else {
        proof {
            assert(acc@ =~= old_view + expr_snippet_items_s(ctx@));
        }
    }
}

/// The item-snippet items: the test-function and test-module templates,
/// gated by the snippet feature flag.
pub open spec fn item_snippet_items_s(c: CtxView) -> Seq<ItemView> {
    if c.tag == Tag::Item && c.config.enable_snippets {
        seq![
            fixed_item_s(
                c,
                words::w_tfn_s(),
                CompletionItemKind::Snippet,
                templates::tpl_tfn_body_s(),
                InsertTextFormat::Snippet,
            ),
            fixed_item_s(
                c,
                words::w_tmod_s(),
                CompletionItemKind::Snippet,
                templates::tpl_tmod_body_s(),
                InsertTextFormat::Snippet,
            ),
        ]
    } else {
        Seq::empty()
    }
}

/// Completes the item snippets (`tfn`, `tmod`) when snippets are enabled.
pub fn complete_item_snippet(acc: &mut Completions, ctx: &CompletionContext, db: &Snapshot)
    requires
        strategy_pre(old(acc), ctx),
    ensures
        final(acc).wf(),
        final(acc)@ == old(acc)@ + item_snippet_items_s(ctx@),
        final(acc).span_start == old(acc).span_start,
        final(acc).span_end == old(acc).span_end,
{
    let ghost old_view = acc@;
    if matches!(ctx.tag, Tag::Item) && ctx.config.enable_snippets {
        let rs = ctx.replace_start;
        let re = ctx.replace_end;
        acc.push(make_item(words::w_tfn(), CompletionItemKind::Snippet, templates::tpl_tfn_body(),
            InsertTextFormat::Snippet, rs, re, Option::None, Option::None));
        acc.push(make_item(words::w_tmod(), CompletionItemKind::Snippet,
            templates::tpl_tmod_body(), InsertTextFormat::Snippet, rs, re, Option::None,
            Option::None));
        proof {
            assert(acc@ =~= old_view + item_snippet_items_s(ctx@));
        }
    } else {
        proof {
            assert(acc@ =~= old_view + item_snippet_items_s(ctx@));
        }
    }
}

/// A plain reference item for a visible scope entry: name as label and
/// insertion, detail and documentation carried over byte-for-byte.
pub open spec fn scope_ref_item_s(c: CtxView, s: ScopeItem) -> ItemView {
    simple_item_s(
        s.name@,
        s.kind,
        s.name@,
        InsertTextFormat::PlainText,
        c.replace_start,
        c.replace_end,
        s.detail.deep_view(),
        s.documentation.deep_view(),
    )
}

/// Builds the plain reference item for one scope entry.
fn make_scope_ref_item(ctx: &CompletionContext, s: &ScopeItem) -> (r: CompletionItem)
    ensures
        r@ == scope_ref_item_s(ctx@, *s),
        r.range_start == ctx.replace_start,
        r.range_end == ctx.replace_end,
{
    make_item(
        crate::bytes::clone_bytes(&s.name),
        s.kind,
        crate::bytes::clone_bytes(&s.name),
        InsertTextFormat::PlainText,
        ctx.replace_start,
        ctx.replace_end,
        crate::bytes::clone_opt_bytes(&s.detail),
        crate::bytes::clone_opt_bytes(&s.documentation),
    )
}

/// The members visible behind the qualifier `q`, from index `i` on.
pub open spec fn qualified_items_from_s(
    c: CtxView,
    q: Seq<u8>,
    tab: Seq<QualifiedItem>,
    i: int,
) -> Seq<ItemView>
    decreases tab.len() - i,
    when 0 <= i <= tab.len()
{
    if i >= tab.len() {
        Seq::empty()
    } else {
        (if tab[i].qualifier@ == q {
            seq![scope_ref_item_s(c, tab[i].item)]
        } else {
            Seq::empty()
        }) + qualified_items_from_s(c, q, tab, i + 1)
    }
}

/// The qualified-path items: exactly the members the snapshot lists as
/// visible behind the resolved qualifier before the `::`.
pub open spec fn qualified_path_items_s(db: &Snapshot, c: CtxView) -> Seq<ItemView> {
    match c.qualifier {
        Option::Some(q) => qualified_items_from_s(c, q, db.qualified@, 0),
        Option::None => Seq::empty(),
    }
}

/// Completes the members visible behind an explicit path qualifier.
pub fn complete_qualified_path(acc: &mut Completions, ctx: &CompletionContext, db: &Snapshot)
    requires
        strategy_pre(old(acc), ctx),
    ensures
        final(acc).wf(),
        final(acc)@ == old(acc)@ + qualified_path_items_s(db, ctx@),
        final(acc).span_start == old(acc).span_start,
        final(acc).span_end == old(acc).span_end,
{
    let ghost old_view = acc@;
    let q = match &ctx.qualifier {
        Option::Some(q) => q,
        Option::None => {
            proof {
                assert(acc@ =~= old_view + qualified_path_items_s(db, ctx@));
            }
            return ;
        },
    };
    let ghost qv = q@;
    let ghost tab = db.qualified@;
    let mut i: usize = 0;
    while i < db.qualified.len()
        invariant
            strategy_pre(acc, ctx),
            i <= tab.len(),
            db.qualified@ == tab,
            ctx@.qualifier == Option::Some(qv),
            q@ == qv,
            acc.span_start == old(acc).span_start,
            acc.span_end == old(acc).span_end,
            old_view + qualified_items_from_s(ctx@, qv, tab, 0) =~= acc@ + qualified_items_from_s(
                ctx@,
                qv,
                tab,
                i as int,
            ),
        decreases tab.len() - i,
    {
        proof {
            assert(qualified_items_from_s(ctx@, qv, tab, i as int) == (if tab[i as int].qualifier@
                == qv {
                seq![scope_ref_item_s(ctx@, tab[i as int].item)]
            } else {
                Seq::<ItemView>::empty()
            }) + qualified_items_from_s(ctx@, qv, tab, i as int + 1));
        }
        if crate::bytes::bytes_eq(&db.qualified[i].qualifier, q) {
            let item = make_scope_ref_item(ctx, &db.qualified[i].item);
            acc.push(item);
            proof {
                assert(old_view + qualified_items_from_s(ctx@, qv, tab, 0) =~= acc@
                    + qualified_items_from_s(ctx@, qv, tab, i as int + 1));
            }
        } else {
            proof {
                assert(old_view + qualified_items_from_s(ctx@, qv, tab, 0) =~= acc@
                    + qualified_items_from_s(ctx@, qv, tab, i as int + 1));
            }
        }
        i = i + 1;
    }
    proof {
        assert(acc@ =~= old_view + qualified_path_items_s(db, ctx@));
    }
}

/// An importable item: the plain reference item plus the import edit.
pub open spec fn import_item_s(c: CtxView, it: ImportableItem) -> ItemView {
    ItemView {
        import_edit: Option::Some(
            ImportEditView { offset: it.import_offset as int, text: it.import_text@ },
        ),
        ..scope_ref_item_s(c, it.item)
    }
}

/// The lexically visible reference items, from index `i` on.
pub open spec fn unqual_scope_items_from_s(c: CtxView, tab: Seq<ScopeItem>, i: int) -> Seq<
    ItemView,
>
    decreases tab.len() - i,
    when 0 <= i <= tab.len()
{
    if i >= tab.len() {
        Seq::empty()
    } else {
        seq![scope_ref_item_s(c, tab[i])] + unqual_scope_items_from_s(c, tab, i + 1)
    }
}

/// The importable out-of-scope items, from index `i` on.
pub open spec fn unqual_import_items_from_s(c: CtxView, tab: Seq<ImportableItem>, i: int) -> Seq<
    ItemView,
>
    decreases tab.len() - i,
    when 0 <= i <= tab.len()
{
    if i >= tab.len() {
        Seq::empty()
    } else {
        seq![import_item_s(c, tab[i])] + unqual_import_items_from_s(c, tab, i + 1)
    }
}

/// Whether the unqualified-path strategy applies: a bare identifier in
/// expression position, neither after a `.` nor after a `::`.
pub open spec fn unqual_slot_s(c: CtxView) -> bool {
    plain_expr_slot_s(c) && c.qualifier is None
}

/// The unqualified-path items: every lexically visible item, and — with
/// the auto-import flag on — every importable out-of-scope item with its
/// import edit attached.
pub open spec fn unqualified_path_items_s(db: &Snapshot, c: CtxView) -> Seq<ItemView> {
    if unqual_slot_s(c) {
        unqual_scope_items_from_s(c, db.scope@, 0) + (if c.config.enable_experimental_autoimport {
            unqual_import_items_from_s(c, db.importable@, 0)
        } else {
            Seq::empty()
        })
    } else {
        Seq::empty()
    }
}

/// Completes every item visible by lexical scoping, plus importable items
/// when the auto-import feature is enabled.
pub fn complete_unqualified_path(acc: &mut Completions, ctx: &CompletionContext, db: &Snapshot)
    requires
        strategy_pre(old(acc), ctx),
    ensures
        final(acc).wf(),
        final(acc)@ == old(acc)@ + unqualified_path_items_s(db, ctx@),
        final(acc).span_start == old(acc).span_start,
        final(acc).span_end == old(acc).span_end,
{
    let ghost old_view = acc@;
    let applicable = matches!(ctx.tag, Tag::Expression) && matches!(
        ctx.receiver_text,
        Option::None,
    ) && matches!(ctx.qualifier, Option::None);
    if !applicable {
        proof {
            assert(acc@ =~= old_view + unqualified_path_items_s(db, ctx@));
        }
        return ;
    }
    let ghost tab = db.scope@;
    let mut i: usize = 0;
    while i < db.scope.len()
        invariant
            strategy_pre(acc, ctx),
            i <= tab.len(),
            db.scope@ == tab,
            acc.span_start == old(acc).span_start,
            acc.span_end == old(acc).span_end,
            old_view + unqual_scope_items_from_s(ctx@, tab, 0) =~= acc@
                + unqual_scope_items_from_s(ctx@, tab, i as int),
        decreases tab.len() - i,
    {
        proof {
            assert(unqual_scope_items_from_s(ctx@, tab, i as int) == seq![
                scope_ref_item_s(ctx@, tab[i as int]),
            ] + unqual_scope_items_from_s(ctx@, tab, i as int + 1));
        }
        let item = make_scope_ref_item(ctx, &db.scope[i]);
        acc.push(item);
        proof {
            assert(old_view + unqual_scope_items_from_s(ctx@, tab, 0) =~= acc@
                + unqual_scope_items_from_s(ctx@, tab, i as int + 1));
        }
        i = i + 1;
    }
    let ghost mid_view = acc@;
    proof {
        assert(mid_view =~= old_view + unqual_scope_items_from_s(ctx@, tab, 0));
    }
    if ctx.config.enable_experimental_autoimport {
        let ghost itab = db.importable@;
        let mut k: usize = 0;
        while k < db.importable.len()
            invariant
                strategy_pre(acc, ctx),
                k <= itab.len(),
                db.importable@ == itab,
                acc.span_start == old(acc).span_start,
                acc.span_end == old(acc).span_end,
                mid_view + unqual_import_items_from_s(ctx@, itab, 0) =~= acc@
                    + unqual_import_items_from_s(ctx@, itab, k as int),
            decreases itab.len() - k,
        {
            proof {
                assert(unqual_import_items_from_s(ctx@, itab, k as int) == seq![
                    import_item_s(ctx@, itab[k as int]),
                ] + unqual_import_items_from_s(ctx@, itab, k as int + 1));
            }
            let entry = &db.importable[k];
            let base = make_scope_ref_item(ctx, &entry.item);
            let item = CompletionItem {
                import_edit: Option::Some(
                    ImportEdit {
                        offset: entry.import_offset,
                        text: crate::bytes::clone_bytes(&entry.import_text),
                    },
                ),
                ..base
            };
            proof {
                assert(item@ == import_item_s(ctx@, itab[k as int]));
            }
            acc.push(item);
            proof {
                assert(mid_view + unqual_import_items_from_s(ctx@, itab, 0) =~= acc@
                    + unqual_import_items_from_s(ctx@, itab, k as int + 1));
            }
            k = k + 1;
        }
        proof {
            assert(acc@ =~= old_view + unqualified_path_items_s(db, ctx@));
        }
    } else {
        proof {
            assert(acc@ =~= old_view + unqualified_path_items_s(db, ctx@));
        }
    }
}

/// The deref-chain fuel: every chain the edge table can express is
/// exhausted after as many steps as there are edges.
pub open spec fn chain_fuel_s(db: &Snapshot) -> nat {
    db.derefs@.len()
}

/// Whether method or field owner `owner` is compatible with the receiver
/// type `tid`: reachable through the auto-deref chain.
pub open spec fn owner_compatible_s(db: &Snapshot, tid: u32, owner: u32) -> bool {
    crate::snapshot::in_deref_chain_s(db.derefs@, tid, owner, chain_fuel_s(db))
}

/// A method item: name as label and insertion, detail and documentation
/// carried over byte-for-byte.
pub open spec fn method_item_s(c: CtxView, m: MethodInfo) -> ItemView {
    simple_item_s(
        m.name@,
        CompletionItemKind::Method,
        m.name@,
        InsertTextFormat::PlainText,
        c.replace_start,
        c.replace_end,
        m.detail.deep_view(),
        m.documentation.deep_view(),
    )
}

/// A field item for the dot position.
pub open spec fn dot_field_item_s(c: CtxView, f: FieldInfo) -> ItemView {
    simple_item_s(
        f.name@,
        CompletionItemKind::Field,
        f.name@,
        InsertTextFormat::PlainText,
        c.replace_start,
        c.replace_end,
        f.detail.deep_view(),
        f.documentation.deep_view(),
    )
}

/// The compatible methods with the given inherent-ness, from index `i` on.
pub open spec fn dot_method_items_from_s(
    db: &Snapshot,
    c: CtxView,
    tid: u32,
    inherent: bool,
    i: int,
) -> Seq<ItemView>
    decreases db.methods@.len() - i,
    when 0 <= i <= db.methods@.len()
{
    if i >= db.methods@.len() {
        Seq::empty()
    } else {
        (if db.methods@[i].inherent == inherent && owner_compatible_s(db, tid, db.methods@[i].receiver) {
            seq![method_item_s(c, db.methods@[i])]
        } else {
            Seq::empty()
        }) + dot_method_items_from_s(db, c, tid, inherent, i + 1)
    }
}

/// The compatible public fields, from index `i` on.
pub open spec fn dot_field_items_from_s(db: &Snapshot, c: CtxView, tid: u32, i: int) -> Seq<
    ItemView,
>
    decreases db.fields@.len() - i,
    when 0 <= i <= db.fields@.len()
{
    if i >= db.fields@.len() {
        Seq::empty()
    } else {
        (if owner_compatible_s(db, tid, db.fields@[i].owner) {
            seq![dot_field_item_s(c, db.fields@[i])]
        } else {
            Seq::empty()
        }) + dot_field_items_from_s(db, c, tid, i + 1)
    }
}

/// The dot items: inherent methods first, then trait methods, then
/// fields — every one compatible with the inferred receiver type after
/// deref adjustment.  An unresolved receiver type is a strategy fault,
/// absorbed as an empty contribution.
pub open spec fn dot_items_s(db: &Snapshot, c: CtxView) -> Seq<ItemView> {
    if c.receiver_text is Some && c.receiver_type is Some {
        let tid = c.receiver_type.unwrap();
        dot_method_items_from_s(db, c, tid, true, 0) + dot_method_items_from_s(
            db,
            c,
            tid,
            false,
            0,
        ) + dot_field_items_from_s(db, c, tid, 0)
    } else {
        Seq::empty()
    }
}

/// Builds the item for one method.
fn make_method_item(ctx: &CompletionContext, m: &MethodInfo) -> (r: CompletionItem)
    ensures
        r@ == method_item_s(ctx@, *m),
        r.range_start == ctx.replace_start,
        r.range_end == ctx.replace_end,
{
    make_item(
        crate::bytes::clone_bytes(&m.name),
        CompletionItemKind::Method,
        crate::bytes::clone_bytes(&m.name),
        InsertTextFormat::PlainText,
        ctx.replace_start,
        ctx.replace_end,
        crate::bytes::clone_opt_bytes(&m.detail),
        crate::bytes::clone_opt_bytes(&m.documentation),
    )
}

/// One pass over the method table, pushing the compatible methods with the
/// given inherent-ness.
fn push_dot_methods(
    acc: &mut Completions,
    ctx: &CompletionContext,
    db: &Snapshot,
    tid: u32,
    inherent: bool,
)
    requires
        strategy_pre(old(acc), ctx),
    ensures
        final(acc).wf(),
        final(acc)@ == old(acc)@ + dot_method_items_from_s(db, ctx@, tid, inherent, 0),
        final(acc).span_start == old(acc).span_start,
        final(acc).span_end == old(acc).span_end,
{
    let ghost old_view = acc@;
    let mut i: usize = 0;
    while i < db.methods.len()
        invariant
            strategy_pre(acc, ctx),
            i <= db.methods@.len(),
            acc.span_start == old(acc).span_start,
            acc.span_end == old(acc).span_end,
            old_view + dot_method_items_from_s(db, ctx@, tid, inherent, 0) =~= acc@
                + dot_method_items_from_s(db, ctx@, tid, inherent, i as int),
        decreases db.methods@.len() - i,
    {
        proof {
            assert(dot_method_items_from_s(db, ctx@, tid, inherent, i as int) == (if db.methods@[i as int].inherent
                == inherent && owner_compatible_s(db, tid, db.methods@[i as int].receiver) {
                seq![method_item_s(ctx@, db.methods@[i as int])]
            } else {
                Seq::<ItemView>::empty()
            }) + dot_method_items_from_s(db, ctx@, tid, inherent, i as int + 1));
        }
        let m = &db.methods[i];
        if m.inherent == inherent && crate::snapshot::in_deref_chain(
            &db.derefs,
            tid,
            m.receiver,
            db.derefs.len(),
        ) {
            let item = make_method_item(ctx, m);
            acc.push(item);
        }
        proof {
            assert(old_view + dot_method_items_from_s(db, ctx@, tid, inherent, 0) =~= acc@
                + dot_method_items_from_s(db, ctx@, tid, inherent, i as int + 1));
        }
        i = i + 1;
    }
    proof {
        assert(acc@ =~= old_view + dot_method_items_from_s(db, ctx@, tid, inherent, 0));
    }
}

/// Completes methods and public fields after a `.`: the receiver's type is
/// taken from the inference table, auto-deref is followed through the edge
/// table, and inherent methods rank (stand) before blanket-trait methods.
pub fn complete_dot(acc: &mut Completions, ctx: &CompletionContext, db: &Snapshot)
    requires
        strategy_pre(old(acc), ctx),
    ensures
        final(acc).wf(),
        final(acc)@ == old(acc)@ + dot_items_s(db, ctx@),
        final(acc).span_start == old(acc).span_start,
        final(acc).span_end == old(acc).span_end,
{
    let ghost old_view = acc@;
    let applicable = matches!(ctx.receiver_text, Option::Some(_)) && matches!(
        ctx.receiver_type,
        Option::Some(_),
    );
    if !applicable {
        proof {
            assert(acc@ =~= old_view + dot_items_s(db, ctx@));
        }
        return ;
    }
    let tid = match ctx.receiver_type {
        Option::Some(t) => t,
        Option::None => {
            proof {
                assert(false);
            }
            0
        },
    };
    push_dot_methods(acc, ctx, db, tid, true);
    push_dot_methods(acc, ctx, db, tid, false);
    let ghost mid_view = acc@;
    let mut i: usize = 0;
    while i < db.fields.len()
        invariant
            strategy_pre(acc, ctx),
            i <= db.fields@.len(),
            acc.span_start == old(acc).span_start,
            acc.span_end == old(acc).span_end,
            mid_view + dot_field_items_from_s(db, ctx@, tid, 0) =~= acc@ + dot_field_items_from_s(
                db,
                ctx@,
                tid,
                i as int,
            ),
        decreases db.fields@.len() - i,
    {
        proof {
            assert(dot_field_items_from_s(db, ctx@, tid, i as int) == (if owner_compatible_s(
                db,
                tid,
                db.fields@[i as int].owner,
            ) {
                seq![dot_field_item_s(ctx@, db.fields@[i as int])]
            } else {
                Seq::<ItemView>::empty()
            }) + dot_field_items_from_s(db, ctx@, tid, i as int + 1));
        }
        let f = &db.fields[i];
        if crate::snapshot::in_deref_chain(&db.derefs, tid, f.owner, db.derefs.len()) {
            let item = make_item(
                crate::bytes::clone_bytes(&f.name),
                CompletionItemKind::Field,
                crate::bytes::clone_bytes(&f.name),
                InsertTextFormat::PlainText,
                ctx.replace_start,
                ctx.replace_end,
                crate::bytes::clone_opt_bytes(&f.detail),
                crate::bytes::clone_opt_bytes(&f.documentation),
            );
            acc.push(item);
        }
        proof {
            assert(mid_view + dot_field_items_from_s(db, ctx@, tid, 0) =~= acc@
                + dot_field_items_from_s(db, ctx@, tid, i as int + 1));
        }
        i = i + 1;
    }
    proof {
        assert(acc@ =~= old_view + dot_items_s(db, ctx@));
    }
}

/// A record-field item for the record position.
pub open spec fn record_field_item_s(c: CtxView, f: FieldInfo) -> ItemView {
    simple_item_s(
        f.name@,
        CompletionItemKind::Field,
        f.name@,
        InsertTextFormat::PlainText,
        c.replace_start,
        c.replace_end,
        f.detail.deep_view(),
        f.documentation.deep_view(),
    )
}

/// The declared fields of the record type not yet written out, from index
/// `i` on.
pub open spec fn record_items_from_s(db: &Snapshot, c: CtxView, tid: u32, i: int) -> Seq<ItemView>
    decreases db.fields@.len() - i,
    when 0 <= i <= db.fields@.len()
{
    if i >= db.fields@.len() {
        Seq::empty()
    } else {
        (if db.fields@[i].owner == tid && !c.present_fields.contains(db.fields@[i].name@) {
            seq![record_field_item_s(c, db.fields@[i])]
        } else {
            Seq::empty()
        }) + record_items_from_s(db, c, tid, i + 1)
    }
}

/// The record items: the declared fields of the inferred record type that
/// the literal does not yet name.
pub open spec fn record_items_s(db: &Snapshot, c: CtxView) -> Seq<ItemView> {
    if c.tag == Tag::RecordField && c.record_type is Some {
        record_items_from_s(db, c, c.record_type.unwrap(), 0)
    } else {
        Seq::empty()
    }
}

/// Whether `name` occurs in the list of already-written field names.
fn contains_bytes(tab: &Vec<Vec<u8>>, name: &Vec<u8>) -> (r: bool)
    ensures
        r == tab.deep_view().contains(name@),
{
    let mut i: usize = 0;
    while i < tab.len()
        invariant
            i <= tab@.len(),
            forall|j: int| 0 <= j < i ==> tab.deep_view()[j] != name@,
        decreases tab@.len() - i,
    {
        let hit = crate::bytes::bytes_eq(&tab[i], name);
        proof {
            assert(tab.deep_view()[i as int] == tab@[i as int].deep_view());
            assert(tab@[i as int].deep_view() =~= tab@[i as int]@);
        }
        if hit {
            proof {
                assert(tab.deep_view()[i as int] == name@);
            }
            return true;
        }
        i = i + 1;
    }
    proof {
        assert(!tab.deep_view().contains(name@)) by {
            if tab.deep_view().contains(name@) {
                let j = choose|j: int| 0 <= j < tab.deep_view().len() && tab.deep_view()[j] == name@;
                assert(tab.deep_view()[j] != name@);
            }
        }
    }
    false
}

/// Completes the not-yet-written fields inside a record literal.
pub fn complete_record(acc: &mut Completions, ctx: &CompletionContext, db: &Snapshot)
    requires
        strategy_pre(old(acc), ctx),
    ensures
        final(acc).wf(),
        final(acc)@ == old(acc)@ + record_items_s(db, ctx@),
        final(acc).span_start == old(acc).span_start,
        final(acc).span_end == old(acc).span_end,
{
    let ghost old_view = acc@;
    let applicable = matches!(ctx.tag, Tag::RecordField) && matches!(
        ctx.record_type,
        Option::Some(_),
    );
    if !applicable {
        proof {
            assert(acc@ =~= old_view + record_items_s(db, ctx@));
        }
        return ;
    }
    let tid = match ctx.record_type {
        Option::Some(t) => t,
        Option::None => {
            proof {
                assert(false);
            }
            0
        },
    };
    let mut i: usize = 0;
    while i < db.fields.len()
        invariant
            strategy_pre(acc, ctx),
            i <= db.fields@.len(),
            acc.span_start == old(acc).span_start,
            acc.span_end == old(acc).span_end,
            old_view + record_items_from_s(db, ctx@, tid, 0) =~= acc@ + record_items_from_s(
                db,
                ctx@,
                tid,
                i as int,
            ),
        decreases db.fields@.len() - i,
    {
        proof {
            assert(record_items_from_s(db, ctx@, tid, i as int) == (if db.fields@[i as int].owner
                == tid && !ctx@.present_fields.contains(db.fields@[i as int].name@) {
                seq![record_field_item_s(ctx@, db.fields@[i as int])]
            } else {
                Seq::<ItemView>::empty()
            }) + record_items_from_s(db, ctx@, tid, i as int + 1));
        }
        let f = &db.fields[i];
        if f.owner == tid && !contains_bytes(&ctx.present_fields, &f.name) {
            let item = make_item(
                crate::bytes::clone_bytes(&f.name),
                CompletionItemKind::Field,
                crate::bytes::clone_bytes(&f.name),
                InsertTextFormat::PlainText,
                ctx.replace_start,
                ctx.replace_end,
                crate::bytes::clone_opt_bytes(&f.detail),
                crate::bytes::clone_opt_bytes(&f.documentation),
            );
            acc.push(item);
        }
        proof {
            assert(old_view + record_items_from_s(db, ctx@, tid, 0) =~= acc@
                + record_items_from_s(db, ctx@, tid, i as int + 1));
        }
        i = i + 1;
    }
    proof {
        assert(acc@ =~= old_view + record_items_s(db, ctx@));
    }
}

/// A bindable-constructor item for the pattern position.
pub open spec fn variant_item_s(c: CtxView, v: VariantInfo) -> ItemView {
    simple_item_s(
        v.name@,
        CompletionItemKind::EnumVariant,
        v.name@,
        InsertTextFormat::PlainText,
        c.replace_start,
        c.replace_end,
        v.detail.deep_view(),
        v.documentation.deep_view(),
    )
}

/// The bindable constructors of the matched type, from index `i` on.
pub open spec fn pattern_items_from_s(db: &Snapshot, c: CtxView, tid: u32, i: int) -> Seq<ItemView>
    decreases db.variants@.len() - i,
    when 0 <= i <= db.variants@.len()
{
    if i >= db.variants@.len() {
        Seq::empty()
    } else {
        (if db.variants@[i].owner == tid {
            seq![variant_item_s(c, db.variants@[i])]
        } else {
            Seq::empty()
        }) + pattern_items_from_s(db, c, tid, i + 1)
    }
}

/// The pattern items: the bindable constructors consistent with the
/// expected matched type.
pub open spec fn pattern_items_s(db: &Snapshot, c: CtxView) -> Seq<ItemView> {
    if c.tag == Tag::Pattern && c.pattern_type is Some {
        pattern_items_from_s(db, c, c.pattern_type.unwrap(), 0)
    } else {
        Seq::empty()
    }
}

/// Completes bindable constructors (enum variants, struct patterns) in
/// pattern position.
pub fn complete_pattern(acc: &mut Completions, ctx: &CompletionContext, db: &Snapshot)
    requires
        strategy_pre(old(acc), ctx),
    ensures
        final(acc).wf(),
        final(acc)@ == old(acc)@ + pattern_items_s(db, ctx@),
        final(acc).span_start == old(acc).span_start,
        final(acc).span_end == old(acc).span_end,
{
    let ghost old_view = acc@;
    let applicable = matches!(ctx.tag, Tag::Pattern) && matches!(
        ctx.pattern_type,
        Option::Some(_),
    );
    if !applicable {
        proof {
            assert(acc@ =~= old_view + pattern_items_s(db, ctx@));
        }
        return ;
    }
    let tid = match ctx.pattern_type {
        Option::Some(t) => t,
        Option::None => {
            proof {
                assert(false);
            }
            0
        },
    };
    let mut i: usize = 0;
    while i < db.variants.len()
        invariant
            strategy_pre(acc, ctx),
            i <= db.variants@.len(),
            acc.span_start == old(acc).span_start,
            acc.span_end == old(acc).span_end,
            old_view + pattern_items_from_s(db, ctx@, tid, 0) =~= acc@ + pattern_items_from_s(
                db,
                ctx@,
                tid,
                i as int,
            ),
        decreases db.variants@.len() - i,
    {
        proof {
            assert(pattern_items_from_s(db, ctx@, tid, i as int) == (if db.variants@[i as int].owner
                == tid {
                seq![variant_item_s(ctx@, db.variants@[i as int])]
            } else {
                Seq::<ItemView>::empty()
            }) + pattern_items_from_s(db, ctx@, tid, i as int + 1));
        }
        let v = &db.variants[i];
        if v.owner == tid {
            let item = make_item(
                crate::bytes::clone_bytes(&v.name),
                CompletionItemKind::EnumVariant,
                crate::bytes::clone_bytes(&v.name),
                InsertTextFormat::PlainText,
                ctx.replace_start,
                ctx.replace_end,
                crate::bytes::clone_opt_bytes(&v.detail),
                crate::bytes::clone_opt_bytes(&v.documentation),
            );
            acc.push(item);
        }
        proof {
            assert(old_view + pattern_items_from_s(db, ctx@, tid, 0) =~= acc@
                + pattern_items_from_s(db, ctx@, tid, i as int + 1));
        }
        i = i + 1;
    }
    proof {
        assert(acc@ =~= old_view + pattern_items_s(db, ctx@));
    }
}

/// One postfix rewrite item: the rule's name as label, and as insertion
/// the prefix, the receiver expression unchanged, then the suffix; the
/// replacement range spans from the receiver's start through the typed
/// trigger suffix.
pub open spec fn postfix_item_s(
    c: CtxView,
    label: Seq<u8>,
    prefix: Seq<u8>,
    suffix: Seq<u8>,
    recv: Seq<u8>,
) -> ItemView {
    simple_item_s(
        label,
        CompletionItemKind::Snippet,
        prefix + recv + suffix,
        InsertTextFormat::Snippet,
        c.receiver_start,
        c.replace_end,
        Option::None,
        Option::None,
    )
}

/// The postfix items for receiver text `e`: the fixed rule table, with the
/// destructuring (`let`) forms of `if` and `while` chosen when the
/// receiver's type is a known optional/result-like wrapper.
pub open spec fn postfix_items_for_s(c: CtxView, e: Seq<u8>) -> Seq<ItemView> {
    seq![
        postfix_item_s(
            c,
            words::w_if_s(),
            if c.receiver_is_wrapper {
                templates::tpl_if_let_s()
            } else {
                templates::tpl_if_sp_s()
            },
            templates::tpl_block_s(),
            e,
        ),
        postfix_item_s(c, words::w_match_s(), templates::tpl_match_sp_s(), templates::tpl_block_s(), e),
        postfix_item_s(
            c,
            words::w_while_s(),
            if c.receiver_is_wrapper {
                templates::tpl_while_let_s()
            } else {
                templates::tpl_while_sp_s()
            },
            templates::tpl_block_s(),
            e,
        ),
        postfix_item_s(c, words::w_ref_s(), templates::tpl_amp_s(), Seq::empty(), e),
        postfix_item_s(c, words::w_refm_s(), templates::tpl_amp_mut_s(), Seq::empty(), e),
        postfix_item_s(c, words::w_let_s(), templates::tpl_let_bind_s(), templates::tpl_semi_s(), e),
        postfix_item_s(c, words::w_letm_s(), templates::tpl_let_mut_bind_s(), templates::tpl_semi_s(), e),
        postfix_item_s(c, words::w_not_s(), templates::tpl_bang_s(), Seq::empty(), e),
        postfix_item_s(c, words::w_dbg_s(), templates::tpl_dbg_open_s(), templates::tpl_rparen_s(), e),
        postfix_item_s(c, words::w_dbgr_s(), templates::tpl_dbg_ref_open_s(), templates::tpl_rparen_s(), e),
        postfix_item_s(c, words::w_call_s(), templates::tpl_lparen_s(), templates::tpl_rparen_s(), e),
    ]
}

/// The postfix items: applicable after `expr.`, gated by the postfix
/// feature flag.
pub open spec fn postfix_items_s(c: CtxView) -> Seq<ItemView> {
    if c.config.enable_postfix && c.receiver_text is Some {
        postfix_items_for_s(c, c.receiver_text.unwrap())
    } else {
        Seq::empty()
    }
}

/// Builds one postfix rewrite item.
fn make_postfix_item(
    ctx: &CompletionContext,
    label: Vec<u8>,
    prefix: Vec<u8>,
    suffix: Vec<u8>,
    recv: &Vec<u8>,
) -> (r: CompletionItem)
    requires
        ctx.wf(),
        ctx@.receiver_text is Some,
    ensures
        r@ == postfix_item_s(ctx@, label@, prefix@, suffix@, recv@),
        r.range_start == ctx.receiver_start,
        r.range_end == ctx.replace_end,
{
    let mut insert = prefix;
    crate::bytes::append_bytes(&mut insert, recv);
    crate::bytes::append_bytes(&mut insert, &suffix);
    make_item(
        label,
        CompletionItemKind::Snippet,
        insert,
        InsertTextFormat::Snippet,
        ctx.receiver_start,
        ctx.replace_end,
        Option::None,
        Option::None,
    )
}

/// Completes postfix rewrites (`expr.if`, `expr.match`, `expr.not`, ...)
/// after a completed expression and a `.`, when the postfix feature is
/// enabled.
pub fn complete_postfix(acc: &mut Completions, ctx: &CompletionContext, db: &Snapshot)
    requires
        strategy_pre(old(acc), ctx),
    ensures
        final(acc).wf(),
        final(acc)@ == old(acc)@ + postfix_items_s(ctx@),
        final(acc).span_start == old(acc).span_start,
        final(acc).span_end == old(acc).span_end,
{
    let ghost old_view = acc@;
    if !ctx.config.enable_postfix {
        proof {
            assert(acc@ =~= old_view + postfix_items_s(ctx@));
        }
        return ;
    }
    let recv = match &ctx.receiver_text {
        Option::Some(r) => r,
        Option::None => {
            proof {
                assert(acc@ =~= old_view + postfix_items_s(ctx@));
            }
            return ;
        },
    };
    proof {
        assert(recv.deep_view() =~= recv@);
        assert(ctx@.receiver_text == Option::Some(recv@));
    }
    let if_prefix = if ctx.receiver_is_wrapper {
        templates::tpl_if_let()
    } else {
        templates::tpl_if_sp()
    };
    acc.push(make_postfix_item(ctx, words::w_if(), if_prefix, templates::tpl_block(), recv));
    acc.push(make_postfix_item(ctx, words::w_match(), templates::tpl_match_sp(),
        templates::tpl_block(), recv));
    let while_prefix = if ctx.receiver_is_wrapper {
        templates::tpl_while_let()
    } else {
        templates::tpl_while_sp()
    };
    acc.push(make_postfix_item(ctx, words::w_while(), while_prefix, templates::tpl_block(), recv));
    acc.push(make_postfix_item(ctx, words::w_ref(), templates::tpl_amp(), Vec::new(), recv));
    acc.push(make_postfix_item(ctx, words::w_refm(), templates::tpl_amp_mut(), Vec::new(), recv));
    acc.push(make_postfix_item(ctx, words::w_let(), templates::tpl_let_bind(),
        templates::tpl_semi(), recv));
    acc.push(make_postfix_item(ctx, words::w_letm(), templates::tpl_let_mut_bind(),
        templates::tpl_semi(), recv));
    acc.push(make_postfix_item(ctx, words::w_not(), templates::tpl_bang(), Vec::new(), recv));
    acc.push(make_postfix_item(ctx, words::w_dbg(), templates::tpl_dbg_open(),
        templates::tpl_rparen(), recv));
    acc.push(make_postfix_item(ctx, words::w_dbgr(), templates::tpl_dbg_ref_open(),
        templates::tpl_rparen(), recv));
    acc.push(make_postfix_item(ctx, words::w_call(), templates::tpl_lparen(),
        templates::tpl_rparen(), recv));
    proof {
        assert(acc@ =~= old_view + postfix_items_s(ctx@));
    }
}

/// A macro-invocation item: the macro's name with `!` as label, a call
/// template as insertion.
pub open spec fn macro_item_s(c: CtxView, s: ScopeItem) -> ItemView {
    simple_item_s(
        s.name@ + templates::tpl_bang_s(),
        CompletionItemKind::Macro,
        s.name@ + templates::tpl_macro_call_s(),
        InsertTextFormat::Snippet,
        c.replace_start,
        c.replace_end,
        s.detail.deep_view(),
        s.documentation.deep_view(),
    )
}

/// The macros visible in scope, from index `i` on.
pub open spec fn macro_items_from_s(c: CtxView, tab: Seq<ScopeItem>, i: int) -> Seq<ItemView>
    decreases tab.len() - i,
    when 0 <= i <= tab.len()
{
    if i >= tab.len() {
        Seq::empty()
    } else {
        (if tab[i].kind == CompletionItemKind::Macro {
            seq![macro_item_s(c, tab[i])]
        } else {
            Seq::empty()
        }) + macro_items_from_s(c, tab, i + 1)
    }
}

/// The macro items: macros may be invoked like items, so in item position
/// every macro visible in scope is offered.
pub open spec fn macro_items_s(db: &Snapshot, c: CtxView) -> Seq<ItemView> {
    if c.tag == Tag::Item {
        macro_items_from_s(c, db.scope@, 0)
    } else {
        Seq::empty()
    }
}

/// Completes macro invocations in item position.
pub fn complete_macro_in_item_position(
    acc: &mut Completions,
    ctx: &CompletionContext,
    db: &Snapshot,
)
    requires
        strategy_pre(old(acc), ctx),
    ensures
        final(acc).wf(),
        final(acc)@ == old(acc)@ + macro_items_s(db, ctx@),
        final(acc).span_start == old(acc).span_start,
        final(acc).span_end == old(acc).span_end,
{
    let ghost old_view = acc@;
    if !matches!(ctx.tag, Tag::Item) {
        proof {
            assert(acc@ =~= old_view + macro_items_s(db, ctx@));
        }
        return ;
    }
    let ghost tab = db.scope@;
    let mut i: usize = 0;
    while i < db.scope.len()
        invariant
            strategy_pre(acc, ctx),
            i <= tab.len(),
            db.scope@ == tab,
            acc.span_start == old(acc).span_start,
            acc.span_end == old(acc).span_end,
            old_view + macro_items_from_s(ctx@, tab, 0) =~= acc@ + macro_items_from_s(
                ctx@,
                tab,
                i as int,
            ),
        decreases tab.len() - i,
    {
        proof {
            assert(macro_items_from_s(ctx@, tab, i as int) == (if tab[i as int].kind
                == CompletionItemKind::Macro {
                seq![macro_item_s(ctx@, tab[i as int])]
            } else {
                Seq::<ItemView>::empty()
            }) + macro_items_from_s(ctx@, tab, i as int + 1));
        }
        let s = &db.scope[i];
        if matches!(s.kind, CompletionItemKind::Macro) {
            let mut label = crate::bytes::clone_bytes(&s.name);
            let bang = templates::tpl_bang();
            crate::bytes::append_bytes(&mut label, &bang);
            let mut insert = crate::bytes::clone_bytes(&s.name);
            let call = templates::tpl_macro_call();
            crate::bytes::append_bytes(&mut insert, &call);
            let item = make_item(
                label,
                CompletionItemKind::Macro,
                insert,
                InsertTextFormat::Snippet,
                ctx.replace_start,
                ctx.replace_end,
                crate::bytes::clone_opt_bytes(&s.detail),
                crate::bytes::clone_opt_bytes(&s.documentation),
            );
            acc.push(item);
        }
        proof {
            assert(old_view + macro_items_from_s(ctx@, tab, 0) =~= acc@ + macro_items_from_s(
                ctx@,
                tab,
                i as int + 1,
            ));
        }
        i = i + 1;
    }
    proof {
        assert(acc@ =~= old_view + macro_items_s(db, ctx@));
    }
}

/// A trait-member stub item: the member's name as label, the full stub
/// with correct signature as insertion.
pub open spec fn trait_member_item_s(c: CtxView, m: TraitMemberStub) -> ItemView {
    simple_item_s(
        m.name@,
        CompletionItemKind::TraitMember,
        m.stub_text@,
        InsertTextFormat::Snippet,
        c.replace_start,
        c.replace_end,
        m.detail.deep_view(),
        m.documentation.deep_view(),
    )
}

/// The unimplemented trait members, from index `i` on.
pub open spec fn trait_impl_items_from_s(c: CtxView, tab: Seq<TraitMemberStub>, i: int) -> Seq<
    ItemView,
>
    decreases tab.len() - i,
    when 0 <= i <= tab.len()
{
    if i >= tab.len() {
        Seq::empty()
    } else {
        seq![trait_member_item_s(c, tab[i])] + trait_impl_items_from_s(c, tab, i + 1)
    }
}

/// The trait-implementation items: the members the enclosing
/// implementation has not yet written out, each inserting a full stub.
pub open spec fn trait_impl_items_s(db: &Snapshot, c: CtxView) -> Seq<ItemView> {
    if c.tag == Tag::TraitImplBody {
        trait_impl_items_from_s(c, db.missing_trait_members@, 0)
    } else {
        Seq::empty()
    }
}

/// Completes the not-yet-implemented trait members inside a
/// trait-implementation body.
pub fn complete_trait_impl(acc: &mut Completions, ctx: &CompletionContext, db: &Snapshot)
    requires
        strategy_pre(old(acc), ctx),
    ensures
        final(acc).wf(),
        final(acc)@ == old(acc)@ + trait_impl_items_s(db, ctx@),
        final(acc).span_start == old(acc).span_start,
        final(acc).span_end == old(acc).span_end,
{
    let ghost old_view = acc@;
    if !matches!(ctx.tag, Tag::TraitImplBody) {
        proof {
            assert(acc@ =~= old_view + trait_impl_items_s(db, ctx@));
        }
        return ;
    }
    let ghost tab = db.missing_trait_members@;
    let mut i: usize = 0;
    while i < db.missing_trait_members.len()
        invariant
            strategy_pre(acc, ctx),
            i <= tab.len(),
            db.missing_trait_members@ == tab,
            acc.span_start == old(acc).span_start,
            acc.span_end == old(acc).span_end,
            old_view + trait_impl_items_from_s(ctx@, tab, 0) =~= acc@ + trait_impl_items_from_s(
                ctx@,
                tab,
                i as int,
            ),
        decreases tab.len() - i,
    {
        proof {
            assert(trait_impl_items_from_s(ctx@, tab, i as int) == seq![
                trait_member_item_s(ctx@, tab[i as int]),
            ] + trait_impl_items_from_s(ctx@, tab, i as int + 1));
        }
        let m = &db.missing_trait_members[i];
        let item = make_item(
            crate::bytes::clone_bytes(&m.name),
            CompletionItemKind::TraitMember,
            crate::bytes::clone_bytes(&m.stub_text),
            InsertTextFormat::Snippet,
            ctx.replace_start,
            ctx.replace_end,
            crate::bytes::clone_opt_bytes(&m.detail),
            crate::bytes::clone_opt_bytes(&m.documentation),
        );
        acc.push(item);
        proof {
            assert(old_view + trait_impl_items_from_s(ctx@, tab, 0) =~= acc@
                + trait_impl_items_from_s(ctx@, tab, i as int + 1));
        }
        i = i + 1;
    }
    proof {
        assert(acc@ =~= old_view + trait_impl_items_s(db, ctx@));
    }
}

/// A submodule item: the candidate name as label, name plus `;` as
/// insertion.
pub open spec fn submodule_item_s(c: CtxView, name: Vec<u8>) -> ItemView {
    simple_item_s(
        name@,
        CompletionItemKind::Module,
        name@ + templates::tpl_semi_s(),
        InsertTextFormat::PlainText,
        c.replace_start,
        c.replace_end,
        Option::None,
        Option::None,
    )
}

/// The candidate submodules, from index `i` on.
pub open spec fn mod_items_from_s(c: CtxView, tab: Seq<Vec<u8>>, i: int) -> Seq<ItemView>
    decreases tab.len() - i,
    when 0 <= i <= tab.len()
{
    if i >= tab.len() {
        Seq::empty()
    } else {
        seq![submodule_item_s(c, tab[i])] + mod_items_from_s(c, tab, i + 1)
    }
}

/// The module items: candidate file-backed submodule names after `mod`.
pub open spec fn mod_items_s(db: &Snapshot, c: CtxView) -> Seq<ItemView> {
    if c.tag == Tag::ModulePath {
        mod_items_from_s(c, db.submodules@, 0)
    } else {
        Seq::empty()
    }
}

/// Completes candidate submodule names, derived from the file-system
/// layout, after the `mod` keyword.
pub fn complete_mod(acc: &mut Completions, ctx: &CompletionContext, db: &Snapshot)
    requires
        strategy_pre(old(acc), ctx),
    ensures
        final(acc).wf(),
        final(acc)@ == old(acc)@ + mod_items_s(db, ctx@),
        final(acc).span_start == old(acc).span_start,
        final(acc).span_end == old(acc).span_end,
{
    let ghost old_view = acc@;
    if !matches!(ctx.tag, Tag::ModulePath) {
        proof {
            assert(acc@ =~= old_view + mod_items_s(db, ctx@));
        }
        return ;
    }
    let ghost tab = db.submodules@;
    let mut i: usize = 0;
    while i < db.submodules.len()
        invariant
            strategy_pre(acc, ctx),
            i <= tab.len(),
            db.submodules@ == tab,
            acc.span_start == old(acc).span_start,
            acc.span_end == old(acc).span_end,
            old_view + mod_items_from_s(ctx@, tab, 0) =~= acc@ + mod_items_from_s(
                ctx@,
                tab,
                i as int,
            ),
        decreases tab.len() - i,
    {
        proof {
            assert(mod_items_from_s(ctx@, tab, i as int) == seq![
                submodule_item_s(ctx@, tab[i as int]),
            ] + mod_items_from_s(ctx@, tab, i as int + 1));
        }
        let mut insert = crate::bytes::clone_bytes(&db.submodules[i]);
        let semi = templates::tpl_semi();
        crate::bytes::append_bytes(&mut insert, &semi);
        let item = make_item(
            crate::bytes::clone_bytes(&db.submodules[i]),
            CompletionItemKind::Module,
            insert,
            InsertTextFormat::PlainText,
            ctx.replace_start,
            ctx.replace_end,
            Option::None,
            Option::None,
        );
        acc.push(item);
        proof {
            assert(old_view + mod_items_from_s(ctx@, tab, 0) =~= acc@ + mod_items_from_s(
                ctx@,
                tab,
                i as int + 1,
            ));
        }
        i = i + 1;
    }
    proof {
        assert(acc@ =~= old_view + mod_items_s(db, ctx@));
    }
}

} // verus!
