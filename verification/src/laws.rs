//! Engine-wide laws, each proved against the exact contracts of the entry
//! point and the strategies.

use vstd::prelude::*;

use crate::completions::{
    dot_field_items_from_s, dot_items_s, dot_method_items_from_s, method_item_s,
    owner_compatible_s, postfix_items_for_s, postfix_items_s, scope_ref_item_s,
    unqual_scope_items_from_s, unqual_slot_s, unqualified_path_items_s, Completions,
};
use crate::config::CompletionConfig;
use crate::context::CtxView;
use crate::item::ItemView;
use crate::snapshot::{FilePosition, ScopeItem, Snapshot};
use crate::templates;
use crate::{all_items_s, completion_outcome_s};

verus! {

/// A position classified as requiring no completion — a binding slot such
/// as the loop variable of a `for` before `in` — yields exactly nothing:
/// no item of any kind is produced.
pub proof fn lemma_binding_position_yields_nothing(
    db: &Snapshot,
    config: CompletionConfig,
    pos: FilePosition,
)
    requires
        match crate::context::build_s(db, config, pos) {
            Option::Some(c) => c.no_completion,
            Option::None => true,
        },
    ensures
        completion_outcome_s(db, config, pos) is None,
{
}

/// Idempotence: the engine is a mathematical function of the snapshot,
/// the configuration and the position, so two results of it on unchanged
/// inputs are identical.
pub proof fn lemma_idempotent(
    db: &Snapshot,
    config: CompletionConfig,
    pos: FilePosition,
    a: Option<Seq<ItemView>>,
    b: Option<Seq<ItemView>>,
)
    requires
        a == completion_outcome_s(db, config, pos),
        b == completion_outcome_s(db, config, pos),
    ensures
        a == b,
{
}

/// Range invariant: every item a well-formed accumulator holds replaces a
/// range contained in the span the context reported for the position.
pub proof fn lemma_range_invariant(acc: &Completions)
    requires
        acc.wf(),
    ensures
        forall|i: int|
            0 <= i < acc@.len() ==> acc.span_start as int <= (#[trigger] acc@[i]).range_start
                && acc@[i].range_start <= acc@[i].range_end && acc@[i].range_end
                <= acc.span_end as int,
{
}

/// A member of a sequence is a member of any concatenation extending it
/// on the right.
proof fn lemma_contains_left(a: Seq<ItemView>, b: Seq<ItemView>, x: ItemView)
    requires
        a.contains(x),
    ensures
        (a + b).contains(x),
{
    let i = choose|i: int| 0 <= i < a.len() && a[i] == x;
    assert((a + b)[i] == x);
}

/// A member of a sequence is a member of any concatenation extending it
/// on the left.
proof fn lemma_contains_right(a: Seq<ItemView>, b: Seq<ItemView>, x: ItemView)
    requires
        b.contains(x),
    ensures
        (a + b).contains(x),
{
    let i = choose|i: int| 0 <= i < b.len() && b[i] == x;
    assert((a + b)[a.len() + i] == x);
}

/// The unqualified scope list from index `j` holds the item of every
/// scope entry at or past `j`.
proof fn lemma_unqual_scope_contains(c: CtxView, tab: Seq<ScopeItem>, j: int, i: int)
    requires
        0 <= j <= i < tab.len(),
    ensures
        unqual_scope_items_from_s(c, tab, j).contains(scope_ref_item_s(c, tab[i])),
    decreases i - j,
{
    let l = unqual_scope_items_from_s(c, tab, j);
    if j == i {
        assert(l[0] == scope_ref_item_s(c, tab[i]));
    } else {
        lemma_unqual_scope_contains(c, tab, j + 1, i);
        let tail = unqual_scope_items_from_s(c, tab, j + 1);
        let k = choose|k: int| 0 <= k < tail.len() && tail[k] == scope_ref_item_s(c, tab[i]);
        assert(l[1 + k] == scope_ref_item_s(c, tab[i]));
    }
}

/// In a completable reference slot — expression position, no dot
/// receiver, no path qualifier — every lexically visible item appears in
/// the result, with its detail and documentation carried over
/// byte-for-byte.
pub proof fn lemma_visible_item_kept(db: &Snapshot, c: CtxView, i: int)
    requires
        unqual_slot_s(c),
        0 <= i < db.scope@.len(),
    ensures
        all_items_s(db, c).contains(scope_ref_item_s(c, db.scope@[i])),
        scope_ref_item_s(c, db.scope@[i]).detail == db.scope@[i].detail.deep_view(),
        scope_ref_item_s(c, db.scope@[i]).documentation == db.scope@[i].documentation.deep_view(),
{
    let x = scope_ref_item_s(c, db.scope@[i]);
    lemma_unqual_scope_contains(c, db.scope@, 0, i);
    lemma_contains_left(
        unqual_scope_items_from_s(c, db.scope@, 0),
        if c.config.enable_experimental_autoimport {
            crate::completions::unqual_import_items_from_s(c, db.importable@, 0)
        } else {
            Seq::empty()
        },
        x,
    );
    assert(unqualified_path_items_s(db, c).contains(x));
    let a1 = crate::completions::attribute_items_s(c);
    let a2 = crate::completions::fn_param_items_s(db, c);
    let a3 = crate::completions::expr_keyword_items_s(c);
    let a4 = crate::completions::use_tree_keyword_items_s(c);
    let a5 = crate::completions::expr_snippet_items_s(c);
    let a6 = crate::completions::item_snippet_items_s(c);
    let a7 = crate::completions::qualified_path_items_s(db, c);
    let a8 = unqualified_path_items_s(db, c);
    let a9 = crate::completions::dot_items_s(db, c);
    let a10 = crate::completions::record_items_s(db, c);
    let a11 = crate::completions::pattern_items_s(db, c);
    let a12 = crate::completions::postfix_items_s(c);
    let a13 = crate::completions::macro_items_s(db, c);
    let a14 = crate::completions::trait_impl_items_s(db, c);
    let a15 = crate::completions::mod_items_s(db, c);
    lemma_contains_right(a1 + a2 + a3 + a4 + a5 + a6 + a7, a8, x);
    lemma_contains_left(a1 + a2 + a3 + a4 + a5 + a6 + a7 + a8, a9, x);
    lemma_contains_left(a1 + a2 + a3 + a4 + a5 + a6 + a7 + a8 + a9, a10, x);
    lemma_contains_left(a1 + a2 + a3 + a4 + a5 + a6 + a7 + a8 + a9 + a10, a11, x);
    lemma_contains_left(a1 + a2 + a3 + a4 + a5 + a6 + a7 + a8 + a9 + a10 + a11, a12, x);
    lemma_contains_left(a1 + a2 + a3 + a4 + a5 + a6 + a7 + a8 + a9 + a10 + a11 + a12, a13, x);
    lemma_contains_left(a1 + a2 + a3 + a4 + a5 + a6 + a7 + a8 + a9 + a10 + a11 + a12 + a13, a14, x);
    lemma_contains_left(
        a1 + a2 + a3 + a4 + a5 + a6 + a7 + a8 + a9 + a10 + a11 + a12 + a13 + a14,
        a15,
        x,
    );
}

/// Every method item of the compatible-method list from index `i` on
/// names a method of the snapshot whose defining type is reachable from
/// the receiver type through the auto-deref chain, with detail and
/// documentation carried over byte-for-byte.
proof fn lemma_dot_methods_sound(db: &Snapshot, c: CtxView, tid: u32, inh: bool, i: int)
    requires
        0 <= i <= db.methods@.len(),
    ensures
        forall|k: int|
            0 <= k < dot_method_items_from_s(db, c, tid, inh, i).len() ==> exists|j: int|
                0 <= j < db.methods@.len() && #[trigger] dot_method_items_from_s(
                    db,
                    c,
                    tid,
                    inh,
                    i,
                )[k] == method_item_s(c, db.methods@[j]) && owner_compatible_s(
                    db,
                    tid,
                    db.methods@[j].receiver,
                ),
    decreases db.methods@.len() - i,
{
    if i < db.methods@.len() {
        lemma_dot_methods_sound(db, c, tid, inh, i + 1);
        let l = dot_method_items_from_s(db, c, tid, inh, i);
        let tail = dot_method_items_from_s(db, c, tid, inh, i + 1);
        let head_in = db.methods@[i].inherent == inh && owner_compatible_s(
            db,
            tid,
            db.methods@[i].receiver,
        );
        assert forall|k: int| 0 <= k < l.len() implies exists|j: int|
            0 <= j < db.methods@.len() && #[trigger] l[k] == method_item_s(c, db.methods@[j])
                && owner_compatible_s(db, tid, db.methods@[j].receiver) by {
            if head_in && k == 0 {
                assert(l[0] == method_item_s(c, db.methods@[i]) && owner_compatible_s(
                    db,
                    tid,
                    db.methods@[i].receiver,
                ));
            } else {
                let kk = if head_in {
                    k - 1
                } else {
                    k
                };
                assert(l[k] == tail[kk]);
            }
        }
    }
}

/// Dot completion never lists a method whose receiver type is
/// incompatible with the inferred type of the expression before the dot:
/// every method item corresponds to a snapshot method whose defining type
/// is reachable from the inferred receiver type through the auto-deref
/// chain, and carries that method's detail and documentation
/// byte-for-byte.
pub proof fn lemma_dot_methods_compatible(db: &Snapshot, c: CtxView, tid: u32)
    requires
        c.receiver_text is Some,
        c.receiver_type == Option::Some(tid),
    ensures
        forall|k: int|
            0 <= k < dot_items_s(db, c).len() && (#[trigger] dot_items_s(db, c)[k]).kind
                == crate::item::CompletionItemKind::Method ==> exists|j: int|
                0 <= j < db.methods@.len() && dot_items_s(db, c)[k] == method_item_s(
                    c,
                    db.methods@[j],
                ) && owner_compatible_s(db, tid, db.methods@[j].receiver),
{
    lemma_dot_methods_sound(db, c, tid, true, 0);
    lemma_dot_methods_sound(db, c, tid, false, 0);
    let m1 = dot_method_items_from_s(db, c, tid, true, 0);
    let m2 = dot_method_items_from_s(db, c, tid, false, 0);
    let f = dot_field_items_from_s(db, c, tid, 0);
    lemma_dot_fields_kind(db, c, tid, 0);
    assert forall|k: int|
        0 <= k < dot_items_s(db, c).len() && (#[trigger] dot_items_s(db, c)[k]).kind
            == crate::item::CompletionItemKind::Method implies exists|j: int|
        0 <= j < db.methods@.len() && dot_items_s(db, c)[k] == method_item_s(c, db.methods@[j])
            && owner_compatible_s(db, tid, db.methods@[j].receiver) by {
        let l = dot_items_s(db, c);
        assert(l == m1 + m2 + f);
        if k < m1.len() {
            assert(l[k] == m1[k]);
        } else if k < m1.len() + m2.len() {
            assert(l[k] == m2[k - m1.len()]);
        } else {
            assert(l[k] == f[k - m1.len() - m2.len()]);
            assert(l[k].kind == crate::item::CompletionItemKind::Field);
        }
    }
}

/// Every entry of the dot field list is a field item.
proof fn lemma_dot_fields_kind(db: &Snapshot, c: CtxView, tid: u32, i: int)
    requires
        0 <= i <= db.fields@.len(),
    ensures
        forall|k: int|
            0 <= k < dot_field_items_from_s(db, c, tid, i).len() ==> (
            #[trigger] dot_field_items_from_s(db, c, tid, i)[k]).kind
                == crate::item::CompletionItemKind::Field,
    decreases db.fields@.len() - i,
{
    if i < db.fields@.len() {
        lemma_dot_fields_kind(db, c, tid, i + 1);
        let l = dot_field_items_from_s(db, c, tid, i);
        let tail = dot_field_items_from_s(db, c, tid, i + 1);
        let head_in = owner_compatible_s(db, tid, db.fields@[i].owner);
        assert forall|k: int| 0 <= k < l.len() implies (#[trigger] l[k]).kind
            == crate::item::CompletionItemKind::Field by {
            if !(head_in && k == 0) {
                let kk = if head_in {
                    k - 1
                } else {
                    k
                };
                assert(l[k] == tail[kk]);
            }
        }
    }
}

/// The middle part of a three-part concatenation reads back unchanged.
proof fn lemma_mid_subrange(a: Seq<u8>, b: Seq<u8>, c: Seq<u8>)
    ensures
        (a + b + c).subrange(a.len() as int, (a.len() + b.len()) as int) == b,
{
    assert((a + b + c).subrange(a.len() as int, (a.len() + b.len()) as int) =~= b);
}

/// Whether `needle` occurs unchanged as a contiguous run of `hay`.
pub open spec fn contains_run(hay: Seq<u8>, needle: Seq<u8>) -> bool {
    exists|off: int|
        0 <= off && off + needle.len() <= hay.len() && #[trigger] hay.subrange(
            off,
            off + needle.len() as int,
        ) == needle
}

/// Postfix round-trip: every postfix rewrite contains the receiver
/// expression unchanged, as a contiguous run of the produced insertion
/// text.
pub proof fn lemma_postfix_round_trip(c: CtxView, e: Seq<u8>)
    requires
        c.config.enable_postfix,
        c.receiver_text == Option::Some(e),
    ensures
        forall|k: int|
            0 <= k < postfix_items_s(c).len() ==> contains_run(
                (#[trigger] postfix_items_s(c)[k]).insert_text,
                e,
            ),
{
    let items = postfix_items_s(c);
    assert(items == postfix_items_for_s(c, e));
    let if_p = if c.receiver_is_wrapper {
        templates::tpl_if_let_s()
    } else {
        templates::tpl_if_sp_s()
    };
    let while_p = if c.receiver_is_wrapper {
        templates::tpl_while_let_s()
    } else {
        templates::tpl_while_sp_s()
    };
    assert forall|k: int| 0 <= k < items.len() implies contains_run(
        (#[trigger] items[k]).insert_text,
        e,
    ) by {
        if k == 0 {
            lemma_mid_subrange(if_p, e, templates::tpl_block_s());
            assert(items[0].insert_text.subrange(if_p.len() as int, (if_p.len() + e.len()) as int) == e);
        } else if k == 1 {
            lemma_mid_subrange(templates::tpl_match_sp_s(), e, templates::tpl_block_s());
            assert(items[1].insert_text.subrange(6, (6 + e.len()) as int) == e);
        } else if k == 2 {
            lemma_mid_subrange(while_p, e, templates::tpl_block_s());
            assert(items[2].insert_text.subrange(while_p.len() as int, (while_p.len() + e.len()) as int)
                == e);
        } else if k == 3 {
            lemma_mid_subrange(templates::tpl_amp_s(), e, Seq::empty());
            assert(items[3].insert_text.subrange(1, (1 + e.len()) as int) == e);
        } else if k == 4 {
            lemma_mid_subrange(templates::tpl_amp_mut_s(), e, Seq::empty());
            assert(items[4].insert_text.subrange(5, (5 + e.len()) as int) == e);
        } else if k == 5 {
            lemma_mid_subrange(templates::tpl_let_bind_s(), e, templates::tpl_semi_s());
            assert(items[5].insert_text.subrange(9, (9 + e.len()) as int) == e);
        } else if k == 6 {
            lemma_mid_subrange(templates::tpl_let_mut_bind_s(), e, templates::tpl_semi_s());
            assert(items[6].insert_text.subrange(13, (13 + e.len()) as int) == e);
        } else if k == 7 {
            lemma_mid_subrange(templates::tpl_bang_s(), e, Seq::empty());
            assert(items[7].insert_text.subrange(1, (1 + e.len()) as int) == e);
        } else if k == 8 {
            lemma_mid_subrange(templates::tpl_dbg_open_s(), e, templates::tpl_rparen_s());
            assert(items[8].insert_text.subrange(5, (5 + e.len()) as int) == e);
        } else if k == 9 {
            lemma_mid_subrange(templates::tpl_dbg_ref_open_s(), e, templates::tpl_rparen_s());
            assert(items[9].insert_text.subrange(6, (6 + e.len()) as int) == e);
        } else {
            lemma_mid_subrange(templates::tpl_lparen_s(), e, templates::tpl_rparen_s());
            assert(items[10].insert_text.subrange(1, (1 + e.len()) as int) == e);
        }
    }
}

} // verus!
