//! The completion context: an immutable, fully classified snapshot of one
//! cursor position.
//!
//! Construction uses speculative insertion: a placeholder identifier byte is
//! inserted exactly at the cursor offset, the text is re-tokenized, and the
//! cursor's syntactic slot is classified from the resulting (now
//! well-formed) token stream rather than from the original, possibly broken
//! one.  If the cursor lies inside a string literal or comment — the
//! placeholder is swallowed by that token — the position is unclassifiable
//! and construction signals that by returning nothing, which is a normal
//! outcome, not an error.
//!
//! The classification tag is mutually exclusive by construction (one
//! `if`-chain assigns it), and the context also records the binding-position
//! short-circuit (`no_completion_required`): a bare identifier in the
//! variable-binding slot of a `for` loop, or a function-name slot, must
//! never produce output.

use vstd::prelude::*;

use crate::config::CompletionConfig;
use crate::lexer::{Token, TokenKind, B_COLON, B_DOT, B_LBRACK, B_LPAREN};
use crate::patterns;
use crate::snapshot::{FilePosition, Snapshot};
use crate::words;

verus! {

/// The mutually exclusive syntactic slot the cursor occupies.
#[derive(Clone, Copy, PartialEq, Eq, Structural, Debug)]
pub enum Tag {
    /// An expression is expected (a value position).
    Expression,
    /// A pattern is expected (match arm, `let` binding, parameter).
    Pattern,
    /// An item is expected (top level, module or trait body).
    Item,
    /// Inside an attribute, `#[...]`.
    Attribute,
    /// Inside a `use` statement.
    UseTree,
    /// A field name inside a record literal.
    RecordField,
    /// A type is expected (after a single `:` ascription).
    Type,
    /// Directly inside a trait-implementation body.
    TraitImplBody,
    /// A module name after `mod`.
    ModulePath,
}

/// Mathematical value of a [`CompletionContext`].
pub struct CtxView {
    pub tag: Tag,
    pub no_completion: bool,
    pub replace_start: int,
    pub replace_end: int,
    pub span_start: int,
    pub span_end: int,
    pub receiver_text: Option<Seq<u8>>,
    pub receiver_start: int,
    pub receiver_type: Option<u32>,
    pub receiver_is_wrapper: bool,
    pub qualifier: Option<Seq<u8>>,
    pub record_type: Option<u32>,
    pub present_fields: Seq<Seq<u8>>,
    pub pattern_type: Option<u32>,
    pub fn_has_ret_value: bool,
    pub in_param_list: bool,
    pub config: CompletionConfig,
}

/// The immutable snapshot of one classified cursor position.  Built once
/// per request, read by every strategy, mutated by none.
pub struct CompletionContext {
    /// The classification tag.
    pub tag: Tag,
    /// The binding-position short circuit: no strategy may produce output.
    pub no_completion: bool,
    /// Start of the partial token already typed, in original-text offsets.
    pub replace_start: usize,
    /// End (exclusive) of the partial token, in original-text offsets.
    pub replace_end: usize,
    /// Start of the widest span any item may replace.
    pub span_start: usize,
    /// End (exclusive) of the widest span any item may replace.
    pub span_end: usize,
    /// Source text of the expression before the trigger `.`, if any.
    pub receiver_text: Option<Vec<u8>>,
    /// Start offset of that expression; meaningful only with a receiver.
    pub receiver_start: usize,
    /// Inferred type of the receiver, if the inference table resolves it.
    pub receiver_type: Option<u32>,
    /// Whether the receiver type is a known optional/result-like wrapper.
    pub receiver_is_wrapper: bool,
    /// Path segment before a `::` separator, if the cursor follows one.
    pub qualifier: Option<Vec<u8>>,
    /// Type of the record literal being filled in, if resolvable.
    pub record_type: Option<u32>,
    /// Field names already written out in the record literal.
    pub present_fields: Vec<Vec<u8>>,
    /// Type being matched, when the cursor sits in a match-arm pattern.
    pub pattern_type: Option<u32>,
    /// Whether the enclosing function declares a result type.
    pub fn_has_ret_value: bool,
    /// Whether the cursor sits in a function parameter list.
    pub in_param_list: bool,
    /// The per-request configuration.
    pub config: CompletionConfig,
}

impl View for CompletionContext {
    type V = CtxView;

    open spec fn view(&self) -> CtxView {
        CtxView {
            tag: self.tag,
            no_completion: self.no_completion,
            replace_start: self.replace_start as int,
            replace_end: self.replace_end as int,
            span_start: self.span_start as int,
            span_end: self.span_end as int,
            receiver_text: self.receiver_text.deep_view(),
            receiver_start: self.receiver_start as int,
            receiver_type: self.receiver_type,
            receiver_is_wrapper: self.receiver_is_wrapper,
            qualifier: self.qualifier.deep_view(),
            record_type: self.record_type,
            present_fields: self.present_fields.deep_view(),
            pattern_type: self.pattern_type,
            fn_has_ret_value: self.fn_has_ret_value,
            in_param_list: self.in_param_list,
            config: self.config,
        }
    }
}

impl CompletionContext {
    /// A context whose spans are well-formed: the replacement span lies
    /// inside the wider context span.
    pub open spec fn wf(&self) -> bool {
        &&& self.span_start <= self.replace_start <= self.replace_end
        &&& self.replace_end as int == self.span_end as int
        &&& self@.receiver_text is Some ==> self.receiver_start == self.span_start
    }

    /// Whether the classified slot is a binding position at which no
    /// completion applies; the entry point checks this once before any
    /// strategy runs.
    pub fn no_completion_required(&self) -> (r: bool)
        ensures
            r == self@.no_completion,
    {
        self.no_completion
    }
}

/// Index of the token containing text offset `off`, scanning from `k`;
/// `toks.len()` if none reaches past `off`.
pub open spec fn cursor_tok_s(toks: Seq<Token>, off: int, k: int) -> int
    decreases toks.len() - k,
    when 0 <= k <= toks.len()
{
    if k >= toks.len() {
        toks.len() as int
    } else if off < toks[k].end {
        k
    } else {
        cursor_tok_s(toks, off, k + 1)
    }
}

/// Index of the token containing text offset `off`, scanning from `k`.
pub fn cursor_tok(toks: &Vec<Token>, off: usize, k: usize) -> (r: usize)
    requires
        k <= toks@.len(),
    ensures
        r as int == cursor_tok_s(toks@, off as int, k as int),
        r <= toks@.len(),
    decreases toks@.len() - k,
{
    if k >= toks.len() {
        toks.len()
    } else if off < toks[k].end {
        k
    } else {
        cursor_tok(toks, off, k + 1)
    }
}

/// The classification of the cursor word at token index `cur` of the
/// speculative text `mt`, with every semantic fact already resolved
/// against the snapshot.
pub open spec fn classify_at_s(
    db: &Snapshot,
    config: CompletionConfig,
    mt: Seq<u8>,
    toks: Seq<Token>,
    cur: int,
) -> CtxView
    recommends
        0 <= cur < toks.len(),
{
    let rs = toks[cur].start as int;
    let re = toks[cur].end as int - 1;
    let p1 = patterns::prev_nt_s(toks, cur);
    let p2 = if p1 < 0 {
        -1
    } else {
        patterns::prev_nt_s(toks, p1)
    };
    let for_prev2 = p2 >= 0 && patterns::word_is_s(mt, toks[p2], words::w_for_s());
    let fn_prev = p1 >= 0 && patterns::word_is_s(mt, toks[p1], words::w_fn_s());
    let nc = for_prev2 || fn_prev;
    let arrow = patterns::enclosing_fn_arrow_s(mt, toks, cur - 1);
    let is_dot = p1 >= 0 && patterns::punct_is_s(mt, toks[p1], B_DOT);
    let recv_last = if is_dot {
        patterns::prev_nt_s(toks, p1)
    } else {
        -1
    };
    let recv_ok = is_dot && recv_last >= 0 && (toks[recv_last].kind == TokenKind::Word
        || patterns::is_closer_s(mt, toks[recv_last]));
    let cs = if recv_ok {
        patterns::chain_start_s(mt, toks, recv_last, 0)
    } else {
        0
    };
    if recv_ok && cs <= recv_last {
        let rstart = toks[cs].start as int;
        let rend = toks[recv_last].end as int;
        let rtext = mt.subrange(rstart, rend);
        let rtype = crate::snapshot::lookup_expr_type_s(db.expr_types@, 0, rtext);
        CtxView {
            tag: Tag::Expression,
            no_completion: nc,
            replace_start: rs,
            replace_end: re,
            span_start: rstart,
            span_end: re,
            receiver_text: Option::Some(rtext),
            receiver_start: rstart,
            receiver_type: rtype,
            receiver_is_wrapper: (match rtype {
                Option::Some(tid) => db.wrapper_types@.contains(tid),
                Option::None => false,
            }),
            qualifier: Option::None,
            record_type: Option::None,
            present_fields: Seq::empty(),
            pattern_type: Option::None,
            fn_has_ret_value: arrow,
            in_param_list: false,
            config,
        }
    } else {
        let qual_sep = p1 >= 1 && patterns::punct_is_s(mt, toks[p1], B_COLON)
            && patterns::punct_is_s(mt, toks[p1 - 1], B_COLON);
        let q = if qual_sep {
            patterns::prev_nt_s(toks, p1 - 1)
        } else {
            -1
        };
        let qual = if qual_sep && q >= 0 && toks[q].kind == TokenKind::Word {
            Option::Some(patterns::tok_bytes_s(mt, toks[q]))
        } else {
            Option::None
        };
        let attr = patterns::in_attr_s(mt, toks, cur - 1);
        let st = patterns::stmt_start_s(mt, toks, cur - 1, 0);
        let first = patterns::next_nt_s(toks, st);
        let use_stmt = first < cur && patterns::word_is_s(mt, toks[first], words::w_use_s());
        let mod_stmt = first < cur && patterns::word_is_s(mt, toks[first], words::w_mod_s());
        let single_colon = p1 >= 0 && patterns::punct_is_s(mt, toks[p1], B_COLON) && !(p1 >= 1
            && patterns::punct_is_s(mt, toks[p1 - 1], B_COLON));
        let let_prev = p1 >= 0 && patterns::word_is_s(mt, toks[p1], words::w_let_s());
        let op = patterns::opener_s(mt, toks, cur - 1, 0);
        let hf = if op >= 0 {
            patterns::header_scan_s(mt, toks, op - 1, 0)
        } else {
            patterns::empty_flags_s()
        };
        let in_param = op >= 0 && patterns::punct_is_s(mt, toks[op], B_LPAREN) && hf.has_fn;
        let pb = if op >= 0 {
            patterns::prev_nt_s(toks, op)
        } else {
            -1
        };
        let path_word = op >= 0 && pb >= 0 && toks[pb].kind == TokenKind::Word;
        let tag = if attr {
            Tag::Attribute
        } else if use_stmt {
            Tag::UseTree
        } else if mod_stmt {
            Tag::ModulePath
        } else if single_colon {
            Tag::Type
        } else if let_prev {
            Tag::Pattern
        } else if in_param {
            Tag::Pattern
        } else if op < 0 {
            Tag::Item
        } else if patterns::punct_is_s(mt, toks[op], B_LPAREN) || patterns::punct_is_s(
            mt,
            toks[op],
            B_LBRACK,
        ) {
            Tag::Expression
        } else if hf.has_impl {
            Tag::TraitImplBody
        } else if hf.has_match {
            Tag::Pattern
        } else if hf.has_fn {
            Tag::Expression
        } else if hf.has_item_kw {
            Tag::Item
        } else if hf.has_ctrl {
            Tag::Expression
        } else if path_word {
            Tag::RecordField
        } else {
            Tag::Expression
        };
        let record_type = if tag == Tag::RecordField {
            crate::snapshot::lookup_type_name_s(db.type_names@, 0, patterns::tok_bytes_s(mt, toks[pb]))
        } else {
            Option::None
        };
        let present = if tag == Tag::RecordField {
            patterns::fields_s(mt, toks, op + 1, cur, 0)
        } else {
            Seq::empty()
        };
        let pattern_type = if tag == Tag::Pattern && op >= 0 && hf.has_match && path_word {
            crate::snapshot::lookup_expr_type_s(db.expr_types@, 0, patterns::tok_bytes_s(mt, toks[pb]))
        } else {
            Option::None
        };
        CtxView {
            tag: tag,
            no_completion: nc,
            replace_start: rs,
            replace_end: re,
            span_start: rs,
            span_end: re,
            receiver_text: Option::None,
            receiver_start: rs,
            receiver_type: Option::None,
            receiver_is_wrapper: false,
            qualifier: qual,
            record_type: record_type,
            present_fields: present,
            pattern_type: pattern_type,
            fn_has_ret_value: arrow,
            in_param_list: in_param,
            config,
        }
    }
}

/// Classification of offset `off` in original text `t0`: the speculative
/// text is built, tokenized, and the cursor token classified; `None` when
/// the cursor does not sit in a word of the speculative text (string or
/// comment interior).
pub open spec fn classify_s(
    db: &Snapshot,
    config: CompletionConfig,
    t0: Seq<u8>,
    off: int,
) -> Option<CtxView>
    recommends
        0 <= off <= t0.len(),
{
    let mt = crate::lexer::inserted_s(t0, off);
    let toks = crate::lexer::lex_s(mt);
    let cur = cursor_tok_s(toks, off, 0);
    if cur >= toks.len() {
        Option::None
    } else if toks[cur].kind != TokenKind::Word {
        Option::None
    } else {
        Option::Some(classify_at_s(db, config, mt, toks, cur))
    }
}

/// The full context-construction contract: `None` for a file unknown to the
/// snapshot, an offset outside the file, or an unclassifiable position;
/// otherwise exactly the classification of the position.
pub open spec fn build_s(db: &Snapshot, config: CompletionConfig, pos: FilePosition) -> Option<
    CtxView,
> {
    if pos.file_id >= db.files@.len() {
        Option::None
    } else if pos.offset > db.files@[pos.file_id as int]@.len() {
        Option::None
    } else {
        classify_s(db, config, db.files@[pos.file_id as int]@, pos.offset as int)
    }
}

/// Builds the completion context for `pos`, or nothing when the position
/// cannot be classified (unknown file, offset out of range, or a string or
/// comment interior).  This is the speculative-insertion algorithm: the
/// classification is read off the re-tokenized text with the placeholder
/// inserted, so every downstream strategy observes a well-formed slot.
#[verifier::rlimit(100)]
pub fn build(db: &Snapshot, config: &CompletionConfig, pos: FilePosition) -> (r: Option<
    CompletionContext,
>)
    ensures
        match r {
            Option::None => build_s(db, *config, pos) == Option::<CtxView>::None,
            Option::Some(c) => build_s(db, *config, pos) == Option::Some(c@) && c.wf(),
        },
{
    if pos.file_id >= db.files.len() {
        return Option::None;
    }
    let t0 = &db.files[pos.file_id];
    if pos.offset > t0.len() {
        return Option::None;
    }
    let mt = crate::lexer::insert_placeholder(t0, pos.offset);
    // Reading the length pins the text size into machine range for the
    // token-stream lemmas below.
    let _mtn: usize = mt.len();
    let toks = crate::lexer::tokenize(&mt);
    proof {
        patterns::lemma_lex_wf(mt@, 0);
        patterns::lemma_lex_ordered(mt@, 0);
    }
    let cur = cursor_tok(&toks, pos.offset, 0);
    if cur >= toks.len() {
        return Option::None;
    }
    let cur_tok = toks[cur];
    if !matches!(cur_tok.kind, TokenKind::Word) {
        return Option::None;
    }
    let ghost gcur: int = cur as int;
    let rs = cur_tok.start;
    let re = cur_tok.end - 1;
    let p1 = patterns::prev_nt(&toks, cur);
    let p2 = match p1 {
        Option::Some(i) => patterns::prev_nt(&toks, i),
        Option::None => Option::None,
    };
    let for_prev2 = match p2 {
        Option::Some(i) => patterns::word_is(&mt, toks[i], &words::w_for()),
        Option::None => false,
    };
    let fn_prev = match p1 {
        Option::Some(i) => patterns::word_is(&mt, toks[i], &words::w_fn()),
        Option::None => false,
    };
    let nc = for_prev2 || fn_prev;
    let arrow = patterns::enclosing_fn_arrow(&mt, &toks, cur);
    let is_dot_at = match p1 {
        Option::Some(i) => if patterns::punct_is(&mt, toks[i], B_DOT) {
            Option::Some(i)
        } else {
            Option::None
        },
        Option::None => Option::None,
    };
    let recv_last = match is_dot_at {
        Option::Some(i) => patterns::prev_nt(&toks, i),
        Option::None => Option::None,
    };
    let recv_ok_at = match recv_last {
        Option::Some(i) => if matches!(toks[i].kind, TokenKind::Word) || patterns::is_closer(
            &mt,
            toks[i],
        ) {
            Option::Some(i)
        } else {
            Option::None
        },
        Option::None => Option::None,
    };
    if let Option::Some(rl) = recv_ok_at {
        let cs = patterns::chain_start(&mt, &toks, rl + 1, 0);
        if cs <= rl {
            let rstart = toks[cs].start;
            let rend = toks[rl].end;
            proof {
                if (cs as int) < rl as int {
                    assert(toks@[cs as int].end <= toks@[rl as int].start);
                }
                assert(rl < cur);
                assert(toks@[rl as int].end <= toks@[gcur].start);
                if (cs as int) < gcur {
                    assert(toks@[cs as int].end <= toks@[gcur].start);
                }
            }
            let rtext = crate::bytes::slice_bytes(&mt, rstart, rend);
            let rtype = crate::snapshot::lookup_expr_type(&db.expr_types, 0, &rtext);
            let wrapper = match rtype {
                Option::Some(tid) => crate::snapshot::is_wrapper_type(&db.wrapper_types, tid),
                Option::None => false,
            };
            let ctx = CompletionContext {
                tag: Tag::Expression,
                no_completion: nc,
                replace_start: rs,
                replace_end: re,
                span_start: rstart,
                span_end: re,
                receiver_text: Option::Some(rtext),
                receiver_start: rstart,
                receiver_type: rtype,
                receiver_is_wrapper: wrapper,
                qualifier: Option::None,
                record_type: Option::None,
                present_fields: Vec::new(),
                pattern_type: Option::None,
                fn_has_ret_value: arrow,
                in_param_list: false,
                config: *config,
            };
            proof {
                let cv = classify_at_s(db, *config, mt@, toks@, gcur);
                assert(ctx.present_fields.deep_view() =~= Seq::<Seq<u8>>::empty());
                assert(ctx@.tag == cv.tag);
                assert(ctx@.no_completion == cv.no_completion);
                assert(ctx@.replace_start == cv.replace_start);
                assert(ctx@.replace_end == cv.replace_end);
                assert(ctx@.span_start == cv.span_start);
                assert(ctx@.span_end == cv.span_end);
                assert(ctx@.receiver_text == cv.receiver_text);
                assert(ctx@.receiver_start == cv.receiver_start);
                assert(ctx@.receiver_type == cv.receiver_type);
                assert(ctx@.receiver_is_wrapper == cv.receiver_is_wrapper);
                assert(ctx@.qualifier == cv.qualifier);
                assert(ctx@.record_type == cv.record_type);
                assert(ctx@.present_fields == cv.present_fields);
                assert(ctx@.pattern_type == cv.pattern_type);
                assert(ctx@.fn_has_ret_value == cv.fn_has_ret_value);
                assert(ctx@.in_param_list == cv.in_param_list);
                assert(ctx@.config == cv.config);
                assert(ctx@ == cv);
                assert(rstart <= rs);
            }
            return Option::Some(ctx);
        }
        // A receiver chain that vanished is classified like any non-dot slot.
        let ctx = build_non_dot(db, config, &mt, &toks, cur, nc, arrow, rs, re);
        proof {
            assert(ctx@ == classify_at_s(db, *config, mt@, toks@, gcur));
        }
        return Option::Some(ctx);
    }
    let ctx = build_non_dot(db, config, &mt, &toks, cur, nc, arrow, rs, re);
    proof {
        assert(ctx@ == classify_at_s(db, *config, mt@, toks@, gcur));
    }
    Option::Some(ctx)
}

/// The non-dot half of the classification `if`-chain; factored out so both
/// exits of [`build`] share it.
#[verifier::rlimit(100)]
fn build_non_dot(
    db: &Snapshot,
    config: &CompletionConfig,
    mt: &Vec<u8>,
    toks: &Vec<Token>,
    cur: usize,
    nc: bool,
    arrow: bool,
    rs: usize,
    re: usize,
) -> (ctx: CompletionContext)
    requires
        patterns::wf_toks(mt@, toks@),
        cur < toks@.len(),
        toks@[cur as int].kind == TokenKind::Word,
        ({
            let c = classify_at_s(db, *config, mt@, toks@, cur as int);
            c.receiver_text is None && nc == c.no_completion && arrow == c.fn_has_ret_value
                && rs as int == c.replace_start && re as int == c.replace_end && rs <= re
        }),
    ensures
        ctx@ == classify_at_s(db, *config, mt@, toks@, cur as int),
        ctx.wf(),
{
    let p1 = patterns::prev_nt(toks, cur);
    let qual_sep = match p1 {
        Option::Some(i) => i >= 1 && patterns::punct_is(mt, toks[i], B_COLON) && patterns::punct_is(
            mt,
            toks[i - 1],
            B_COLON,
        ),
        Option::None => false,
    };
    let q = if qual_sep {
        match p1 {
            Option::Some(i) => patterns::prev_nt(toks, i - 1),
            Option::None => Option::None,
        }
    } else {
        Option::None
    };
    let qual: Option<Vec<u8>> = match q {
        Option::Some(qi) => if matches!(toks[qi].kind, TokenKind::Word) {
            Option::Some(crate::bytes::slice_bytes(mt, toks[qi].start, toks[qi].end))
        } else {
            Option::None
        },
        Option::None => Option::None,
    };
    let attr = patterns::in_attr(mt, toks, cur);
    let st = patterns::stmt_start(mt, toks, cur, 0);
    let first = patterns::next_nt(toks, st);
    let use_stmt = match first {
        Option::Some(f) => f < cur && patterns::word_is(mt, toks[f], &words::w_use()),
        Option::None => false,
    };
    let mod_stmt = match first {
        Option::Some(f) => f < cur && patterns::word_is(mt, toks[f], &words::w_mod()),
        Option::None => false,
    };
    let single_colon = match p1 {
        Option::Some(i) => patterns::punct_is(mt, toks[i], B_COLON) && !(i >= 1 && patterns::punct_is(
            mt,
            toks[i - 1],
            B_COLON,
        )),
        Option::None => false,
    };
    let let_prev = match p1 {
        Option::Some(i) => patterns::word_is(mt, toks[i], &words::w_let()),
        Option::None => false,
    };
    let op = patterns::opener(mt, toks, cur, 0);
    let hf = match op {
        Option::Some(o) => patterns::header_scan(mt, toks, o, 0),
        Option::None => patterns::empty_flags(),
    };
    let in_param = match op {
        Option::Some(o) => patterns::punct_is(mt, toks[o], B_LPAREN) && hf.has_fn,
        Option::None => false,
    };
    let pb = match op {
        Option::Some(o) => patterns::prev_nt(toks, o),
        Option::None => Option::None,
    };
    let path_word = match pb {
        Option::Some(b) => matches!(toks[b].kind, TokenKind::Word),
        Option::None => false,
    };
    let op_paren_or_brack = match op {
        Option::Some(o) => patterns::punct_is(mt, toks[o], B_LPAREN) || patterns::punct_is(
            mt,
            toks[o],
            B_LBRACK,
        ),
        Option::None => false,
    };
    let tag = if attr {
        Tag::Attribute
    } else if use_stmt {
        Tag::UseTree
    } else if mod_stmt {
        Tag::ModulePath
    } else if single_colon {
        Tag::Type
    } else if let_prev {
        Tag::Pattern
    } else if in_param {
        Tag::Pattern
    } else if matches!(op, Option::None) {
        Tag::Item
    } else if op_paren_or_brack {
        Tag::Expression
    } else if hf.has_impl {
        Tag::TraitImplBody
    } else if hf.has_match {
        Tag::Pattern
    } else if hf.has_fn {
        Tag::Expression
    } else if hf.has_item_kw {
        Tag::Item
    } else if hf.has_ctrl {
        Tag::Expression
    } else if path_word {
        Tag::RecordField
    } else {
        Tag::Expression
    };
    let is_record = matches!(tag, Tag::RecordField);
    let record_type = if is_record {
        match pb {
            Option::Some(b) => {
                let name = crate::bytes::slice_bytes(mt, toks[b].start, toks[b].end);
                crate::snapshot::lookup_type_name(&db.type_names, 0, &name)
            },
            Option::None => Option::None,
        }
    } else {
        Option::None
    };
    let present: Vec<Vec<u8>> = if is_record {
        match op {
            Option::Some(o) => patterns::fields_scan(mt, toks, o + 1, cur, 0),
            Option::None => Vec::new(),
        }
    } else {
        Vec::new()
    };
    let is_match_pattern = matches!(tag, Tag::Pattern) && hf.has_match && path_word && matches!(
        op,
        Option::Some(_),
    );
    let pattern_type = if is_match_pattern {
        match pb {
            Option::Some(b) => {
                let name = crate::bytes::slice_bytes(mt, toks[b].start, toks[b].end);
                crate::snapshot::lookup_expr_type(&db.expr_types, 0, &name)
            },
            Option::None => Option::None,
        }
    } else {
        Option::None
    };
    let ctx = CompletionContext {
        tag,
        no_completion: nc,
        replace_start: rs,
        replace_end: re,
        span_start: rs,
        span_end: re,
        receiver_text: Option::None,
        receiver_start: rs,
        receiver_type: Option::None,
        receiver_is_wrapper: false,
        qualifier: qual,
        record_type,
        present_fields: present,
        pattern_type,
        fn_has_ret_value: arrow,
        in_param_list: in_param,
        config: *config,
    };
    proof {
        let cv = classify_at_s(db, *config, mt@, toks@, cur as int);
        if !is_record {
            assert(ctx.present_fields.deep_view() =~= Seq::<Seq<u8>>::empty());
        }
        assert(ctx@.tag == cv.tag);
        assert(ctx@.no_completion == cv.no_completion);
        assert(ctx@.replace_start == cv.replace_start);
        assert(ctx@.replace_end == cv.replace_end);
        assert(ctx@.span_start == cv.span_start);
        assert(ctx@.span_end == cv.span_end);
        assert(ctx@.receiver_text == cv.receiver_text);
        assert(ctx@.receiver_start == cv.receiver_start);
        assert(ctx@.receiver_type == cv.receiver_type);
        assert(ctx@.receiver_is_wrapper == cv.receiver_is_wrapper);
        assert(ctx@.qualifier == cv.qualifier);
        assert(ctx@.record_type == cv.record_type);
        assert(ctx@.present_fields == cv.present_fields);
        assert(ctx@.pattern_type == cv.pattern_type);
        assert(ctx@.fn_has_ret_value == cv.fn_has_ret_value);
        assert(ctx@.in_param_list == cv.in_param_list);
        assert(ctx@.config == cv.config);
        assert(ctx@ == cv);
    }
    ctx
}

} // verus!
