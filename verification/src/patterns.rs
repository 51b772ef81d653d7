//! Stateless pattern matchers over the token stream.
//!
//! Each matcher is a pure backward or forward scan over the tokens of the
//! speculative text, with an exact recursive specification mirrored by a
//! recursive executable function.  The context builder combines these facts
//! into the classification tag.

use vstd::prelude::*;

use crate::lexer::{
    Token, TokenKind, B_COLON, B_DOT, B_GT, B_LBRACE, B_LBRACK, B_LPAREN, B_MINUS, B_POUND,
    B_RBRACE, B_RBRACK, B_RPAREN, B_SEMI,
};

verus! {

/// Whether a token is trivia (whitespace or a comment).
pub open spec fn is_trivia_s(tok: Token) -> bool {
    tok.kind == TokenKind::Ws || tok.kind == TokenKind::Comment
}

/// Tokens whose ranges all lie inside the text: the shape [`crate::lexer::tokenize`]
/// guarantees, and all scans below rely on.
pub open spec fn wf_toks(t: Seq<u8>, toks: Seq<Token>) -> bool {
    &&& t.len() <= usize::MAX
    &&& forall|k: int|
        0 <= k < toks.len() ==> (#[trigger] toks[k]).start < toks[k].end && toks[k].end <= t.len()
}

/// Every token of the lexer's stream from `i` on lies inside the text.
pub proof fn lemma_lex_wf(t: Seq<u8>, i: int)
    requires
        0 <= i <= t.len(),
        t.len() <= usize::MAX,
    ensures
        wf_toks(t, crate::lexer::lex_from_s(t, i)),
    decreases t.len() - i,
{
    if i < t.len() {
        crate::lexer::lemma_token_end(t, i);
        lemma_lex_wf(t, crate::lexer::token_end_s(t, i));
        assert(wf_toks(t, crate::lexer::lex_from_s(t, i))) by {
            let toks = crate::lexer::lex_from_s(t, i);
            let rest = crate::lexer::lex_from_s(t, crate::lexer::token_end_s(t, i));
            assert forall|k: int| 0 <= k < toks.len() implies (#[trigger] toks[k]).start
                < toks[k].end && toks[k].end <= t.len() by {
                if k > 0 {
                    assert(toks[k] == rest[k - 1]);
                }
            }
        }
    }
}

/// Whether `tok` is the punctuation byte `b`.
pub open spec fn punct_is_s(t: Seq<u8>, tok: Token, b: u8) -> bool {
    tok.kind == TokenKind::Punct && tok.start < t.len() && t[tok.start as int] == b
}

/// Whether `tok` is the punctuation byte `b`.
pub fn punct_is(t: &Vec<u8>, tok: Token, b: u8) -> (r: bool)
    requires
        tok.start < t@.len() || tok.kind != TokenKind::Punct,
    ensures
        r == punct_is_s(t@, tok, b),
{
    match tok.kind {
        TokenKind::Punct => t[tok.start] == b,
        _ => false,
    }
}

/// Whether `tok` is an opening delimiter `(`, `[` or `{`.
pub open spec fn is_opener_s(t: Seq<u8>, tok: Token) -> bool {
    punct_is_s(t, tok, B_LPAREN) || punct_is_s(t, tok, B_LBRACK) || punct_is_s(t, tok, B_LBRACE)
}

/// Whether `tok` is a closing delimiter `)`, `]` or `}`.
pub open spec fn is_closer_s(t: Seq<u8>, tok: Token) -> bool {
    punct_is_s(t, tok, B_RPAREN) || punct_is_s(t, tok, B_RBRACK) || punct_is_s(t, tok, B_RBRACE)
}

/// Whether `tok` is an opening delimiter.
pub fn is_opener(t: &Vec<u8>, tok: Token) -> (r: bool)
    requires
        tok.start < t@.len() || tok.kind != TokenKind::Punct,
    ensures
        r == is_opener_s(t@, tok),
{
    punct_is(t, tok, B_LPAREN) || punct_is(t, tok, B_LBRACK) || punct_is(t, tok, B_LBRACE)
}

/// Whether `tok` is a closing delimiter.
pub fn is_closer(t: &Vec<u8>, tok: Token) -> (r: bool)
    requires
        tok.start < t@.len() || tok.kind != TokenKind::Punct,
    ensures
        r == is_closer_s(t@, tok),
{
    punct_is(t, tok, B_RPAREN) || punct_is(t, tok, B_RBRACK) || punct_is(t, tok, B_RBRACE)
}

/// The bytes of one token.
pub open spec fn tok_bytes_s(t: Seq<u8>, tok: Token) -> Seq<u8> {
    t.subrange(tok.start as int, tok.end as int)
}

/// Whether `tok` is a word token holding exactly the bytes `w`.
pub open spec fn word_is_s(t: Seq<u8>, tok: Token, w: Seq<u8>) -> bool {
    tok.kind == TokenKind::Word && tok_bytes_s(t, tok) == w
}

/// Whether `tok` is a word token holding exactly the bytes of `w`.
pub fn word_is(t: &Vec<u8>, tok: Token, w: &Vec<u8>) -> (r: bool)
    requires
        tok.kind != TokenKind::Word || (tok.start <= tok.end && tok.end <= t@.len()),
    ensures
        r == word_is_s(t@, tok, w@),
{
    match tok.kind {
        TokenKind::Word => {
            let b = crate::bytes::slice_bytes(t, tok.start, tok.end);
            crate::bytes::bytes_eq(&b, w)
        },
        _ => false,
    }
}

/// Index of the nearest non-trivia token strictly before `k`, or `-1`.
pub open spec fn prev_nt_s(toks: Seq<Token>, k: int) -> int
    decreases k,
    when 0 <= k <= toks.len()
{
    if k <= 0 {
        -1
    } else if is_trivia_s(toks[k - 1]) {
        prev_nt_s(toks, k - 1)
    } else {
        k - 1
    }
}

/// The nearest non-trivia token strictly before `k`, together with its index.
pub fn prev_nt(toks: &Vec<Token>, k: usize) -> (r: Option<usize>)
    requires
        k <= toks@.len(),
    ensures
        match r {
            Option::None => prev_nt_s(toks@, k as int) == -1,
            Option::Some(i) => i as int == prev_nt_s(toks@, k as int) && i < k,
        },
    decreases k,
{
    if k == 0 {
        Option::None
    } else if matches!(toks[k - 1].kind, TokenKind::Ws | TokenKind::Comment) {
        prev_nt(toks, k - 1)
    } else {
        Option::Some(k - 1)
    }
}

/// Index of the nearest non-trivia token at or after `k`, or `toks.len()`.
pub open spec fn next_nt_s(toks: Seq<Token>, k: int) -> int
    decreases toks.len() - k,
    when 0 <= k <= toks.len()
{
    if k >= toks.len() {
        toks.len() as int
    } else if is_trivia_s(toks[k]) {
        next_nt_s(toks, k + 1)
    } else {
        k
    }
}

/// The nearest non-trivia token at or after `k`, or `None` at the end.
pub fn next_nt(toks: &Vec<Token>, k: usize) -> (r: Option<usize>)
    requires
        k <= toks@.len(),
    ensures
        match r {
            Option::None => next_nt_s(toks@, k as int) == toks@.len(),
            Option::Some(i) => i as int == next_nt_s(toks@, k as int) && k <= i < toks@.len(),
        },
    decreases toks@.len() - k,
{
    if k >= toks.len() {
        Option::None
    } else if matches!(toks[k].kind, TokenKind::Ws | TokenKind::Comment) {
        next_nt(toks, k + 1)
    } else {
        Option::Some(k)
    }
}

/// Index of the nearest unclosed opening delimiter scanning backward from
/// `j` (inclusive) with `depth` pending closers, or `-1`.
pub open spec fn opener_s(t: Seq<u8>, toks: Seq<Token>, j: int, depth: int) -> int
    decreases j + 1,
    when -1 <= j < toks.len()
{
    if j < 0 {
        -1
    } else if is_closer_s(t, toks[j]) {
        opener_s(t, toks, j - 1, depth + 1)
    } else if is_opener_s(t, toks[j]) {
        if depth == 0 {
            j
        } else {
            opener_s(t, toks, j - 1, depth - 1)
        }
    } else {
        opener_s(t, toks, j - 1, depth)
    }
}

/// The result of `opener_s` never exceeds its argument.
pub proof fn lemma_opener_bound(t: Seq<u8>, toks: Seq<Token>, j: int, depth: int)
    requires
        -1 <= j < toks.len(),
    ensures
        -1 <= opener_s(t, toks, j, depth) <= j,
    decreases j + 1,
{
    if j >= 0 {
        if is_closer_s(t, toks[j]) {
            lemma_opener_bound(t, toks, j - 1, depth + 1);
        } else if is_opener_s(t, toks[j]) {
            if depth != 0 {
                lemma_opener_bound(t, toks, j - 1, depth - 1);
            }
        } else {
            lemma_opener_bound(t, toks, j - 1, depth);
        }
    }
}

/// The nearest unclosed opening delimiter scanning backward from `j`
/// (exclusive upper bound: pass the index one past the scan start).
pub fn opener(t: &Vec<u8>, toks: &Vec<Token>, jp: usize, depth: usize) -> (r: Option<usize>)
    requires
        wf_toks(t@, toks@),
        jp <= toks@.len(),
    ensures
        match r {
            Option::None => opener_s(t@, toks@, jp as int - 1, depth as int) == -1,
            Option::Some(i) => i as int == opener_s(t@, toks@, jp as int - 1, depth as int) && i
                < jp,
        },
    decreases jp,
{
    if jp == 0 {
        Option::None
    } else {
        let j = jp - 1;
        let tok = toks[j];
        if is_closer(t, tok) {
            if depth < usize::MAX {
                opener(t, toks, j, depth + 1)
            } else {
                // Unreachable in practice: depth is bounded by the token count.
                proof {
                    lemma_depth_bound_unreachable(t@, toks@, j as int - 1, depth as int);
                }
                Option::None
            }
        } else if is_opener(t, tok) {
            if depth == 0 {
                Option::Some(j)
            } else {
                opener(t, toks, j, depth - 1)
            }
        } else {
            opener(t, toks, j, depth)
        }
    }
}

/// Helper fact for the unreachable overflow arm of [`opener`]: a depth of
/// `usize::MAX` cannot arise from fewer than `usize::MAX` tokens, so the arm
/// is never taken on well-formed input; the scan result there is pinned to
/// `-1` only because the remaining token count is below the depth.
proof fn lemma_depth_bound_unreachable(t: Seq<u8>, toks: Seq<Token>, j: int, depth: int)
    requires
        -1 <= j < toks.len(),
        depth >= j + 1,
    ensures
        opener_s(t, toks, j, depth + 1) == -1,
    decreases j + 1,
{
    if j >= 0 {
        if is_closer_s(t, toks[j]) {
            lemma_depth_bound_unreachable(t, toks, j - 1, depth + 1);
        } else if is_opener_s(t, toks[j]) {
            lemma_depth_bound_unreachable(t, toks, j - 1, depth - 1);
        } else {
            lemma_depth_bound_unreachable(t, toks, j - 1, depth);
        }
    }
}

/// Syntactic facts gathered from the header before an unclosed delimiter:
/// which keywords occur in it, and whether a `->` return arrow occurs.
#[derive(Clone, Copy, PartialEq, Eq, Structural, Debug)]
pub struct HeaderFlags {
    /// `impl` occurs: the delimited body is a trait-implementation body.
    pub has_impl: bool,
    /// `match` occurs: the delimited body holds match arms (pattern slots).
    pub has_match: bool,
    /// `fn` occurs: the delimited region is a function body or parameter list.
    pub has_fn: bool,
    /// `mod`, `trait`, `struct` or `enum` occurs: the body holds items.
    pub has_item_kw: bool,
    /// A control keyword (`if`, `while`, `else`, `loop`, `for`) occurs.
    pub has_ctrl: bool,
    /// A `->` return arrow occurs.
    pub has_arrow: bool,
}

/// The header with no facts in it.
pub open spec fn empty_flags_s() -> HeaderFlags {
    HeaderFlags {
        has_impl: false,
        has_match: false,
        has_fn: false,
        has_item_kw: false,
        has_ctrl: false,
        has_arrow: false,
    }
}

/// `f` extended with the facts a single header word contributes.
pub open spec fn word_flags_s(t: Seq<u8>, tok: Token, f: HeaderFlags) -> HeaderFlags {
    HeaderFlags {
        has_impl: f.has_impl || word_is_s(t, tok, crate::words::w_impl_s()),
        has_match: f.has_match || word_is_s(t, tok, crate::words::w_match_s()),
        has_fn: f.has_fn || word_is_s(t, tok, crate::words::w_fn_s()),
        has_item_kw: f.has_item_kw || word_is_s(t, tok, crate::words::w_mod_s()) || word_is_s(
            t,
            tok,
            crate::words::w_trait_s(),
        ) || word_is_s(t, tok, crate::words::w_struct_s()) || word_is_s(
            t,
            tok,
            crate::words::w_enum_s(),
        ),
        has_ctrl: f.has_ctrl || word_is_s(t, tok, crate::words::w_if_s()) || word_is_s(
            t,
            tok,
            crate::words::w_while_s(),
        ) || word_is_s(t, tok, crate::words::w_else_s()) || word_is_s(
            t,
            tok,
            crate::words::w_loop_s(),
        ) || word_is_s(t, tok, crate::words::w_for_s()),
        has_arrow: f.has_arrow,
    }
}

/// Facts of the header read backward from token `j`: stops at a `{`, `}`,
/// or at an unmatched `(`/`[`, or at a `;` outside parentheses.
pub open spec fn header_scan_s(t: Seq<u8>, toks: Seq<Token>, j: int, depth: int) -> HeaderFlags
    decreases j + 1,
    when -1 <= j < toks.len()
{
    if j < 0 {
        empty_flags_s()
    } else if punct_is_s(t, toks[j], B_RPAREN) || punct_is_s(t, toks[j], B_RBRACK) {
        header_scan_s(t, toks, j - 1, depth + 1)
    } else if punct_is_s(t, toks[j], B_LPAREN) || punct_is_s(t, toks[j], B_LBRACK) {
        if depth == 0 {
            empty_flags_s()
        } else {
            header_scan_s(t, toks, j - 1, depth - 1)
        }
    } else if punct_is_s(t, toks[j], B_LBRACE) || punct_is_s(t, toks[j], B_RBRACE) {
        empty_flags_s()
    } else if depth == 0 && punct_is_s(t, toks[j], B_SEMI) {
        empty_flags_s()
    } else if depth == 0 && toks[j].kind == TokenKind::Word {
        word_flags_s(t, toks[j], header_scan_s(t, toks, j - 1, 0))
    } else if depth == 0 && punct_is_s(t, toks[j], B_GT) && j >= 1 && punct_is_s(
        t,
        toks[j - 1],
        B_MINUS,
    ) {
        HeaderFlags { has_arrow: true, ..header_scan_s(t, toks, j - 1, 0) }
    } else {
        header_scan_s(t, toks, j - 1, depth)
    }
}

/// Facts of the header read backward from token `jp - 1`.
pub fn header_scan(t: &Vec<u8>, toks: &Vec<Token>, jp: usize, depth: usize) -> (r: HeaderFlags)
    requires
        wf_toks(t@, toks@),
        jp <= toks@.len(),
        depth as int + jp as int <= toks@.len(),
    ensures
        r == header_scan_s(t@, toks@, jp as int - 1, depth as int),
    decreases jp,
{
    // Reading the length pins the token count into machine range, which the
    // depth arithmetic below relies on.
    let _total: usize = toks.len();
    if jp == 0 {
        empty_flags()
    } else {
        let j = jp - 1;
        let tok = toks[j];
        if punct_is(t, tok, B_RPAREN) || punct_is(t, tok, B_RBRACK) {
            header_scan(t, toks, j, depth + 1)
        } else if punct_is(t, tok, B_LPAREN) || punct_is(t, tok, B_LBRACK) {
            if depth == 0 {
                empty_flags()
            } else {
                header_scan(t, toks, j, depth - 1)
            }
        } else if punct_is(t, tok, B_LBRACE) || punct_is(t, tok, B_RBRACE) {
            empty_flags()
        } else if depth == 0 && punct_is(t, tok, B_SEMI) {
            empty_flags()
        } else if depth == 0 && matches!(tok.kind, TokenKind::Word) {
            let f = header_scan(t, toks, j, 0);
            word_flags(t, tok, f)
        } else if depth == 0 && punct_is(t, tok, B_GT) && j >= 1 && punct_is(
            t,
            toks[j - 1],
            B_MINUS,
        ) {
            let f = header_scan(t, toks, j, 0);
            HeaderFlags { has_arrow: true, ..f }
        } else {
            header_scan(t, toks, j, depth)
        }
    }
}

/// The header with no facts in it.
pub fn empty_flags() -> (r: HeaderFlags)
    ensures
        r == empty_flags_s(),
{
    HeaderFlags {
        has_impl: false,
        has_match: false,
        has_fn: false,
        has_item_kw: false,
        has_ctrl: false,
        has_arrow: false,
    }
}

/// `f` extended with the facts a single header word contributes.
pub fn word_flags(t: &Vec<u8>, tok: Token, f: HeaderFlags) -> (r: HeaderFlags)
    requires
        tok.kind != TokenKind::Word || (tok.start <= tok.end && tok.end <= t@.len()),
    ensures
        r == word_flags_s(t@, tok, f),
{
    HeaderFlags {
        has_impl: f.has_impl || word_is(t, tok, &crate::words::w_impl()),
        has_match: f.has_match || word_is(t, tok, &crate::words::w_match()),
        has_fn: f.has_fn || word_is(t, tok, &crate::words::w_fn()),
        has_item_kw: f.has_item_kw || word_is(t, tok, &crate::words::w_mod()) || word_is(
            t,
            tok,
            &crate::words::w_trait(),
        ) || word_is(t, tok, &crate::words::w_struct()) || word_is(t, tok, &crate::words::w_enum()),
        has_ctrl: f.has_ctrl || word_is(t, tok, &crate::words::w_if()) || word_is(
            t,
            tok,
            &crate::words::w_while(),
        ) || word_is(t, tok, &crate::words::w_else()) || word_is(t, tok, &crate::words::w_loop())
            || word_is(t, tok, &crate::words::w_for()),
        has_arrow: f.has_arrow,
    }
}

/// Whether the position after token `j` lies inside an (unclosed) attribute:
/// some enclosing unclosed delimiter is a `[` directly preceded by `#`.
pub open spec fn in_attr_s(t: Seq<u8>, toks: Seq<Token>, j: int) -> bool
    decreases j + 1,
    when -1 <= j < toks.len()
    via in_attr_s_dec
{
    let op = opener_s(t, toks, j, 0);
    if op < 0 {
        false
    } else if punct_is_s(t, toks[op], B_LBRACK) && prev_nt_s(toks, op) >= 0 && punct_is_s(
        t,
        toks[prev_nt_s(toks, op)],
        B_POUND,
    ) {
        true
    } else {
        in_attr_s(t, toks, op - 1)
    }
}

#[via_fn]
proof fn in_attr_s_dec(t: Seq<u8>, toks: Seq<Token>, j: int) {
    if -1 <= j && j < toks.len() {
        lemma_opener_bound(t, toks, j, 0);
    }
}

/// Whether the position after token `jp - 1` lies inside an attribute.
pub fn in_attr(t: &Vec<u8>, toks: &Vec<Token>, jp: usize) -> (r: bool)
    requires
        wf_toks(t@, toks@),
        jp <= toks@.len(),
    ensures
        r == in_attr_s(t@, toks@, jp as int - 1),
    decreases jp,
{
    match opener(t, toks, jp, 0) {
        Option::None => false,
        Option::Some(op) => {
            let is_attr = if punct_is(t, toks[op], B_LBRACK) {
                match prev_nt(toks, op) {
                    Option::Some(p) => punct_is(t, toks[p], B_POUND),
                    Option::None => false,
                }
            } else {
                false
            };
            if is_attr {
                true
            } else {
                in_attr(t, toks, op)
            }
        },
    }
}

/// Whether the innermost enclosing function (the nearest unclosed `{` whose
/// header holds `fn`, walking outward) declares a result type.
pub open spec fn enclosing_fn_arrow_s(t: Seq<u8>, toks: Seq<Token>, j: int) -> bool
    decreases j + 1,
    when -1 <= j < toks.len()
    via enclosing_fn_arrow_s_dec
{
    let op = opener_s(t, toks, j, 0);
    if op < 0 {
        false
    } else if punct_is_s(t, toks[op], B_LBRACE) && header_scan_s(t, toks, op - 1, 0).has_fn {
        header_scan_s(t, toks, op - 1, 0).has_arrow
    } else {
        enclosing_fn_arrow_s(t, toks, op - 1)
    }
}

#[via_fn]
proof fn enclosing_fn_arrow_s_dec(t: Seq<u8>, toks: Seq<Token>, j: int) {
    if -1 <= j && j < toks.len() {
        lemma_opener_bound(t, toks, j, 0);
    }
}

/// Whether the innermost enclosing function declares a result type, scanning
/// backward from token `jp - 1`.
pub fn enclosing_fn_arrow(t: &Vec<u8>, toks: &Vec<Token>, jp: usize) -> (r: bool)
    requires
        wf_toks(t@, toks@),
        jp <= toks@.len(),
    ensures
        r == enclosing_fn_arrow_s(t@, toks@, jp as int - 1),
    decreases jp,
{
    match opener(t, toks, jp, 0) {
        Option::None => false,
        Option::Some(op) => {
            if punct_is(t, toks[op], B_LBRACE) {
                let f = header_scan(t, toks, op, 0);
                if f.has_fn {
                    f.has_arrow
                } else {
                    enclosing_fn_arrow(t, toks, op)
                }
            } else {
                enclosing_fn_arrow(t, toks, op)
            }
        },
    }
}

/// First token index of the postfix expression chain that ends at token `j`:
/// words, `.`, and matched `(..)`/`[..]`/`{..}` groups, read backward.
pub open spec fn chain_start_s(t: Seq<u8>, toks: Seq<Token>, j: int, depth: int) -> int
    decreases j + 1,
    when -1 <= j < toks.len()
{
    if j < 0 {
        0
    } else if is_closer_s(t, toks[j]) {
        chain_start_s(t, toks, j - 1, depth + 1)
    } else if is_opener_s(t, toks[j]) {
        if depth == 0 {
            j + 1
        } else {
            chain_start_s(t, toks, j - 1, depth - 1)
        }
    } else if depth > 0 {
        chain_start_s(t, toks, j - 1, depth)
    } else if toks[j].kind == TokenKind::Word || punct_is_s(t, toks[j], B_DOT) {
        chain_start_s(t, toks, j - 1, 0)
    } else {
        j + 1
    }
}

/// First token index of the postfix chain ending at token `jp - 1`.
pub fn chain_start(t: &Vec<u8>, toks: &Vec<Token>, jp: usize, depth: usize) -> (r: usize)
    requires
        wf_toks(t@, toks@),
        jp <= toks@.len(),
        depth as int + jp as int <= toks@.len(),
    ensures
        r as int == chain_start_s(t@, toks@, jp as int - 1, depth as int),
        r <= jp,
    decreases jp,
{
    // Reading the length pins the token count into machine range, which the
    // depth arithmetic below relies on.
    let _total: usize = toks.len();
    if jp == 0 {
        0
    } else {
        let j = jp - 1;
        let tok = toks[j];
        if is_closer(t, tok) {
            chain_start(t, toks, j, depth + 1)
        } else if is_opener(t, tok) {
            if depth == 0 {
                j + 1
            } else {
                chain_start(t, toks, j, depth - 1)
            }
        } else if depth > 0 {
            chain_start(t, toks, j, depth)
        } else if matches!(tok.kind, TokenKind::Word) || punct_is(t, tok, B_DOT) {
            chain_start(t, toks, j, 0)
        } else {
            j + 1
        }
    }
}

/// First token index of the statement containing the position after `j`:
/// one past the nearest `;` outside delimiters or unclosed opening
/// delimiter, or `0`.
pub open spec fn stmt_start_s(t: Seq<u8>, toks: Seq<Token>, j: int, depth: int) -> int
    decreases j + 1,
    when -1 <= j < toks.len()
{
    if j < 0 {
        0
    } else if is_closer_s(t, toks[j]) {
        stmt_start_s(t, toks, j - 1, depth + 1)
    } else if is_opener_s(t, toks[j]) {
        if depth == 0 {
            j + 1
        } else {
            stmt_start_s(t, toks, j - 1, depth - 1)
        }
    } else if depth == 0 && punct_is_s(t, toks[j], B_SEMI) {
        j + 1
    } else {
        stmt_start_s(t, toks, j - 1, depth)
    }
}

/// First token index of the statement containing the position after `jp - 1`.
pub fn stmt_start(t: &Vec<u8>, toks: &Vec<Token>, jp: usize, depth: usize) -> (r: usize)
    requires
        wf_toks(t@, toks@),
        jp <= toks@.len(),
        depth as int + jp as int <= toks@.len(),
    ensures
        r as int == stmt_start_s(t@, toks@, jp as int - 1, depth as int),
        r <= jp,
    decreases jp,
{
    // Reading the length pins the token count into machine range, which the
    // depth arithmetic below relies on.
    let _total: usize = toks.len();
    if jp == 0 {
        0
    } else {
        let j = jp - 1;
        let tok = toks[j];
        if is_closer(t, tok) {
            stmt_start(t, toks, j, depth + 1)
        } else if is_opener(t, tok) {
            if depth == 0 {
                j + 1
            } else {
                stmt_start(t, toks, j, depth - 1)
            }
        } else if depth == 0 && punct_is(t, tok, B_SEMI) {
            j + 1
        } else {
            stmt_start(t, toks, j, depth)
        }
    }
}

/// Whether the word token at `k` is a record-field name: the next non-trivia
/// token before `end` is a single `:` (not a `::` path separator).
pub open spec fn is_field_name_s(t: Seq<u8>, toks: Seq<Token>, k: int, end: int) -> bool {
    let n = next_nt_s(toks, k + 1);
    &&& toks[k].kind == TokenKind::Word
    &&& n < end
    &&& punct_is_s(t, toks[n], B_COLON)
    &&& !(n + 1 < toks.len() && punct_is_s(t, toks[n + 1], B_COLON))
}

/// The names of the record fields already written out between tokens `k`
/// (inclusive) and `end` (exclusive), at nesting depth zero.
pub open spec fn fields_s(t: Seq<u8>, toks: Seq<Token>, k: int, end: int, depth: int) -> Seq<
    Seq<u8>,
>
    decreases end - k,
    when 0 <= k <= end <= toks.len()
{
    if k >= end {
        Seq::empty()
    } else if is_opener_s(t, toks[k]) {
        fields_s(t, toks, k + 1, end, depth + 1)
    } else if is_closer_s(t, toks[k]) {
        fields_s(t, toks, k + 1, end, if depth > 0 { depth - 1 } else { 0 })
    } else if depth == 0 && is_field_name_s(t, toks, k, end) {
        seq![tok_bytes_s(t, toks[k])] + fields_s(t, toks, k + 1, end, 0)
    } else {
        fields_s(t, toks, k + 1, end, depth)
    }
}

/// Collects the record-field names already written out in `[k, end)`.
pub fn fields_scan(t: &Vec<u8>, toks: &Vec<Token>, k: usize, end: usize, depth: usize) -> (r: Vec<
    Vec<u8>,
>)
    requires
        wf_toks(t@, toks@),
        k <= end <= toks@.len(),
        depth as int + (end - k) as int <= toks@.len(),
    ensures
        r.deep_view() == fields_s(t@, toks@, k as int, end as int, depth as int),
    decreases end - k,
{
    // Reading the length pins the token count into machine range, which the
    // depth arithmetic below relies on.
    let _total: usize = toks.len();
    if k >= end {
        let r: Vec<Vec<u8>> = Vec::new();
        proof {
            assert(r.deep_view() =~= fields_s(t@, toks@, k as int, end as int, depth as int));
        }
        r
    } else if is_opener(t, toks[k]) {
        fields_scan(t, toks, k + 1, end, depth + 1)
    } else if is_closer(t, toks[k]) {
        fields_scan(t, toks, k + 1, end, if depth > 0 { depth - 1 } else { 0 })
    } else {
        let is_field = if matches!(toks[k].kind, TokenKind::Word) {
            match next_nt(toks, k + 1) {
                Option::Some(n) => if n < end && punct_is(t, toks[n], B_COLON) {
                    if n + 1 < toks.len() {
                        !punct_is(t, toks[n + 1], B_COLON)
                    } else {
                        true
                    }
                } else {
                    false
                },
                Option::None => false,
            }
        } else {
            false
        };
        if depth == 0 && is_field {
            let name = crate::bytes::slice_bytes(t, toks[k].start, toks[k].end);
            let ghost name_v = name@;
            let mut rest = fields_scan(t, toks, k + 1, end, 0);
            let ghost prev = rest.deep_view();
            rest.insert(0, name);
            proof {
                let full = fields_s(t@, toks@, k as int, end as int, depth as int);
                assert(full == seq![tok_bytes_s(t@, toks@[k as int])] + fields_s(
                    t@,
                    toks@,
                    k as int + 1,
                    end as int,
                    0,
                ));
                assert forall|i: int| 0 <= i < rest.deep_view().len() implies #[trigger] rest.deep_view()[i]
                    == full[i] by {
                    if i == 0 {
                        assert(rest@[0] == name);
                    } else {
                        assert(rest@[i] == rest@.subrange(1, rest@.len() as int)[i - 1]);
                        assert(prev[i - 1] == full[i]);
                    }
                }
                assert(rest.deep_view() =~= full);
            }
            rest
        } else {
            fields_scan(t, toks, k + 1, end, depth)
        }
    }
}

/// Every token of the stream from `i` on starts at or after `i`.
pub proof fn lemma_lex_lb(t: Seq<u8>, i: int)
    requires
        0 <= i <= t.len(),
        t.len() <= usize::MAX,
    ensures
        forall|k: int|
            0 <= k < crate::lexer::lex_from_s(t, i).len() ==> (#[trigger] crate::lexer::lex_from_s(
                t,
                i,
            )[k]).start >= i,
    decreases t.len() - i,
{
    if i < t.len() {
        crate::lexer::lemma_token_end(t, i);
        let e = crate::lexer::token_end_s(t, i);
        lemma_lex_lb(t, e);
        let toks = crate::lexer::lex_from_s(t, i);
        let rest = crate::lexer::lex_from_s(t, e);
        assert forall|k: int| 0 <= k < toks.len() implies (#[trigger] toks[k]).start >= i by {
            if k > 0 {
                assert(toks[k] == rest[k - 1]);
            }
        }
    }
}

/// The lexer's tokens come in text order: an earlier token ends before a
/// later one starts.
pub proof fn lemma_lex_ordered(t: Seq<u8>, i: int)
    requires
        0 <= i <= t.len(),
        t.len() <= usize::MAX,
    ensures
        forall|k1: int, k2: int|
            0 <= k1 < k2 < crate::lexer::lex_from_s(t, i).len() ==> (
            #[trigger] crate::lexer::lex_from_s(t, i)[k1]).end <= (
            #[trigger] crate::lexer::lex_from_s(t, i)[k2]).start,
    decreases t.len() - i,
{
    if i < t.len() {
        crate::lexer::lemma_token_end(t, i);
        let e = crate::lexer::token_end_s(t, i);
        lemma_lex_ordered(t, e);
        lemma_lex_lb(t, e);
        let toks = crate::lexer::lex_from_s(t, i);
        let rest = crate::lexer::lex_from_s(t, e);
        assert forall|k1: int, k2: int| 0 <= k1 < k2 < toks.len() implies (#[trigger] toks[k1]).end
            <= (#[trigger] toks[k2]).start by {
            assert(toks[k2] == rest[k2 - 1]);
            if k1 == 0 {
                assert(toks[0].end == e);
                assert(rest[k2 - 1].start >= e);
            } else {
                assert(toks[k1] == rest[k1 - 1]);
            }
        }
    }
}

} // verus!
