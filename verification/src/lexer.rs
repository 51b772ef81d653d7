//! Tokenization of (possibly incomplete) source text, and the speculative
//! placeholder insertion that makes the text around the cursor well-formed.
//!
//! The engine never trusts the raw text at the cursor: a placeholder
//! identifier byte is inserted exactly at the cursor offset and the modified
//! text is tokenized afresh.  Because the placeholder is a word byte, the
//! cursor then always sits inside a word token — unless it lies inside a
//! string literal or a comment, in which case the placeholder is swallowed
//! by that token and the position is reported as unclassifiable.
//!
//! The token classes are deliberately coarse: maximal word runs (identifiers,
//! keywords and number literals share the class), whitespace runs, line
//! comments, string literals, and single-byte punctuation.  Classification
//! (see [`crate::patterns`] and [`crate::context`]) works on this stream.

use vstd::prelude::*;

verus! {

/// The placeholder byte inserted at the cursor before re-tokenizing:
/// ASCII `z`.
pub const PLACEHOLDER_BYTE: u8 = 122;

/// ASCII `\n`.
pub const B_NL: u8 = 10;

/// ASCII `/`.
pub const B_SLASH: u8 = 47;

/// ASCII `"`.
pub const B_QUOTE: u8 = 34;

/// ASCII `\`.
pub const B_BACKSLASH: u8 = 92;

/// ASCII `.`.
pub const B_DOT: u8 = 46;

/// ASCII `:`.
pub const B_COLON: u8 = 58;

/// ASCII `;`.
pub const B_SEMI: u8 = 59;

/// ASCII `#`.
pub const B_POUND: u8 = 35;

/// ASCII `[`.
pub const B_LBRACK: u8 = 91;

/// ASCII `]`.
pub const B_RBRACK: u8 = 93;

/// ASCII `{`.
pub const B_LBRACE: u8 = 123;

/// ASCII `}`.
pub const B_RBRACE: u8 = 125;

/// ASCII `(`.
pub const B_LPAREN: u8 = 40;

/// ASCII `)`.
pub const B_RPAREN: u8 = 41;

/// ASCII `,`.
pub const B_COMMA: u8 = 44;

/// ASCII `-`.
pub const B_MINUS: u8 = 45;

/// ASCII `>`.
pub const B_GT: u8 = 62;

/// ASCII `=`.
pub const B_EQ: u8 = 61;

/// ASCII `!`.
pub const B_BANG: u8 = 33;

/// Coarse token classes.
#[derive(Clone, Copy, PartialEq, Eq, Structural, Debug)]
pub enum TokenKind {
    /// Maximal run of identifier bytes (letters, digits, `_`).
    Word,
    /// Maximal run of whitespace bytes.
    Ws,
    /// A `//` comment running to the end of the line.
    Comment,
    /// A string literal, `\`-escapes respected.
    Str,
    /// A single punctuation byte.
    Punct,
}

/// One token: a class and a half-open byte range of the text.
#[derive(Clone, Copy, PartialEq, Eq, Structural, Debug)]
pub struct Token {
    pub kind: TokenKind,
    pub start: usize,
    pub end: usize,
}

/// Whether `b` is an identifier byte.
pub open spec fn is_word_byte_s(b: u8) -> bool {
    (97 <= b && b <= 122) || (65 <= b && b <= 90) || (48 <= b && b <= 57) || b == 95
}

/// Whether `b` is a whitespace byte.
pub open spec fn is_ws_byte_s(b: u8) -> bool {
    b == 32 || b == B_NL || b == 9 || b == 13
}

/// End of the word run starting at `i`.
pub open spec fn word_end_s(t: Seq<u8>, i: int) -> int
    decreases t.len() - i,
    when 0 <= i <= t.len()
{
    if i < t.len() && is_word_byte_s(t[i]) {
        word_end_s(t, i + 1)
    } else {
        i
    }
}

/// End of the whitespace run starting at `i`.
pub open spec fn ws_end_s(t: Seq<u8>, i: int) -> int
    decreases t.len() - i,
    when 0 <= i <= t.len()
{
    if i < t.len() && is_ws_byte_s(t[i]) {
        ws_end_s(t, i + 1)
    } else {
        i
    }
}

/// End of a line comment scanned from `i`: the next newline, exclusive.
pub open spec fn comment_end_s(t: Seq<u8>, i: int) -> int
    decreases t.len() - i,
    when 0 <= i <= t.len()
{
    if i < t.len() && t[i] != B_NL {
        comment_end_s(t, i + 1)
    } else {
        i
    }
}

/// End of a string literal whose opening quote stands just before `i`.
pub open spec fn str_end_s(t: Seq<u8>, i: int) -> int
    decreases t.len() - i,
    when 0 <= i <= t.len()
{
    if i >= t.len() {
        i
    } else if t[i] == B_QUOTE {
        i + 1
    } else if t[i] == B_BACKSLASH && i + 1 < t.len() {
        str_end_s(t, i + 2)
    } else {
        str_end_s(t, i + 1)
    }
}

/// The token starting at position `i` of `t`.
pub open spec fn token_at_s(t: Seq<u8>, i: int) -> Token
    recommends
        0 <= i < t.len(),
{
    if is_word_byte_s(t[i]) {
        Token { kind: TokenKind::Word, start: i as usize, end: word_end_s(t, i) as usize }
    } else if is_ws_byte_s(t[i]) {
        Token { kind: TokenKind::Ws, start: i as usize, end: ws_end_s(t, i) as usize }
    } else if t[i] == B_SLASH && i + 1 < t.len() && t[i + 1] == B_SLASH {
        Token { kind: TokenKind::Comment, start: i as usize, end: comment_end_s(t, i) as usize }
    } else if t[i] == B_QUOTE {
        Token { kind: TokenKind::Str, start: i as usize, end: str_end_s(t, i + 1) as usize }
    } else {
        Token { kind: TokenKind::Punct, start: i as usize, end: (i + 1) as usize }
    }
}

/// End of the token starting at `i`, as a mathematical integer.
pub open spec fn token_end_s(t: Seq<u8>, i: int) -> int
    recommends
        0 <= i < t.len(),
{
    if is_word_byte_s(t[i]) {
        word_end_s(t, i)
    } else if is_ws_byte_s(t[i]) {
        ws_end_s(t, i)
    } else if t[i] == B_SLASH && i + 1 < t.len() && t[i + 1] == B_SLASH {
        comment_end_s(t, i)
    } else if t[i] == B_QUOTE {
        str_end_s(t, i + 1)
    } else {
        i + 1
    }
}

pub proof fn lemma_word_end(t: Seq<u8>, i: int)
    requires
        0 <= i <= t.len(),
    ensures
        i <= word_end_s(t, i) <= t.len(),
    decreases t.len() - i,
{
    if i < t.len() && is_word_byte_s(t[i]) {
        lemma_word_end(t, i + 1);
    }
}

pub proof fn lemma_ws_end(t: Seq<u8>, i: int)
    requires
        0 <= i <= t.len(),
    ensures
        i <= ws_end_s(t, i) <= t.len(),
    decreases t.len() - i,
{
    if i < t.len() && is_ws_byte_s(t[i]) {
        lemma_ws_end(t, i + 1);
    }
}

pub proof fn lemma_comment_end(t: Seq<u8>, i: int)
    requires
        0 <= i <= t.len(),
    ensures
        i <= comment_end_s(t, i) <= t.len(),
    decreases t.len() - i,
{
    if i < t.len() && t[i] != B_NL {
        lemma_comment_end(t, i + 1);
    }
}

pub proof fn lemma_str_end(t: Seq<u8>, i: int)
    requires
        0 <= i <= t.len(),
    ensures
        i <= str_end_s(t, i) <= t.len(),
    decreases t.len() - i,
{
    if i >= t.len() {
    } else if t[i] == B_QUOTE {
    } else if t[i] == B_BACKSLASH && i + 1 < t.len() {
        lemma_str_end(t, i + 2);
    } else {
        lemma_str_end(t, i + 1);
    }
}

/// Every token is non-empty and ends within the text.
pub proof fn lemma_token_pos(t: Seq<u8>, i: int)
    requires
        0 <= i < t.len(),
    ensures
        i < token_end_s(t, i) <= t.len(),
{
    if is_word_byte_s(t[i]) {
        lemma_word_end(t, i + 1);
    } else if is_ws_byte_s(t[i]) {
        lemma_ws_end(t, i + 1);
    } else if t[i] == B_SLASH && i + 1 < t.len() && t[i + 1] == B_SLASH {
        lemma_comment_end(t, i + 1);
    } else if t[i] == B_QUOTE {
        lemma_str_end(t, i + 1);
    }
}

/// For text that fits in memory, the token's fields carry its exact range.
pub proof fn lemma_token_end(t: Seq<u8>, i: int)
    requires
        0 <= i < t.len(),
        t.len() <= usize::MAX,
    ensures
        i < token_end_s(t, i) <= t.len(),
        token_at_s(t, i).start == i,
        token_at_s(t, i).end == token_end_s(t, i),
{
    lemma_token_pos(t, i);
}

/// The token stream of `t` from position `i` on.
pub open spec fn lex_from_s(t: Seq<u8>, i: int) -> Seq<Token>
    decreases t.len() - i,
    when 0 <= i <= t.len()
    via lex_from_s_dec
{
    if i < t.len() {
        seq![token_at_s(t, i)] + lex_from_s(t, token_end_s(t, i))
    } else {
        Seq::empty()
    }
}

#[via_fn]
proof fn lex_from_s_dec(t: Seq<u8>, i: int) {
    if 0 <= i && i < t.len() {
        lemma_token_pos(t, i);
    }
}

/// The token stream of the whole text.
pub open spec fn lex_s(t: Seq<u8>) -> Seq<Token> {
    lex_from_s(t, 0)
}

/// Whether `b` is an identifier byte.
pub fn is_word_byte(b: u8) -> (r: bool)
    ensures
        r == is_word_byte_s(b),
{
    (97 <= b && b <= 122) || (65 <= b && b <= 90) || (48 <= b && b <= 57) || b == 95
}

/// Whether `b` is a whitespace byte.
pub fn is_ws_byte(b: u8) -> (r: bool)
    ensures
        r == is_ws_byte_s(b),
{
    b == 32 || b == B_NL || b == 9 || b == 13
}

fn scan_word(t: &Vec<u8>, i: usize) -> (r: usize)
    requires
        i <= t@.len(),
    ensures
        r as int == word_end_s(t@, i as int),
    decreases t@.len() - i,
{
    if i < t.len() && is_word_byte(t[i]) {
        scan_word(t, i + 1)
    } else {
        i
    }
}

fn scan_ws(t: &Vec<u8>, i: usize) -> (r: usize)
    requires
        i <= t@.len(),
    ensures
        r as int == ws_end_s(t@, i as int),
    decreases t@.len() - i,
{
    if i < t.len() && is_ws_byte(t[i]) {
        scan_ws(t, i + 1)
    } else {
        i
    }
}

fn scan_comment(t: &Vec<u8>, i: usize) -> (r: usize)
    requires
        i <= t@.len(),
    ensures
        r as int == comment_end_s(t@, i as int),
    decreases t@.len() - i,
{
    if i < t.len() && t[i] != B_NL {
        scan_comment(t, i + 1)
    } else {
        i
    }
}

fn scan_str(t: &Vec<u8>, i: usize) -> (r: usize)
    requires
        i <= t@.len(),
    ensures
        r as int == str_end_s(t@, i as int),
    decreases t@.len() - i,
{
    if i >= t.len() {
        i
    } else if t[i] == B_QUOTE {
        i + 1
    } else if t[i] == B_BACKSLASH && i + 1 < t.len() {
        scan_str(t, i + 2)
    } else {
        scan_str(t, i + 1)
    }
}

/// Tokenizes `t` into its exact token stream.
pub fn tokenize(t: &Vec<u8>) -> (r: Vec<Token>)
    ensures
        r@ == lex_s(t@),
{
    let mut toks: Vec<Token> = Vec::new();
    let mut i: usize = 0;
    while i < t.len()
        invariant
            i <= t@.len(),
            lex_from_s(t@, 0) == toks@ + lex_from_s(t@, i as int),
        decreases t@.len() - i,
    {
        let ghost gi: int = i as int;
        let b = t[i];
        let tok: Token = if is_word_byte(b) {
            Token { kind: TokenKind::Word, start: i, end: scan_word(t, i) }
        } else if is_ws_byte(b) {
            Token { kind: TokenKind::Ws, start: i, end: scan_ws(t, i) }
        } else if b == B_SLASH && i + 1 < t.len() && t[i + 1] == B_SLASH {
            Token { kind: TokenKind::Comment, start: i, end: scan_comment(t, i) }
        } else if b == B_QUOTE {
            Token { kind: TokenKind::Str, start: i, end: scan_str(t, i + 1) }
        } else {
            Token { kind: TokenKind::Punct, start: i, end: i + 1 }
        };
        proof {
            lemma_token_end(t@, gi);
            assert(tok == token_at_s(t@, gi));
            assert(lex_from_s(t@, gi) == seq![token_at_s(t@, gi)] + lex_from_s(
                t@,
                token_end_s(t@, gi),
            ));
        }
        let ghost old_toks: Seq<Token> = toks@;
        toks.push(tok);
        proof {
            assert(toks@ + lex_from_s(t@, token_end_s(t@, gi)) =~= old_toks + lex_from_s(t@, gi));
        }
        i = tok.end;
    }
    proof {
        assert(toks@ + lex_from_s(t@, i as int) =~= toks@);
    }
    toks
}

/// The text with the placeholder byte inserted at `off`.
pub open spec fn inserted_s(t: Seq<u8>, off: int) -> Seq<u8>
    recommends
        0 <= off <= t.len(),
{
    t.take(off) + seq![PLACEHOLDER_BYTE] + t.skip(off)
}

/// Builds the speculative text: `t` with the placeholder inserted at `off`.
pub fn insert_placeholder(t: &Vec<u8>, off: usize) -> (r: Vec<u8>)
    requires
        off <= t@.len(),
    ensures
        r@ == inserted_s(t@, off as int),
{
    let mut r = crate::bytes::slice_bytes(t, 0, off);
    r.push(PLACEHOLDER_BYTE);
    let tail = crate::bytes::slice_bytes(t, off, t.len());
    crate::bytes::append_bytes(&mut r, &tail);
    proof {
        assert(t@.subrange(0, off as int) == t@.take(off as int));
        assert(t@.subrange(off as int, t@.len() as int) == t@.skip(off as int));
        assert(r@ =~= inserted_s(t@, off as int));
    }
    r
}

} // verus!
