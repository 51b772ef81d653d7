//! Byte tables for the fixed insertion templates the engine emits:
//! keyword bodies, postfix rewrite parts, snippet bodies.
//!
//! Placeholder markers (`$0`, `$1`) follow the snippet insert-text format:
//! `$1` is the first tab stop and `$0` the final cursor position.  Each
//! table has a specification-level byte sequence and an executable
//! constructor proved to build exactly those bytes.

use vstd::prelude::*;

verus! {

/// The bytes of `if `.
pub open spec fn tpl_if_sp_s() -> Seq<u8> {
    seq![105u8, 102u8, 32u8]
}

/// The bytes of `if `.
pub fn tpl_if_sp() -> (r: Vec<u8>)
    ensures
        r@ == tpl_if_sp_s(),
{
    let mut v: Vec<u8> = Vec::new();
    v.push(105);
    v.push(102);
    v.push(32);
    proof {
        assert(v@ =~= tpl_if_sp_s());
    }
    v
}

/// The bytes of `if let $1 = `.
pub open spec fn tpl_if_let_s() -> Seq<u8> {
    seq![105u8, 102u8, 32u8, 108u8, 101u8, 116u8, 32u8, 36u8, 49u8, 32u8, 61u8, 32u8]
}

/// The bytes of `if let $1 = `.
pub fn tpl_if_let() -> (r: Vec<u8>)
    ensures
        r@ == tpl_if_let_s(),
{
    let mut v: Vec<u8> = Vec::new();
    v.push(105);
    v.push(102);
    v.push(32);
    v.push(108);
    v.push(101);
    v.push(116);
    v.push(32);
    v.push(36);
    v.push(49);
    v.push(32);
    v.push(61);
    v.push(32);
    proof {
        assert(v@ =~= tpl_if_let_s());
    }
    v
}

/// The bytes of `match `.
pub open spec fn tpl_match_sp_s() -> Seq<u8> {
    seq![109u8, 97u8, 116u8, 99u8, 104u8, 32u8]
}

/// The bytes of `match `.
pub fn tpl_match_sp() -> (r: Vec<u8>)
    ensures
        r@ == tpl_match_sp_s(),
{
    let mut v: Vec<u8> = Vec::new();
    v.push(109);
    v.push(97);
    v.push(116);
    v.push(99);
    v.push(104);
    v.push(32);
    proof {
        assert(v@ =~= tpl_match_sp_s());
    }
    v
}

/// The bytes of `while `.
pub open spec fn tpl_while_sp_s() -> Seq<u8> {
    seq![119u8, 104u8, 105u8, 108u8, 101u8, 32u8]
}

/// The bytes of `while `.
pub fn tpl_while_sp() -> (r: Vec<u8>)
    ensures
        r@ == tpl_while_sp_s(),
{
    let mut v: Vec<u8> = Vec::new();
    v.push(119);
    v.push(104);
    v.push(105);
    v.push(108);
    v.push(101);
    v.push(32);
    proof {
        assert(v@ =~= tpl_while_sp_s());
    }
    v
}

/// The bytes of `while let $1 = `.
pub open spec fn tpl_while_let_s() -> Seq<u8> {
    seq![119u8, 104u8, 105u8, 108u8, 101u8, 32u8, 108u8, 101u8, 116u8, 32u8, 36u8, 49u8, 32u8, 61u8, 32u8]
}

/// The bytes of `while let $1 = `.
pub fn tpl_while_let() -> (r: Vec<u8>)
    ensures
        r@ == tpl_while_let_s(),
{
    let mut v: Vec<u8> = Vec::new();
    v.push(119);
    v.push(104);
    v.push(105);
    v.push(108);
    v.push(101);
    v.push(32);
    v.push(108);
    v.push(101);
    v.push(116);
    v.push(32);
    v.push(36);
    v.push(49);
    v.push(32);
    v.push(61);
    v.push(32);
    proof {
        assert(v@ =~= tpl_while_let_s());
    }
    v
}

/// The bytes of `&`.
pub open spec fn tpl_amp_s() -> Seq<u8> {
    seq![38u8]
}

/// The bytes of `&`.
pub fn tpl_amp() -> (r: Vec<u8>)
    ensures
        r@ == tpl_amp_s(),
{
    let mut v: Vec<u8> = Vec::new();
    v.push(38);
    proof {
        assert(v@ =~= tpl_amp_s());
    }
    v
}

/// The bytes of `&mut `.
pub open spec fn tpl_amp_mut_s() -> Seq<u8> {
    seq![38u8, 109u8, 117u8, 116u8, 32u8]
}

/// The bytes of `&mut `.
pub fn tpl_amp_mut() -> (r: Vec<u8>)
    ensures
        r@ == tpl_amp_mut_s(),
{
    let mut v: Vec<u8> = Vec::new();
    v.push(38);
    v.push(109);
    v.push(117);
    v.push(116);
    v.push(32);
    proof {
        assert(v@ =~= tpl_amp_mut_s());
    }
    v
}

/// The bytes of `let $0 = `.
pub open spec fn tpl_let_bind_s() -> Seq<u8> {
    seq![108u8, 101u8, 116u8, 32u8, 36u8, 48u8, 32u8, 61u8, 32u8]
}

/// The bytes of `let $0 = `.
pub fn tpl_let_bind() -> (r: Vec<u8>)
    ensures
        r@ == tpl_let_bind_s(),
{
    let mut v: Vec<u8> = Vec::new();
    v.push(108);
    v.push(101);
    v.push(116);
    v.push(32);
    v.push(36);
    v.push(48);
    v.push(32);
    v.push(61);
    v.push(32);
    proof {
        assert(v@ =~= tpl_let_bind_s());
    }
    v
}

/// The bytes of `let mut $0 = `.
pub open spec fn tpl_let_mut_bind_s() -> Seq<u8> {
    seq![108u8, 101u8, 116u8, 32u8, 109u8, 117u8, 116u8, 32u8, 36u8, 48u8, 32u8, 61u8, 32u8]
}

/// The bytes of `let mut $0 = `.
pub fn tpl_let_mut_bind() -> (r: Vec<u8>)
    ensures
        r@ == tpl_let_mut_bind_s(),
{
    let mut v: Vec<u8> = Vec::new();
    v.push(108);
    v.push(101);
    v.push(116);
    v.push(32);
    v.push(109);
    v.push(117);
    v.push(116);
    v.push(32);
    v.push(36);
    v.push(48);
    v.push(32);
    v.push(61);
    v.push(32);
    proof {
        assert(v@ =~= tpl_let_mut_bind_s());
    }
    v
}

/// The bytes of `!`.
pub open spec fn tpl_bang_s() -> Seq<u8> {
    seq![33u8]
}

/// The bytes of `!`.
pub fn tpl_bang() -> (r: Vec<u8>)
    ensures
        r@ == tpl_bang_s(),
{
    let mut v: Vec<u8> = Vec::new();
    v.push(33);
    proof {
        assert(v@ =~= tpl_bang_s());
    }
    v
}

/// The bytes of `dbg!(`.
pub open spec fn tpl_dbg_open_s() -> Seq<u8> {
    seq![100u8, 98u8, 103u8, 33u8, 40u8]
}

/// The bytes of `dbg!(`.
pub fn tpl_dbg_open() -> (r: Vec<u8>)
    ensures
        r@ == tpl_dbg_open_s(),
{
    let mut v: Vec<u8> = Vec::new();
    v.push(100);
    v.push(98);
    v.push(103);
    v.push(33);
    v.push(40);
    proof {
        assert(v@ =~= tpl_dbg_open_s());
    }
    v
}

/// The bytes of `dbg!(&`.
pub open spec fn tpl_dbg_ref_open_s() -> Seq<u8> {
    seq![100u8, 98u8, 103u8, 33u8, 40u8, 38u8]
}

/// The bytes of `dbg!(&`.
pub fn tpl_dbg_ref_open() -> (r: Vec<u8>)
    ensures
        r@ == tpl_dbg_ref_open_s(),
{
    let mut v: Vec<u8> = Vec::new();
    v.push(100);
    v.push(98);
    v.push(103);
    v.push(33);
    v.push(40);
    v.push(38);
    proof {
        assert(v@ =~= tpl_dbg_ref_open_s());
    }
    v
}

/// The bytes of `(`.
pub open spec fn tpl_lparen_s() -> Seq<u8> {
    seq![40u8]
}

/// The bytes of `(`.
pub fn tpl_lparen() -> (r: Vec<u8>)
    ensures
        r@ == tpl_lparen_s(),
{
    let mut v: Vec<u8> = Vec::new();
    v.push(40);
    proof {
        assert(v@ =~= tpl_lparen_s());
    }
    v
}

/// The bytes of ` {$0}`.
pub open spec fn tpl_block_s() -> Seq<u8> {
    seq![32u8, 123u8, 36u8, 48u8, 125u8]
}

/// The bytes of ` {$0}`.
pub fn tpl_block() -> (r: Vec<u8>)
    ensures
        r@ == tpl_block_s(),
{
    let mut v: Vec<u8> = Vec::new();
    v.push(32);
    v.push(123);
    v.push(36);
    v.push(48);
    v.push(125);
    proof {
        assert(v@ =~= tpl_block_s());
    }
    v
}

/// The bytes of `;`.
pub open spec fn tpl_semi_s() -> Seq<u8> {
    seq![59u8]
}

/// The bytes of `;`.
pub fn tpl_semi() -> (r: Vec<u8>)
    ensures
        r@ == tpl_semi_s(),
{
    let mut v: Vec<u8> = Vec::new();
    v.push(59);
    proof {
        assert(v@ =~= tpl_semi_s());
    }
    v
}

/// The bytes of `)`.
pub open spec fn tpl_rparen_s() -> Seq<u8> {
    seq![41u8]
}

/// The bytes of `)`.
pub fn tpl_rparen() -> (r: Vec<u8>)
    ensures
        r@ == tpl_rparen_s(),
{
    let mut v: Vec<u8> = Vec::new();
    v.push(41);
    proof {
        assert(v@ =~= tpl_rparen_s());
    }
    v
}

/// The bytes of `return;`.
pub open spec fn tpl_return_semi_s() -> Seq<u8> {
    seq![114u8, 101u8, 116u8, 117u8, 114u8, 110u8, 59u8]
}

/// The bytes of `return;`.
pub fn tpl_return_semi() -> (r: Vec<u8>)
    ensures
        r@ == tpl_return_semi_s(),
{
    let mut v: Vec<u8> = Vec::new();
    v.push(114);
    v.push(101);
    v.push(116);
    v.push(117);
    v.push(114);
    v.push(110);
    v.push(59);
    proof {
        assert(v@ =~= tpl_return_semi_s());
    }
    v
}

/// The bytes of `return `.
pub open spec fn tpl_return_sp_s() -> Seq<u8> {
    seq![114u8, 101u8, 116u8, 117u8, 114u8, 110u8, 32u8]
}

/// The bytes of `return `.
pub fn tpl_return_sp() -> (r: Vec<u8>)
    ensures
        r@ == tpl_return_sp_s(),
{
    let mut v: Vec<u8> = Vec::new();
    v.push(114);
    v.push(101);
    v.push(116);
    v.push(117);
    v.push(114);
    v.push(110);
    v.push(32);
    proof {
        assert(v@ =~= tpl_return_sp_s());
    }
    v
}

/// The bytes of `eprintln!(\" = {:?}\", $0);`.
pub open spec fn tpl_pd_body_s() -> Seq<u8> {
    seq![101u8, 112u8, 114u8, 105u8, 110u8, 116u8, 108u8, 110u8, 33u8, 40u8, 34u8, 32u8, 61u8, 32u8, 123u8, 58u8, 63u8, 125u8, 34u8, 44u8, 32u8, 36u8, 48u8, 41u8, 59u8]
}

/// The bytes of `eprintln!(\" = {:?}\", $0);`.
pub fn tpl_pd_body() -> (r: Vec<u8>)
    ensures
        r@ == tpl_pd_body_s(),
{
    let mut v: Vec<u8> = Vec::new();
    v.push(101);
    v.push(112);
    v.push(114);
    v.push(105);
    v.push(110);
    v.push(116);
    v.push(108);
    v.push(110);
    v.push(33);
    v.push(40);
    v.push(34);
    v.push(32);
    v.push(61);
    v.push(32);
    v.push(123);
    v.push(58);
    v.push(63);
    v.push(125);
    v.push(34);
    v.push(44);
    v.push(32);
    v.push(36);
    v.push(48);
    v.push(41);
    v.push(59);
    proof {
        assert(v@ =~= tpl_pd_body_s());
    }
    v
}

/// The bytes of `eprintln!(\" = {:#?}\", $0);`.
pub open spec fn tpl_ppd_body_s() -> Seq<u8> {
    seq![101u8, 112u8, 114u8, 105u8, 110u8, 116u8, 108u8, 110u8, 33u8, 40u8, 34u8, 32u8, 61u8, 32u8, 123u8, 58u8, 35u8, 63u8, 125u8, 34u8, 44u8, 32u8, 36u8, 48u8, 41u8, 59u8]
}

/// The bytes of `eprintln!(\" = {:#?}\", $0);`.
pub fn tpl_ppd_body() -> (r: Vec<u8>)
    ensures
        r@ == tpl_ppd_body_s(),
{
    let mut v: Vec<u8> = Vec::new();
    v.push(101);
    v.push(112);
    v.push(114);
    v.push(105);
    v.push(110);
    v.push(116);
    v.push(108);
    v.push(110);
    v.push(33);
    v.push(40);
    v.push(34);
    v.push(32);
    v.push(61);
    v.push(32);
    v.push(123);
    v.push(58);
    v.push(35);
    v.push(63);
    v.push(125);
    v.push(34);
    v.push(44);
    v.push(32);
    v.push(36);
    v.push(48);
    v.push(41);
    v.push(59);
    proof {
        assert(v@ =~= tpl_ppd_body_s());
    }
    v
}

/// The bytes of the test-function item snippet body.
pub open spec fn tpl_tfn_body_s() -> Seq<u8> {
    seq![35u8, 91u8, 116u8, 101u8, 115u8, 116u8, 93u8, 10u8, 102u8, 110u8, 32u8, 36u8, 49u8, 40u8, 41u8, 32u8, 123u8, 36u8, 48u8, 125u8]
}

/// The bytes of the test-function item snippet body.
pub fn tpl_tfn_body() -> (r: Vec<u8>)
    ensures
        r@ == tpl_tfn_body_s(),
{
    let mut v: Vec<u8> = Vec::new();
    v.push(35);
    v.push(91);
    v.push(116);
    v.push(101);
    v.push(115);
    v.push(116);
    v.push(93);
    v.push(10);
    v.push(102);
    v.push(110);
    v.push(32);
    v.push(36);
    v.push(49);
    v.push(40);
    v.push(41);
    v.push(32);
    v.push(123);
    v.push(36);
    v.push(48);
    v.push(125);
    proof {
        assert(v@ =~= tpl_tfn_body_s());
    }
    v
}

/// The bytes of the test-module item snippet body.
pub open spec fn tpl_tmod_body_s() -> Seq<u8> {
    seq![35u8, 91u8, 99u8, 102u8, 103u8, 40u8, 116u8, 101u8, 115u8, 116u8, 41u8, 93u8, 10u8, 109u8, 111u8, 100u8, 32u8, 116u8, 101u8, 115u8, 116u8, 115u8, 32u8, 123u8, 36u8, 48u8, 125u8]
}

/// The bytes of the test-module item snippet body.
pub fn tpl_tmod_body() -> (r: Vec<u8>)
    ensures
        r@ == tpl_tmod_body_s(),
{
    let mut v: Vec<u8> = Vec::new();
    v.push(35);
    v.push(91);
    v.push(99);
    v.push(102);
    v.push(103);
    v.push(40);
    v.push(116);
    v.push(101);
    v.push(115);
    v.push(116);
    v.push(41);
    v.push(93);
    v.push(10);
    v.push(109);
    v.push(111);
    v.push(100);
    v.push(32);
    v.push(116);
    v.push(101);
    v.push(115);
    v.push(116);
    v.push(115);
    v.push(32);
    v.push(123);
    v.push(36);
    v.push(48);
    v.push(125);
    proof {
        assert(v@ =~= tpl_tmod_body_s());
    }
    v
}

/// The bytes of `!($0)`.
pub open spec fn tpl_macro_call_s() -> Seq<u8> {
    seq![33u8, 40u8, 36u8, 48u8, 41u8]
}

/// The bytes of `!($0)`.
pub fn tpl_macro_call() -> (r: Vec<u8>)
    ensures
        r@ == tpl_macro_call_s(),
{
    let mut v: Vec<u8> = Vec::new();
    v.push(33);
    v.push(40);
    v.push(36);
    v.push(48);
    v.push(41);
    proof {
        assert(v@ =~= tpl_macro_call_s());
    }
    v
}

} // verus!
