//! Byte tables for the fixed words the engine recognizes and emits:
//! classifier keywords, keyword-completion labels, snippet triggers and
//! postfix rule names.
//!
//! Each word has a specification-level byte sequence and an executable
//! constructor proved to build exactly those bytes.

use vstd::prelude::*;

verus! {

/// The bytes of `for`.
pub open spec fn w_for_s() -> Seq<u8> {
    seq![102u8, 111u8, 114u8]
}

/// The bytes of `for`.
pub fn w_for() -> (r: Vec<u8>)
    ensures
        r@ == w_for_s(),
{
    let mut v: Vec<u8> = Vec::new();
    v.push(102);
    v.push(111);
    v.push(114);
    proof {
        assert(v@ =~= w_for_s());
    }
    v
}

/// The bytes of `fn`.
pub open spec fn w_fn_s() -> Seq<u8> {
    seq![102u8, 110u8]
}

/// The bytes of `fn`.
pub fn w_fn() -> (r: Vec<u8>)
    ensures
        r@ == w_fn_s(),
{
    let mut v: Vec<u8> = Vec::new();
    v.push(102);
    v.push(110);
    proof {
        assert(v@ =~= w_fn_s());
    }
    v
}

/// The bytes of `use`.
pub open spec fn w_use_s() -> Seq<u8> {
    seq![117u8, 115u8, 101u8]
}

/// The bytes of `use`.
pub fn w_use() -> (r: Vec<u8>)
    ensures
        r@ == w_use_s(),
{
    let mut v: Vec<u8> = Vec::new();
    v.push(117);
    v.push(115);
    v.push(101);
    proof {
        assert(v@ =~= w_use_s());
    }
    v
}

/// The bytes of `impl`.
pub open spec fn w_impl_s() -> Seq<u8> {
    seq![105u8, 109u8, 112u8, 108u8]
}

/// The bytes of `impl`.
pub fn w_impl() -> (r: Vec<u8>)
    ensures
        r@ == w_impl_s(),
{
    let mut v: Vec<u8> = Vec::new();
    v.push(105);
    v.push(109);
    v.push(112);
    v.push(108);
    proof {
        assert(v@ =~= w_impl_s());
    }
    v
}

/// The bytes of `mod`.
pub open spec fn w_mod_s() -> Seq<u8> {
    seq![109u8, 111u8, 100u8]
}

/// The bytes of `mod`.
pub fn w_mod() -> (r: Vec<u8>)
    ensures
        r@ == w_mod_s(),
{
    let mut v: Vec<u8> = Vec::new();
    v.push(109);
    v.push(111);
    v.push(100);
    proof {
        assert(v@ =~= w_mod_s());
    }
    v
}

/// The bytes of `match`.
pub open spec fn w_match_s() -> Seq<u8> {
    seq![109u8, 97u8, 116u8, 99u8, 104u8]
}

/// The bytes of `match`.
pub fn w_match() -> (r: Vec<u8>)
    ensures
        r@ == w_match_s(),
{
    let mut v: Vec<u8> = Vec::new();
    v.push(109);
    v.push(97);
    v.push(116);
    v.push(99);
    v.push(104);
    proof {
        assert(v@ =~= w_match_s());
    }
    v
}

/// The bytes of `let`.
pub open spec fn w_let_s() -> Seq<u8> {
    seq![108u8, 101u8, 116u8]
}

/// The bytes of `let`.
pub fn w_let() -> (r: Vec<u8>)
    ensures
        r@ == w_let_s(),
{
    let mut v: Vec<u8> = Vec::new();
    v.push(108);
    v.push(101);
    v.push(116);
    proof {
        assert(v@ =~= w_let_s());
    }
    v
}

/// The bytes of `trait`.
pub open spec fn w_trait_s() -> Seq<u8> {
    seq![116u8, 114u8, 97u8, 105u8, 116u8]
}

/// The bytes of `trait`.
pub fn w_trait() -> (r: Vec<u8>)
    ensures
        r@ == w_trait_s(),
{
    let mut v: Vec<u8> = Vec::new();
    v.push(116);
    v.push(114);
    v.push(97);
    v.push(105);
    v.push(116);
    proof {
        assert(v@ =~= w_trait_s());
    }
    v
}

/// The bytes of `if`.
pub open spec fn w_if_s() -> Seq<u8> {
    seq![105u8, 102u8]
}

/// The bytes of `if`.
pub fn w_if() -> (r: Vec<u8>)
    ensures
        r@ == w_if_s(),
{
    let mut v: Vec<u8> = Vec::new();
    v.push(105);
    v.push(102);
    proof {
        assert(v@ =~= w_if_s());
    }
    v
}

/// The bytes of `while`.
pub open spec fn w_while_s() -> Seq<u8> {
    seq![119u8, 104u8, 105u8, 108u8, 101u8]
}

/// The bytes of `while`.
pub fn w_while() -> (r: Vec<u8>)
    ensures
        r@ == w_while_s(),
{
    let mut v: Vec<u8> = Vec::new();
    v.push(119);
    v.push(104);
    v.push(105);
    v.push(108);
    v.push(101);
    proof {
        assert(v@ =~= w_while_s());
    }
    v
}

/// The bytes of `loop`.
pub open spec fn w_loop_s() -> Seq<u8> {
    seq![108u8, 111u8, 111u8, 112u8]
}

/// The bytes of `loop`.
pub fn w_loop() -> (r: Vec<u8>)
    ensures
        r@ == w_loop_s(),
{
    let mut v: Vec<u8> = Vec::new();
    v.push(108);
    v.push(111);
    v.push(111);
    v.push(112);
    proof {
        assert(v@ =~= w_loop_s());
    }
    v
}

/// The bytes of `else`.
pub open spec fn w_else_s() -> Seq<u8> {
    seq![101u8, 108u8, 115u8, 101u8]
}

/// The bytes of `else`.
pub fn w_else() -> (r: Vec<u8>)
    ensures
        r@ == w_else_s(),
{
    let mut v: Vec<u8> = Vec::new();
    v.push(101);
    v.push(108);
    v.push(115);
    v.push(101);
    proof {
        assert(v@ =~= w_else_s());
    }
    v
}

/// The bytes of `return`.
pub open spec fn w_return_s() -> Seq<u8> {
    seq![114u8, 101u8, 116u8, 117u8, 114u8, 110u8]
}

/// The bytes of `return`.
pub fn w_return() -> (r: Vec<u8>)
    ensures
        r@ == w_return_s(),
{
    let mut v: Vec<u8> = Vec::new();
    v.push(114);
    v.push(101);
    v.push(116);
    v.push(117);
    v.push(114);
    v.push(110);
    proof {
        assert(v@ =~= w_return_s());
    }
    v
}

/// The bytes of `true`.
pub open spec fn w_true_s() -> Seq<u8> {
    seq![116u8, 114u8, 117u8, 101u8]
}

/// The bytes of `true`.
pub fn w_true() -> (r: Vec<u8>)
    ensures
        r@ == w_true_s(),
{
    let mut v: Vec<u8> = Vec::new();
    v.push(116);
    v.push(114);
    v.push(117);
    v.push(101);
    proof {
        assert(v@ =~= w_true_s());
    }
    v
}

/// The bytes of `false`.
pub open spec fn w_false_s() -> Seq<u8> {
    seq![102u8, 97u8, 108u8, 115u8, 101u8]
}

/// The bytes of `false`.
pub fn w_false() -> (r: Vec<u8>)
    ensures
        r@ == w_false_s(),
{
    let mut v: Vec<u8> = Vec::new();
    v.push(102);
    v.push(97);
    v.push(108);
    v.push(115);
    v.push(101);
    proof {
        assert(v@ =~= w_false_s());
    }
    v
}

/// The bytes of `crate`.
pub open spec fn w_crate_s() -> Seq<u8> {
    seq![99u8, 114u8, 97u8, 116u8, 101u8]
}

/// The bytes of `crate`.
pub fn w_crate() -> (r: Vec<u8>)
    ensures
        r@ == w_crate_s(),
{
    let mut v: Vec<u8> = Vec::new();
    v.push(99);
    v.push(114);
    v.push(97);
    v.push(116);
    v.push(101);
    proof {
        assert(v@ =~= w_crate_s());
    }
    v
}

/// The bytes of `self`.
pub open spec fn w_self_s() -> Seq<u8> {
    seq![115u8, 101u8, 108u8, 102u8]
}

/// The bytes of `self`.
pub fn w_self() -> (r: Vec<u8>)
    ensures
        r@ == w_self_s(),
{
    let mut v: Vec<u8> = Vec::new();
    v.push(115);
    v.push(101);
    v.push(108);
    v.push(102);
    proof {
        assert(v@ =~= w_self_s());
    }
    v
}

/// The bytes of `super`.
pub open spec fn w_super_s() -> Seq<u8> {
    seq![115u8, 117u8, 112u8, 101u8, 114u8]
}

/// The bytes of `super`.
pub fn w_super() -> (r: Vec<u8>)
    ensures
        r@ == w_super_s(),
{
    let mut v: Vec<u8> = Vec::new();
    v.push(115);
    v.push(117);
    v.push(112);
    v.push(101);
    v.push(114);
    proof {
        assert(v@ =~= w_super_s());
    }
    v
}

/// The bytes of `pd`.
pub open spec fn w_pd_s() -> Seq<u8> {
    seq![112u8, 100u8]
}

/// The bytes of `pd`.
pub fn w_pd() -> (r: Vec<u8>)
    ensures
        r@ == w_pd_s(),
{
    let mut v: Vec<u8> = Vec::new();
    v.push(112);
    v.push(100);
    proof {
        assert(v@ =~= w_pd_s());
    }
    v
}

/// The bytes of `ppd`.
pub open spec fn w_ppd_s() -> Seq<u8> {
    seq![112u8, 112u8, 100u8]
}

/// The bytes of `ppd`.
pub fn w_ppd() -> (r: Vec<u8>)
    ensures
        r@ == w_ppd_s(),
{
    let mut v: Vec<u8> = Vec::new();
    v.push(112);
    v.push(112);
    v.push(100);
    proof {
        assert(v@ =~= w_ppd_s());
    }
    v
}

/// The bytes of `tfn`.
pub open spec fn w_tfn_s() -> Seq<u8> {
    seq![116u8, 102u8, 110u8]
}

/// The bytes of `tfn`.
pub fn w_tfn() -> (r: Vec<u8>)
    ensures
        r@ == w_tfn_s(),
{
    let mut v: Vec<u8> = Vec::new();
    v.push(116);
    v.push(102);
    v.push(110);
    proof {
        assert(v@ =~= w_tfn_s());
    }
    v
}

/// The bytes of `tmod`.
pub open spec fn w_tmod_s() -> Seq<u8> {
    seq![116u8, 109u8, 111u8, 100u8]
}

/// The bytes of `tmod`.
pub fn w_tmod() -> (r: Vec<u8>)
    ensures
        r@ == w_tmod_s(),
{
    let mut v: Vec<u8> = Vec::new();
    v.push(116);
    v.push(109);
    v.push(111);
    v.push(100);
    proof {
        assert(v@ =~= w_tmod_s());
    }
    v
}

/// The bytes of `ref`.
pub open spec fn w_ref_s() -> Seq<u8> {
    seq![114u8, 101u8, 102u8]
}

/// The bytes of `ref`.
pub fn w_ref() -> (r: Vec<u8>)
    ensures
        r@ == w_ref_s(),
{
    let mut v: Vec<u8> = Vec::new();
    v.push(114);
    v.push(101);
    v.push(102);
    proof {
        assert(v@ =~= w_ref_s());
    }
    v
}

/// The bytes of `refm`.
pub open spec fn w_refm_s() -> Seq<u8> {
    seq![114u8, 101u8, 102u8, 109u8]
}

/// The bytes of `refm`.
pub fn w_refm() -> (r: Vec<u8>)
    ensures
        r@ == w_refm_s(),
{
    let mut v: Vec<u8> = Vec::new();
    v.push(114);
    v.push(101);
    v.push(102);
    v.push(109);
    proof {
        assert(v@ =~= w_refm_s());
    }
    v
}

/// The bytes of `letm`.
pub open spec fn w_letm_s() -> Seq<u8> {
    seq![108u8, 101u8, 116u8, 109u8]
}

/// The bytes of `letm`.
pub fn w_letm() -> (r: Vec<u8>)
    ensures
        r@ == w_letm_s(),
{
    let mut v: Vec<u8> = Vec::new();
    v.push(108);
    v.push(101);
    v.push(116);
    v.push(109);
    proof {
        assert(v@ =~= w_letm_s());
    }
    v
}

/// The bytes of `not`.
pub open spec fn w_not_s() -> Seq<u8> {
    seq![110u8, 111u8, 116u8]
}

/// The bytes of `not`.
pub fn w_not() -> (r: Vec<u8>)
    ensures
        r@ == w_not_s(),
{
    let mut v: Vec<u8> = Vec::new();
    v.push(110);
    v.push(111);
    v.push(116);
    proof {
        assert(v@ =~= w_not_s());
    }
    v
}

/// The bytes of `dbg`.
pub open spec fn w_dbg_s() -> Seq<u8> {
    seq![100u8, 98u8, 103u8]
}

/// The bytes of `dbg`.
pub fn w_dbg() -> (r: Vec<u8>)
    ensures
        r@ == w_dbg_s(),
{
    let mut v: Vec<u8> = Vec::new();
    v.push(100);
    v.push(98);
    v.push(103);
    proof {
        assert(v@ =~= w_dbg_s());
    }
    v
}

/// The bytes of `dbgr`.
pub open spec fn w_dbgr_s() -> Seq<u8> {
    seq![100u8, 98u8, 103u8, 114u8]
}

/// The bytes of `dbgr`.
pub fn w_dbgr() -> (r: Vec<u8>)
    ensures
        r@ == w_dbgr_s(),
{
    let mut v: Vec<u8> = Vec::new();
    v.push(100);
    v.push(98);
    v.push(103);
    v.push(114);
    proof {
        assert(v@ =~= w_dbgr_s());
    }
    v
}

/// The bytes of `call`.
pub open spec fn w_call_s() -> Seq<u8> {
    seq![99u8, 97u8, 108u8, 108u8]
}

/// The bytes of `call`.
pub fn w_call() -> (r: Vec<u8>)
    ensures
        r@ == w_call_s(),
{
    let mut v: Vec<u8> = Vec::new();
    v.push(99);
    v.push(97);
    v.push(108);
    v.push(108);
    proof {
        assert(v@ =~= w_call_s());
    }
    v
}

/// The bytes of `struct`.
pub open spec fn w_struct_s() -> Seq<u8> {
    seq![115u8, 116u8, 114u8, 117u8, 99u8, 116u8]
}

/// The bytes of `struct`.
pub fn w_struct() -> (r: Vec<u8>)
    ensures
        r@ == w_struct_s(),
{
    let mut v: Vec<u8> = Vec::new();
    v.push(115);
    v.push(116);
    v.push(114);
    v.push(117);
    v.push(99);
    v.push(116);
    proof {
        assert(v@ =~= w_struct_s());
    }
    v
}

/// The bytes of `enum`.
pub open spec fn w_enum_s() -> Seq<u8> {
    seq![101u8, 110u8, 117u8, 109u8]
}

/// The bytes of `enum`.
pub fn w_enum() -> (r: Vec<u8>)
    ensures
        r@ == w_enum_s(),
{
    let mut v: Vec<u8> = Vec::new();
    v.push(101);
    v.push(110);
    v.push(117);
    v.push(109);
    proof {
        assert(v@ =~= w_enum_s());
    }
    v
}

/// The bytes of `derive`.
pub open spec fn w_derive_s() -> Seq<u8> {
    seq![100u8, 101u8, 114u8, 105u8, 118u8, 101u8]
}

/// The bytes of `derive`.
pub fn w_derive() -> (r: Vec<u8>)
    ensures
        r@ == w_derive_s(),
{
    let mut v: Vec<u8> = Vec::new();
    v.push(100);
    v.push(101);
    v.push(114);
    v.push(105);
    v.push(118);
    v.push(101);
    proof {
        assert(v@ =~= w_derive_s());
    }
    v
}

/// The bytes of `cfg`.
pub open spec fn w_cfg_s() -> Seq<u8> {
    seq![99u8, 102u8, 103u8]
}

/// The bytes of `cfg`.
pub fn w_cfg() -> (r: Vec<u8>)
    ensures
        r@ == w_cfg_s(),
{
    let mut v: Vec<u8> = Vec::new();
    v.push(99);
    v.push(102);
    v.push(103);
    proof {
        assert(v@ =~= w_cfg_s());
    }
    v
}

/// The bytes of `doc`.
pub open spec fn w_doc_s() -> Seq<u8> {
    seq![100u8, 111u8, 99u8]
}

/// The bytes of `doc`.
pub fn w_doc() -> (r: Vec<u8>)
    ensures
        r@ == w_doc_s(),
{
    let mut v: Vec<u8> = Vec::new();
    v.push(100);
    v.push(111);
    v.push(99);
    proof {
        assert(v@ =~= w_doc_s());
    }
    v
}

/// The bytes of `test`.
pub open spec fn w_test_s() -> Seq<u8> {
    seq![116u8, 101u8, 115u8, 116u8]
}

/// The bytes of `test`.
pub fn w_test() -> (r: Vec<u8>)
    ensures
        r@ == w_test_s(),
{
    let mut v: Vec<u8> = Vec::new();
    v.push(116);
    v.push(101);
    v.push(115);
    v.push(116);
    proof {
        assert(v@ =~= w_test_s());
    }
    v
}

/// The bytes of `inline`.
pub open spec fn w_inline_s() -> Seq<u8> {
    seq![105u8, 110u8, 108u8, 105u8, 110u8, 101u8]
}

/// The bytes of `inline`.
pub fn w_inline() -> (r: Vec<u8>)
    ensures
        r@ == w_inline_s(),
{
    let mut v: Vec<u8> = Vec::new();
    v.push(105);
    v.push(110);
    v.push(108);
    v.push(105);
    v.push(110);
    v.push(101);
    proof {
        assert(v@ =~= w_inline_s());
    }
    v
}

/// The bytes of `allow`.
pub open spec fn w_allow_s() -> Seq<u8> {
    seq![97u8, 108u8, 108u8, 111u8, 119u8]
}

/// The bytes of `allow`.
pub fn w_allow() -> (r: Vec<u8>)
    ensures
        r@ == w_allow_s(),
{
    let mut v: Vec<u8> = Vec::new();
    v.push(97);
    v.push(108);
    v.push(108);
    v.push(111);
    v.push(119);
    proof {
        assert(v@ =~= w_allow_s());
    }
    v
}

} // verus!
