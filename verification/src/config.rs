//! Per-request completion configuration.

use vstd::prelude::*;

verus! {

/// An immutable, per-request bundle of feature flags.
///
/// Every strategy reads the configuration; none mutates it.  Omitted options
/// default to the conservative setting (off), so a default configuration
/// yields only the always-on reference and keyword completions.
#[derive(Clone, Copy)]
pub struct CompletionConfig {
    /// Activate the postfix rewrite strategy (`expr.if`, `expr.not`, ...).
    pub enable_postfix: bool,
    /// Activate the expression and item snippet strategies.
    pub enable_snippets: bool,
    /// Widen unqualified-path enumeration to importable out-of-scope items,
    /// attaching an import edit to each such candidate.
    pub enable_experimental_autoimport: bool,
}

impl Default for CompletionConfig {
    /// The conservative configuration: every optional feature is off.
    fn default() -> (r: Self)
        ensures
            !r.enable_postfix,
            !r.enable_snippets,
            !r.enable_experimental_autoimport,
    {
        CompletionConfig {
            enable_postfix: false,
            enable_snippets: false,
            enable_experimental_autoimport: false,
        }
    }
}

} // verus!
