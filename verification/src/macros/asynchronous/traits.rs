//! Async traits: the extension trait that gives a trait's async functions
//! their task form

use vstd::prelude::*;
use vstd::string::StringExecFns;
use crate::macros::asynchronous::options::{AsyncKind, AttributeArgs};

verus! {

/// The name of a trait's extension trait
pub fn format_trait_ident(name: &str) -> (r: String)
    ensures
        r@ == name@ + "Ext"@,
{
    String::from_str(name).concat("Ext")
}

/// The items of an extension trait: each function of the trait, in order,
/// followed by its documentation copy; other items are left out
pub open spec fn ext_layout(is_fn: Seq<bool>, n: int) -> Seq<(usize, bool)>
    decreases n,
{
    if n <= 0 {
        Seq::empty()
    } else if is_fn[n - 1] {
        ext_layout(is_fn, n - 1).push(((n - 1) as usize, false)).push(((n - 1) as usize, true))
    } else {
        ext_layout(is_fn, n - 1)
    }
}

/// The extension trait made from a trait
pub struct TraitExtPlan {
    /// Its name
    pub ident: String,
    /// The options its functions are transformed with
    pub args: AttributeArgs,
    /// Where the trait's items go (see [`ext_layout`])
    pub layout: Vec<(usize, bool)>,
}

/// Plan the extension trait of trait `name`, whose items are functions or
/// not as `is_fn` says: it is named `nameExt`, has the trait as a supertrait,
/// and its functions are transformed as extension functions with the other
/// options of `args`
pub fn trait_ext_plan(name: &str, args: AttributeArgs, is_fn: &[bool]) -> (r: TraitExtPlan)
    ensures
        r.ident@ == name@ + "Ext"@,
        r.args.async_kind == (AsyncKind::TraitExt, args.async_kind.1),
        r.args.language == args.language,
        r.args.impl_gen == args.impl_gen,
        r.layout@ == ext_layout(is_fn@, is_fn@.len() as int),
{
    let mut args = args;
    args.async_kind = (AsyncKind::TraitExt, args.async_kind.1);
    let mut layout: Vec<(usize, bool)> = Vec::new();
    let mut i: usize = 0;
    while i < is_fn.len()
        invariant
            i <= is_fn@.len(),
            layout@ == ext_layout(is_fn@, i as int),
        decreases is_fn@.len() - i,
    {
        if is_fn[i] {
            layout.push((i, false));
            layout.push((i, true));
        }
        i = i + 1;
    }
    TraitExtPlan { ident: format_trait_ident(name), args, layout }
}

} // verus!
