//! The arguments a transformed function passes on

use vstd::prelude::*;
use crate::macros::str_eq;

verus! {

/// A token of an argument's pattern
#[derive(Debug)]
pub enum PatToken {
    Ident(String),
    Punct(char),
    Other(String),
    /// The `self` receiver
    SelfValue,
}

/// An argument of a function signature
#[derive(Debug)]
pub enum FnArg {
    /// `self`, `&self`, `&mut self` and the like
    Receiver,
    /// `pattern: Type`, with the tokens of the pattern
    Typed(Vec<PatToken>),
}

/// The pattern token at `i` stays once bindings lose `ref` and `mut`: `ref`
/// goes, and `mut` goes unless it follows `&`
pub open spec fn keep_pat_token(ts: Seq<PatToken>, i: int) -> bool {
    match ts[i] {
        PatToken::Ident(s) => !(s@ == "ref"@) && !(s@ == "mut"@ && !(i > 0 && (ts[i - 1] matches PatToken::Punct(c) && c == '&'))),
        _ => true,
    }
}

/// The first `n` tokens of a pattern with bindings made plain
pub open spec fn strip_ref_mut(ts: Seq<PatToken>, n: int) -> Seq<PatToken>
    decreases n,
{
    if n <= 0 {
        Seq::empty()
    } else if keep_pat_token(ts, n - 1) {
        strip_ref_mut(ts, n - 1).push(ts[n - 1])
    } else {
        strip_ref_mut(ts, n - 1)
    }
}

/// The arguments passed on for the first `n` inputs of a signature
pub open spec fn args_spec(inputs: Seq<FnArg>, n: int, include_receiver: bool) -> Seq<Seq<PatToken>>
    decreases n,
{
    if n <= 0 {
        Seq::empty()
    } else {
        let prev = args_spec(inputs, n - 1, include_receiver);
        match inputs[n - 1] {
            FnArg::Typed(p) => prev.push(strip_ref_mut(p@, p@.len() as int)),
            FnArg::Receiver => if include_receiver {
                prev.push(seq![PatToken::SelfValue])
            } else {
                prev
            },
        }
    }
}

fn clone_token(t: &PatToken) -> (r: PatToken)
    ensures
        r == *t,
{
    match t {
        PatToken::Ident(s) => PatToken::Ident(s.clone()),
        PatToken::Punct(c) => PatToken::Punct(*c),
        PatToken::Other(s) => PatToken::Other(s.clone()),
        PatToken::SelfValue => PatToken::SelfValue,
    }
}

/// The pattern with `ref` and `mut` taken off its bindings
pub fn remove_ref_mut(pat: &Vec<PatToken>) -> (r: Vec<PatToken>)
    ensures
        r@ == strip_ref_mut(pat@, pat@.len() as int),
{
    let mut out: Vec<PatToken> = Vec::new();
    let mut i: usize = 0;
    while i < pat.len()
        invariant
            i <= pat@.len(),
            out@ == strip_ref_mut(pat@, i as int),
        decreases pat@.len() - i,
    {
        let keep = match &pat[i] {
            PatToken::Ident(s) => {
                if str_eq(s.as_str(), "ref") {
                    false
                } else if str_eq(s.as_str(), "mut") {
                    i > 0 && match &pat[i - 1] {
                        PatToken::Punct(c) => *c == '&',
                        _ => false,
                    }
                } else {
                    true
                }
            },
            _ => true,
        };
        if keep {
            out.push(clone_token(&pat[i]));
        }
        i = i + 1;
    }
    out
}

/// The arguments a function passes on to what it wraps: each typed
/// argument's pattern made plain, and `self` where the receiver is included
pub fn get_args(inputs: &Vec<FnArg>, include_receiver: bool) -> (r: Vec<Vec<PatToken>>)
    ensures
        r@.map_values(|v: Vec<PatToken>| v@) == args_spec(inputs@, inputs@.len() as int, include_receiver),
{
    let mut out: Vec<Vec<PatToken>> = Vec::new();
    let mut i: usize = 0;
    while i < inputs.len()
        invariant
            i <= inputs@.len(),
            out@.map_values(|v: Vec<PatToken>| v@) == args_spec(inputs@, i as int, include_receiver),
        decreases inputs@.len() - i,
    {
        let ghost before = out@;
        match &inputs[i] {
            FnArg::Typed(p) => {
                out.push(remove_ref_mut(p));
            },
            FnArg::Receiver => {
                if include_receiver {
                    let mut v: Vec<PatToken> = Vec::new();
                    v.push(PatToken::SelfValue);
                    out.push(v);
                }
            },
        }
        proof {
            assert(out@.map_values(|v: Vec<PatToken>| v@) =~= args_spec(inputs@, i + 1, include_receiver));
        }
        i = i + 1;
    }
    out
}

} // verus!
