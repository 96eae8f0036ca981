//! The context lifetime of an asynchronous function and the argument tuple of
//! its closures

use vstd::prelude::*;
use crate::macros::{ErrorMessage, ParseError, Span};
use crate::macros::asynchronous::options::{AttributeArgs, ClosureType, Lang};
use crate::macros::make_closure::{join_tuple, JoinedTuple};

verus! {

/// A generic parameter of a signature; a lifetime carries the span of its
/// `#[cx]` attribute where it has one
#[derive(Clone, Copy, Debug)]
pub enum GenericParamAttr {
    Lifetime { cx: Option<Span> },
    Other,
}

/// Whether the parameter is a lifetime marked `#[cx]`
pub open spec fn is_cx(p: GenericParamAttr) -> bool {
    p matches GenericParamAttr::Lifetime { cx: Some(_) }
}

/// The span of a parameter's `#[cx]` attribute
pub open spec fn cx_span(p: GenericParamAttr) -> Span {
    match p {
        GenericParamAttr::Lifetime { cx: Some(s) } => s,
        _ => Span { id: 0 },
    }
}

/// The lifetime marked `#[cx]` among the generic parameters, by its index:
/// none where no lifetime is marked, and an error at the second mark where
/// two are
pub fn context_lifetime(params: &Vec<GenericParamAttr>) -> (r: Result<Option<usize>, ParseError>)
    ensures
        match r {
            Ok(None) => forall|i: int| 0 <= i < params@.len() ==> !is_cx(#[trigger] params@[i]),
            Ok(Some(k)) => {
                &&& k < params@.len()
                &&& is_cx(params@[k as int])
                &&& forall|i: int| 0 <= i < params@.len() && i != k ==> !is_cx(#[trigger] params@[i])
            },
            Err(e) => exists|i: int, j: int|
                {
                    &&& 0 <= i < j < params@.len()
                    &&& is_cx(#[trigger] params@[i])
                    &&& is_cx(#[trigger] params@[j])
                    &&& forall|m: int| 0 <= m < j && m != i ==> !is_cx(#[trigger] params@[m])
                    &&& e == ParseError { span: cx_span(params@[j]), message: ErrorMessage::DuplicateContextLifetime }
                },
        },
{
    let mut found: Option<usize> = None;
    let mut i: usize = 0;
    while i < params.len()
        invariant
            i <= params@.len(),
            match found {
                None => forall|m: int| 0 <= m < i ==> !is_cx(#[trigger] params@[m]),
                Some(k) => {
                    &&& k < i
                    &&& is_cx(params@[k as int])
                    &&& forall|m: int| 0 <= m < i && m != k ==> !is_cx(#[trigger] params@[m])
                },
            },
        decreases params@.len() - i,
    {
        if let GenericParamAttr::Lifetime { cx: Some(span) } = params[i] {
            if let Some(k) = found {
                let e = ParseError { span, message: ErrorMessage::DuplicateContextLifetime };
                assert(is_cx(params@[k as int]) && is_cx(params@[i as int]));
                return Err(e);
            }
            found = Some(i);
        }
        i = i + 1;
    }
    Ok(found)
}

/// An argument of a closure: a pattern with its type, or a bare pattern
#[derive(Debug)]
pub enum ClosureArg<P, T> {
    Typed(P, T),
    Untyped(P),
}

/// The type given to an argument of the tuple: its own, or `_`
#[derive(Debug)]
pub enum ArgType<T> {
    Given(T),
    Infer,
}

pub open spec fn arg_pat<P, T>(a: ClosureArg<P, T>) -> P {
    match a {
        ClosureArg::Typed(p, _) => p,
        ClosureArg::Untyped(p) => p,
    }
}

pub open spec fn arg_type<P, T>(a: ClosureArg<P, T>) -> ArgType<T> {
    match a {
        ClosureArg::Typed(_, t) => ArgType::Given(t),
        ClosureArg::Untyped(_) => ArgType::Infer,
    }
}

/// The items joined into a tuple, and whether they are in parentheses
pub open spec fn joined<T>(j: JoinedTuple<T>) -> (bool, Seq<T>) {
    match j {
        JoinedTuple::Bare(v) => (false, v@),
        JoinedTuple::Parenthesized(v) => (true, v@),
    }
}

/// Fold a closure's arguments into one: the tuple of their patterns, typed
/// by the tuple of their types, `_` standing for an argument without one
pub fn tuple_args<P, T>(args: Vec<ClosureArg<P, T>>) -> (r: (JoinedTuple<P>, JoinedTuple<ArgType<T>>))
    ensures
        joined(r.0) == (args@.len() != 1, args@.map_values(|a: ClosureArg<P, T>| arg_pat(a))),
        joined(r.1) == (args@.len() != 1, args@.map_values(|a: ClosureArg<P, T>| arg_type(a))),
{
    let ghost all = args@;
    let mut rest = args;
    let mut pats: Vec<P> = Vec::new();
    let mut tys: Vec<ArgType<T>> = Vec::new();
    while rest.len() > 0
        invariant
            pats@.len() + rest@.len() == all.len(),
            tys@.len() == pats@.len(),
            rest@ == all.subrange(pats@.len() as int, all.len() as int),
            forall|i: int| 0 <= i < pats@.len() ==> pats@[i] == arg_pat(#[trigger] all[i]),
            forall|i: int| 0 <= i < tys@.len() ==> tys@[i] == arg_type(#[trigger] all[i]),
        decreases rest@.len(),
    {
        let ghost before = pats@.len();
        let a = rest.remove(0);
        assert(a == all[before as int]);
        match a {
            ClosureArg::Typed(p, t) => {
                pats.push(p);
                tys.push(ArgType::Given(t));
            },
            ClosureArg::Untyped(p) => {
                pats.push(p);
                tys.push(ArgType::Infer);
            },
        }
        assert(rest@ =~= all.subrange(pats@.len() as int, all.len() as int));
    }
    assert(pats@ =~= all.map_values(|a: ClosureArg<P, T>| arg_pat(a)));
    assert(tys@ =~= all.map_values(|a: ClosureArg<P, T>| arg_type(a)));
    (join_tuple(pats), join_tuple(tys))
}

/// What the `asynchronous` transform looks at in a function
#[derive(Clone, Copy, Debug)]
pub struct AsyncSig {
    /// The span of the `async` keyword, if there is one
    pub asyncness: Option<Span>,
    /// The span of the `fn` keyword
    pub fn_token: Span,
    /// The span of the whole signature
    pub sig_span: Span,
    /// Whether the function is already `unsafe`
    pub unsafety: bool,
    /// The number of generic parameters, and the span of the generics
    pub generics: (usize, Span),
    /// The lifetime marked `#[cx]`, by its span (see [`context_lifetime`])
    pub cx_lifetime: Option<Span>,
    /// The body: its span, whether it has no statements, and whether it
    /// awaits anything; none for a declaration
    pub block: Option<(Span, bool, bool)>,
}

/// The lifetime that the task's output is generic over
#[derive(Clone, Copy, Debug, PartialEq, Eq, Structural)]
pub enum ForLifetime {
    /// The `#[cx]` lifetime of the function
    Context(Span),
    /// `'current`, for the `get_context` language item
    Current,
    /// The runtime's own lifetime
    Internal,
}

/// How the `asynchronous` transform rewrites a function
#[derive(Clone, Copy, Debug, PartialEq, Eq, Structural)]
pub enum AsyncPlan {
    /// Not an async function: only its `.await`s inside are rewritten
    Sync,
    /// The context is passed as an extra argument; the function is made
    /// `unsafe` unless it is already, and then a body denies unsafe
    /// operations that are not marked
    Plain { make_unsafe: bool, deny_unsafe_op: bool },
    /// The function returns a task closure generic over `for_lifetime`;
    /// `clear_generics` drops the `#[cx]` lifetime from the generics;
    /// `annotate` names elided lifetimes; `lending` makes the task lend the
    /// context lifetime; `warn_no_await` marks a body that never awaits
    Closure {
        for_lifetime: ForLifetime,
        clear_generics: bool,
        annotate: bool,
        lending: bool,
        warn_no_await: bool,
    },
}

/// The span of the body, where there is one
pub open spec fn block_span(sig: AsyncSig) -> Span {
    match sig.block {
        Some((span, _, _)) => span,
        None => sig.sig_span,
    }
}

/// The error of the checks the transform makes, in the order it makes them
pub open spec fn async_plan_error(sig: AsyncSig, args: AttributeArgs, is_root: bool) -> Option<ParseError> {
    let closure = args.async_kind.0.closure_type_spec();
    if sig.asyncness is None {
        if is_root {
            Some(ParseError { span: sig.fn_token, message: ErrorMessage::MissingAsync })
        } else {
            None
        }
    } else if args.language is Some && sig.cx_lifetime is Some {
        Some(ParseError { span: sig.cx_lifetime->0, message: ErrorMessage::ContextLifetimeInLang })
    } else if args.language is Some && sig.block is None {
        Some(ParseError { span: sig.sig_span, message: ErrorMessage::EmptyBlockRequired })
    } else if args.language is Some && (sig.block matches Some((span, empty, _)) && !empty) {
        Some(ParseError { span: block_span(sig), message: ErrorMessage::BlockMustBeEmpty })
    } else if sig.cx_lifetime is Some && sig.generics.0 != 1 {
        Some(ParseError { span: sig.generics.1, message: ErrorMessage::GenericsNotAllowed })
    } else if sig.cx_lifetime is Some && closure == ClosureType::Plain {
        Some(ParseError { span: args.async_kind.1, message: ErrorMessage::UnsupportedClosureType })
    } else {
        None
    }
}

/// The rewrite of a function that passes the checks
pub open spec fn async_plan_spec(sig: AsyncSig, args: AttributeArgs, is_root: bool) -> AsyncPlan {
    let closure = args.async_kind.0.closure_type_spec();
    if sig.asyncness is None {
        AsyncPlan::Sync
    } else if closure == ClosureType::Plain {
        AsyncPlan::Plain { make_unsafe: !sig.unsafety, deny_unsafe_op: !sig.unsafety && sig.block is Some }
    } else {
        AsyncPlan::Closure {
            for_lifetime: match sig.cx_lifetime {
                Some(s) => ForLifetime::Context(s),
                None => if args.language matches Some((Lang::GetContext, _)) {
                    ForLifetime::Current
                } else {
                    ForLifetime::Internal
                },
            },
            clear_generics: sig.cx_lifetime is Some,
            annotate: closure != ClosureType::Trait && args.language is None,
            lending: sig.cx_lifetime is Some,
            warn_no_await: sig.block matches Some((_, _, awaits)) && !awaits && args.language is None
                && args.async_kind.0 != crate::macros::asynchronous::options::AsyncKind::TraitFn,
        }
    }
}

/// Decide how the `asynchronous` transform rewrites a function with the
/// options `args`; `is_root` tells whether the attribute is on the function
/// itself (which must then be `async`) rather than on its impl or trait
pub fn transform_async_plan(sig: &AsyncSig, args: &AttributeArgs, is_root: bool) -> (r: Result<AsyncPlan, ParseError>)
    ensures
        match async_plan_error(*sig, *args, is_root) {
            Some(e) => r == Err::<AsyncPlan, ParseError>(e),
            None => r == Ok::<AsyncPlan, ParseError>(async_plan_spec(*sig, *args, is_root)),
        },
{
    let closure = args.async_kind.0.closure_type();
    if sig.asyncness.is_none() {
        if is_root {
            return Err(ParseError { span: sig.fn_token, message: ErrorMessage::MissingAsync });
        }
        return Ok(AsyncPlan::Sync);
    }
    if args.language.is_some() {
        if let Some(s) = sig.cx_lifetime {
            return Err(ParseError { span: s, message: ErrorMessage::ContextLifetimeInLang });
        }
        match sig.block {
            None => return Err(ParseError { span: sig.sig_span, message: ErrorMessage::EmptyBlockRequired }),
            Some((span, empty, _)) => if !empty {
                return Err(ParseError { span, message: ErrorMessage::BlockMustBeEmpty });
            },
        }
    }
    if sig.cx_lifetime.is_some() {
        if sig.generics.0 != 1 {
            return Err(ParseError { span: sig.generics.1, message: ErrorMessage::GenericsNotAllowed });
        }
        if closure == ClosureType::Plain {
            return Err(ParseError { span: args.async_kind.1, message: ErrorMessage::UnsupportedClosureType });
        }
    }
    if closure == ClosureType::Plain {
        return Ok(AsyncPlan::Plain { make_unsafe: !sig.unsafety, deny_unsafe_op: !sig.unsafety && sig.block.is_some() });
    }
    let for_lifetime = match sig.cx_lifetime {
        Some(s) => ForLifetime::Context(s),
        None => match args.language {
            Some((Lang::GetContext, _)) => ForLifetime::Current,
            _ => ForLifetime::Internal,
        },
    };
    let warn_no_await = match sig.block {
        Some((_, _, awaits)) => !awaits && args.language.is_none()
            && args.async_kind.0 != crate::macros::asynchronous::options::AsyncKind::TraitFn,
        None => false,
    };
    Ok(AsyncPlan::Closure {
        for_lifetime,
        clear_generics: sig.cx_lifetime.is_some(),
        annotate: closure != ClosureType::Trait && args.language.is_none(),
        lending: sig.cx_lifetime.is_some(),
        warn_no_await,
    })
}

} // verus!
