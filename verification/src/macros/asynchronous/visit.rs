//! Rewriting `AsyncFn(..) -> ..` bounds into the runtime's async closure
//! traits, naming the lifetimes they leave out

use vstd::prelude::*;
use crate::macros::{str_eq, ErrorMessage, ParseError, Span};
use crate::macros::make_closure::{join_tuple, JoinedTuple};

verus! {

/// A lifetime in a type
#[derive(Clone, Copy, Debug, PartialEq, Eq, Structural)]
pub enum LifetimeTok {
    /// `'_`
    Elided,
    /// A lifetime with a name, by its span
    Written(Span),
    /// The added lifetime with this number (`'__xx_hrlt_n`)
    Added(usize),
}

/// A type, as far as its lifetimes go
#[derive(Debug)]
pub enum TypeModel {
    /// `&'a T` or `&T`: its lifetime, if written, and the referenced type
    Ref(Option<LifetimeTok>, Box<TypeModel>),
    /// `impl Bounds`, with the lifetime bound added to it, if any
    Impl(Option<LifetimeTok>),
    /// A lifetime standing in the type, such as a generic argument
    Life(LifetimeTok),
    /// A part of the type followed by the rest of it
    Cons(Box<TypeModel>, Box<TypeModel>),
    /// A part of the type with no lifetime in it
    Nil,
}

/// The lifetimes a type leaves out: each reference without one, each `impl`
/// type, and each `'_`
pub open spec fn elided_count(ty: TypeModel) -> nat
    decreases ty,
{
    match ty {
        TypeModel::Ref(Some(_), _) => 0,
        TypeModel::Ref(None, elem) => match *elem {
            TypeModel::Impl(_) => 1,
            _ => elided_count(*elem) + 1,
        },
        TypeModel::Impl(_) => 1,
        TypeModel::Life(l) => if l is Elided { 1 } else { 0 },
        TypeModel::Cons(a, b) => elided_count(*a) + elided_count(*b),
        TypeModel::Nil => 0,
    }
}

/// The type with the lifetimes it leaves out named, in the order they are
/// met, from number `next` on: a reference's own lifetime comes after those
/// inside it; a reference with a written lifetime is left as it is, and so is
/// what an `impl` type or a reference to one holds inside
pub open spec fn named_type(ty: TypeModel, next: nat) -> TypeModel
    decreases ty,
{
    match ty {
        TypeModel::Ref(Some(l), elem) => TypeModel::Ref(Some(l), elem),
        TypeModel::Ref(None, elem) => match *elem {
            TypeModel::Impl(b) => TypeModel::Ref(Some(LifetimeTok::Added(next as usize)), elem),
            _ => TypeModel::Ref(
                Some(LifetimeTok::Added((next + elided_count(*elem)) as usize)),
                Box::new(named_type(*elem, next)),
            ),
        },
        TypeModel::Impl(_) => TypeModel::Impl(Some(LifetimeTok::Added(next as usize))),
        TypeModel::Life(l) => if l is Elided {
            TypeModel::Life(LifetimeTok::Added(next as usize))
        } else {
            TypeModel::Life(l)
        },
        TypeModel::Cons(a, b) => TypeModel::Cons(
            Box::new(named_type(*a, next)),
            Box::new(named_type(*b, next + elided_count(*a))),
        ),
        TypeModel::Nil => TypeModel::Nil,
    }
}

/// Name the lifetimes `ty` leaves out, numbering them from `next`; returns
/// the type and the next free number
pub fn name_lifetimes(ty: TypeModel, next: usize) -> (r: (TypeModel, usize))
    requires
        next + elided_count(ty) <= usize::MAX,
    ensures
        r.0 == named_type(ty, next as nat),
        r.1 == next + elided_count(ty),
    decreases ty,
{
    match ty {
        TypeModel::Ref(Some(l), elem) => (TypeModel::Ref(Some(l), elem), next),
        TypeModel::Ref(None, elem) => {
            let inner = *elem;
            match inner {
                TypeModel::Impl(b) => (TypeModel::Ref(Some(LifetimeTok::Added(next)), Box::new(TypeModel::Impl(b))), next + 1),
                _ => {
                    let (named, after) = name_lifetimes(inner, next);
                    (TypeModel::Ref(Some(LifetimeTok::Added(after)), Box::new(named)), after + 1)
                },
            }
        },
        TypeModel::Impl(_) => (TypeModel::Impl(Some(LifetimeTok::Added(next))), next + 1),
        TypeModel::Life(l) => match l {
            LifetimeTok::Elided => (TypeModel::Life(LifetimeTok::Added(next)), next + 1),
            _ => (TypeModel::Life(l), next),
        },
        TypeModel::Cons(a, b) => {
            let (na, mid) = name_lifetimes(*a, next);
            let (nb, after) = name_lifetimes(*b, mid);
            (TypeModel::Cons(Box::new(na), Box::new(nb)), after)
        },
        TypeModel::Nil => (TypeModel::Nil, next),
    }
}

/// The arguments of a bound's last path segment
#[derive(Debug)]
pub enum BoundArgs {
    /// `(inputs) -> output`; no output is `()`
    Parenthesized(Vec<TypeModel>, Option<TypeModel>),
    /// Angle-bracketed arguments or none, by their span
    Other(Span),
}

/// A bound on a type parameter: a trait bound, with the name of its path's
/// last segment and that segment's arguments, or a lifetime bound
#[derive(Debug)]
pub enum BoundModel {
    Trait(String, BoundArgs),
    Lifetime,
}

/// An `AsyncFn` bound rewritten: the tuple of its inputs with their left out
/// lifetimes named, its output (none is `()`), and how many lifetimes were
/// added, which the bound becomes generic over (`for<'__xx_hrlt_1, ..>`)
#[derive(Debug)]
pub struct AsyncFnBound {
    pub inputs: JoinedTuple<TypeModel>,
    pub output: Option<TypeModel>,
    pub added: usize,
}

/// The async closure traits whose bounds are rewritten
pub open spec fn is_async_fn_trait(name: Seq<char>) -> bool {
    name == "AsyncFnOnce"@ || name == "AsyncFnMut"@ || name == "AsyncFn"@
}

/// The total of the left out lifetimes of the first `k` types
pub open spec fn elided_total(tys: Seq<TypeModel>, k: int) -> nat
    decreases k,
{
    if k <= 0 {
        0
    } else {
        elided_total(tys, k - 1) + elided_count(tys[k - 1])
    }
}

/// Rewrite a bound: `AsyncFnOnce`, `AsyncFnMut` and `AsyncFn` with
/// parenthesized arguments `(A, B) -> O` become the runtime's async closure
/// traits over the tuple of the inputs and the output, with the left out
/// lifetimes of the inputs named from 1 on; such a bound without
/// parentheses is refused; any other bound is left as it is (`None`)
pub fn async_fn_bound(bound: BoundModel) -> (r: Result<Option<AsyncFnBound>, ParseError>)
    requires
        bound matches BoundModel::Trait(_, BoundArgs::Parenthesized(ins, _)) ==> elided_total(ins@, ins@.len() as int) + 1
            <= usize::MAX,
    ensures
        match bound {
            BoundModel::Lifetime => r == Ok::<Option<AsyncFnBound>, ParseError>(None),
            BoundModel::Trait(name, args) => if !is_async_fn_trait(name@) {
                r == Ok::<Option<AsyncFnBound>, ParseError>(None)
            } else {
                match args {
                    BoundArgs::Other(s) => r == Err::<Option<AsyncFnBound>, ParseError>(
                        ParseError { span: s, message: ErrorMessage::ExpectedParenthetical },
                    ),
                    BoundArgs::Parenthesized(ins, out) => r matches Ok(Some(b)) && {
                        let items = match b.inputs {
                            JoinedTuple::Bare(v) => v@,
                            JoinedTuple::Parenthesized(v) => v@,
                        };
                        &&& (b.inputs is Parenthesized <==> ins@.len() != 1)
                        &&& items.len() == ins@.len()
                        &&& forall|i: int|
                            0 <= i < ins@.len() ==> #[trigger] items[i] == named_type(
                                ins@[i],
                                1 + elided_total(ins@, i),
                            )
                        &&& b.output == out
                        &&& b.added == elided_total(ins@, ins@.len() as int)
                    },
                }
            },
        },
{
    match bound {
        BoundModel::Lifetime => Ok(None),
        BoundModel::Trait(name, args) => {
            if !(str_eq(name.as_str(), "AsyncFnOnce") || str_eq(name.as_str(), "AsyncFnMut") || str_eq(
                name.as_str(),
                "AsyncFn",
            )) {
                return Ok(None);
            }
            match args {
                BoundArgs::Other(s) => Err(ParseError { span: s, message: ErrorMessage::ExpectedParenthetical }),
                BoundArgs::Parenthesized(ins, out) => {
                    let ghost all = ins@;
                    let mut rest = ins;
                    let mut named: Vec<TypeModel> = Vec::new();
                    let mut next: usize = 1;
                    proof {
                        lemma_elided_total_mono(all, 0, all.len() as int);
                    }
                    while rest.len() > 0
                        invariant
                            named@.len() + rest@.len() == all.len(),
                            rest@ == all.subrange(named@.len() as int, all.len() as int),
                            next == 1 + elided_total(all, named@.len() as int),
                            elided_total(all, all.len() as int) + 1 <= usize::MAX,
                            forall|i: int|
                                0 <= i < named@.len() ==> #[trigger] named@[i] == named_type(
                                    all[i],
                                    1 + elided_total(all, i),
                                ),
                        decreases rest@.len(),
                    {
                        let ghost k = named@.len() as int;
                        let ty = rest.remove(0);
                        assert(ty == all[k]);
                        proof {
                            lemma_elided_total_mono(all, k + 1, all.len() as int);
                        }
                        let (t, after) = name_lifetimes(ty, next);
                        named.push(t);
                        next = after;
                        assert(rest@ =~= all.subrange(named@.len() as int, all.len() as int));
                    }
                    let added = next - 1;
                    Ok(Some(AsyncFnBound { inputs: join_tuple(named), output: out, added }))
                },
            }
        },
    }
}

proof fn lemma_elided_total_mono(tys: Seq<TypeModel>, a: int, b: int)
    requires
        0 <= a <= b,
    ensures
        elided_total(tys, a) <= elided_total(tys, b),
    decreases b - a,
{
    if a < b {
        lemma_elided_total_mono(tys, a, b - 1);
    }
}

} // verus!
