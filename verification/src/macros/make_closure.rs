//! Shapes of the closures the macros generate

use vstd::prelude::*;
use crate::macros::functions::{remove_ref_mut, strip_ref_mut, PatToken};
use crate::macros::visit::Annotations;

verus! {

/// Items joined by commas, in parentheses unless there is exactly one
#[derive(Clone, Debug)]
pub enum JoinedTuple<T> {
    /// The single item, without parentheses
    Bare(Vec<T>),
    /// `(a, b, ..)`: the items inside parentheses
    Parenthesized(Vec<T>),
}

/// Join `data` into a tuple: a single item stands alone, any other number of
/// items is put in parentheses
pub fn join_tuple<T>(data: Vec<T>) -> (r: JoinedTuple<T>)
    ensures
        data@.len() == 1 ==> r == JoinedTuple::Bare(data),
        data@.len() != 1 ==> r == JoinedTuple::Parenthesized(data),
{
    if data.len() == 1 {
        JoinedTuple::Bare(data)
    } else {
        JoinedTuple::Parenthesized(data)
    }
}

/// The type of an opaque closure: a plain `FnOnce`, or a custom trait built
/// by the given transform
#[derive(Clone, Copy, Debug)]
pub enum OpaqueClosureType<T> {
    Fn(),
    Custom(T),
}

/// An input of a function that becomes an explicit closure
#[derive(Debug)]
pub enum ClosureInput<T> {
    /// `pattern: type`, with the tokens of the pattern
    Typed(Vec<PatToken>, T),
    /// The receiver: its type, whether it is a reference, and whether it is
    /// declared `mut`
    Receiver { ty: T, reference: bool, mutable: bool },
}

/// A pattern of the closure's captured tuple
#[derive(Debug)]
pub enum CapturePattern {
    /// These pattern tokens
    Tokens(Vec<PatToken>),
    /// `self`, where the tuple is built
    SelfValue,
    /// The binding that stands for `self` inside the closure, `mut` or not
    SelfBinding { mutable: bool },
}

/// The captured tuple of an explicit closure: the types of the inputs, the
/// patterns that build it, and the patterns that take it apart
#[derive(Debug)]
pub struct ClosurePlan<T> {
    pub types: JoinedTuple<T>,
    pub construct: JoinedTuple<CapturePattern>,
    pub destruct: JoinedTuple<CapturePattern>,
}

pub open spec fn tuple_items<T>(j: JoinedTuple<T>) -> (bool, Seq<T>) {
    match j {
        JoinedTuple::Bare(v) => (false, v@),
        JoinedTuple::Parenthesized(v) => (true, v@),
    }
}

/// How input `a` is captured: its type, the pattern that builds the tuple
/// (bindings made plain, `self` for the receiver) and the pattern inside
/// the closure (as written; for a receiver a binding that is `mut` when the
/// receiver is taken by value as `mut self`)
pub open spec fn captured<T>(a: ClosureInput<T>, ty: T, c: CapturePattern, d: CapturePattern) -> bool {
    match a {
        ClosureInput::Typed(p, t) => {
            &&& ty == t
            &&& c matches CapturePattern::Tokens(cs) && cs@ == strip_ref_mut(p@, p@.len() as int)
            &&& d matches CapturePattern::Tokens(ds) && ds@ == p@
        },
        ClosureInput::Receiver { ty: t, reference, mutable } => {
            &&& ty == t
            &&& c is SelfValue
            &&& d == CapturePattern::SelfBinding { mutable: !reference && mutable }
        },
    }
}

/// The captured tuple of a function turned into an explicit closure: every
/// input in order, the receiver included, joined into a tuple (a single
/// input stands alone)
pub fn explicit_closure_plan<T>(inputs: Vec<ClosureInput<T>>) -> (r: ClosurePlan<T>)
    ensures
        tuple_items(r.types).0 == (inputs@.len() != 1),
        tuple_items(r.construct).0 == (inputs@.len() != 1),
        tuple_items(r.destruct).0 == (inputs@.len() != 1),
        tuple_items(r.types).1.len() == inputs@.len(),
        tuple_items(r.construct).1.len() == inputs@.len(),
        tuple_items(r.destruct).1.len() == inputs@.len(),
        forall|i: int|
            0 <= i < inputs@.len() ==> captured(
                #[trigger] inputs@[i],
                tuple_items(r.types).1[i],
                tuple_items(r.construct).1[i],
                tuple_items(r.destruct).1[i],
            ),
{
    let ghost all = inputs@;
    let mut rest = inputs;
    let mut types: Vec<T> = Vec::new();
    let mut construct: Vec<CapturePattern> = Vec::new();
    let mut destruct: Vec<CapturePattern> = Vec::new();
    while rest.len() > 0
        invariant
            types@.len() + rest@.len() == all.len(),
            construct@.len() == types@.len(),
            destruct@.len() == types@.len(),
            rest@ == all.subrange(types@.len() as int, all.len() as int),
            forall|i: int| 0 <= i < types@.len() ==> captured(#[trigger] all[i], types@[i], construct@[i], destruct@[i]),
        decreases rest@.len(),
    {
        let ghost k = types@.len() as int;
        let a = rest.remove(0);
        assert(a == all[k]);
        match a {
            ClosureInput::Typed(p, t) => {
                let plain = remove_ref_mut(&p);
                types.push(t);
                construct.push(CapturePattern::Tokens(plain));
                destruct.push(CapturePattern::Tokens(p));
            },
            ClosureInput::Receiver { ty, reference, mutable } => {
                types.push(ty);
                construct.push(CapturePattern::SelfValue);
                destruct.push(CapturePattern::SelfBinding { mutable: !reference && mutable });
            },
        }
        assert(captured(all[k], types@[k], construct@[k], destruct@[k]));
        assert(rest@ =~= all.subrange(types@.len() as int, all.len() as int));
    }
    ClosurePlan { types: join_tuple(types), construct: join_tuple(construct), destruct: join_tuple(destruct) }
}

/// The kind of a generic parameter
#[derive(Clone, Copy, Debug, PartialEq, Eq, Structural)]
pub enum GenericKind {
    Type,
    Lifetime,
    Const,
}

/// What must outlive the closure's lifetime: a parameter of the signature
/// or of the enclosing impl or trait (by index), an added lifetime (by
/// number, from 1), or a lifetime written in the signature (by its order)
#[derive(Clone, Copy, Debug, PartialEq, Eq, Structural)]
pub enum Outlives {
    SigParam(usize),
    EnvParam(usize),
    Added(usize),
    Explicit(usize),
}

/// A lifetime the closure's type says it captures
#[derive(Clone, Copy, Debug, PartialEq, Eq, Structural)]
pub enum Capture {
    /// A lifetime parameter of the enclosing impl or trait, by index
    EnvLifetime(usize),
    /// A lifetime parameter of the signature, by index
    SigLifetime(usize),
    /// The closure's own lifetime
    Closure,
    /// An added lifetime, by number
    Added(usize),
}

/// The lifetimes a closure made from a function is given: the bounds in the
/// `where` clause, the generic parameters added (the closure's lifetime,
/// then the added lifetimes), and the lifetimes its type captures
#[derive(Debug)]
pub struct ClosureLifetimes {
    pub outlives: Vec<Outlives>,
    pub added: usize,
    pub captures: Vec<Capture>,
}

/// The bounds for the parameters among `params` up to `n`: each type or
/// lifetime parameter must outlive the closure; constants are skipped
pub open spec fn param_bounds(params: Seq<GenericKind>, n: int, env: bool) -> Seq<Outlives>
    decreases n,
{
    if n <= 0 {
        Seq::empty()
    } else if params[n - 1] == GenericKind::Const {
        param_bounds(params, n - 1, env)
    } else {
        param_bounds(params, n - 1, env).push(
            if env { Outlives::EnvParam((n - 1) as usize) } else { Outlives::SigParam((n - 1) as usize) },
        )
    }
}

/// The lifetime parameters among `params` up to `n`
pub open spec fn lifetime_params(params: Seq<GenericKind>, n: int, env: bool) -> Seq<Capture>
    decreases n,
{
    if n <= 0 {
        Seq::empty()
    } else if params[n - 1] == GenericKind::Lifetime {
        lifetime_params(params, n - 1, env).push(
            if env { Capture::EnvLifetime((n - 1) as usize) } else { Capture::SigLifetime((n - 1) as usize) },
        )
    } else {
        lifetime_params(params, n - 1, env)
    }
}

/// `Added(1..=added)` with `Explicit(0..explicit)` after them
pub open spec fn lifetime_bounds(added: nat, explicit: nat) -> Seq<Outlives> {
    Seq::new(added, |k: int| Outlives::Added((k + 1) as usize)) + Seq::new(
        explicit,
        |k: int| Outlives::Explicit(k as usize),
    )
}

/// The bounds for the type and lifetime parameters of `params`
fn bounds_of(params: &[GenericKind], env: bool) -> (r: Vec<Outlives>)
    ensures
        r@ == param_bounds(params@, params@.len() as int, env),
{
    let mut out: Vec<Outlives> = Vec::new();
    let mut i: usize = 0;
    while i < params.len()
        invariant
            i <= params@.len(),
            out@ == param_bounds(params@, i as int, env),
        decreases params@.len() - i,
    {
        if params[i] != GenericKind::Const {
            out.push(if env { Outlives::EnvParam(i) } else { Outlives::SigParam(i) });
        }
        i = i + 1;
    }
    out
}

/// The lifetime parameters of `params`
fn lifetimes_of(params: &[GenericKind], env: bool) -> (r: Vec<Capture>)
    ensures
        r@ == lifetime_params(params@, params@.len() as int, env),
{
    let mut out: Vec<Capture> = Vec::new();
    let mut i: usize = 0;
    while i < params.len()
        invariant
            i <= params@.len(),
            out@ == lifetime_params(params@, i as int, env),
        decreases params@.len() - i,
    {
        if params[i] == GenericKind::Lifetime {
            out.push(if env { Capture::EnvLifetime(i) } else { Capture::SigLifetime(i) });
        }
        i = i + 1;
    }
    out
}

/// The lifetimes of the closure a function is turned into. `annotations`
/// says how the elided lifetimes of the signature were named (none: they
/// are left alone); `explicit` and `added` count the lifetimes the
/// signature wrote and those that naming added; `sig` and `env` are the
/// generic parameters of the function and of the enclosing impl or trait.
/// Nothing changes (`None`) without annotations, or when the signature has
/// no lifetime at all.
pub fn closure_lifetimes(
    annotations: Option<Annotations>,
    explicit: usize,
    added: usize,
    sig: &[GenericKind],
    env: Option<&[GenericKind]>,
) -> (r: Option<ClosureLifetimes>)
    ensures
        (annotations is None || (explicit == 0 && added == 0)) ==> r is None,
        !(annotations is None || (explicit == 0 && added == 0)) ==> (r matches Some(p) && {
            let env_params = match env {
                Some(e) => e@,
                None => Seq::<GenericKind>::empty(),
            };
            &&& p.outlives@ == param_bounds(sig@, sig@.len() as int, false) + param_bounds(
                env_params,
                env_params.len() as int,
                true,
            ) + lifetime_bounds(added as nat, explicit as nat)
            &&& p.added == added
            &&& p.captures@ == lifetime_params(env_params, env_params.len() as int, true) + lifetime_params(
                sig@,
                sig@.len() as int,
                false,
            ) + seq![Capture::Closure] + Seq::new(added as nat, |k: int| Capture::Added((k + 1) as usize))
                + seq![Capture::Closure]
        }),
{
    if annotations.is_none() || (explicit == 0 && added == 0) {
        return None;
    }
    let empty: [GenericKind; 0] = [];
    let env_params: &[GenericKind] = match env {
        Some(e) => e,
        None => &empty,
    };
    let mut outlives = bounds_of(sig, false);
    let mut env_bounds = bounds_of(env_params, true);
    outlives.append(&mut env_bounds);
    let ghost before = outlives@;
    let mut k: usize = 0;
    while k < added
        invariant
            k <= added,
            outlives@ == before + Seq::new(k as nat, |j: int| Outlives::Added((j + 1) as usize)),
        decreases added - k,
    {
        outlives.push(Outlives::Added(k + 1));
        k = k + 1;
        proof {
            assert(outlives@ =~= before + Seq::new(k as nat, |j: int| Outlives::Added((j + 1) as usize)));
        }
    }
    let ghost mid = outlives@;
    let mut e: usize = 0;
    while e < explicit
        invariant
            e <= explicit,
            outlives@ == mid + Seq::new(e as nat, |j: int| Outlives::Explicit(j as usize)),
        decreases explicit - e,
    {
        outlives.push(Outlives::Explicit(e));
        e = e + 1;
        proof {
            assert(outlives@ =~= mid + Seq::new(e as nat, |j: int| Outlives::Explicit(j as usize)));
        }
    }
    let mut captures = lifetimes_of(env_params, true);
    let mut sig_lifetimes = lifetimes_of(sig, false);
    captures.append(&mut sig_lifetimes);
    captures.push(Capture::Closure);
    let ghost cmid = captures@;
    let mut a: usize = 0;
    while a < added
        invariant
            a <= added,
            captures@ == cmid + Seq::new(a as nat, |j: int| Capture::Added((j + 1) as usize)),
        decreases added - a,
    {
        captures.push(Capture::Added(a + 1));
        a = a + 1;
        proof {
            assert(captures@ =~= cmid + Seq::new(a as nat, |j: int| Capture::Added((j + 1) as usize)));
        }
    }
    captures.push(Capture::Closure);
    proof {
        assert(outlives@ =~= param_bounds(sig@, sig@.len() as int, false) + param_bounds(
            env_params@,
            env_params@.len() as int,
            true,
        ) + lifetime_bounds(added as nat, explicit as nat));
    }
    Some(ClosureLifetimes { outlives, added, captures })
}

/// The receiver of a function, as the closure's body takes it: `self`
/// becomes `this`, `mut` only when taken by value
#[derive(Clone, Copy, Debug, PartialEq, Eq, Structural)]
pub struct ThisArg {
    pub mutable: bool,
}

/// The argument that stands for the receiver inside a closure's body:
/// `this`, of the receiver's type, `mut` when the receiver is a `mut self`
/// taken by value
pub fn this_arg(reference: bool, mutable: bool) -> (r: ThisArg)
    ensures
        r.mutable == (mutable && !reference),
{
    ThisArg { mutable: mutable && !reference }
}

} // verus!
