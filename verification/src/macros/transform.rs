//! Items whose functions are transformed: what kind of item the input is,
//! and where each function's documentation copy goes

use vstd::prelude::*;
use crate::macros::{str_eq, ErrorMessage, ParseError, Span, TokenTree};

verus! {

/// The kind of item whose functions are transformed
#[derive(Clone, Copy, Debug, PartialEq, Eq, Structural)]
pub enum Functions {
    /// A function with a body
    Fn,
    /// A trait function without a body
    TraitFn,
    Trait,
    Impl,
}

/// The token at `i` is the identifier `word`
pub open spec fn ident_is(ts: Seq<TokenTree>, i: int, word: Seq<char>) -> bool {
    0 <= i < ts.len() && (ts[i] matches TokenTree::Ident(s, _) && s@ == word)
}

/// Skip the identifier `word` at `i` if it is there
pub open spec fn skip_word(ts: Seq<TokenTree>, i: int, word: Seq<char>) -> int {
    if ident_is(ts, i, word) {
        i + 1
    } else {
        i
    }
}

/// Skip an `extern` ABI at `i`, with its name if one is written
pub open spec fn skip_abi(ts: Seq<TokenTree>, i: int) -> int {
    if ident_is(ts, i, "extern"@) {
        if i + 1 < ts.len() && ts[i + 1] is Literal {
            i + 2
        } else {
            i + 1
        }
    } else {
        i
    }
}

/// The kind of item whose tokens after its attributes and visibility are
/// `ts`; `has_body` tells a function with a body from one without
pub open spec fn functions_spec(ts: Seq<TokenTree>, has_body: bool) -> Result<Functions, ParseError> {
    let i1 = skip_word(ts, skip_word(ts, 0, "default"@), "unsafe"@);
    if ident_is(ts, i1, "auto"@) || ident_is(ts, i1, "trait"@) {
        Ok(Functions::Trait)
    } else if ident_is(ts, i1, "impl"@) {
        Ok(Functions::Impl)
    } else {
        let i2 = skip_abi(ts, skip_word(ts, skip_word(ts, skip_word(ts, i1, "const"@), "async"@), "unsafe"@));
        if ident_is(ts, i2, "fn"@) {
            Ok(if has_body { Functions::Fn } else { Functions::TraitFn })
        } else if ts.len() > 0 {
            Err(ParseError { span: ts[0].span_of(), message: ErrorMessage::ExpectedFnTraitImpl })
        } else {
            Err(ParseError { span: Span { id: 0 }, message: ErrorMessage::EndExpectedFnTraitImpl })
        }
    }
}

fn ident_at(ts: &Vec<TokenTree>, i: usize, word: &str) -> (b: bool)
    ensures
        b == ident_is(ts@, i as int, word@),
{
    if i < ts.len() {
        match &ts[i] {
            TokenTree::Ident(s, _) => str_eq(s.as_str(), word),
            _ => false,
        }
    } else {
        false
    }
}

fn skip(ts: &Vec<TokenTree>, i: usize, word: &str) -> (j: usize)
    requires
        i <= ts@.len(),
    ensures
        j == skip_word(ts@, i as int, word@),
        j <= ts@.len(),
{
    let n = ts.len();
    if ident_at(ts, i, word) {
        assert(i < n);
        i + 1
    } else {
        i
    }
}

impl Functions {
    /// Tell what kind of item the tokens after the attributes and the
    /// visibility begin
    pub fn parse(ts: &Vec<TokenTree>, has_body: bool) -> (r: Result<Functions, ParseError>)
        ensures
            r == functions_spec(ts@, has_body),
    {
        let i = skip(ts, 0, "default");
        let i1 = skip(ts, i, "unsafe");
        if ident_at(ts, i1, "auto") || ident_at(ts, i1, "trait") {
            return Ok(Functions::Trait);
        }
        if ident_at(ts, i1, "impl") {
            return Ok(Functions::Impl);
        }
        let j = skip(ts, i1, "const");
        let j = skip(ts, j, "async");
        let j = skip(ts, j, "unsafe");
        let i2 = if ident_at(ts, j, "extern") {
            if j + 1 < ts.len() && match &ts[j + 1] {
                TokenTree::Literal(_, _) => true,
                _ => false,
            } {
                j + 2
            } else {
                j + 1
            }
        } else {
            j
        };
        if ident_at(ts, i2, "fn") {
            return Ok(if has_body { Functions::Fn } else { Functions::TraitFn });
        }
        if ts.len() > 0 {
            Err(ParseError { span: ts[0].span(), message: ErrorMessage::ExpectedFnTraitImpl })
        } else {
            Err(ParseError { span: Span::call_site(), message: ErrorMessage::EndExpectedFnTraitImpl })
        }
    }
}

/// The output of transforming the items of a trait or impl: each item in
/// order, and right after each function its documentation copy
pub open spec fn layout_spec(is_fn: Seq<bool>, n: int) -> Seq<(usize, bool)>
    decreases n,
{
    if n <= 0 {
        Seq::empty()
    } else if is_fn[n - 1] {
        layout_spec(is_fn, n - 1).push(((n - 1) as usize, false)).push(((n - 1) as usize, true))
    } else {
        layout_spec(is_fn, n - 1).push(((n - 1) as usize, false))
    }
}

/// Where the items of a transformed trait or impl go: `(i, false)` is item
/// `i` itself, `(i, true)` the documentation copy of function `i`
pub fn transform_layout(is_fn: &[bool]) -> (r: Vec<(usize, bool)>)
    ensures
        r@ == layout_spec(is_fn@, is_fn@.len() as int),
{
    let mut out: Vec<(usize, bool)> = Vec::new();
    let mut i: usize = 0;
    while i < is_fn.len()
        invariant
            i <= is_fn@.len(),
            out@ == layout_spec(is_fn@, i as int),
        decreases is_fn@.len() - i,
    {
        out.push((i, false));
        if is_fn[i] {
            out.push((i, true));
        }
        i = i + 1;
    }
    out
}

/// What the documentation copy of a function has in place of a body
#[derive(Clone, Copy, Debug, PartialEq, Eq, Structural)]
pub enum DocBlock {
    /// An empty body, `{}`
    Empty,
    /// No body, `;`
    Semicolon,
}

/// The body of the documentation copy: empty when the function has one
pub fn doc_block(has_block: bool) -> (d: DocBlock)
    ensures
        d == (if has_block { DocBlock::Empty } else { DocBlock::Semicolon }),
{
    if has_block {
        DocBlock::Empty
    } else {
        DocBlock::Semicolon
    }
}

/// How the functions of an item are transformed
#[derive(Clone, Debug)]
pub struct TransformPlan {
    /// Whether the functions are the item the attribute is on, rather than
    /// functions of a trait or impl
    pub is_root: bool,
    /// Where the items go, as [`transform_layout`] gives it; a lone function
    /// is item 0
    pub layout: Vec<(usize, bool)>,
}

/// Transform the functions of an item of kind `kind`, whose items (for a
/// trait or impl) are functions or not as `is_fn` says. An item of a kind
/// the caller does not allow is refused at `item_span`.
pub fn transform_all(kind: Functions, allowed: bool, item_span: Span, is_fn: &[bool]) -> (r: Result<TransformPlan, ParseError>)
    ensures
        !allowed ==> r == Err::<TransformPlan, ParseError>(
            ParseError { span: item_span, message: ErrorMessage::UnexpectedDeclaration },
        ),
        allowed ==> (r matches Ok(p) && ({
            let single = kind == Functions::Fn || kind == Functions::TraitFn;
            &&& p.is_root == single
            &&& single ==> p.layout@ == seq![(0usize, false), (0usize, true)]
            &&& !single ==> p.layout@ == layout_spec(is_fn@, is_fn@.len() as int)
        })),
{
    if !allowed {
        return Err(ParseError { span: item_span, message: ErrorMessage::UnexpectedDeclaration });
    }
    match kind {
        Functions::Fn | Functions::TraitFn => {
            let layout = vec![(0usize, false), (0usize, true)];
            assert(layout@ =~= seq![(0usize, false), (0usize, true)]);
            Ok(TransformPlan { is_root: true, layout })
        },
        Functions::Trait | Functions::Impl => Ok(TransformPlan { is_root: false, layout: transform_layout(is_fn) }),
    }
}

/// The kind of a function item depends on its body alone: whatever
/// qualifiers precede `fn`, an item read with a body is never a body-less
/// trait function and one read without a body is never a function with a
/// body; reading it with a body gives `Fn` exactly when reading it without
/// one gives `TraitFn`; and an item starting `fn`, `async fn`, `const fn`,
/// `unsafe fn`, `async unsafe fn` or `const async unsafe fn` is `Fn` with a
/// body and `TraitFn` without
pub proof fn law_function_kind_follows_body(ts: Seq<TokenTree>, has_body: bool)
    ensures
        functions_spec(ts, true) != Ok::<Functions, ParseError>(Functions::TraitFn),
        functions_spec(ts, false) != Ok::<Functions, ParseError>(Functions::Fn),
        functions_spec(ts, true) == Ok::<Functions, ParseError>(Functions::Fn) <==> functions_spec(ts, false)
            == Ok::<Functions, ParseError>(Functions::TraitFn),
        ident_is(ts, 0, "fn"@) ==> functions_spec(ts, has_body) == Ok::<Functions, ParseError>(if has_body { Functions::Fn } else { Functions::TraitFn }),
        (ident_is(ts, 0, "async"@) && ident_is(ts, 1, "fn"@)) ==> functions_spec(ts, has_body) == Ok::<
            Functions,
            ParseError,
        >(if has_body { Functions::Fn } else { Functions::TraitFn }),
        (ident_is(ts, 0, "const"@) && ident_is(ts, 1, "fn"@)) ==> functions_spec(ts, has_body) == Ok::<
            Functions,
            ParseError,
        >(if has_body { Functions::Fn } else { Functions::TraitFn }),
        (ident_is(ts, 0, "unsafe"@) && ident_is(ts, 1, "fn"@)) ==> functions_spec(ts, has_body) == Ok::<
            Functions,
            ParseError,
        >(if has_body { Functions::Fn } else { Functions::TraitFn }),
        (ident_is(ts, 0, "async"@) && ident_is(ts, 1, "unsafe"@) && ident_is(ts, 2, "fn"@)) ==> functions_spec(
            ts,
            has_body,
        ) == Ok::<Functions, ParseError>(if has_body { Functions::Fn } else { Functions::TraitFn }),
        (ident_is(ts, 0, "const"@) && ident_is(ts, 1, "async"@) && ident_is(ts, 2, "unsafe"@) && ident_is(
            ts,
            3,
            "fn"@,
        )) ==> functions_spec(ts, has_body) == Ok::<Functions, ParseError>(if has_body { Functions::Fn } else { Functions::TraitFn }),
{
    reveal_strlit("fn");
    reveal_strlit("async");
    reveal_strlit("const");
    reveal_strlit("unsafe");
    reveal_strlit("default");
    reveal_strlit("auto");
    reveal_strlit("trait");
    reveal_strlit("impl");
    reveal_strlit("extern");
    let words = seq!["fn"@, "async"@, "const"@, "unsafe"@, "default"@, "auto"@, "trait"@, "impl"@, "extern"@];
    assert forall|a: int, b: int| 0 <= a < b < 9 implies words[a] != words[b] by {
        if words[a] == words[b] {
            assert(words[a].len() == words[b].len());
            assert(words[a][0] == words[b][0]);
            assert(words[a][1] == words[b][1]);
        }
    }
    assert(words[0] == "fn"@ && words[1] == "async"@ && words[2] == "const"@ && words[3] == "unsafe"@);
    assert(words[4] == "default"@ && words[5] == "auto"@ && words[6] == "trait"@ && words[7] == "impl"@);
    assert(words[8] == "extern"@);
}

} // verus!
