//! `wrapper_functions!`: functions that forward to an inner value

use vstd::prelude::*;
use crate::macros::{str_eq, ErrorMessage, ParseError, Span, TokenTree};
use crate::macros::syscall::{error_at, is_punct};

verus! {

/// How a forwarding function returns: not chained, or returning the wrapper
/// itself, by reference or by value
#[derive(Clone, Copy, Debug, PartialEq, Eq, Structural)]
pub enum Chain {
    Unchained,
    Ref,
    Owned,
}

/// The receiver of a function: its type, as tokens, and whether it is a
/// reference
#[derive(Clone, Debug)]
pub struct Receiver {
    pub ty: String,
    pub reference: bool,
}

/// Whether a forwarding function chains: its receiver's type is its return
/// type, and the receiver is a reference or `Self` itself
pub open spec fn chain_spec(receiver: Option<Receiver>, output: Seq<char>) -> Chain {
    match receiver {
        None => Chain::Unchained,
        Some(r) => if r.ty@ != output {
            Chain::Unchained
        } else if r.reference {
            Chain::Ref
        } else if r.ty@ == "Self"@ {
            Chain::Owned
        } else {
            Chain::Unchained
        },
    }
}

/// How a forwarding function with `receiver` and return type `output` (as
/// tokens; `()` when none is written) chains
pub fn get_chain(receiver: &Option<Receiver>, output: &str) -> (c: Chain)
    ensures
        c == chain_spec(*receiver, output@),
{
    match receiver {
        None => Chain::Unchained,
        Some(r) => {
            if !str_eq(r.ty.as_str(), output) {
                Chain::Unchained
            } else if r.reference {
                Chain::Ref
            } else if str_eq(r.ty.as_str(), "Self") {
                Chain::Owned
            } else {
                Chain::Unchained
            }
        },
    }
}

/// The inner expressions to forward to, for shared and for mutable access:
/// one given stands for both; none is an error at `next`, the span of the
/// token after the inner statements, or the end of the input when `None`
pub fn resolve_inner<T: Clone>(inner: Option<T>, inner_mut: Option<T>, next: Option<Span>) -> (r: Result<(T, T), ParseError>)
    ensures
        match (inner, inner_mut) {
            (Some(a), Some(b)) => r == Ok::<(T, T), ParseError>((a, b)),
            (Some(a), None) => r matches Ok((x, y)) && cloned(a, x) && y == a,
            (None, Some(b)) => r matches Ok((x, y)) && cloned(b, x) && y == b,
            (None, None) => r == Err::<(T, T), ParseError>(
                match next {
                    Some(span) => ParseError { span, message: ErrorMessage::ExpectedInner },
                    None => ParseError { span: Span { id: 0 }, message: ErrorMessage::EndExpectedInner },
                },
            ),
        },
{
    match (inner, inner_mut) {
        (Some(a), Some(b)) => Ok((a, b)),
        (Some(a), None) => Ok((a.clone(), a)),
        (None, Some(b)) => Ok((b.clone(), b)),
        (None, None) => Err(
            match next {
                Some(span) => ParseError { span, message: ErrorMessage::ExpectedInner },
                None => ParseError { span: Span::call_site(), message: ErrorMessage::EndExpectedInner },
            },
        ),
    }
}

/// The name of an inner statement must be `inner`
pub fn check_inner_name(name: &str, span: Span) -> (r: Result<(), ParseError>)
    ensures
        name@ == "inner"@ ==> r is Ok,
        name@ != "inner"@ ==> r == Err::<(), ParseError>(
            ParseError { span, message: ErrorMessage::ExpectedInnerName },
        ),
{
    if str_eq(name, "inner") {
        Ok(())
    } else {
        Err(ParseError { span, message: ErrorMessage::ExpectedInnerName })
    }
}

/// A reserved word, which does not count as an identifier
pub open spec fn is_keyword(s: Seq<char>) -> bool {
    s == "_"@
        || s == "abstract"@
        || s == "as"@
        || s == "async"@
        || s == "await"@
        || s == "become"@
        || s == "box"@
        || s == "break"@
        || s == "const"@
        || s == "continue"@
        || s == "crate"@
        || s == "do"@
        || s == "dyn"@
        || s == "else"@
        || s == "enum"@
        || s == "extern"@
        || s == "false"@
        || s == "final"@
        || s == "fn"@
        || s == "for"@
        || s == "if"@
        || s == "impl"@
        || s == "in"@
        || s == "let"@
        || s == "loop"@
        || s == "macro"@
        || s == "match"@
        || s == "mod"@
        || s == "move"@
        || s == "mut"@
        || s == "override"@
        || s == "priv"@
        || s == "pub"@
        || s == "ref"@
        || s == "return"@
        || s == "Self"@
        || s == "self"@
        || s == "static"@
        || s == "struct"@
        || s == "super"@
        || s == "trait"@
        || s == "true"@
        || s == "try"@
        || s == "type"@
        || s == "typeof"@
        || s == "unsafe"@
        || s == "unsized"@
        || s == "use"@
        || s == "virtual"@
        || s == "where"@
        || s == "while"@
        || s == "yield"@
}

fn keyword(s: &str) -> (r: bool)
    ensures
        r == is_keyword(s@),
{
    str_eq(s, "_")
        || str_eq(s, "abstract")
        || str_eq(s, "as")
        || str_eq(s, "async")
        || str_eq(s, "await")
        || str_eq(s, "become")
        || str_eq(s, "box")
        || str_eq(s, "break")
        || str_eq(s, "const")
        || str_eq(s, "continue")
        || str_eq(s, "crate")
        || str_eq(s, "do")
        || str_eq(s, "dyn")
        || str_eq(s, "else")
        || str_eq(s, "enum")
        || str_eq(s, "extern")
        || str_eq(s, "false")
        || str_eq(s, "final")
        || str_eq(s, "fn")
        || str_eq(s, "for")
        || str_eq(s, "if")
        || str_eq(s, "impl")
        || str_eq(s, "in")
        || str_eq(s, "let")
        || str_eq(s, "loop")
        || str_eq(s, "macro")
        || str_eq(s, "match")
        || str_eq(s, "mod")
        || str_eq(s, "move")
        || str_eq(s, "mut")
        || str_eq(s, "override")
        || str_eq(s, "priv")
        || str_eq(s, "pub")
        || str_eq(s, "ref")
        || str_eq(s, "return")
        || str_eq(s, "Self")
        || str_eq(s, "self")
        || str_eq(s, "static")
        || str_eq(s, "struct")
        || str_eq(s, "super")
        || str_eq(s, "trait")
        || str_eq(s, "true")
        || str_eq(s, "try")
        || str_eq(s, "type")
        || str_eq(s, "typeof")
        || str_eq(s, "unsafe")
        || str_eq(s, "unsized")
        || str_eq(s, "use")
        || str_eq(s, "virtual")
        || str_eq(s, "where")
        || str_eq(s, "while")
        || str_eq(s, "yield")
}

/// The token at `i` is an identifier that is not a reserved word
pub open spec fn plain_ident(ts: Seq<TokenTree>, i: int) -> bool {
    0 <= i < ts.len() && (ts[i] matches TokenTree::Ident(s, _) && !is_keyword(s@))
}

/// The token at `i` is the word `word`
pub open spec fn word_at(ts: Seq<TokenTree>, i: int, word: Seq<char>) -> bool {
    0 <= i < ts.len() && (ts[i] matches TokenTree::Ident(s, _) && s@ == word)
}

/// The first `;` from `k` on, or the end of the input
pub open spec fn semi_from(ts: Seq<TokenTree>, k: int) -> int
    decreases ts.len() - k,
{
    if k >= ts.len() || k < 0 {
        ts.len() as int
    } else if is_punct(ts, k, ';') {
        k
    } else {
        semi_from(ts, k + 1)
    }
}

/// An inner statement starts at `i`: an identifier, or `mut` and one
pub open spec fn inner_starts(ts: Seq<TokenTree>, i: int) -> bool {
    plain_ident(ts, i) || (word_at(ts, i, "mut"@) && plain_ident(ts, i + 1))
}

/// An inner statement `[mut] inner = expression;` at `i` (where one
/// starts): whether it is `mut`, the tokens of its expression, and where
/// the next one starts
pub open spec fn inner_stmt(ts: Seq<TokenTree>, i: int) -> Result<(bool, int, int, int), ParseError> {
    let m = word_at(ts, i, "mut"@);
    let name = if m { i + 1 } else { i };
    let eq = name + 1;
    let start = eq + 1;
    let end = semi_from(ts, start);
    if !word_at(ts, name, "inner"@) {
        Err(ParseError { span: ts[name].span_of(), message: ErrorMessage::ExpectedInnerName })
    } else if !is_punct(ts, eq, '=') {
        Err(error_at(ts, eq, ErrorMessage::ExpectedEq, ErrorMessage::EndExpectedEq))
    } else if start >= ts.len() || is_punct(ts, start, ';') {
        Err(error_at(ts, start, ErrorMessage::ExpectedExpression, ErrorMessage::EndExpectedExpression))
    } else if end >= ts.len() {
        Err(error_at(ts, end, ErrorMessage::ExpectedSemi, ErrorMessage::EndExpectedSemi))
    } else {
        Ok((m, start, end, end + 1))
    }
}

/// The inner expressions of `wrapper_functions!`, by their token ranges,
/// and where the function declarations start
#[derive(Clone, Copy, Debug, PartialEq, Eq)]
pub struct WrapperHeader {
    pub inner: (usize, usize),
    pub inner_mut: (usize, usize),
    pub rest: usize,
}

/// The inner statements from `i`, at most `left` of them more, with the
/// ranges found so far
pub open spec fn header_from(
    ts: Seq<TokenTree>,
    i: int,
    left: nat,
    inner: Option<(usize, usize)>,
    inner_mut: Option<(usize, usize)>,
) -> Result<WrapperHeader, ParseError>
    decreases left,
{
    if left > 0 && inner_starts(ts, i) {
        match inner_stmt(ts, i) {
            Err(e) => Err(e),
            Ok((m, start, end, next)) => if m {
                header_from(ts, next, (left - 1) as nat, inner, Some((start as usize, end as usize)))
            } else {
                header_from(ts, next, (left - 1) as nat, Some((start as usize, end as usize)), inner_mut)
            },
        }
    } else {
        match (inner, inner_mut) {
            (Some(a), Some(b)) => Ok(WrapperHeader { inner: a, inner_mut: b, rest: i as usize }),
            (Some(a), None) => Ok(WrapperHeader { inner: a, inner_mut: a, rest: i as usize }),
            (None, Some(b)) => Ok(WrapperHeader { inner: b, inner_mut: b, rest: i as usize }),
            (None, None) => Err(error_at(ts, i, ErrorMessage::ExpectedInner, ErrorMessage::EndExpectedInner)),
        }
    }
}

fn plain_ident_at(ts: &Vec<TokenTree>, i: usize) -> (b: bool)
    ensures
        b == plain_ident(ts@, i as int),
{
    if i < ts.len() {
        match &ts[i] {
            TokenTree::Ident(s, _) => !keyword(s.as_str()),
            _ => false,
        }
    } else {
        false
    }
}

fn word(ts: &Vec<TokenTree>, i: usize, w: &str) -> (b: bool)
    ensures
        b == word_at(ts@, i as int, w@),
{
    if i < ts.len() {
        match &ts[i] {
            TokenTree::Ident(s, _) => str_eq(s.as_str(), w),
            _ => false,
        }
    } else {
        false
    }
}

fn punct(ts: &Vec<TokenTree>, i: usize, c: char) -> (b: bool)
    ensures
        b == is_punct(ts@, i as int, c),
{
    if i < ts.len() {
        match &ts[i] {
            TokenTree::Punct(p, _) => *p == c,
            _ => false,
        }
    } else {
        false
    }
}

fn err_at(ts: &Vec<TokenTree>, i: usize, here: ErrorMessage, at_end: ErrorMessage) -> (e: ParseError)
    ensures
        e == error_at(ts@, i as int, here, at_end),
{
    if i < ts.len() {
        ParseError { span: ts[i].span(), message: here }
    } else {
        ParseError { span: Span::call_site(), message: at_end }
    }
}

fn find_semi(ts: &Vec<TokenTree>, k: usize) -> (e: usize)
    requires
        k <= ts@.len(),
    ensures
        e == semi_from(ts@, k as int),
{
    let mut j = k;
    while j < ts.len()
        invariant
            k <= j <= ts@.len(),
            semi_from(ts@, k as int) == semi_from(ts@, j as int),
        decreases ts@.len() - j,
    {
        if punct(ts, j, ';') {
            return j;
        }
        j = j + 1;
    }
    j
}

/// Parse the inner statements that open `wrapper_functions!`: `inner =
/// expression;` and `mut inner = expression;`, at most two, for shared and
/// for mutable access (one given stands for both)
pub fn wrapper_header(ts: &Vec<TokenTree>) -> (r: Result<WrapperHeader, ParseError>)
    requires
        ts@.len() + 4 < usize::MAX,
    ensures
        r == header_from(ts@, 0, 2, None, None),
{
    let mut i: usize = 0;
    let mut left: usize = 2;
    let mut inner: Option<(usize, usize)> = None;
    let mut inner_mut: Option<(usize, usize)> = None;
    while left > 0 && (plain_ident_at(ts, i) || (word(ts, i, "mut") && plain_ident_at(ts, i + 1)))
        invariant
            i <= ts@.len(),
            left <= 2,
            ts@.len() + 4 < usize::MAX,
            header_from(ts@, 0, 2, None, None) == header_from(ts@, i as int, left as nat, inner, inner_mut),
        decreases left,
    {
        let m = word(ts, i, "mut");
        let name = if m { i + 1 } else { i };
        let eq = name + 1;
        let start = eq + 1;
        if !word(ts, name, "inner") {
            return Err(ParseError { span: ts[name].span(), message: ErrorMessage::ExpectedInnerName });
        }
        if !punct(ts, eq, '=') {
            return Err(err_at(ts, eq, ErrorMessage::ExpectedEq, ErrorMessage::EndExpectedEq));
        }
        if start >= ts.len() || punct(ts, start, ';') {
            return Err(err_at(ts, start, ErrorMessage::ExpectedExpression, ErrorMessage::EndExpectedExpression));
        }
        let end = find_semi(ts, start);
        if end >= ts.len() {
            return Err(err_at(ts, end, ErrorMessage::ExpectedSemi, ErrorMessage::EndExpectedSemi));
        }
        if m {
            inner_mut = Some((start, end));
        } else {
            inner = Some((start, end));
        }
        i = end + 1;
        left = left - 1;
    }
    match (inner, inner_mut) {
        (Some(a), Some(b)) => Ok(WrapperHeader { inner: a, inner_mut: b, rest: i }),
        (Some(a), None) => Ok(WrapperHeader { inner: a, inner_mut: a, rest: i }),
        (None, Some(b)) => Ok(WrapperHeader { inner: b, inner_mut: b, rest: i }),
        (None, None) => Err(err_at(ts, i, ErrorMessage::ExpectedInner, ErrorMessage::EndExpectedInner)),
    }
}

} // verus!
