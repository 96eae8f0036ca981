//! The decisions of the runtime's procedural macros: option parsing, the
//! choice of expansion, and the naming rules they follow.
//!
//! Token streams are modelled by plain values: identifiers keep their text,
//! and every token carries a [`Span`], a handle that locates it in the macro
//! input so that errors can point at it.

use vstd::prelude::*;
use vstd::string::StrSliceExecFns;

pub mod asynchronous;
pub mod duration;
pub mod error;
pub mod functions;
pub mod future;
pub mod make_closure;
pub mod syscall;
pub mod transform;
pub mod visit;
pub mod wrap_function;

verus! {

/// Where a token stands in the macro input
#[derive(Clone, Copy, Debug, PartialEq, Eq, Structural)]
pub struct Span {
    pub id: usize,
}

impl Span {
    /// The span of the macro invocation itself
    pub fn call_site() -> (s: Span)
        ensures
            s.id == 0,
    {
        Span { id: 0 }
    }
}

/// The delimiter of a group of tokens
#[derive(Clone, Copy, Debug, PartialEq, Eq, Structural)]
pub enum Delimiter {
    Parenthesis,
    Brace,
    Bracket,
    /// An invisible delimiter
    Invisible,
}

/// A token of a macro's input; a group holds the tokens inside it, to any
/// depth
#[derive(Debug)]
pub enum TokenTree {
    Ident(String, Span),
    Punct(char, Span),
    Literal(String, Span),
    Group(Delimiter, Vec<TokenTree>, Span),
}

impl TokenTree {
    pub open spec fn span_of(self) -> Span {
        match self {
            TokenTree::Ident(_, s) => s,
            TokenTree::Punct(_, s) => s,
            TokenTree::Literal(_, s) => s,
            TokenTree::Group(_, _, s) => s,
        }
    }

    /// The span of the token
    pub fn span(&self) -> (s: Span)
        ensures
            s == self.span_of(),
    {
        match self {
            TokenTree::Ident(_, s) => *s,
            TokenTree::Punct(_, s) => *s,
            TokenTree::Literal(_, s) => *s,
            TokenTree::Group(_, _, s) => *s,
        }
    }
}

/// What a parse error says
#[derive(Clone, Copy, Debug, PartialEq, Eq, Structural)]
pub enum ErrorMessage {
    ExpectedIdent,
    ExpectedParens,
    EndExpectedParens,
    ExpectedComma,
    UnknownOption,
    DuplicateOption,
    DuplicateAsyncKind,
    InvalidCombination,
    UnknownLang,
    NotAllowed,
    InvalidLangItem,
    UnexpectedDeclaration,
    TraitFnNeedsAttribute,
    UnknownUnit,
    TooManySeparators,
    SelectNeedsTwo,
    JoinNeedsTwo,
    ExpectedMaybe,
    ExpectedDebugOrDisplay,
    DuplicateBound,
    DisplayTransparentOneField,
    DebugTransparentOneField,
    FromOneField,
    ExpectedStrLit,
    EndExpectedStrLit,
    ExpectedSemi,
    EndExpectedSemi,
    ExpectedIdentifier,
    EndExpectedIdentifier,
    ExpectedEq,
    EndExpectedEq,
    OneOutRegister,
    OneNumRegister,
    UnknownKind,
    MissingOut,
    MissingNum,
    ExpectedInner,
    EndExpectedInner,
    ExpectedInnerName,
    ExpectedFnTraitImpl,
    EndExpectedFnTraitImpl,
    LastArgRequest,
    VisibilityNotAllowed,
    ConstNotAllowed,
    AsyncNotAllowed,
    AbiNotAllowed,
    GenericsNotAllowed,
    VariadicsNotAllowed,
    DuplicateContextLifetime,
    MissingDisplay,
    UnionsNotSupported,
    ReceiverNotAllowed,
    PatternNotAllowed,
    ExpectedArrayOptions,
    ExpectedOptionValue,
    ExpectedPathIdent,
    MissingAsync,
    ContextLifetimeInLang,
    UnsupportedClosureType,
    EmptyBlockRequired,
    BlockMustBeEmpty,
    ExpectedExpression,
    EndExpectedExpression,
    ExpectedParenthetical,
}

impl ErrorMessage {
    /// The text of the message
    pub open spec fn text_spec(self) -> Seq<char> {
        match self {
            ErrorMessage::ExpectedIdent => "Expected an identifier"@,
            ErrorMessage::ExpectedParens => "expected parentheses"@,
            ErrorMessage::EndExpectedParens => "unexpected end of input, expected parentheses"@,
            ErrorMessage::ExpectedComma => "expected `,`"@,
            ErrorMessage::UnknownOption => "Unknown option"@,
            ErrorMessage::DuplicateOption => "Duplicate option"@,
            ErrorMessage::DuplicateAsyncKind => "Duplicate async type modifier"@,
            ErrorMessage::InvalidCombination => "Invalid combination of options"@,
            ErrorMessage::UnknownLang => "Unknown lang item"@,
            ErrorMessage::NotAllowed => "Not allowed"@,
            ErrorMessage::InvalidLangItem => "Invalid language item"@,
            ErrorMessage::UnexpectedDeclaration => "Unexpected declaration"@,
            ErrorMessage::TraitFnNeedsAttribute => "Trait functions must specify `#[asynchronous(traitfn)]`"@,
            ErrorMessage::UnknownUnit => "Unknown unit"@,
            ErrorMessage::TooManySeparators => "Too many separators"@,
            ErrorMessage::SelectNeedsTwo => "Select takes a minimum of two branches"@,
            ErrorMessage::JoinNeedsTwo => "Join takes a minimum of two branches"@,
            ErrorMessage::ExpectedMaybe => "Expected leading `?`"@,
            ErrorMessage::ExpectedDebugOrDisplay => "Expected `Debug` or `Display`"@,
            ErrorMessage::DuplicateBound => "Duplicate bound"@,
            ErrorMessage::DisplayTransparentOneField => "#[display(transparent)] requires exactly one field"@,
            ErrorMessage::DebugTransparentOneField => "#[debug(transparent)] requires exactly one field"@,
            ErrorMessage::FromOneField => "#[from] requires exactly one field"@,
            ErrorMessage::ExpectedStrLit => "expected string literal"@,
            ErrorMessage::EndExpectedStrLit => "unexpected end of input, expected string literal"@,
            ErrorMessage::ExpectedSemi => "expected `;`"@,
            ErrorMessage::EndExpectedSemi => "unexpected end of input, expected `;`"@,
            ErrorMessage::ExpectedIdentifier => "expected identifier"@,
            ErrorMessage::EndExpectedIdentifier => "unexpected end of input, expected identifier"@,
            ErrorMessage::ExpectedEq => "expected `=`"@,
            ErrorMessage::EndExpectedEq => "unexpected end of input, expected `=`"@,
            ErrorMessage::OneOutRegister => "There can only be one `out` register"@,
            ErrorMessage::OneNumRegister => "There can only be one `num` register"@,
            ErrorMessage::UnknownKind => "Unknown kind, expected one of `out`, `num`, `arg`, or `clobber`"@,
            ErrorMessage::MissingOut => "unexpected end of input, Expected an output register `out = reg`"@,
            ErrorMessage::MissingNum => "unexpected end of input, Expected a number register `num = reg`"@,
            ErrorMessage::ExpectedInner => "Expected an inner expression"@,
            ErrorMessage::EndExpectedInner => "unexpected end of input, Expected an inner expression"@,
            ErrorMessage::ExpectedInnerName => "Expected `inner`"@,
            ErrorMessage::ExpectedFnTraitImpl => "Expected a function, trait, or impl"@,
            ErrorMessage::EndExpectedFnTraitImpl => "unexpected end of input, Expected a function, trait, or impl"@,
            ErrorMessage::LastArgRequest => "The last argument must be `request: _`"@,
            ErrorMessage::VisibilityNotAllowed => "Visibility not allowed here"@,
            ErrorMessage::ConstNotAllowed => "`const` not allowed here"@,
            ErrorMessage::AsyncNotAllowed => "`async` not allowed here"@,
            ErrorMessage::AbiNotAllowed => "ABI not allowed here"@,
            ErrorMessage::GenericsNotAllowed => "Generics not allowed here"@,
            ErrorMessage::VariadicsNotAllowed => "Variadics not allowed here"@,
            ErrorMessage::DuplicateContextLifetime => "Duplicate context lifetime"@,
            ErrorMessage::MissingDisplay => "Missing #[display(..)] attribute"@,
            ErrorMessage::UnionsNotSupported => "Unions are not supported"@,
            ErrorMessage::ReceiverNotAllowed => "Receiver is not allowed here"@,
            ErrorMessage::PatternNotAllowed => "Pattern not allowed here"@,
            ErrorMessage::ExpectedArrayOptions => "Expected `#[array(option = value)]`"@,
            ErrorMessage::ExpectedOptionValue => "Expected a `option` = `value` arg"@,
            ErrorMessage::ExpectedPathIdent => "expected this path to be an identifier"@,
            ErrorMessage::MissingAsync => "The `async` keyword is missing from the function declaration"@,
            ErrorMessage::ContextLifetimeInLang => "Context lifetime forbidden in lang items"@,
            ErrorMessage::UnsupportedClosureType => "Unsupported closure type for this operation"@,
            ErrorMessage::EmptyBlockRequired => "An empty block is required"@,
            ErrorMessage::BlockMustBeEmpty => "This block must be empty"@,
            ErrorMessage::ExpectedExpression => "expected an expression"@,
            ErrorMessage::EndExpectedExpression => "unexpected end of input, expected an expression"@,
            ErrorMessage::ExpectedParenthetical => "Expected parenthetical notation"@,
        }
    }

    /// The text of the message
    pub fn text(&self) -> (t: &'static str)
        ensures
            t@ == self.text_spec(),
    {
        match self {
            ErrorMessage::ExpectedIdent => "Expected an identifier",
            ErrorMessage::ExpectedParens => "expected parentheses",
            ErrorMessage::EndExpectedParens => "unexpected end of input, expected parentheses",
            ErrorMessage::ExpectedComma => "expected `,`",
            ErrorMessage::UnknownOption => "Unknown option",
            ErrorMessage::DuplicateOption => "Duplicate option",
            ErrorMessage::DuplicateAsyncKind => "Duplicate async type modifier",
            ErrorMessage::InvalidCombination => "Invalid combination of options",
            ErrorMessage::UnknownLang => "Unknown lang item",
            ErrorMessage::NotAllowed => "Not allowed",
            ErrorMessage::InvalidLangItem => "Invalid language item",
            ErrorMessage::UnexpectedDeclaration => "Unexpected declaration",
            ErrorMessage::TraitFnNeedsAttribute => "Trait functions must specify `#[asynchronous(traitfn)]`",
            ErrorMessage::UnknownUnit => "Unknown unit",
            ErrorMessage::TooManySeparators => "Too many separators",
            ErrorMessage::SelectNeedsTwo => "Select takes a minimum of two branches",
            ErrorMessage::JoinNeedsTwo => "Join takes a minimum of two branches",
            ErrorMessage::ExpectedMaybe => "Expected leading `?`",
            ErrorMessage::ExpectedDebugOrDisplay => "Expected `Debug` or `Display`",
            ErrorMessage::DuplicateBound => "Duplicate bound",
            ErrorMessage::DisplayTransparentOneField => "#[display(transparent)] requires exactly one field",
            ErrorMessage::DebugTransparentOneField => "#[debug(transparent)] requires exactly one field",
            ErrorMessage::FromOneField => "#[from] requires exactly one field",
            ErrorMessage::ExpectedStrLit => "expected string literal",
            ErrorMessage::EndExpectedStrLit => "unexpected end of input, expected string literal",
            ErrorMessage::ExpectedSemi => "expected `;`",
            ErrorMessage::EndExpectedSemi => "unexpected end of input, expected `;`",
            ErrorMessage::ExpectedIdentifier => "expected identifier",
            ErrorMessage::EndExpectedIdentifier => "unexpected end of input, expected identifier",
            ErrorMessage::ExpectedEq => "expected `=`",
            ErrorMessage::EndExpectedEq => "unexpected end of input, expected `=`",
            ErrorMessage::OneOutRegister => "There can only be one `out` register",
            ErrorMessage::OneNumRegister => "There can only be one `num` register",
            ErrorMessage::UnknownKind => "Unknown kind, expected one of `out`, `num`, `arg`, or `clobber`",
            ErrorMessage::MissingOut => "unexpected end of input, Expected an output register `out = reg`",
            ErrorMessage::MissingNum => "unexpected end of input, Expected a number register `num = reg`",
            ErrorMessage::ExpectedInner => "Expected an inner expression",
            ErrorMessage::EndExpectedInner => "unexpected end of input, Expected an inner expression",
            ErrorMessage::ExpectedInnerName => "Expected `inner`",
            ErrorMessage::ExpectedFnTraitImpl => "Expected a function, trait, or impl",
            ErrorMessage::EndExpectedFnTraitImpl => "unexpected end of input, Expected a function, trait, or impl",
            ErrorMessage::LastArgRequest => "The last argument must be `request: _`",
            ErrorMessage::VisibilityNotAllowed => "Visibility not allowed here",
            ErrorMessage::ConstNotAllowed => "`const` not allowed here",
            ErrorMessage::AsyncNotAllowed => "`async` not allowed here",
            ErrorMessage::AbiNotAllowed => "ABI not allowed here",
            ErrorMessage::GenericsNotAllowed => "Generics not allowed here",
            ErrorMessage::VariadicsNotAllowed => "Variadics not allowed here",
            ErrorMessage::DuplicateContextLifetime => "Duplicate context lifetime",
            ErrorMessage::MissingDisplay => "Missing #[display(..)] attribute",
            ErrorMessage::UnionsNotSupported => "Unions are not supported",
            ErrorMessage::ReceiverNotAllowed => "Receiver is not allowed here",
            ErrorMessage::PatternNotAllowed => "Pattern not allowed here",
            ErrorMessage::ExpectedArrayOptions => "Expected `#[array(option = value)]`",
            ErrorMessage::ExpectedOptionValue => "Expected a `option` = `value` arg",
            ErrorMessage::ExpectedPathIdent => "expected this path to be an identifier",
            ErrorMessage::MissingAsync => "The `async` keyword is missing from the function declaration",
            ErrorMessage::ContextLifetimeInLang => "Context lifetime forbidden in lang items",
            ErrorMessage::UnsupportedClosureType => "Unsupported closure type for this operation",
            ErrorMessage::EmptyBlockRequired => "An empty block is required",
            ErrorMessage::BlockMustBeEmpty => "This block must be empty",
            ErrorMessage::ExpectedExpression => "expected an expression",
            ErrorMessage::EndExpectedExpression => "unexpected end of input, expected an expression",
            ErrorMessage::ExpectedParenthetical => "Expected parenthetical notation",
        }
    }
}

/// An error at a span of the input
#[derive(Clone, Copy, Debug, PartialEq, Eq, Structural)]
pub struct ParseError {
    pub span: Span,
    pub message: ErrorMessage,
}

/// Whether two strings hold the same characters
pub fn str_eq(a: &str, b: &str) -> (r: bool)
    ensures
        r == (a@ == b@),
{
    let n = a.unicode_len();
    let m = b.unicode_len();
    if n != m {
        return false;
    }
    let mut i: usize = 0;
    while i < n
        invariant
            n == a@.len(),
            m == b@.len(),
            n == m,
            i <= n,
            forall|j: int| 0 <= j < i ==> a@[j] == b@[j],
        decreases n - i,
    {
        if a.get_char(i) != b.get_char(i) {
            return false;
        }
        i = i + 1;
    }
    assert(a@ =~= b@);
    true
}

} // verus!
