//! The options of the `asynchronous` attribute
//!
//! `#[asynchronous(kind impl(ref, mut, box))]`: at most one kind of async
//! item, and the kinds of references an `impl` may be generated for.

use vstd::prelude::*;
use crate::macros::{str_eq, Delimiter, ErrorMessage, ParseError, Span, TokenTree};

verus! {

/// How a transformed function is turned into a closure
#[derive(Clone, Copy, Debug, PartialEq, Eq, Structural)]
pub enum ClosureType {
    /// Not turned into a closure
    Plain,
    Default,
    Trait,
}

/// The kind of async item the attribute asks for
#[derive(Clone, Copy, Debug, PartialEq, Eq, Structural)]
pub enum AsyncKind {
    Implicit,
    TraitFn,
    TraitExt,
    Task,
    Sync,
}

impl AsyncKind {
    /// The kind an option names; `Implicit` has no name
    pub open spec fn named(name: Seq<char>) -> Option<AsyncKind> {
        if name == "traitfn"@ {
            Some(AsyncKind::TraitFn)
        } else if name == "traitext"@ {
            Some(AsyncKind::TraitExt)
        } else if name == "task"@ {
            Some(AsyncKind::Task)
        } else if name == "sync"@ {
            Some(AsyncKind::Sync)
        } else {
            None
        }
    }

    /// The kind an option names
    pub fn from_name(name: &str) -> (k: Option<AsyncKind>)
        ensures
            k == Self::named(name@),
    {
        if str_eq(name, "traitfn") {
            Some(AsyncKind::TraitFn)
        } else if str_eq(name, "traitext") {
            Some(AsyncKind::TraitExt)
        } else if str_eq(name, "task") {
            Some(AsyncKind::Task)
        } else if str_eq(name, "sync") {
            Some(AsyncKind::Sync)
        } else {
            None
        }
    }

    /// The closure a function of this kind is turned into
    pub open spec fn closure_type_spec(self) -> ClosureType {
        match self {
            AsyncKind::Implicit => ClosureType::Default,
            AsyncKind::TraitExt => ClosureType::Trait,
            _ => ClosureType::Plain,
        }
    }

    /// How functions of this kind become closures
    pub fn closure_type(self) -> (c: ClosureType)
        ensures
            c == self.closure_type_spec(),
    {
        match self {
            AsyncKind::Implicit => ClosureType::Default,
            AsyncKind::TraitExt => ClosureType::Trait,
            _ => ClosureType::Plain,
        }
    }
}

/// A language item the runtime provides through the attribute
#[derive(Clone, Copy, Debug, PartialEq, Eq, Structural)]
pub enum Lang {
    GetContext,
    TaskWrap,
    AsyncClosure,
    Task,
}

impl Lang {
    /// The item a `lang` value names
    pub open spec fn named(name: Seq<char>) -> Option<Lang> {
        if name == "get_context"@ {
            Some(Lang::GetContext)
        } else if name == "task_wrap"@ {
            Some(Lang::TaskWrap)
        } else if name == "async_closure"@ {
            Some(Lang::AsyncClosure)
        } else if name == "task"@ {
            Some(Lang::Task)
        } else {
            None
        }
    }

    /// The item a `lang` value names
    pub fn from_name(name: &str) -> (l: Option<Lang>)
        ensures
            l == Self::named(name@),
    {
        if str_eq(name, "get_context") {
            Some(Lang::GetContext)
        } else if str_eq(name, "task_wrap") {
            Some(Lang::TaskWrap)
        } else if str_eq(name, "async_closure") {
            Some(Lang::AsyncClosure)
        } else if str_eq(name, "task") {
            Some(Lang::Task)
        } else {
            None
        }
    }
}

/// The kinds of references an `impl` is generated for, each with the span of
/// the option that asked for it
#[derive(Clone, Copy, Debug, PartialEq, Eq, Structural)]
pub struct ImplGen {
    pub span: Span,
    pub impl_ref: Option<Span>,
    pub impl_mut: Option<Span>,
    pub impl_box: Option<Span>,
}

/// Which option of `impl(..)` a name is: 0 for `ref`, 1 for `mut`, 2 for
/// `box`
pub open spec fn impl_slot(name: Seq<char>) -> Option<int> {
    if name == "ref"@ {
        Some(0)
    } else if name == "mut"@ {
        Some(1)
    } else if name == "box"@ {
        Some(2)
    } else {
        None
    }
}

/// The token at `i` is where a comma separated list of identifiers wants it
pub open spec fn list_token_ok(ts: Seq<TokenTree>, i: int) -> bool {
    if i % 2 == 0 {
        ts[i] is Ident
    } else {
        ts[i] matches TokenTree::Punct(c, _) && c == ','
    }
}

/// The first token from `i` on that breaks the list syntax
pub open spec fn list_syntax_error(ts: Seq<TokenTree>, i: int) -> Option<ParseError>
    decreases ts.len() - i,
{
    if i < 0 || i >= ts.len() {
        None
    } else if !list_token_ok(ts, i) {
        Some(
            ParseError {
                span: ts[i].span_of(),
                message: if i % 2 == 0 {
                    ErrorMessage::ExpectedIdent
                } else {
                    ErrorMessage::ExpectedComma
                },
            },
        )
    } else {
        list_syntax_error(ts, i + 1)
    }
}

impl ImplGen {
    pub open spec fn slot(self, k: int) -> Option<Span> {
        if k == 0 {
            self.impl_ref
        } else if k == 1 {
            self.impl_mut
        } else {
            self.impl_box
        }
    }

    pub open spec fn with_slot(self, k: int, s: Span) -> ImplGen {
        if k == 0 {
            ImplGen { impl_ref: Some(s), ..self }
        } else if k == 1 {
            ImplGen { impl_mut: Some(s), ..self }
        } else {
            ImplGen { impl_box: Some(s), ..self }
        }
    }

    /// Apply the options at the even positions from `i` on, in order
    pub open spec fn apply_options(ts: Seq<TokenTree>, i: int, gen: ImplGen) -> Result<ImplGen, ParseError>
        decreases ts.len() + 2 - i,
    {
        if i < 0 || i >= ts.len() {
            Ok(gen)
        } else {
            match ts[i] {
                TokenTree::Ident(name, span) => match impl_slot(name@) {
                    None => Err(ParseError { span, message: ErrorMessage::UnknownOption }),
                    Some(k) => if gen.slot(k) is Some {
                        Err(ParseError { span, message: ErrorMessage::DuplicateOption })
                    } else {
                        Self::apply_options(ts, i + 2, gen.with_slot(k, span))
                    },
                },
                _ => Ok(gen),
            }
        }
    }

    /// What `impl(..)` with the tokens `ts` inside gives
    pub open spec fn parse_spec(ts: Seq<TokenTree>) -> Result<ImplGen, ParseError> {
        match list_syntax_error(ts, 0) {
            Some(e) => Err(e),
            None => Self::apply_options(
                ts,
                0,
                ImplGen {
                    span: if ts.len() > 0 {
                        ts[0].span_of()
                    } else {
                        Span { id: 0 }
                    },
                    impl_ref: None,
                    impl_mut: None,
                    impl_box: None,
                },
            ),
        }
    }

    /// Parse the comma separated options inside `impl(..)`
    pub fn parse(input: &Vec<TokenTree>) -> (r: Result<ImplGen, ParseError>)
        ensures
            r == Self::parse_spec(input@),
    {
        let n = input.len();
        let mut i: usize = 0;
        while i < n
            invariant
                n == input@.len(),
                i <= n,
                list_syntax_error(input@, 0) == list_syntax_error(input@, i as int),
            decreases n - i,
        {
            let ok = if i % 2 == 0 {
                match &input[i] {
                    TokenTree::Ident(_, _) => true,
                    _ => false,
                }
            } else {
                match &input[i] {
                    TokenTree::Punct(c, _) => *c == ',',
                    _ => false,
                }
            };
            if !ok {
                let message = if i % 2 == 0 {
                    ErrorMessage::ExpectedIdent
                } else {
                    ErrorMessage::ExpectedComma
                };
                return Err(ParseError { span: input[i].span(), message });
            }
            i = i + 1;
        }
        let span = if n > 0 {
            input[0].span()
        } else {
            Span::call_site()
        };
        let mut gen = ImplGen { span, impl_ref: None, impl_mut: None, impl_box: None };
        let ghost start = gen;
        let mut i: usize = 0;
        while i < n
            invariant
                n == input@.len(),
                i % 2 == 0,
                list_syntax_error(input@, 0) is None,
                Self::parse_spec(input@) == Self::apply_options(input@, 0, start),
                Self::apply_options(input@, 0, start) == Self::apply_options(input@, i as int, gen),
            decreases n - i,
        {
            proof {
                assert(list_syntax_error(input@, 0) == list_syntax_error(input@, i as int)) by {
                    lemma_list_syntax_prefix(input@, i as int);
                }
            }
            let ghost old_gen = gen;
            match &input[i] {
                TokenTree::Ident(name, span) => {
                    let span = *span;
                    let name = name.as_str();
                    if str_eq(name, "ref") {
                        if gen.impl_ref.is_some() {
                            return Err(ParseError { span, message: ErrorMessage::DuplicateOption });
                        }
                        gen.impl_ref = Some(span);
                    } else if str_eq(name, "mut") {
                        if gen.impl_mut.is_some() {
                            return Err(ParseError { span, message: ErrorMessage::DuplicateOption });
                        }
                        gen.impl_mut = Some(span);
                    } else if str_eq(name, "box") {
                        if gen.impl_box.is_some() {
                            return Err(ParseError { span, message: ErrorMessage::DuplicateOption });
                        }
                        gen.impl_box = Some(span);
                    } else {
                        return Err(ParseError { span, message: ErrorMessage::UnknownOption });
                    }
                },
                _ => {
                    return Ok(gen);
                },
            }
            assert(Self::apply_options(input@, i as int, old_gen) == Self::apply_options(
                input@,
                i + 2,
                gen,
            ));
            if n - i <= 2 {
                return Ok(gen);
            }
            i = i + 2;
        }
        Ok(gen)
    }
}

/// If no token from 0 to `i` breaks the list syntax, the first error is the
/// first one from `i` on
pub proof fn lemma_list_syntax_prefix(ts: Seq<TokenTree>, i: int)
    requires
        0 <= i,
        list_syntax_error(ts, 0) is None,
    ensures
        list_syntax_error(ts, i) is None,
    decreases i,
{
    if i > 0 {
        lemma_list_syntax_prefix(ts, i - 1);
    }
}

/// The `lang` attribute of an item: its value and span
#[derive(Clone, Debug)]
pub struct LangAttr {
    pub value: String,
    pub span: Span,
}

/// Take the `lang` attribute out of `attrs` and read the item it names
pub fn get_lang(attrs: &mut Option<LangAttr>) -> (r: Result<Option<(Lang, Span)>, ParseError>)
    ensures
        *final(attrs) == None::<LangAttr>,
        match *old(attrs) {
            None => r == Ok::<Option<(Lang, Span)>, ParseError>(None),
            Some(a) => match Lang::named(a.value@) {
                Some(l) => r == Ok::<Option<(Lang, Span)>, ParseError>(Some((l, a.span))),
                None => r == Err::<Option<(Lang, Span)>, ParseError>(
                    ParseError { span: a.span, message: ErrorMessage::UnknownLang },
                ),
            },
        },
{
    let attr = attrs.take();
    match attr {
        None => Ok(None),
        Some(a) => match Lang::from_name(a.value.as_str()) {
            Some(l) => Ok(Some((l, a.span))),
            None => Err(ParseError { span: a.span, message: ErrorMessage::UnknownLang }),
        },
    }
}

/// The parsed options of the attribute
#[derive(Clone, Copy, Debug)]
pub struct AttributeArgs {
    pub async_kind: (AsyncKind, Span),
    pub language: Option<(Lang, Span)>,
    pub impl_gen: Option<ImplGen>,
}

impl AttributeArgs {
    /// Options asking for `async_kind` at `span` and nothing else
    pub fn new(async_kind: AsyncKind, span: Span) -> (a: Self)
        ensures
            a.async_kind == (async_kind, span),
            a.language is None,
            a.impl_gen is None,
    {
        Self { async_kind: (async_kind, span), language: None, impl_gen: None }
    }

    /// Apply the options from token `i` on
    pub open spec fn apply(ts: Seq<TokenTree>, i: int, this: AttributeArgs) -> Result<AttributeArgs, ParseError>
        decreases ts.len() + 2 - i,
    {
        if i < 0 || i >= ts.len() {
            Ok(this)
        } else {
            match ts[i] {
                TokenTree::Ident(name, span) => if name@ == "impl"@ {
                    if i + 1 >= ts.len() {
                        Err(ParseError { span: Span { id: 0 }, message: ErrorMessage::EndExpectedParens })
                    } else {
                        match ts[i + 1] {
                            TokenTree::Group(Delimiter::Parenthesis, content, _) => match ImplGen::parse_spec(content@) {
                                Ok(g) => Self::apply(ts, i + 2, AttributeArgs { impl_gen: Some(g), ..this }),
                                Err(e) => Err(e),
                            },
                            t => Err(ParseError { span: t.span_of(), message: ErrorMessage::ExpectedParens }),
                        }
                    }
                } else {
                    match AsyncKind::named(name@) {
                        None => Err(ParseError { span, message: ErrorMessage::UnknownOption }),
                        Some(k) => if this.async_kind.0 != AsyncKind::Implicit {
                            Err(ParseError { span, message: ErrorMessage::DuplicateAsyncKind })
                        } else {
                            Self::apply(ts, i + 1, AttributeArgs { async_kind: (k, span), ..this })
                        },
                    }
                },
                t => Err(ParseError { span: t.span_of(), message: ErrorMessage::ExpectedIdent }),
            }
        }
    }

    /// What the attribute's tokens `ts` give
    pub open spec fn parse_spec(ts: Seq<TokenTree>) -> Result<AttributeArgs, ParseError> {
        Self::apply(
            ts,
            0,
            AttributeArgs {
                async_kind: (
                    AsyncKind::Implicit,
                    if ts.len() > 0 {
                        ts[0].span_of()
                    } else {
                        Span { id: 0 }
                    },
                ),
                language: None,
                impl_gen: None,
            },
        )
    }

    /// Parse the tokens of the attribute
    pub fn parse(input: &Vec<TokenTree>) -> (r: Result<Self, ParseError>)
        ensures
            r == Self::parse_spec(input@),
    {
        let n = input.len();
        let span = if n > 0 {
            input[0].span()
        } else {
            Span::call_site()
        };
        let mut this = Self::new(AsyncKind::Implicit, span);
        let ghost start = this;
        let mut i: usize = 0;
        while i < n
            invariant
                n == input@.len(),
                i <= n,
                Self::parse_spec(input@) == Self::apply(input@, 0, start),
                Self::apply(input@, 0, start) == Self::apply(input@, i as int, this),
            decreases n - i,
        {
            match &input[i] {
                TokenTree::Ident(name, span) => {
                    let span = *span;
                    if str_eq(name.as_str(), "impl") {
                        if i + 1 >= n {
                            return Err(ParseError { span: Span::call_site(), message: ErrorMessage::EndExpectedParens });
                        }
                        match &input[i + 1] {
                            TokenTree::Group(Delimiter::Parenthesis, content, _) => {
                                match ImplGen::parse(content) {
                                    Ok(g) => {
                                        this.impl_gen = Some(g);
                                    },
                                    Err(e) => {
                                        return Err(e);
                                    },
                                }
                            },
                            t => {
                                return Err(ParseError { span: t.span(), message: ErrorMessage::ExpectedParens });
                            },
                        }
                        i = i + 2;
                    } else {
                        match AsyncKind::from_name(name.as_str()) {
                            None => {
                                return Err(ParseError { span, message: ErrorMessage::UnknownOption });
                            },
                            Some(k) => {
                                if this.async_kind.0 != AsyncKind::Implicit {
                                    return Err(ParseError { span, message: ErrorMessage::DuplicateAsyncKind });
                                }
                                this.async_kind = (k, span);
                            },
                        }
                        i = i + 1;
                    }
                },
                t => {
                    return Err(ParseError { span: t.span(), message: ErrorMessage::ExpectedIdent });
                },
            }
        }
        Ok(this)
    }

    /// Read the `lang` attribute of the item into the options
    pub fn parse_attrs(&mut self, attrs: &mut Option<LangAttr>) -> (r: Result<(), ParseError>)
        ensures
            *final(attrs) == None::<LangAttr>,
            match *old(attrs) {
                None => r is Ok && *final(self) == AttributeArgs { language: None, ..*old(self) },
                Some(a) => match Lang::named(a.value@) {
                    Some(l) => r is Ok && *final(self) == AttributeArgs {
                        language: Some((l, a.span)),
                        ..*old(self)
                    },
                    None => r == Err::<(), ParseError>(
                        ParseError { span: a.span, message: ErrorMessage::UnknownLang },
                    ) && *final(self) == *old(self),
                },
            },
    {
        let lang = get_lang(attrs);
        match lang {
            Ok(l) => {
                self.language = l;
                Ok(())
            },
            Err(e) => Err(e),
        }
    }
}

} // verus!
