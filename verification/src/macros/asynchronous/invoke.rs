//! The options of the `asynchronous` attribute, as the invoking expansion
//! reads them: `impl(..)` groups add up, and a second kind is an invalid
//! combination.

use vstd::prelude::*;
use crate::macros::{str_eq, Delimiter, ErrorMessage, ParseError, Span, TokenTree};
use crate::macros::asynchronous::options::{impl_slot, lemma_list_syntax_prefix, list_syntax_error};

verus! {

/// How a transformed function is turned into a closure
#[derive(Clone, Copy, Debug, PartialEq, Eq, Structural)]
pub enum ClosureType {
    /// Not turned into a closure
    Plain,
    Standard,
    Trait,
}

/// The kind of async item the attribute asks for
#[derive(Clone, Copy, Debug, PartialEq, Eq, Structural)]
pub enum AsyncKind {
    Default,
    TraitFn,
    TraitExt,
    Task,
    Sync,
}

impl AsyncKind {
    /// The kind an option names; `Default` has no name
    pub open spec fn named(name: Seq<char>) -> Option<AsyncKind> {
        if name == "traitfn"@ {
            Some(AsyncKind::TraitFn)
        } else if name == "traitext"@ {
            Some(AsyncKind::TraitExt)
        } else if name == "task"@ {
            Some(AsyncKind::Task)
        } else if name == "sync"@ {
            Some(AsyncKind::Sync)
        } else {
            None
        }
    }

    /// The kind an option names
    pub fn from_name(name: &str) -> (k: Option<AsyncKind>)
        ensures
            k == Self::named(name@),
    {
        if str_eq(name, "traitfn") {
            Some(AsyncKind::TraitFn)
        } else if str_eq(name, "traitext") {
            Some(AsyncKind::TraitExt)
        } else if str_eq(name, "task") {
            Some(AsyncKind::Task)
        } else if str_eq(name, "sync") {
            Some(AsyncKind::Sync)
        } else {
            None
        }
    }

    /// How functions of this kind become closures
    pub fn closure_type(self) -> (c: ClosureType)
        ensures
            c == match self {
                AsyncKind::Default => ClosureType::Standard,
                AsyncKind::TraitFn => ClosureType::Plain,
                AsyncKind::TraitExt => ClosureType::Trait,
                AsyncKind::Task => ClosureType::Plain,
                AsyncKind::Sync => ClosureType::Plain,
            },
    {
        match self {
            AsyncKind::Default => ClosureType::Standard,
            AsyncKind::TraitFn => ClosureType::Plain,
            AsyncKind::TraitExt => ClosureType::Trait,
            AsyncKind::Task => ClosureType::Plain,
            AsyncKind::Sync => ClosureType::Plain,
        }
    }
}

/// A language item the runtime provides through the attribute
#[derive(Clone, Copy, Debug, PartialEq, Eq, Structural)]
pub enum Lang {
    GetContext,
    TaskWrap,
    TaskClosure,
    AsyncClosure,
    Task,
}

impl Lang {
    /// The item a `lang` value names
    pub open spec fn named(name: Seq<char>) -> Option<Lang> {
        if name == "get_context"@ {
            Some(Lang::GetContext)
        } else if name == "task_wrap"@ {
            Some(Lang::TaskWrap)
        } else if name == "task_closure"@ {
            Some(Lang::TaskClosure)
        } else if name == "async_closure"@ {
            Some(Lang::AsyncClosure)
        } else if name == "task"@ {
            Some(Lang::Task)
        } else {
            None
        }
    }

    /// The item a `lang` value names
    pub fn from_name(name: &str) -> (l: Option<Lang>)
        ensures
            l == Self::named(name@),
    {
        if str_eq(name, "get_context") {
            Some(Lang::GetContext)
        } else if str_eq(name, "task_wrap") {
            Some(Lang::TaskWrap)
        } else if str_eq(name, "task_closure") {
            Some(Lang::TaskClosure)
        } else if str_eq(name, "async_closure") {
            Some(Lang::AsyncClosure)
        } else if str_eq(name, "task") {
            Some(Lang::Task)
        } else {
            None
        }
    }
}

/// The kinds of references an `impl` is generated for, each with the span of
/// the option that asked for it
#[derive(Clone, Copy, Debug, PartialEq, Eq, Structural)]
pub struct ImplGen {
    pub impl_ref: Option<Span>,
    pub impl_mut: Option<Span>,
    pub impl_box: Option<Span>,
}

impl Default for ImplGen {
    fn default() -> (g: Self)
        ensures
            g.impl_ref is None,
            g.impl_mut is None,
            g.impl_box is None,
    {
        ImplGen { impl_ref: None, impl_mut: None, impl_box: None }
    }
}

impl ImplGen {
    pub open spec fn slot(self, k: int) -> Option<Span> {
        if k == 0 {
            self.impl_ref
        } else if k == 1 {
            self.impl_mut
        } else {
            self.impl_box
        }
    }

    pub open spec fn with_slot(self, k: int, s: Span) -> ImplGen {
        if k == 0 {
            ImplGen { impl_ref: Some(s), ..self }
        } else if k == 1 {
            ImplGen { impl_mut: Some(s), ..self }
        } else {
            ImplGen { impl_box: Some(s), ..self }
        }
    }

    /// Apply the options at the even positions from `i` on, in order: the
    /// options as far as they went, and the error that stopped them
    pub open spec fn apply_options(ts: Seq<TokenTree>, i: int, gen: ImplGen) -> (ImplGen, Option<ParseError>)
        decreases ts.len() + 2 - i,
    {
        if i < 0 || i >= ts.len() {
            (gen, None)
        } else {
            match ts[i] {
                TokenTree::Ident(name, span) => match impl_slot(name@) {
                    None => (gen, Some(ParseError { span, message: ErrorMessage::UnknownOption })),
                    Some(k) => if gen.slot(k) is Some {
                        (gen, Some(ParseError { span, message: ErrorMessage::DuplicateOption }))
                    } else {
                        Self::apply_options(ts, i + 2, gen.with_slot(k, span))
                    },
                },
                _ => (gen, None),
            }
        }
    }

    /// What `impl(..)` with the tokens `ts` inside does to `gen`: the options
    /// after it, and the error if there is one
    pub open spec fn parse_spec(ts: Seq<TokenTree>, gen: ImplGen) -> (ImplGen, Option<ParseError>) {
        match list_syntax_error(ts, 0) {
            Some(e) => (gen, Some(e)),
            None => Self::apply_options(ts, 0, gen),
        }
    }

    /// Add the comma separated options inside `impl(..)`
    fn parse(&mut self, input: &Vec<TokenTree>) -> (r: Result<(), ParseError>)
        ensures
            *final(self) == Self::parse_spec(input@, *old(self)).0,
            r is Err <==> Self::parse_spec(input@, *old(self)).1 is Some,
            r is Err ==> r->Err_0 == Self::parse_spec(input@, *old(self)).1.unwrap(),
    {
        let n = input.len();
        let mut i: usize = 0;
        while i < n
            invariant
                n == input@.len(),
                i <= n,
                list_syntax_error(input@, 0) == list_syntax_error(input@, i as int),
            decreases n - i,
        {
            let ok = if i % 2 == 0 {
                match &input[i] {
                    TokenTree::Ident(_, _) => true,
                    _ => false,
                }
            } else {
                match &input[i] {
                    TokenTree::Punct(c, _) => *c == ',',
                    _ => false,
                }
            };
            if !ok {
                let message = if i % 2 == 0 {
                    ErrorMessage::ExpectedIdent
                } else {
                    ErrorMessage::ExpectedComma
                };
                return Err(ParseError { span: input[i].span(), message });
            }
            i = i + 1;
        }
        let ghost start = *self;
        let mut i: usize = 0;
        while i < n
            invariant
                n == input@.len(),
                i % 2 == 0,
                list_syntax_error(input@, 0) is None,
                start == *old(self),
                Self::parse_spec(input@, start) == Self::apply_options(input@, 0, start),
                Self::apply_options(input@, 0, start) == Self::apply_options(input@, i as int, *self),
            decreases n - i,
        {
            proof {
                lemma_list_syntax_prefix(input@, i as int);
            }
            let ghost old_gen = *self;
            match &input[i] {
                TokenTree::Ident(name, span) => {
                    let span = *span;
                    let name = name.as_str();
                    if str_eq(name, "ref") {
                        if self.impl_ref.is_some() {
                            return Err(ParseError { span, message: ErrorMessage::DuplicateOption });
                        }
                        self.impl_ref = Some(span);
                    } else if str_eq(name, "mut") {
                        if self.impl_mut.is_some() {
                            return Err(ParseError { span, message: ErrorMessage::DuplicateOption });
                        }
                        self.impl_mut = Some(span);
                    } else if str_eq(name, "box") {
                        if self.impl_box.is_some() {
                            return Err(ParseError { span, message: ErrorMessage::DuplicateOption });
                        }
                        self.impl_box = Some(span);
                    } else {
                        return Err(ParseError { span, message: ErrorMessage::UnknownOption });
                    }
                },
                _ => {
                    return Ok(());
                },
            }
            assert(Self::apply_options(input@, i as int, old_gen) == Self::apply_options(
                input@,
                i + 2,
                *self,
            ));
            if n - i <= 2 {
                return Ok(());
            }
            i = i + 2;
        }
        Ok(())
    }

    /// The span of the first option that makes the `impl` take ownership
    pub fn span(&self) -> (s: Option<Span>)
        ensures
            s == if self.impl_mut is Some {
                self.impl_mut
            } else {
                self.impl_box
            },
    {
        if self.impl_mut.is_some() {
            self.impl_mut
        } else {
            self.impl_box
        }
    }
}

/// The `lang` attribute of an item: its value and span
#[derive(Clone, Debug)]
pub struct LangAttr {
    pub value: String,
    pub span: Span,
}

/// Take the `lang` attribute out of `attrs` and read the item it names
pub fn get_lang(attrs: &mut Option<LangAttr>) -> (r: Result<Option<(Lang, Span)>, ParseError>)
    ensures
        *final(attrs) == None::<LangAttr>,
        match *old(attrs) {
            None => r == Ok::<Option<(Lang, Span)>, ParseError>(None),
            Some(a) => match Lang::named(a.value@) {
                Some(l) => r == Ok::<Option<(Lang, Span)>, ParseError>(Some((l, a.span))),
                None => r == Err::<Option<(Lang, Span)>, ParseError>(
                    ParseError { span: a.span, message: ErrorMessage::UnknownLang },
                ),
            },
        },
{
    let attr = attrs.take();
    match attr {
        None => Ok(None),
        Some(a) => match Lang::from_name(a.value.as_str()) {
            Some(l) => Ok(Some((l, a.span))),
            None => Err(ParseError { span: a.span, message: ErrorMessage::UnknownLang }),
        },
    }
}

/// The parsed options of the attribute
#[derive(Clone, Copy, Debug)]
pub struct AttributeArgs {
    pub async_kind: (AsyncKind, Span),
    pub impl_gen: ImplGen,
    pub language: Option<(Lang, Span)>,
}

impl AttributeArgs {
    /// Options asking for `async_kind` at `span` and nothing else
    pub fn new(async_kind: AsyncKind, span: Span) -> (a: Self)
        ensures
            a.async_kind == (async_kind, span),
            a.language is None,
            a.impl_gen == (ImplGen { impl_ref: None, impl_mut: None, impl_box: None }),
    {
        Self { async_kind: (async_kind, span), language: None, impl_gen: ImplGen::default() }
    }

    /// Apply the options from token `i` on
    pub open spec fn apply(ts: Seq<TokenTree>, i: int, this: AttributeArgs) -> Result<AttributeArgs, ParseError>
        decreases ts.len() + 2 - i,
    {
        if i < 0 || i >= ts.len() {
            Ok(this)
        } else {
            match ts[i] {
                TokenTree::Ident(name, span) => if name@ == "impl"@ {
                    if i + 1 >= ts.len() {
                        Err(ParseError { span: Span { id: 0 }, message: ErrorMessage::EndExpectedParens })
                    } else {
                        match ts[i + 1] {
                            TokenTree::Group(Delimiter::Parenthesis, content, _) => {
                                let (g, e) = ImplGen::parse_spec(content@, this.impl_gen);
                                match e {
                                    None => Self::apply(ts, i + 2, AttributeArgs { impl_gen: g, ..this }),
                                    Some(e) => Err(e),
                                }
                            },
                            t => Err(ParseError { span: t.span_of(), message: ErrorMessage::ExpectedParens }),
                        }
                    }
                } else {
                    match AsyncKind::named(name@) {
                        None => Err(ParseError { span, message: ErrorMessage::UnknownOption }),
                        Some(k) => if this.async_kind.0 != AsyncKind::Default {
                            Err(ParseError { span, message: ErrorMessage::InvalidCombination })
                        } else {
                            Self::apply(ts, i + 1, AttributeArgs { async_kind: (k, span), ..this })
                        },
                    }
                },
                t => Err(ParseError { span: t.span_of(), message: ErrorMessage::ExpectedIdent }),
            }
        }
    }

    /// What the attribute's tokens `ts` give
    pub open spec fn parse_spec(ts: Seq<TokenTree>) -> Result<AttributeArgs, ParseError> {
        Self::apply(
            ts,
            0,
            AttributeArgs {
                async_kind: (
                    AsyncKind::Default,
                    if ts.len() > 0 {
                        ts[0].span_of()
                    } else {
                        Span { id: 0 }
                    },
                ),
                impl_gen: ImplGen { impl_ref: None, impl_mut: None, impl_box: None },
                language: None,
            },
        )
    }

    /// Parse the tokens of the attribute
    pub fn parse(input: &Vec<TokenTree>) -> (r: Result<Self, ParseError>)
        ensures
            r == Self::parse_spec(input@),
    {
        let n = input.len();
        let span = if n > 0 {
            input[0].span()
        } else {
            Span::call_site()
        };
        let mut this = Self::new(AsyncKind::Default, span);
        let ghost start = this;
        let mut i: usize = 0;
        while i < n
            invariant
                n == input@.len(),
                i <= n,
                Self::parse_spec(input@) == Self::apply(input@, 0, start),
                Self::apply(input@, 0, start) == Self::apply(input@, i as int, this),
            decreases n - i,
        {
            match &input[i] {
                TokenTree::Ident(name, span) => {
                    let span = *span;
                    if str_eq(name.as_str(), "impl") {
                        if i + 1 >= n {
                            return Err(ParseError { span: Span::call_site(), message: ErrorMessage::EndExpectedParens });
                        }
                        match &input[i + 1] {
                            TokenTree::Group(Delimiter::Parenthesis, content, _) => {
                                match this.impl_gen.parse(content) {
                                    Ok(()) => {},
                                    Err(e) => {
                                        return Err(e);
                                    },
                                }
                            },
                            t => {
                                return Err(ParseError { span: t.span(), message: ErrorMessage::ExpectedParens });
                            },
                        }
                        i = i + 2;
                    } else {
                        match AsyncKind::from_name(name.as_str()) {
                            None => {
                                return Err(ParseError { span, message: ErrorMessage::UnknownOption });
                            },
                            Some(k) => {
                                if this.async_kind.0 != AsyncKind::Default {
                                    return Err(ParseError { span, message: ErrorMessage::InvalidCombination });
                                }
                                this.async_kind = (k, span);
                            },
                        }
                        i = i + 1;
                    }
                },
                t => {
                    return Err(ParseError { span: t.span(), message: ErrorMessage::ExpectedIdent });
                },
            }
        }
        Ok(this)
    }

    /// Read the `lang` attribute of the item into the options
    pub fn parse_additional(&mut self, attrs: &mut Option<LangAttr>) -> (r: Result<(), ParseError>)
        ensures
            *final(attrs) == None::<LangAttr>,
            match *old(attrs) {
                None => r is Ok && *final(self) == AttributeArgs { language: None, ..*old(self) },
                Some(a) => match Lang::named(a.value@) {
                    Some(l) => r is Ok && *final(self) == AttributeArgs {
                        language: Some((l, a.span)),
                        ..*old(self)
                    },
                    None => r == Err::<(), ParseError>(
                        ParseError { span: a.span, message: ErrorMessage::UnknownLang },
                    ) && *final(self) == *old(self),
                },
            },
    {
        let lang = get_lang(attrs);
        match lang {
            Ok(l) => {
                self.language = l;
                Ok(())
            },
            Err(e) => Err(e),
        }
    }
}

/// The kind of item the attribute is placed on
#[derive(Clone, Copy, Debug, PartialEq, Eq, Structural)]
pub enum AsyncItem {
    Fn,
    TraitFn,
    Trait,
    Impl,
    Struct,
}

} // verus!
