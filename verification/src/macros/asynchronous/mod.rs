//! The `asynchronous` attribute: which expansion an item gets

use vstd::prelude::*;
use crate::macros::{ErrorMessage, ParseError, Span, TokenTree};
use self::options::{AsyncKind, AttributeArgs, Lang, LangAttr};

pub mod branch;
pub mod invoke;
pub mod lang;
pub mod options;
pub mod traits;
pub mod transform;
pub mod visit;

verus! {

/// The kind of item the attribute is placed on
#[derive(Clone, Copy, Debug, PartialEq, Eq, Structural)]
pub enum AsyncItem {
    Fn,
    TraitFn,
    Trait,
    /// An impl block, for a trait or not
    Impl { has_trait: bool },
    Struct,
}

/// The expansion chosen for an item
#[derive(Clone, Copy, Debug, PartialEq, Eq, Structural)]
pub enum Expansion {
    /// The runtime's `TaskWrap` language item, on a struct
    TaskWrap,
    /// The runtime's `AsyncClosure` language item, on a struct
    AsyncClosure,
    /// The runtime's `Task` language item, on a trait
    Task,
    /// Async functions of a trait implementation
    AsyncImpl,
    /// Synchronous functions that take the async context
    TransformSync,
    /// Async functions transformed one by one
    TransformItems,
    /// An async trait
    AsyncTrait,
}

/// The expansion for a language item, or the error
pub open spec fn language_spec(lang: Lang, span: Span, item: AsyncItem) -> Result<Expansion, ParseError> {
    match (lang, item) {
        (Lang::TaskWrap, AsyncItem::Struct) => Ok(Expansion::TaskWrap),
        (Lang::AsyncClosure, AsyncItem::Struct) => Ok(Expansion::AsyncClosure),
        (Lang::Task, AsyncItem::Trait) => Ok(Expansion::Task),
        _ => Err(ParseError { span, message: ErrorMessage::InvalidLangItem }),
    }
}

/// Which expansion a language item gets
pub fn language_impl(lang: Lang, span: Span, item: AsyncItem) -> (r: Result<Expansion, ParseError>)
    ensures
        r == language_spec(lang, span, item),
{
    match (lang, item) {
        (Lang::TaskWrap, AsyncItem::Struct) => Ok(Expansion::TaskWrap),
        (Lang::AsyncClosure, AsyncItem::Struct) => Ok(Expansion::AsyncClosure),
        (Lang::Task, AsyncItem::Trait) => Ok(Expansion::Task),
        _ => Err(ParseError { span, message: ErrorMessage::InvalidLangItem }),
    }
}

/// The expansion for an item that is no language item
pub open spec fn kind_spec(kind: AsyncKind, item: AsyncItem, item_span: Span) -> Result<Expansion, ParseError> {
    if item == AsyncItem::Struct {
        Err(ParseError { span: item_span, message: ErrorMessage::UnexpectedDeclaration })
    } else {
        match kind {
            AsyncKind::TraitFn => Ok(Expansion::AsyncImpl),
            AsyncKind::Sync => Ok(Expansion::TransformSync),
            AsyncKind::TraitExt => Ok(Expansion::TransformItems),
            AsyncKind::Task => Ok(Expansion::TransformItems),
            AsyncKind::Implicit => match item {
                AsyncItem::Trait => Ok(Expansion::AsyncTrait),
                AsyncItem::Impl { has_trait } => if has_trait {
                    Ok(Expansion::AsyncImpl)
                } else {
                    Ok(Expansion::TransformItems)
                },
                AsyncItem::Fn => Ok(Expansion::TransformItems),
                _ => Err(ParseError { span: item_span, message: ErrorMessage::TraitFnNeedsAttribute }),
            },
        }
    }
}

/// What the attribute with tokens `ts` does to an item of kind `item` at
/// `item_span` whose `lang` attribute is `lang`
pub open spec fn asynchronous_spec(
    ts: Seq<TokenTree>,
    item: AsyncItem,
    item_span: Span,
    lang: Option<LangAttr>,
) -> Result<(AttributeArgs, Expansion), ParseError> {
    match AttributeArgs::parse_spec(ts) {
        Err(e) => Err(e),
        Ok(args) => if args.impl_gen is Some && !(item == AsyncItem::Trait
            && args.async_kind.0 == AsyncKind::Implicit) {
            Err(ParseError { span: args.impl_gen.unwrap().span, message: ErrorMessage::NotAllowed })
        } else {
            let reads_lang = match item {
                AsyncItem::Struct => true,
                AsyncItem::Trait => true,
                AsyncItem::Impl { .. } => true,
                _ => false,
            };
            let language = if reads_lang && lang is Some {
                match Lang::named(lang.unwrap().value@) {
                    Some(l) => Ok(Some((l, lang.unwrap().span))),
                    None => Err(ParseError { span: lang.unwrap().span, message: ErrorMessage::UnknownLang }),
                }
            } else {
                Ok(None::<(Lang, Span)>)
            };
            match language {
                Err(e) => Err(e),
                Ok(language) => {
                    let args = if reads_lang {
                        AttributeArgs { language, ..args }
                    } else {
                        args
                    };
                    let expansion = match args.language {
                        Some((l, span)) => language_spec(l, span, item),
                        None => kind_spec(args.async_kind.0, item, item_span),
                    };
                    match expansion {
                        Ok(x) => Ok((args, x)),
                        Err(e) => Err(e),
                    }
                },
            }
        },
    }
}

/// Choose the expansion of the `asynchronous` attribute with tokens
/// `attrs`, placed on an item of kind `item` at `item_span`; `lang` is the
/// item's `lang` attribute, which is taken out of it when the item is a
/// struct, a trait or an impl
pub fn asynchronous(attrs: &Vec<TokenTree>, item: AsyncItem, item_span: Span, lang: &mut Option<LangAttr>) -> (r: Result<(AttributeArgs, Expansion), ParseError>)
    ensures
        r == asynchronous_spec(attrs@, item, item_span, *old(lang)),
{
    let mut args = match AttributeArgs::parse(attrs) {
        Ok(a) => a,
        Err(e) => {
            return Err(e);
        },
    };
    if let Some(gen) = args.impl_gen {
        if !(item == AsyncItem::Trait && args.async_kind.0 == AsyncKind::Implicit) {
            return Err(ParseError { span: gen.span, message: ErrorMessage::NotAllowed });
        }
    }
    let reads_lang = match item {
        AsyncItem::Struct => true,
        AsyncItem::Trait => true,
        AsyncItem::Impl { .. } => true,
        _ => false,
    };
    if reads_lang {
        match args.parse_attrs(lang) {
            Ok(()) => {},
            Err(e) => {
                return Err(e);
            },
        }
    }
    let expansion = match args.language {
        Some((l, span)) => language_impl(l, span, item),
        None => {
            if item == AsyncItem::Struct {
                Err(ParseError { span: item_span, message: ErrorMessage::UnexpectedDeclaration })
            } else {
                match args.async_kind.0 {
                    AsyncKind::TraitFn => Ok(Expansion::AsyncImpl),
                    AsyncKind::Sync => Ok(Expansion::TransformSync),
                    AsyncKind::TraitExt => Ok(Expansion::TransformItems),
                    AsyncKind::Task => Ok(Expansion::TransformItems),
                    AsyncKind::Implicit => match item {
                        AsyncItem::Trait => Ok(Expansion::AsyncTrait),
                        AsyncItem::Impl { has_trait } => if has_trait {
                            Ok(Expansion::AsyncImpl)
                        } else {
                            Ok(Expansion::TransformItems)
                        },
                        AsyncItem::Fn => Ok(Expansion::TransformItems),
                        _ => Err(ParseError { span: item_span, message: ErrorMessage::TraitFnNeedsAttribute }),
                    },
                }
            }
        },
    };
    match expansion {
        Ok(x) => Ok((args, x)),
        Err(e) => Err(e),
    }
}

/// The expansion an impl block gets under the implicit kind: a trait
/// implementation is expanded as such, an inherent impl has its functions
/// transformed one by one
pub open spec fn impl_block_expansion(has_trait: bool, e: Expansion) -> bool {
    &&& has_trait <==> e == Expansion::AsyncImpl
    &&& !has_trait <==> e == Expansion::TransformItems
}

/// On an impl block, the attribute with the implicit kind and no language
/// item expands the block as a trait implementation exactly when it
/// implements a trait, and transforms its functions one by one when it is
/// an inherent impl; with no options and no `lang` attribute this is what
/// happens
pub proof fn law_impl_expansion(ts: Seq<TokenTree>, has_trait: bool, item_span: Span, lang: Option<LangAttr>)
    ensures
        match asynchronous_spec(ts, AsyncItem::Impl { has_trait }, item_span, lang) {
            Ok((args, e)) => (args.async_kind.0 == AsyncKind::Implicit && args.language is None)
                ==> impl_block_expansion(has_trait, e),
            Err(_) => true,
        },
        match asynchronous_spec(Seq::empty(), AsyncItem::Impl { has_trait }, item_span, None) {
            Ok((args, e)) => args.async_kind.0 == AsyncKind::Implicit && args.language is None
                && impl_block_expansion(has_trait, e),
            Err(_) => false,
        },
{
    assert(AttributeArgs::parse_spec(Seq::<TokenTree>::empty()) is Ok);
}

} // verus!
