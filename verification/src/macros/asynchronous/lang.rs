//! Language items: the rewrites applied to the runtime's `Task` trait

use vstd::prelude::*;
use vstd::string::StringExecFns;
use crate::macros::str_eq;

verus! {

/// The generic arguments of a path segment
#[derive(Clone, Debug)]
pub enum PathArguments {
    /// No arguments
    Bare,
    /// `<..>`, with the text of each argument
    AngleBracketed(Vec<String>),
    /// `(..) -> ..`
    Parenthesized,
}

impl PathArguments {
    /// There are no arguments, or `<>`
    pub open spec fn is_empty_spec(&self) -> bool {
        match self {
            PathArguments::Bare => true,
            PathArguments::AngleBracketed(args) => args@.len() == 0,
            PathArguments::Parenthesized => false,
        }
    }
}

/// A segment of a type path
#[derive(Clone, Debug)]
pub struct PathSegment {
    pub ident: String,
    pub arguments: PathArguments,
}

/// A type as far as the rewrite reads it
#[derive(Clone, Debug)]
pub enum Type {
    /// A path with no qualified self type
    Path { leading_colon: bool, segments: Vec<PathSegment> },
    /// Any other type
    Other,
}

/// The return type of a function
#[derive(Clone, Debug)]
pub enum ReturnType {
    /// No return type written
    Default,
    Type(Type),
}

/// The return type is `Self::Output` without arguments on either segment
pub open spec fn is_self_output(output: ReturnType) -> bool {
    match output {
        ReturnType::Type(Type::Path { leading_colon, segments }) => {
            &&& !leading_colon
            &&& segments@.len() == 2
            &&& segments@[0].ident@ == "Self"@
            &&& segments@[0].arguments is Bare
            &&& segments@[1].ident@ == "Output"@
            &&& segments@[1].arguments.is_empty_spec()
        },
        _ => false,
    }
}

/// Give `Self::Output` the anonymous lifetime: `Self::Output<'_>`; any other
/// return type is left as it is
pub fn try_change_task_output(output: &mut ReturnType)
    ensures
        is_self_output(*old(output)) ==> (match *final(output) {
            ReturnType::Type(Type::Path { leading_colon, segments }) => {
                &&& !leading_colon
                &&& segments@.len() == 2
                &&& segments@[0] == (match *old(output) {
                    ReturnType::Type(Type::Path { segments, .. }) => segments@[0],
                    _ => segments@[0],
                })
                &&& segments@[1].ident@ == "Output"@
                &&& segments@[1].arguments matches PathArguments::AngleBracketed(args)
                    && args@.len() == 1 && args@[0]@ == "'_"@
            },
            _ => false,
        }),
        !is_self_output(*old(output)) ==> *final(output) == *old(output),
{
    let matches = match &*output {
        ReturnType::Type(Type::Path { leading_colon, segments }) => {
            !*leading_colon && segments.len() == 2 && str_eq(segments[0].ident.as_str(), "Self")
                && match &segments[0].arguments {
                PathArguments::Bare => true,
                _ => false,
            } && str_eq(segments[1].ident.as_str(), "Output") && match &segments[1].arguments {
                PathArguments::Bare => true,
                PathArguments::AngleBracketed(args) => args.len() == 0,
                PathArguments::Parenthesized => false,
            }
        },
        _ => false,
    };
    if matches {
        let mut taken = ReturnType::Default;
        std::mem::swap(&mut taken, output);
        match taken {
            ReturnType::Type(Type::Path { leading_colon, segments }) => {
                let mut segments = segments;
                segments.pop();
                let mut args: Vec<String> = Vec::new();
                args.push(String::from_str("'_"));
                segments.push(
                    PathSegment {
                        ident: String::from_str("Output"),
                        arguments: PathArguments::AngleBracketed(args),
                    },
                );
                *output = ReturnType::Type(Type::Path { leading_colon, segments });
            },
            other => {
                *output = other;
            },
        }
    }
}

/// A generic parameter of a trait's associated type
#[derive(Clone, Debug)]
pub enum GenericParam {
    /// A lifetime, by its name without the quote
    Lifetime(String),
    /// A type parameter
    Type(String),
    /// A const parameter
    Const(String),
}

/// Give the associated task type the lifetime `'ctx` when it has no
/// generic parameter
pub fn try_change_task_type(params: &mut Vec<GenericParam>)
    ensures
        old(params)@.len() == 0 ==> final(params)@.len() == 1 && (final(params)@[0] matches GenericParam::Lifetime(l) && l@ == "ctx"@),
        old(params)@.len() > 0 ==> final(params)@ == old(params)@,
{
    if params.len() == 0 {
        params.push(GenericParam::Lifetime(String::from_str("ctx")));
    }
}

} // verus!
