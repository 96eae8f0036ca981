//! The checks of the `future` transform: the shape of the request argument
//! and of the cancel function declared in the body

use vstd::prelude::*;
use crate::macros::{str_eq, ErrorMessage, ParseError, Span};

verus! {

/// The pattern of a typed argument, as far as the checks look at it
#[derive(Debug)]
pub enum ArgPattern {
    /// A binding `name` (possibly with `ref` or `mut`); `subpattern` tells
    /// whether an `@ pattern` follows it
    Binding { name: String, name_span: Span, subpattern: bool },
    /// Any other pattern
    Other,
}

/// An input of a signature
#[derive(Debug)]
pub enum SigInput {
    /// A `self` receiver
    Receiver,
    /// `pattern: type`; `infer` tells whether the type is `_`
    Typed { pat: ArgPattern, pat_span: Span, infer: bool, ty_span: Span },
}

/// Where the request argument check fails, if it does: the last input must
/// be a plain binding named `request` whose type is `_`
pub open spec fn request_arg_error(inputs: Seq<SigInput>, inputs_span: Span) -> Option<Span> {
    if inputs.len() == 0 {
        Some(inputs_span)
    } else {
        match inputs.last() {
            SigInput::Receiver => Some(inputs_span),
            SigInput::Typed { pat, pat_span, infer, ty_span } => match pat {
                ArgPattern::Binding { name, name_span, subpattern } => if subpattern {
                    Some(pat_span)
                } else if name@ != "request"@ {
                    Some(name_span)
                } else if !infer {
                    Some(ty_span)
                } else {
                    None
                },
                ArgPattern::Other => Some(pat_span),
            },
        }
    }
}

/// The error of a check that failed at `span`, or success
pub open spec fn check_result(failure: Option<Span>, message: ErrorMessage) -> Result<(), ParseError> {
    match failure {
        Some(span) => Err(ParseError { span, message }),
        None => Ok(()),
    }
}

/// Check that the last argument of a future's signature is `request: _`,
/// the argument that the transform gives the request pointer's type
pub fn check_request_arg(inputs: &Vec<SigInput>, inputs_span: Span) -> (r: Result<(), ParseError>)
    ensures
        r == check_result(request_arg_error(inputs@, inputs_span), ErrorMessage::LastArgRequest),
{
    let fail = Err(ParseError { span: inputs_span, message: ErrorMessage::LastArgRequest });
    if inputs.len() == 0 {
        return fail;
    }
    match &inputs[inputs.len() - 1] {
        SigInput::Receiver => fail,
        SigInput::Typed { pat, pat_span, infer, ty_span } => match pat {
            ArgPattern::Binding { name, name_span, subpattern } => {
                if *subpattern {
                    Err(ParseError { span: *pat_span, message: ErrorMessage::LastArgRequest })
                } else if !str_eq(name.as_str(), "request") {
                    Err(ParseError { span: *name_span, message: ErrorMessage::LastArgRequest })
                } else if !*infer {
                    Err(ParseError { span: *ty_span, message: ErrorMessage::LastArgRequest })
                } else {
                    Ok(())
                }
            },
            ArgPattern::Other => Err(ParseError { span: *pat_span, message: ErrorMessage::LastArgRequest }),
        },
    }
}

/// A part of a declaration that is not allowed: its span when present
pub fn not_allowed(what: Option<Span>, message: ErrorMessage) -> (r: Result<(), ParseError>)
    ensures
        r == check_result(what, message),
{
    match what {
        Some(span) => Err(ParseError { span, message }),
        None => Ok(()),
    }
}

/// The parts of a cancel function's declaration that it may not have, each
/// with its span when it is present
#[derive(Clone, Copy, Debug)]
pub struct CancelSig {
    pub visibility: Option<Span>,
    pub constness: Option<Span>,
    pub asyncness: Option<Span>,
    pub abi: Option<Span>,
    pub generics: Option<Span>,
    pub variadic: Option<Span>,
}

/// The first part of a cancel function's declaration that is not allowed,
/// with its message, in the order in which they are checked
pub open spec fn cancel_sig_error(sig: CancelSig) -> Option<ParseError> {
    if sig.visibility is Some {
        Some(ParseError { span: sig.visibility->0, message: ErrorMessage::VisibilityNotAllowed })
    } else if sig.constness is Some {
        Some(ParseError { span: sig.constness->0, message: ErrorMessage::ConstNotAllowed })
    } else if sig.asyncness is Some {
        Some(ParseError { span: sig.asyncness->0, message: ErrorMessage::AsyncNotAllowed })
    } else if sig.abi is Some {
        Some(ParseError { span: sig.abi->0, message: ErrorMessage::AbiNotAllowed })
    } else if sig.generics is Some {
        Some(ParseError { span: sig.generics->0, message: ErrorMessage::GenericsNotAllowed })
    } else if sig.variadic is Some {
        Some(ParseError { span: sig.variadic->0, message: ErrorMessage::VariadicsNotAllowed })
    } else {
        None
    }
}

/// Check the declaration of a `#[cancel]` function: no visibility, `const`,
/// `async`, ABI, generics or variadics
pub fn check_cancel_sig(sig: &CancelSig) -> (r: Result<(), ParseError>)
    ensures
        r == (match cancel_sig_error(*sig) {
            Some(e) => Err(e),
            None => Ok(()),
        }),
{
    not_allowed(sig.visibility, ErrorMessage::VisibilityNotAllowed)?;
    not_allowed(sig.constness, ErrorMessage::ConstNotAllowed)?;
    not_allowed(sig.asyncness, ErrorMessage::AsyncNotAllowed)?;
    not_allowed(sig.abi, ErrorMessage::AbiNotAllowed)?;
    not_allowed(sig.generics, ErrorMessage::GenericsNotAllowed)?;
    not_allowed(sig.variadic, ErrorMessage::VariadicsNotAllowed)
}

/// What the `future` transform looks at in a function: its inputs, the
/// span of the input list, and the `#[cancel]` function of its body, if any
#[derive(Debug)]
pub struct FutureSig {
    pub inputs: Vec<SigInput>,
    pub inputs_span: Span,
    pub cancel: Option<CancelSig>,
}

/// How the `future` transform rewrites a function
#[derive(Clone, Copy, Debug, PartialEq, Eq, Structural)]
pub enum FuturePlan {
    /// The function is left as it is
    Unchanged,
    /// The function becomes a future: the `request: _` argument is taken
    /// off and passed to the future's closure; its cancel closure captures
    /// the receiver when there is one, and is the body's `#[cancel]`
    /// function when `custom_cancel`
    Future { receiver: bool, custom_cancel: bool },
}

/// Whether the first input is a receiver
pub open spec fn has_receiver(inputs: Seq<SigInput>) -> bool {
    inputs.len() > 0 && inputs[0] is Receiver
}

/// What the `future` transform does with a function: one that is neither the
/// item the attribute is on (`is_root`) nor marked `#[future]` is left alone;
/// otherwise its cancel function is checked, then its request argument
pub open spec fn future_plan_spec(sig: FutureSig, is_root: bool, marked: bool) -> Result<FuturePlan, ParseError> {
    if !is_root && !marked {
        Ok(FuturePlan::Unchanged)
    } else if sig.cancel matches Some(c) && cancel_sig_error(c) is Some {
        Err(cancel_sig_error(sig.cancel->0)->0)
    } else if request_arg_error(sig.inputs@, sig.inputs_span) is Some {
        Err(ParseError { span: request_arg_error(sig.inputs@, sig.inputs_span)->0, message: ErrorMessage::LastArgRequest })
    } else {
        Ok(FuturePlan::Future { receiver: has_receiver(sig.inputs@), custom_cancel: sig.cancel is Some })
    }
}

/// Decide how the `future` transform rewrites a function
pub fn future_plan(sig: &FutureSig, is_root: bool, marked: bool) -> (r: Result<FuturePlan, ParseError>)
    ensures
        r == future_plan_spec(*sig, is_root, marked),
{
    if !is_root && !marked {
        return Ok(FuturePlan::Unchanged);
    }
    if let Some(cancel) = &sig.cancel {
        check_cancel_sig(cancel)?;
    }
    check_request_arg(&sig.inputs, sig.inputs_span)?;
    let receiver = sig.inputs.len() > 0 && match &sig.inputs[0] {
        SigInput::Receiver => true,
        _ => false,
    };
    Ok(FuturePlan::Future { receiver, custom_cancel: sig.cancel.is_some() })
}

} // verus!
