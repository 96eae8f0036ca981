//! The `errors` attribute: its options and the checks on each variant

use vstd::prelude::*;
use crate::macros::{str_eq, ErrorMessage, ParseError, Span};

verus! {

/// A bound of the attribute, such as `?Debug`
#[derive(Clone, Debug)]
pub struct TraitBound {
    /// The span of a `for<..>` lifetime list, if there is one
    pub lifetimes: Option<Span>,
    /// The bound starts with `?`
    pub maybe: bool,
    /// The path, when it is a single identifier
    pub ident: Option<String>,
    /// The span of the whole bound
    pub span: Span,
    /// The span of the path
    pub path_span: Span,
}

/// The options of the attribute: which impls are not generated
#[derive(Clone, Copy, Debug, PartialEq, Eq, Structural)]
pub struct Attributes {
    pub no_display: Option<Span>,
    pub no_debug: Option<Span>,
}

impl Attributes {
    /// Apply the bounds from `i` on
    pub open spec fn apply(bounds: Seq<TraitBound>, i: int, this: Attributes) -> Result<Attributes, ParseError>
        decreases bounds.len() - i,
    {
        if i < 0 || i >= bounds.len() {
            Ok(this)
        } else {
            let b = bounds[i];
            if b.lifetimes is Some {
                Err(ParseError { span: b.lifetimes.unwrap(), message: ErrorMessage::NotAllowed })
            } else if !b.maybe {
                Err(ParseError { span: b.span, message: ErrorMessage::ExpectedMaybe })
            } else if b.ident is Some && b.ident.unwrap()@ == "Display"@ {
                if this.no_display is Some {
                    Err(ParseError { span: b.path_span, message: ErrorMessage::DuplicateBound })
                } else {
                    Self::apply(bounds, i + 1, Attributes { no_display: Some(b.path_span), ..this })
                }
            } else if b.ident is Some && b.ident.unwrap()@ == "Debug"@ {
                if this.no_debug is Some {
                    Err(ParseError { span: b.path_span, message: ErrorMessage::DuplicateBound })
                } else {
                    Self::apply(bounds, i + 1, Attributes { no_debug: Some(b.path_span), ..this })
                }
            } else {
                Err(ParseError { span: b.path_span, message: ErrorMessage::ExpectedDebugOrDisplay })
            }
        }
    }

    /// Read the `?Display + ?Debug` options
    pub fn parse(bounds: &Vec<TraitBound>) -> (r: Result<Attributes, ParseError>)
        ensures
            r == Self::apply(bounds@, 0, Attributes { no_display: None, no_debug: None }),
    {
        let mut this = Attributes { no_display: None, no_debug: None };
        let ghost start = this;
        let mut i: usize = 0;
        while i < bounds.len()
            invariant
                i <= bounds@.len(),
                start == (Attributes { no_display: None, no_debug: None }),
                Self::apply(bounds@, 0, start) == Self::apply(bounds@, i as int, this),
            decreases bounds@.len() - i,
        {
            let b = &bounds[i];
            if let Some(lt) = b.lifetimes {
                return Err(ParseError { span: lt, message: ErrorMessage::NotAllowed });
            }
            if !b.maybe {
                return Err(ParseError { span: b.span, message: ErrorMessage::ExpectedMaybe });
            }
            let kind = match &b.ident {
                Some(id) => {
                    if str_eq(id.as_str(), "Display") {
                        1u8
                    } else if str_eq(id.as_str(), "Debug") {
                        2u8
                    } else {
                        0u8
                    }
                },
                None => 0u8,
            };
            if kind == 1 {
                if this.no_display.is_some() {
                    return Err(ParseError { span: b.path_span, message: ErrorMessage::DuplicateBound });
                }
                this.no_display = Some(b.path_span);
            } else if kind == 2 {
                if this.no_debug.is_some() {
                    return Err(ParseError { span: b.path_span, message: ErrorMessage::DuplicateBound });
                }
                this.no_debug = Some(b.path_span);
            } else {
                return Err(ParseError { span: b.path_span, message: ErrorMessage::ExpectedDebugOrDisplay });
            }
            i = i + 1;
        }
        Ok(this)
    }
}

/// A `display`, `debug` or `fmt` attribute of a variant: its span and
/// whether it says `transparent`
pub type FmtAttr = (Span, bool);

/// The formatting a variant ends up with: `fmt` stands for both `display`
/// and `debug`
#[derive(Clone, Copy, Debug)]
pub struct VariantFormat {
    pub display: Option<FmtAttr>,
    pub debug: Option<FmtAttr>,
}

/// Check a variant's attributes against its number of fields: a
/// transparent format and `#[from]` need exactly one field
pub fn check_variant(
    fmt: Option<FmtAttr>,
    display: Option<FmtAttr>,
    debug: Option<FmtAttr>,
    from: Option<Span>,
    members: usize,
) -> (r: Result<VariantFormat, ParseError>)
    ensures
        ({
            let d = if fmt is Some { fmt } else { display };
            let g = if fmt is Some { fmt } else { debug };
            if members == 1 {
                r is Ok && r->Ok_0.display == d && r->Ok_0.debug == g
            } else if d matches Some((s, true)) {
                r == Err::<VariantFormat, ParseError>(
                    ParseError { span: d.unwrap().0, message: ErrorMessage::DisplayTransparentOneField },
                )
            } else if g matches Some((s, true)) {
                r == Err::<VariantFormat, ParseError>(
                    ParseError { span: g.unwrap().0, message: ErrorMessage::DebugTransparentOneField },
                )
            } else if from is Some {
                r == Err::<VariantFormat, ParseError>(
                    ParseError { span: from.unwrap(), message: ErrorMessage::FromOneField },
                )
            } else {
                r is Ok && r->Ok_0.display == d && r->Ok_0.debug == g
            }
        }),
{
    let d = if fmt.is_some() { fmt } else { display };
    let g = if fmt.is_some() { fmt } else { debug };
    if members == 1 {
        return Ok(VariantFormat { display: d, debug: g });
    }
    if let Some((s, true)) = d {
        return Err(ParseError { span: s, message: ErrorMessage::DisplayTransparentOneField });
    }
    if let Some((s, true)) = g {
        return Err(ParseError { span: s, message: ErrorMessage::DebugTransparentOneField });
    }
    if let Some(s) = from {
        return Err(ParseError { span: s, message: ErrorMessage::FromOneField });
    }
    Ok(VariantFormat { display: d, debug: g })
}

/// The fields marked `#[from]` and `#[source]`: the first of each counts,
/// by position
pub fn field_attrs(fields: &[(bool, bool)]) -> (r: (Option<usize>, Option<usize>))
    ensures
        match r.0 {
            Some(i) => i < fields@.len() && fields@[i as int].0 && forall|j: int| 0 <= j < i ==> !fields@[j].0,
            None => forall|j: int| 0 <= j < fields@.len() ==> !fields@[j].0,
        },
        match r.1 {
            Some(i) => i < fields@.len() && fields@[i as int].1 && forall|j: int| 0 <= j < i ==> !fields@[j].1,
            None => forall|j: int| 0 <= j < fields@.len() ==> !fields@[j].1,
        },
{
    let mut from: Option<usize> = None;
    let mut source: Option<usize> = None;
    let mut i: usize = 0;
    while i < fields.len()
        invariant
            i <= fields@.len(),
            match from {
                Some(k) => k < i && fields@[k as int].0 && forall|j: int| 0 <= j < k ==> !fields@[j].0,
                None => forall|j: int| 0 <= j < i ==> !fields@[j].0,
            },
            match source {
                Some(k) => k < i && fields@[k as int].1 && forall|j: int| 0 <= j < k ==> !fields@[j].1,
                None => forall|j: int| 0 <= j < i ==> !fields@[j].1,
            },
        decreases fields@.len() - i,
    {
        let (f, s) = fields[i];
        if from.is_none() && f {
            from = Some(i);
        }
        if source.is_none() && s {
            source = Some(i);
        }
        i = i + 1;
    }
    (from, source)
}

/// How a variant's `Debug` arm writes it
#[derive(Clone, Copy, Debug, PartialEq, Eq, Structural)]
pub enum DebugStyle {
    /// Through the only field's `Debug`
    Transparent,
    /// With the format of its `debug` (or `fmt`) attribute
    Format,
    /// Its name alone, having no fields
    Name,
    /// As a struct with named fields
    Struct,
    /// As a tuple
    Tuple,
}

/// How a variant's `Debug` arm writes it: transparent when its `debug`
/// attribute says so, or, lacking one, when its `display` attribute does
pub fn debug_style(display: Option<FmtAttr>, debug: Option<FmtAttr>, members: usize, named: bool) -> (s: DebugStyle)
    ensures
        ({
            let transparent = match debug {
                Some((_, t)) => t,
                None => display matches Some((_, t)) && t,
            };
            s == if transparent {
                DebugStyle::Transparent
            } else if debug is Some {
                DebugStyle::Format
            } else if members == 0 {
                DebugStyle::Name
            } else if named {
                DebugStyle::Struct
            } else {
                DebugStyle::Tuple
            }
        }),
{
    let transparent = match debug {
        Some((_, t)) => t,
        None => match display {
            Some((_, t)) => t,
            None => false,
        },
    };
    if transparent {
        DebugStyle::Transparent
    } else if debug.is_some() {
        DebugStyle::Format
    } else if members == 0 {
        DebugStyle::Name
    } else if named {
        DebugStyle::Struct
    } else {
        DebugStyle::Tuple
    }
}

/// The item the attribute is placed on: a struct, whether its format
/// includes a display; an enum, for each variant whether it has a display
/// and the span of its name; or a union, by its span
#[derive(Clone, Debug)]
pub enum ErrorItem {
    Struct { has_display: bool },
    Enum(Vec<(bool, Span)>),
    Union(Span),
}

/// The impls generated besides those every error gets: `Display` and
/// `Debug` from the formats, the `Display` bound on the type parameters, and
/// a derived `Debug`
#[derive(Clone, Copy, Debug, PartialEq, Eq, Structural)]
pub struct ErrorImpls {
    pub display: bool,
    pub debug: bool,
    pub display_bound: bool,
    pub derive_debug: bool,
}

/// The impls for an item whose formats are present or not, given the options
pub open spec fn impls_for(attrs: Attributes, displays: bool) -> ErrorImpls {
    ErrorImpls {
        display: displays,
        debug: displays && attrs.no_debug is Some,
        display_bound: displays && attrs.no_display is None,
        derive_debug: attrs.no_debug is None,
    }
}

/// Decide the impls of an error type: unions are refused, and once one
/// variant of an enum has a display format every variant needs one
pub fn error_impls(attrs: Attributes, item: &ErrorItem) -> (r: Result<ErrorImpls, ParseError>)
    ensures
        match *item {
            ErrorItem::Union(s) => r == Err::<ErrorImpls, ParseError>(
                ParseError { span: s, message: ErrorMessage::UnionsNotSupported },
            ),
            ErrorItem::Struct { has_display } => r == Ok::<ErrorImpls, ParseError>(impls_for(attrs, has_display)),
            ErrorItem::Enum(vs) => {
                let any = exists|i: int| 0 <= i < vs@.len() && (#[trigger] vs@[i]).0;
                let all = forall|i: int| 0 <= i < vs@.len() ==> (#[trigger] vs@[i]).0;
                if any && !all {
                    exists|i: int|
                        0 <= i < vs@.len() && !(#[trigger] vs@[i]).0 && (forall|j: int| 0 <= j < i ==> (#[trigger] vs@[j]).0)
                            && r == Err::<ErrorImpls, ParseError>(
                            ParseError { span: vs@[i].1, message: ErrorMessage::MissingDisplay },
                        )
                } else {
                    r == Ok::<ErrorImpls, ParseError>(impls_for(attrs, any))
                }
            },
        },
{
    match item {
        ErrorItem::Union(s) => Err(ParseError { span: *s, message: ErrorMessage::UnionsNotSupported }),
        ErrorItem::Struct { has_display } => Ok(ErrorImpls {
            display: *has_display,
            debug: *has_display && attrs.no_debug.is_some(),
            display_bound: *has_display && attrs.no_display.is_none(),
            derive_debug: attrs.no_debug.is_none(),
        }),
        ErrorItem::Enum(vs) => {
            let mut any = false;
            let mut i: usize = 0;
            while i < vs.len()
                invariant
                    *item == ErrorItem::Enum(*vs),
                    i <= vs@.len(),
                    any == exists|k: int| 0 <= k < i && (#[trigger] vs@[k]).0,
                decreases vs@.len() - i,
            {
                if vs[i].0 {
                    any = true;
                }
                i = i + 1;
            }
            if any {
                let mut j: usize = 0;
                while j < vs.len()
                    invariant
                        *item == ErrorItem::Enum(*vs),
                        j <= vs@.len(),
                        exists|k: int| 0 <= k < vs@.len() && (#[trigger] vs@[k]).0,
                        forall|k: int| 0 <= k < j ==> (#[trigger] vs@[k]).0,
                    decreases vs@.len() - j,
                {
                    if !vs[j].0 {
                        let r = Err(ParseError { span: vs[j].1, message: ErrorMessage::MissingDisplay });
                        assert(match *item { ErrorItem::Enum(v) => v@ == vs@, _ => false });
                        assert(exists|i: int|
                            0 <= i < vs@.len() && !(#[trigger] vs@[i]).0 && (forall|k: int| 0 <= k < i ==> (#[trigger] vs@[k]).0)
                                && r == Err::<ErrorImpls, ParseError>(
                                ParseError { span: vs@[i].1, message: ErrorMessage::MissingDisplay },
                            ));
                        return r;
                    }
                    j = j + 1;
                }
            }
            Ok(ErrorImpls {
                display: any,
                debug: any && attrs.no_debug.is_some(),
                display_bound: any && attrs.no_display.is_none(),
                derive_debug: attrs.no_debug.is_none(),
            })
        },
    }
}

} // verus!
