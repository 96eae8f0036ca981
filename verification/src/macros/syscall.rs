//! `syscall_impl!`: the description of an architecture's system call
//! instruction and registers.
//!
//! `"syscall"; out = rax; num = rax; arg = rdi, rsi; clobber = rcx, r11;`:
//! the instruction, then `kind = register, ..;` statements.

use vstd::prelude::*;
use crate::macros::{str_eq, ErrorMessage, ParseError, Span, TokenTree};

verus! {

/// The registers read so far: output, number, arguments, clobbered
pub type RegState = (Option<Seq<char>>, Option<Seq<char>>, Seq<Seq<char>>, Seq<Seq<char>>);

/// An error at token `i`, or at the end of the input when there is none
pub open spec fn error_at(ts: Seq<TokenTree>, i: int, here: ErrorMessage, at_end: ErrorMessage) -> ParseError {
    if 0 <= i < ts.len() {
        ParseError { span: ts[i].span_of(), message: here }
    } else {
        ParseError { span: Span { id: 0 }, message: at_end }
    }
}

/// The token at `i` is the punctuation `c`
pub open spec fn is_punct(ts: Seq<TokenTree>, i: int, c: char) -> bool {
    0 <= i < ts.len() && (ts[i] matches TokenTree::Punct(p, _) && p == c)
}

/// A string literal token: a quoted or raw string
pub open spec fn is_str_lit(text: Seq<char>) -> bool {
    text.len() > 0 && (text[0] == '"' || text[0] == 'r')
}

/// The comma separated registers from token `j` on, and the index after
/// them
pub open spec fn reg_list(ts: Seq<TokenTree>, j: int) -> Result<(Seq<Seq<char>>, int), ParseError>
    decreases ts.len() + 2 - j,
{
    if j < 0 || j >= ts.len() {
        Err(ParseError { span: Span { id: 0 }, message: ErrorMessage::EndExpectedIdentifier })
    } else {
        match ts[j] {
            TokenTree::Ident(s, _) => if is_punct(ts, j + 1, ',') {
                match reg_list(ts, j + 2) {
                    Ok((rest, k)) => Ok((seq![s@] + rest, k)),
                    Err(e) => Err(e),
                }
            } else {
                Ok((seq![s@], j + 1))
            },
            t => Err(ParseError { span: t.span_of(), message: ErrorMessage::ExpectedIdentifier }),
        }
    }
}

/// A register list ends after it starts, within the input
pub proof fn lemma_reg_list_advances(ts: Seq<TokenTree>, j: int)
    ensures
        reg_list(ts, j) matches Ok((regs, k)) ==> j < k <= ts.len() && regs.len() > 0,
    decreases ts.len() + 2 - j,
{
    if 0 <= j < ts.len() && is_punct(ts, j + 1, ',') {
        lemma_reg_list_advances(ts, j + 2);
    }
}

/// Apply the statements from token `i` on
pub open spec fn statements(ts: Seq<TokenTree>, i: int, st: RegState) -> Result<RegState, ParseError>
    decreases ts.len() + 1 - i,
{
    if i < 0 || i >= ts.len() {
        Ok(st)
    } else {
        match ts[i] {
            TokenTree::Ident(kind, ksp) => if !is_punct(ts, i + 1, '=') {
                Err(error_at(ts, i + 1, ErrorMessage::ExpectedEq, ErrorMessage::EndExpectedEq))
            } else {
                match reg_list(ts, i + 2) {
                    Err(e) => Err(e),
                    Ok((regs, k)) => {
                        proof {
                            lemma_reg_list_advances(ts, i + 2);
                        }
                        if !is_punct(ts, k, ';') {
                            Err(error_at(ts, k, ErrorMessage::ExpectedSemi, ErrorMessage::EndExpectedSemi))
                        } else if kind@ == "out"@ && regs.len() != 1 {
                            Err(ParseError { span: ksp, message: ErrorMessage::OneOutRegister })
                        } else if kind@ == "num"@ && regs.len() != 1 {
                            Err(ParseError { span: ksp, message: ErrorMessage::OneNumRegister })
                        } else if kind@ == "out"@ {
                            statements(ts, k + 1, (Some(regs[0]), st.1, st.2, st.3))
                        } else if kind@ == "num"@ {
                            statements(ts, k + 1, (st.0, Some(regs[0]), st.2, st.3))
                        } else if kind@ == "arg"@ {
                            statements(ts, k + 1, (st.0, st.1, regs, st.3))
                        } else if kind@ == "clobber"@ {
                            statements(ts, k + 1, (st.0, st.1, st.2, regs))
                        } else {
                            Err(ParseError { span: ksp, message: ErrorMessage::UnknownKind })
                        }
                    },
                }
            },
            t => Err(ParseError { span: t.span_of(), message: ErrorMessage::ExpectedIdentifier }),
        }
    }
}

/// What the macro's tokens give: the instruction's literal and the
/// registers, or the first error
pub open spec fn syscall_spec(ts: Seq<TokenTree>) -> Result<(Seq<char>, RegState), ParseError> {
    let lit_ok = ts.len() > 0 && (ts[0] matches TokenTree::Literal(text, _) && is_str_lit(text@));
    if !lit_ok {
        Err(error_at(ts, 0, ErrorMessage::ExpectedStrLit, ErrorMessage::EndExpectedStrLit))
    } else if !is_punct(ts, 1, ';') {
        Err(error_at(ts, 1, ErrorMessage::ExpectedSemi, ErrorMessage::EndExpectedSemi))
    } else {
        match statements(ts, 2, (None, None, Seq::empty(), Seq::empty())) {
            Err(e) => Err(e),
            Ok(st) => if st.0 is None {
                Err(ParseError { span: Span { id: 0 }, message: ErrorMessage::MissingOut })
            } else if st.1 is None {
                Err(ParseError { span: Span { id: 0 }, message: ErrorMessage::MissingNum })
            } else {
                match ts[0] {
                    TokenTree::Literal(text, _) => Ok((text@, st)),
                    _ => Ok((Seq::empty(), st)),
                }
            },
        }
    }
}

/// The tokens from `j` on are the registers `names`, separated by commas
/// and ended by a `;`
pub open spec fn reg_list_at(ts: Seq<TokenTree>, j: int, names: Seq<Seq<char>>) -> bool {
    &&& names.len() > 0
    &&& 0 <= j
    &&& j + 2 * names.len() <= ts.len()
    &&& forall|i: int| 0 <= i < names.len() ==> (#[trigger] ts[j + 2 * i] matches TokenTree::Ident(s, _) && s@ == names[i])
    &&& forall|i: int| 0 <= i < names.len() - 1 ==> #[trigger] is_punct(ts, j + 2 * i + 1, ',')
    &&& is_punct(ts, j + 2 * names.len() - 1, ';')
}

/// The tokens from `j` on are the statement `kind = names;`
pub open spec fn statement_at(ts: Seq<TokenTree>, j: int, kind: Seq<char>, names: Seq<Seq<char>>) -> bool {
    &&& 0 <= j < ts.len()
    &&& ts[j] matches TokenTree::Ident(k, _) && k@ == kind
    &&& is_punct(ts, j + 1, '=')
    &&& reg_list_at(ts, j + 2, names)
}

/// A register list written out is read back as it is written
proof fn lemma_reg_list_at(ts: Seq<TokenTree>, j: int, names: Seq<Seq<char>>)
    requires
        reg_list_at(ts, j, names),
    ensures
        reg_list(ts, j) == Ok::<(Seq<Seq<char>>, int), ParseError>((names, j + 2 * names.len() - 1)),
    decreases names.len(),
{
    assert(ts[j + 2 * 0] matches TokenTree::Ident(s, _) && s@ == names[0]);
    assert(j + 2 * 0 == j);
    assert(ts[j] matches TokenTree::Ident(s, _) && s@ == names[0]);
    if names.len() == 1 {
        assert(j + 2 * names.len() - 1 == j + 1);
        assert(is_punct(ts, j + 1, ';'));
        assert(!is_punct(ts, j + 1, ','));
        match ts[j] {
            TokenTree::Ident(s, _) => {
                assert(seq![s@] =~= names);
            },
            _ => {},
        }
    } else {
        assert(is_punct(ts, j + 2 * 0 + 1, ','));
        let rest = names.drop_first();
        assert forall|i: int| 0 <= i < rest.len() implies (#[trigger] ts[(j + 2) + 2 * i] matches TokenTree::Ident(s, _)
            && s@ == rest[i]) by {
            assert(ts[j + 2 * (i + 1)] matches TokenTree::Ident(s, _) && s@ == names[i + 1]);
            assert(j + 2 * (i + 1) == (j + 2) + 2 * i);
        }
        assert forall|i: int| 0 <= i < rest.len() - 1 implies #[trigger] is_punct(ts, (j + 2) + 2 * i + 1, ',') by {
            assert(is_punct(ts, j + 2 * (i + 1) + 1, ','));
            assert(j + 2 * (i + 1) + 1 == (j + 2) + 2 * i + 1);
        }
        assert(is_punct(ts, (j + 2) + 2 * rest.len() - 1, ';'));
        lemma_reg_list_at(ts, j + 2, rest);
        match ts[j] {
            TokenTree::Ident(s, _) => {
                assert(seq![s@] + rest =~= names);
            },
            _ => {},
        }
    }
}

/// A statement written out moves the reading past it
proof fn lemma_statement_at(ts: Seq<TokenTree>, j: int, kind: Seq<char>, names: Seq<Seq<char>>, st: RegState)
    requires
        statement_at(ts, j, kind, names),
    ensures
        reg_list(ts, j + 2) == Ok::<(Seq<Seq<char>>, int), ParseError>((names, j + 2 + 2 * names.len() - 1)),
        is_punct(ts, j + 2 + 2 * names.len() - 1, ';'),
{
    lemma_reg_list_at(ts, j + 2, names);
}

/// The `syscall_impl!` description of the x86_64 form, the instruction then
/// `out = o; num = n; arg = a..; clobber = c..;`, written out token by
/// token, is read back as it is written: the instruction's literal, the
/// output and number registers, and exactly the argument and clobber
/// registers listed, in their order
pub proof fn law_syscall_reads_what_is_written(
    ts: Seq<TokenTree>,
    instruction: Seq<char>,
    out: Seq<char>,
    num: Seq<char>,
    args: Seq<Seq<char>>,
    clobber: Seq<Seq<char>>,
)
    requires
        ts.len() > 0,
        ts[0] matches TokenTree::Literal(t, _) && t@ == instruction,
        is_str_lit(instruction),
        is_punct(ts, 1, ';'),
        statement_at(ts, 2, "out"@, seq![out]),
        statement_at(ts, 6, "num"@, seq![num]),
        statement_at(ts, 10, "arg"@, args),
        statement_at(ts, (12 + 2 * args.len()) as int, "clobber"@, clobber),
        ts.len() == 14 + 2 * args.len() + 2 * clobber.len(),
    ensures
        syscall_spec(ts) == Ok::<(Seq<char>, RegState), ParseError>((instruction, (Some(out), Some(num), args, clobber))),
{
    reveal_strlit("out");
    reveal_strlit("num");
    reveal_strlit("arg");
    reveal_strlit("clobber");
    assert("out"@[0] != "num"@[0]);
    assert("arg"@[0] != "out"@[0] && "arg"@[0] != "num"@[0]);
    assert("clobber"@.len() == 7 && "out"@.len() == 3);
    let st0: RegState = (None, None, Seq::empty(), Seq::empty());
    let st1: RegState = (Some(out), None, Seq::empty(), Seq::empty());
    let st2: RegState = (Some(out), Some(num), Seq::empty(), Seq::empty());
    let st3: RegState = (Some(out), Some(num), args, Seq::empty());
    let st4: RegState = (Some(out), Some(num), args, clobber);
    let c0: int = (12 + 2 * args.len()) as int;
    lemma_statement_at(ts, 2, "out"@, seq![out], st0);
    assert(statements(ts, 2, st0) == statements(ts, 6, st1));
    lemma_statement_at(ts, 6, "num"@, seq![num], st1);
    assert(statements(ts, 6, st1) == statements(ts, 10, st2));
    lemma_statement_at(ts, 10, "arg"@, args, st2);
    assert(statements(ts, 10, st2) == statements(ts, c0, st3));
    lemma_statement_at(ts, c0, "clobber"@, clobber, st3);
    assert(statements(ts, c0, st3) == statements(ts, ts.len() as int, st4));
    assert(statements(ts, ts.len() as int, st4) == Ok::<RegState, ParseError>(st4));
}

/// The views of some strings
pub open spec fn views(v: Seq<String>) -> Seq<Seq<char>> {
    v.map_values(|s: String| s@)
}

/// The description of the system call instruction
#[derive(Debug)]
pub struct SyscallImpl {
    /// The instruction's string literal, as written
    pub instruction: String,
    pub out: String,
    pub num: String,
    pub regs: Vec<String>,
    pub clobber: Vec<String>,
}

fn punct_at(ts: &Vec<TokenTree>, i: usize, c: char) -> (b: bool)
    ensures
        b == is_punct(ts@, i as int, c),
{
    if i < ts.len() {
        match &ts[i] {
            TokenTree::Punct(p, _) => *p == c,
            _ => false,
        }
    } else {
        false
    }
}

fn error_at_exec(ts: &Vec<TokenTree>, i: usize, here: ErrorMessage, at_end: ErrorMessage) -> (e: ParseError)
    ensures
        e == error_at(ts@, i as int, here, at_end),
{
    if i < ts.len() {
        ParseError { span: ts[i].span(), message: here }
    } else {
        ParseError { span: Span::call_site(), message: at_end }
    }
}

/// Parse the registers from token `j` on
fn parse_reg_list(ts: &Vec<TokenTree>, j: usize) -> (r: Result<(Vec<String>, usize), ParseError>)
    ensures
        match r {
            Ok((regs, k)) => reg_list(ts@, j as int) == Ok::<(Seq<Seq<char>>, int), ParseError>(
                (views(regs@), k as int),
            ),
            Err(e) => reg_list(ts@, j as int) == Err::<(Seq<Seq<char>>, int), ParseError>(e),
        },
    decreases ts@.len() + 2 - j,
{
    if j >= ts.len() {
        return Err(ParseError { span: Span::call_site(), message: ErrorMessage::EndExpectedIdentifier });
    }
    match &ts[j] {
        TokenTree::Ident(s, _) => {
            let mut regs: Vec<String> = Vec::new();
            regs.push(s.clone());
            if punct_at(ts, j + 1, ',') {
                match parse_reg_list(ts, j + 2) {
                    Ok((mut rest, k)) => {
                        let ghost rest_view = views(rest@);
                        regs.append(&mut rest);
                        proof {
                            assert(views(regs@) =~= seq![s@] + rest_view);
                        }
                        Ok((regs, k))
                    },
                    Err(e) => Err(e),
                }
            } else {
                proof {
                    assert(views(regs@) =~= seq![s@]);
                }
                Ok((regs, j + 1))
            }
        },
        t => Err(ParseError { span: t.span(), message: ErrorMessage::ExpectedIdentifier }),
    }
}

impl SyscallImpl {
    /// Parse the macro's tokens
    pub fn parse(ts: &Vec<TokenTree>) -> (r: Result<SyscallImpl, ParseError>)
        ensures
            match r {
                Ok(s) => syscall_spec(ts@) == Ok::<(Seq<char>, RegState), ParseError>(
                    (
                        s.instruction@,
                        (Some(s.out@), Some(s.num@), views(s.regs@), views(s.clobber@)),
                    ),
                ),
                Err(e) => syscall_spec(ts@) == Err::<(Seq<char>, RegState), ParseError>(e),
            },
    {
        let n = ts.len();
        let instruction = if n > 0 {
            match &ts[0] {
                TokenTree::Literal(text, _) => {
                    let t = text.as_str();
                    if t.unicode_len() > 0 && (t.get_char(0) == '"' || t.get_char(0) == 'r') {
                        Some(text.clone())
                    } else {
                        None
                    }
                },
                _ => None,
            }
        } else {
            None
        };
        let instruction = match instruction {
            Some(i) => i,
            None => {
                return Err(error_at_exec(ts, 0, ErrorMessage::ExpectedStrLit, ErrorMessage::EndExpectedStrLit));
            },
        };
        if !punct_at(ts, 1, ';') {
            return Err(error_at_exec(ts, 1, ErrorMessage::ExpectedSemi, ErrorMessage::EndExpectedSemi));
        }
        let mut out: Option<String> = None;
        let mut num: Option<String> = None;
        let mut regs: Vec<String> = Vec::new();
        let mut clobber: Vec<String> = Vec::new();
        let ghost start: RegState = (None, None, Seq::empty(), Seq::empty());
        let mut i: usize = 2;
        proof {
            assert(views(regs@) =~= Seq::<Seq<char>>::empty());
        }
        while i < n
            invariant
                n == ts@.len(),
                2 <= i,
                n > 0,
                ts@[0] matches TokenTree::Literal(text, _) && is_str_lit(text@) && text@ == instruction@,
                is_punct(ts@, 1, ';'),
                start == (None::<Seq<char>>, None::<Seq<char>>, Seq::<Seq<char>>::empty(), Seq::<Seq<char>>::empty()),
                statements(ts@, 2, start) == statements(
                    ts@,
                    i as int,
                    (
                        match out {
                            Some(s) => Some(s@),
                            None => None,
                        },
                        match num {
                            Some(s) => Some(s@),
                            None => None,
                        },
                        views(regs@),
                        views(clobber@),
                    ),
                ),
            decreases n - i,
        {
            let (kind, ksp) = match &ts[i] {
                TokenTree::Ident(kind, ksp) => (kind, *ksp),
                t => {
                    return Err(ParseError { span: t.span(), message: ErrorMessage::ExpectedIdentifier });
                },
            };
            if !punct_at(ts, i + 1, '=') {
                return Err(error_at_exec(ts, i + 1, ErrorMessage::ExpectedEq, ErrorMessage::EndExpectedEq));
            }
            let (list, k) = match parse_reg_list(ts, i + 2) {
                Ok(x) => x,
                Err(e) => {
                    return Err(e);
                },
            };
            proof {
                lemma_reg_list_advances(ts@, i + 2);
            }
            if !punct_at(ts, k, ';') {
                return Err(error_at_exec(ts, k, ErrorMessage::ExpectedSemi, ErrorMessage::EndExpectedSemi));
            }
            let kind = kind.as_str();
            let is_out = str_eq(kind, "out");
            let is_num = str_eq(kind, "num");
            if is_out && list.len() != 1 {
                return Err(ParseError { span: ksp, message: ErrorMessage::OneOutRegister });
            }
            if is_num && list.len() != 1 {
                return Err(ParseError { span: ksp, message: ErrorMessage::OneNumRegister });
            }
            if is_out {
                out = Some(list[0].clone());
            } else if is_num {
                num = Some(list[0].clone());
            } else if str_eq(kind, "arg") {
                regs = list;
            } else if str_eq(kind, "clobber") {
                clobber = list;
            } else {
                return Err(ParseError { span: ksp, message: ErrorMessage::UnknownKind });
            }
            i = k + 1;
        }
        let out = match out {
            Some(o) => o,
            None => {
                return Err(ParseError { span: Span::call_site(), message: ErrorMessage::MissingOut });
            },
        };
        let num = match num {
            Some(o) => o,
            None => {
                return Err(ParseError { span: Span::call_site(), message: ErrorMessage::MissingNum });
            },
        };
        Ok(SyscallImpl { instruction, out, num, regs, clobber })
    }
}

/// An option inside `#[array(..)]`
#[derive(Clone, Debug)]
pub enum ArrayOption {
    /// `path = value`: the path's name when it is a single identifier, the
    /// path's span, and the value expression by its span
    NameValue { ident: Option<String>, path_span: Span, value: Span },
    /// Anything else
    Other(Span),
}

/// The `#[array]` attribute of an argument
#[derive(Clone, Debug)]
pub enum ArrayAttr {
    /// `#[array]`
    Path,
    /// `#[array(options)]`
    List(Vec<ArrayOption>),
    /// `#[array = value]`, by its span
    NameValue(Span),
}

/// An argument of a system call's declaration
#[derive(Clone, Debug)]
pub enum SyscallArg {
    /// A `self` receiver, by its span
    Receiver(Span),
    /// `pattern: type`; `ident` tells whether the pattern is a plain
    /// identifier; `array` is its `#[array]` attribute, if any
    Typed { ident: bool, pat_span: Span, array: Option<ArrayAttr> },
}

/// How an argument is passed to the raw system call
#[derive(Clone, Copy, Debug, PartialEq, Eq, Structural)]
pub enum RawArg {
    /// The argument at this index, converted to its raw value
    Plain(usize),
    /// The argument at this index, split into a pointer and a length; `len`
    /// is the type the length is converted to, by the span of its expression
    Array { index: usize, len: Option<Span> },
}

/// The `len` option of `#[array(..)]` after the first `n` options: the last
/// `len = value` wins
pub open spec fn array_len_spec(opts: Seq<ArrayOption>, n: int) -> Result<Option<Span>, ParseError>
    decreases n,
{
    if n <= 0 {
        Ok(None)
    } else {
        match array_len_spec(opts, n - 1) {
            Err(e) => Err(e),
            Ok(len) => match opts[n - 1] {
                ArrayOption::Other(s) => Err(ParseError { span: s, message: ErrorMessage::ExpectedOptionValue }),
                ArrayOption::NameValue { ident, path_span, value } => match ident {
                    None => Err(ParseError { span: path_span, message: ErrorMessage::ExpectedPathIdent }),
                    Some(name) => if name@ == "len"@ {
                        Ok(Some(value))
                    } else {
                        Err(ParseError { span: path_span, message: ErrorMessage::UnknownOption })
                    },
                },
            },
        }
    }
}

/// The options of an `#[array]` attribute
pub open spec fn array_options_spec(attr: ArrayAttr) -> Result<Option<Span>, ParseError> {
    match attr {
        ArrayAttr::Path => Ok(None),
        ArrayAttr::NameValue(s) => Err(ParseError { span: s, message: ErrorMessage::ExpectedArrayOptions }),
        ArrayAttr::List(opts) => array_len_spec(opts@, opts@.len() as int),
    }
}

/// The raw arguments for the first `n` arguments of a declaration
pub open spec fn raw_args_spec(args: Seq<SyscallArg>, n: int) -> Result<Seq<RawArg>, ParseError>
    decreases n,
{
    if n <= 0 {
        Ok(Seq::empty())
    } else {
        match raw_args_spec(args, n - 1) {
            Err(e) => Err(e),
            Ok(prev) => match args[n - 1] {
                SyscallArg::Receiver(s) => Err(ParseError { span: s, message: ErrorMessage::ReceiverNotAllowed }),
                SyscallArg::Typed { ident, pat_span, array } => if !ident {
                    Err(ParseError { span: pat_span, message: ErrorMessage::PatternNotAllowed })
                } else {
                    match array {
                        None => Ok(prev.push(RawArg::Plain((n - 1) as usize))),
                        Some(attr) => match array_options_spec(attr) {
                            Err(e) => Err(e),
                            Ok(len) => Ok(prev.push(RawArg::Array { index: (n - 1) as usize, len })),
                        },
                    }
                },
            },
        }
    }
}

/// The `len` option of an `#[array]` attribute
pub fn array_options(attr: &ArrayAttr) -> (r: Result<Option<Span>, ParseError>)
    ensures
        r == array_options_spec(*attr),
{
    match attr {
        ArrayAttr::Path => Ok(None),
        ArrayAttr::NameValue(s) => Err(ParseError { span: *s, message: ErrorMessage::ExpectedArrayOptions }),
        ArrayAttr::List(opts) => {
            let mut len: Option<Span> = None;
            let mut i: usize = 0;
            while i < opts.len()
                invariant
                    *attr == ArrayAttr::List(*opts),
                    i <= opts@.len(),
                    array_len_spec(opts@, i as int) == Ok::<Option<Span>, ParseError>(len),
                decreases opts@.len() - i,
            {
                match &opts[i] {
                    ArrayOption::Other(s) => {
                        let e = ParseError { span: *s, message: ErrorMessage::ExpectedOptionValue };
                        proof {
                            lemma_array_len_err(opts@, i as int + 1, e);
                        }
                        return Err(e);
                    },
                    ArrayOption::NameValue { ident, path_span, value } => match ident {
                        None => {
                            let e = ParseError { span: *path_span, message: ErrorMessage::ExpectedPathIdent };
                            proof {
                                lemma_array_len_err(opts@, i as int + 1, e);
                            }
                            return Err(e);
                        },
                        Some(name) => {
                            if !str_eq(name.as_str(), "len") {
                                let e = ParseError { span: *path_span, message: ErrorMessage::UnknownOption };
                                proof {
                                    lemma_array_len_err(opts@, i as int + 1, e);
                                }
                                return Err(e);
                            }
                            len = Some(*value);
                        },
                    },
                }
                i = i + 1;
            }
            Ok(len)
        },
    }
}

/// The arguments of the raw system call for a declaration's arguments:
/// receivers and patterns other than a plain name are refused; an argument
/// marked `#[array]` is split into a pointer and a length
pub fn get_raw_args(args: &Vec<SyscallArg>) -> (r: Result<Vec<RawArg>, ParseError>)
    ensures
        match raw_args_spec(args@, args@.len() as int) {
            Ok(raw) => r matches Ok(v) && v@ == raw,
            Err(e) => r == Err::<Vec<RawArg>, ParseError>(e),
        },
{
    let mut out: Vec<RawArg> = Vec::new();
    let mut i: usize = 0;
    while i < args.len()
        invariant
            i <= args@.len(),
            raw_args_spec(args@, i as int) == Ok::<Seq<RawArg>, ParseError>(out@),
        decreases args@.len() - i,
    {
        match &args[i] {
            SyscallArg::Receiver(s) => {
                let e = ParseError { span: *s, message: ErrorMessage::ReceiverNotAllowed };
                proof {
                    lemma_raw_args_err(args@, i as int + 1, e);
                }
                return Err(e);
            },
            SyscallArg::Typed { ident, pat_span, array } => {
                if !*ident {
                    let e = ParseError { span: *pat_span, message: ErrorMessage::PatternNotAllowed };
                    proof {
                        lemma_raw_args_err(args@, i as int + 1, e);
                    }
                    return Err(e);
                }
                match array {
                    None => out.push(RawArg::Plain(i)),
                    Some(attr) => match array_options(attr) {
                        Err(e) => {
                            proof {
                                lemma_raw_args_err(args@, i as int + 1, e);
                            }
                            return Err(e);
                        },
                        Ok(len) => out.push(RawArg::Array { index: i, len }),
                    },
                }
            },
        }
        i = i + 1;
    }
    Ok(out)
}

/// Once the options up to `n` fail, all of them fail the same way
proof fn lemma_array_len_err(opts: Seq<ArrayOption>, n: int, e: ParseError)
    requires
        0 <= n <= opts.len(),
        array_len_spec(opts, n) == Err::<Option<Span>, ParseError>(e),
    ensures
        array_len_spec(opts, opts.len() as int) == Err::<Option<Span>, ParseError>(e),
    decreases opts.len() - n,
{
    if n < opts.len() {
        lemma_array_len_err(opts, n + 1, e);
    }
}

/// Once the arguments up to `n` fail, the whole list fails the same way
proof fn lemma_raw_args_err(args: Seq<SyscallArg>, n: int, e: ParseError)
    requires
        0 <= n <= args.len(),
        raw_args_spec(args, n) == Err::<Seq<RawArg>, ParseError>(e),
    ensures
        raw_args_spec(args, args.len() as int) == Err::<Seq<RawArg>, ParseError>(e),
    decreases args.len() - n,
{
    if n < args.len() {
        lemma_raw_args_err(args, n + 1, e);
    }
}

} // verus!
