use xx_core::macros::asynchronous::branch::{
    branch_plan, check_branch_count, join, select_variants, BranchNode, Mode,
};
use xx_core::macros::asynchronous::lang::{
    try_change_task_output, try_change_task_type, GenericParam, PathArguments, PathSegment,
    ReturnType, Type,
};
use xx_core::macros::asynchronous::options::{
    get_lang, AsyncKind, AttributeArgs, ClosureType, ImplGen, Lang, LangAttr,
};
use xx_core::macros::asynchronous::{asynchronous, AsyncItem, Expansion};
use xx_core::macros::asynchronous::invoke;
use xx_core::macros::duration::{named_scale, unnamed_scales, Unit};
use xx_core::macros::error::{
    check_variant, debug_style, error_impls, field_attrs, Attributes, DebugStyle, ErrorImpls, ErrorItem, TraitBound,
};
use xx_core::macros::functions::{get_args, remove_ref_mut, FnArg, PatToken};
use xx_core::macros::make_closure::{
    closure_lifetimes, explicit_closure_plan, join_tuple, this_arg, Capture, CapturePattern, ClosureInput, GenericKind,
    JoinedTuple, Outlives,
};
use xx_core::macros::visit::{AddLifetime, Annotations, Lifetime};
use xx_core::macros::{str_eq, Delimiter, ErrorMessage, ParseError, Span, TokenTree};

fn sp(id: usize) -> Span {
    Span { id }
}

fn ident(name: &str, id: usize) -> TokenTree {
    TokenTree::Ident(name.to_string(), sp(id))
}

fn leaf(name: &str, id: usize) -> TokenTree {
    TokenTree::Ident(name.to_string(), sp(id))
}

fn comma(id: usize) -> TokenTree {
    TokenTree::Punct(',', sp(id))
}

fn impl_group(content: Vec<TokenTree>, id: usize) -> TokenTree {
    TokenTree::Group(Delimiter::Parenthesis, content, sp(id))
}

#[test]
fn str_eq_compares_characters() {
    assert!(str_eq("abc", "abc"));
    assert!(!str_eq("abc", "abd"));
    assert!(!str_eq("ab", "abc"));
}

#[test]
fn error_message_texts() {
    assert_eq!(ErrorMessage::UnknownOption.text(), "Unknown option");
    assert_eq!(ErrorMessage::ExpectedIdent.text(), "Expected an identifier");
    assert_eq!(ErrorMessage::SelectNeedsTwo.text(), "Select takes a minimum of two branches");
    assert_eq!(Span::call_site(), sp(0));
}

#[test]
fn async_kind_names() {
    assert_eq!(AsyncKind::from_name("traitfn"), Some(AsyncKind::TraitFn));
    assert_eq!(AsyncKind::from_name("traitext"), Some(AsyncKind::TraitExt));
    assert_eq!(AsyncKind::from_name("task"), Some(AsyncKind::Task));
    assert_eq!(AsyncKind::from_name("sync"), Some(AsyncKind::Sync));
    assert_eq!(AsyncKind::from_name("implicit"), None);
    assert_eq!(AsyncKind::Implicit.closure_type(), ClosureType::Default);
    assert_eq!(AsyncKind::TraitExt.closure_type(), ClosureType::Trait);
    assert_eq!(AsyncKind::Sync.closure_type(), ClosureType::Plain);
}

#[test]
fn lang_names() {
    assert_eq!(Lang::from_name("get_context"), Some(Lang::GetContext));
    assert_eq!(Lang::from_name("task_wrap"), Some(Lang::TaskWrap));
    assert_eq!(Lang::from_name("async_closure"), Some(Lang::AsyncClosure));
    assert_eq!(Lang::from_name("task"), Some(Lang::Task));
    assert_eq!(Lang::from_name("Task"), None);
}

#[test]
fn attribute_args_empty() {
    let args = AttributeArgs::parse(&vec![]).unwrap();
    assert_eq!(args.async_kind, (AsyncKind::Implicit, sp(0)));
    assert!(args.impl_gen.is_none());
    assert!(args.language.is_none());
}

#[test]
fn attribute_args_kind() {
    let args = AttributeArgs::parse(&vec![ident("traitfn", 3)]).unwrap();
    assert_eq!(args.async_kind, (AsyncKind::TraitFn, sp(3)));
}

#[test]
fn attribute_args_impl_options() {
    let tokens = vec![
        ident("impl", 1),
        impl_group(vec![leaf("mut", 3), comma(4), leaf("box", 5), comma(6)], 2),
    ];
    let args = AttributeArgs::parse(&tokens).unwrap();
    let gen = args.impl_gen.unwrap();
    assert_eq!(gen, ImplGen { span: sp(3), impl_ref: None, impl_mut: Some(sp(3)), impl_box: Some(sp(5)) });
    assert_eq!(args.async_kind, (AsyncKind::Implicit, sp(1)));
}

#[test]
fn attribute_args_errors() {
    let unknown = AttributeArgs::parse(&vec![ident("fast", 2)]);
    assert_eq!(unknown.err(), Some(ParseError { span: sp(2), message: ErrorMessage::UnknownOption }));
    let dup = AttributeArgs::parse(&vec![ident("task", 1), ident("sync", 2)]);
    assert_eq!(dup.err(), Some(ParseError { span: sp(2), message: ErrorMessage::DuplicateAsyncKind }));
    let punct = AttributeArgs::parse(&vec![TokenTree::Punct(',', sp(4))]);
    assert_eq!(punct.err(), Some(ParseError { span: sp(4), message: ErrorMessage::ExpectedIdent }));
    let end = AttributeArgs::parse(&vec![ident("impl", 1)]);
    assert_eq!(end.err(), Some(ParseError { span: sp(0), message: ErrorMessage::EndExpectedParens }));
    let paren = AttributeArgs::parse(&vec![ident("impl", 1), ident("mut", 2)]);
    assert_eq!(paren.err(), Some(ParseError { span: sp(2), message: ErrorMessage::ExpectedParens }));
}

#[test]
fn impl_gen_errors() {
    let dup = ImplGen::parse(&vec![leaf("ref", 1), comma(2), leaf("ref", 3)]);
    assert_eq!(dup.err(), Some(ParseError { span: sp(3), message: ErrorMessage::DuplicateOption }));
    let unknown = ImplGen::parse(&vec![leaf("rc", 1)]);
    assert_eq!(unknown.err(), Some(ParseError { span: sp(1), message: ErrorMessage::UnknownOption }));
    let no_comma = ImplGen::parse(&vec![leaf("ref", 1), leaf("mut", 2)]);
    assert_eq!(no_comma.err(), Some(ParseError { span: sp(2), message: ErrorMessage::ExpectedComma }));
    let syntax_first = ImplGen::parse(&vec![leaf("rc", 1), comma(2), TokenTree::Literal("1".to_string(), sp(3))]);
    assert_eq!(syntax_first.err(), Some(ParseError { span: sp(3), message: ErrorMessage::ExpectedIdent }));
    let empty = ImplGen::parse(&vec![]).unwrap();
    assert_eq!(empty.span, sp(0));
}

#[test]
fn get_lang_reads_and_takes() {
    let mut attr = Some(LangAttr { value: "task_wrap".to_string(), span: sp(9) });
    assert_eq!(get_lang(&mut attr), Ok(Some((Lang::TaskWrap, sp(9)))));
    assert!(attr.is_none());
    let mut bad = Some(LangAttr { value: "nope".to_string(), span: sp(4) });
    assert_eq!(get_lang(&mut bad), Err(ParseError { span: sp(4), message: ErrorMessage::UnknownLang }));
    let mut none = None;
    assert_eq!(get_lang(&mut none), Ok(None));
}

#[test]
fn parse_attrs_sets_language() {
    let mut args = AttributeArgs::new(AsyncKind::Task, sp(1));
    let mut attr = Some(LangAttr { value: "task".to_string(), span: sp(2) });
    assert_eq!(args.parse_attrs(&mut attr), Ok(()));
    assert_eq!(args.language, Some((Lang::Task, sp(2))));
}

#[test]
fn invoke_options_accumulate() {
    let tokens = vec![
        ident("impl", 1),
        impl_group(vec![leaf("ref", 3)], 2),
        ident("impl", 4),
        impl_group(vec![leaf("box", 6)], 5),
    ];
    let args = invoke::AttributeArgs::parse(&tokens).unwrap();
    assert_eq!(args.impl_gen.impl_ref, Some(sp(3)));
    assert_eq!(args.impl_gen.impl_box, Some(sp(6)));
    assert_eq!(args.impl_gen.span(), Some(sp(6)));
    let dup = invoke::AttributeArgs::parse(&vec![
        ident("impl", 1),
        impl_group(vec![leaf("ref", 3)], 2),
        ident("impl", 4),
        impl_group(vec![leaf("ref", 6)], 5),
    ]);
    assert_eq!(dup.err(), Some(ParseError { span: sp(6), message: ErrorMessage::DuplicateOption }));
}

#[test]
fn invoke_kind_combination() {
    let bad = invoke::AttributeArgs::parse(&vec![ident("traitext", 1), ident("task", 2)]);
    assert_eq!(bad.err(), Some(ParseError { span: sp(2), message: ErrorMessage::InvalidCombination }));
    assert_eq!(invoke::AsyncKind::Default.closure_type(), invoke::ClosureType::Standard);
    assert_eq!(invoke::Lang::from_name("task_closure"), Some(invoke::Lang::TaskClosure));
    let mut args = invoke::AttributeArgs::new(invoke::AsyncKind::Sync, sp(1));
    let mut attr = Some(invoke::LangAttr { value: "task_closure".to_string(), span: sp(3) });
    assert_eq!(args.parse_additional(&mut attr), Ok(()));
    assert_eq!(args.language, Some((invoke::Lang::TaskClosure, sp(3))));
}

#[test]
fn asynchronous_chooses_expansion() {
    let mut none = None;
    let r = asynchronous(&vec![], AsyncItem::Trait, sp(7), &mut none).unwrap();
    assert_eq!(r.1, Expansion::AsyncTrait);
    let r = asynchronous(&vec![], AsyncItem::Impl { has_trait: true }, sp(7), &mut none).unwrap();
    assert_eq!(r.1, Expansion::AsyncImpl);
    let r = asynchronous(&vec![], AsyncItem::Fn, sp(7), &mut none).unwrap();
    assert_eq!(r.1, Expansion::TransformItems);
    let r = asynchronous(&vec![ident("sync", 1)], AsyncItem::Fn, sp(7), &mut none).unwrap();
    assert_eq!(r.1, Expansion::TransformSync);
    let r = asynchronous(&vec![ident("traitfn", 1)], AsyncItem::TraitFn, sp(7), &mut none).unwrap();
    assert_eq!(r.1, Expansion::AsyncImpl);
}

#[test]
fn asynchronous_errors() {
    let mut none = None;
    let e = asynchronous(&vec![], AsyncItem::TraitFn, sp(7), &mut none);
    assert_eq!(e.err(), Some(ParseError { span: sp(7), message: ErrorMessage::TraitFnNeedsAttribute }));
    let e = asynchronous(&vec![], AsyncItem::Struct, sp(7), &mut none);
    assert_eq!(e.err(), Some(ParseError { span: sp(7), message: ErrorMessage::UnexpectedDeclaration }));
    let tokens = vec![ident("impl", 1), impl_group(vec![leaf("mut", 3)], 2)];
    let e = asynchronous(&tokens, AsyncItem::Fn, sp(7), &mut none);
    assert_eq!(e.err(), Some(ParseError { span: sp(3), message: ErrorMessage::NotAllowed }));
}

#[test]
fn asynchronous_language_items() {
    let mut lang = Some(LangAttr { value: "task_wrap".to_string(), span: sp(5) });
    let r = asynchronous(&vec![], AsyncItem::Struct, sp(7), &mut lang).unwrap();
    assert_eq!(r.1, Expansion::TaskWrap);
    assert!(lang.is_none());
    let mut lang = Some(LangAttr { value: "task_wrap".to_string(), span: sp(5) });
    let e = asynchronous(&vec![], AsyncItem::Trait, sp(7), &mut lang);
    assert_eq!(e.err(), Some(ParseError { span: sp(5), message: ErrorMessage::InvalidLangItem }));
}

#[test]
fn task_output_gets_lifetime() {
    let mut output = ReturnType::Type(Type::Path {
        leading_colon: false,
        segments: vec![
            PathSegment { ident: "Self".to_string(), arguments: PathArguments::Bare },
            PathSegment { ident: "Output".to_string(), arguments: PathArguments::Bare },
        ],
    });
    try_change_task_output(&mut output);
    match output {
        ReturnType::Type(Type::Path { segments, .. }) => match &segments[1].arguments {
            PathArguments::AngleBracketed(args) => assert_eq!(args, &vec!["'_".to_string()]),
            _ => panic!("no arguments added"),
        },
        _ => panic!("return type changed kind"),
    }
    let mut other = ReturnType::Default;
    try_change_task_output(&mut other);
    assert!(matches!(other, ReturnType::Default));
}

#[test]
fn task_type_gets_ctx() {
    let mut params = Vec::new();
    try_change_task_type(&mut params);
    assert_eq!(params.len(), 1);
    assert!(matches!(&params[0], GenericParam::Lifetime(l) if l == "ctx"));
    try_change_task_type(&mut params);
    assert_eq!(params.len(), 1);
}

#[test]
fn branch_plan_of_one_and_two() {
    let (bs, root) = branch_plan(1);
    assert!(bs.is_empty());
    assert_eq!(root, BranchNode::Task(0));
    let (bs, root) = branch_plan(2);
    assert_eq!(bs, vec![(BranchNode::Task(0), BranchNode::Task(1))]);
    assert_eq!(root, BranchNode::Branch(0));
}

#[test]
fn branch_plan_of_three() {
    let (bs, root) = branch_plan(3);
    assert_eq!(
        bs,
        vec![
            (BranchNode::Task(0), BranchNode::Task(1)),
            (BranchNode::Branch(0), BranchNode::Task(2)),
        ]
    );
    assert_eq!(root, BranchNode::Branch(1));
}

#[test]
fn branch_plan_of_five_covers_every_task() {
    let (bs, root) = branch_plan(5);
    assert_eq!(bs.len(), 4);
    fn leaves(bs: &[(BranchNode, BranchNode)], n: BranchNode, out: &mut Vec<usize>) {
        match n {
            BranchNode::Task(i) => out.push(i),
            BranchNode::Branch(k) => {
                leaves(bs, bs[k].0, out);
                leaves(bs, bs[k].1, out);
            }
        }
    }
    let mut out = Vec::new();
    leaves(&bs, root, &mut out);
    out.sort();
    assert_eq!(out, vec![0, 1, 2, 3, 4]);
}

#[test]
fn select_variants_number_tasks() {
    assert_eq!(select_variants(&[true, false, true]), vec![Some(0), None, Some(1)]);
}

#[test]
fn branch_counts_and_join() {
    assert_eq!(
        check_branch_count(Mode::Select, 1),
        Err(ParseError { span: sp(0), message: ErrorMessage::SelectNeedsTwo })
    );
    assert_eq!(
        check_branch_count(Mode::Join, 0),
        Err(ParseError { span: sp(0), message: ErrorMessage::JoinNeedsTwo })
    );
    assert_eq!(check_branch_count(Mode::Join, 2), Ok(()));
    assert_eq!(join(1).err(), Some(ParseError { span: sp(0), message: ErrorMessage::JoinNeedsTwo }));
    let plan = join(3).ok().unwrap();
    assert_eq!(plan.branches.len(), 2);
    assert_eq!(plan.outputs, vec![0, 1, 2]);
    assert_eq!(plan.branches[0], (BranchNode::Task(0), BranchNode::Task(1)));
    assert_eq!(plan.root, BranchNode::Branch(1));
}

#[test]
fn duration_units() {
    assert_eq!(Unit::from_name("ms"), Some(Unit::Millisecond));
    assert_eq!(Unit::from_name("minutes"), Some(Unit::Minute));
    assert_eq!(Unit::from_name("d"), Some(Unit::Day));
    assert_eq!(Unit::from_name("fortnight"), None);
    assert_eq!(named_scale(Unit::Day), 86_400_000_000_000);
    assert_eq!(named_scale(Unit::Second), 1_000_000_000);
    assert_eq!(named_scale(Unit::Microsecond), 1_000);
    assert_eq!(named_scale(Unit::Nanosecond), 1);
}

#[test]
fn duration_unnamed_parts() {
    assert_eq!(unnamed_scales(2), Ok(vec![(1usize, 1_000_000_000u64), (0, 60_000_000_000)]));
    assert_eq!(unnamed_scales(5), Err(4));
    assert_eq!(unnamed_scales(4).unwrap()[3], (0usize, 86_400_000_000_000u64));
}

#[test]
fn get_args_strips_ref_and_mut() {
    let pat = vec![
        PatToken::Ident("ref".to_string()),
        PatToken::Ident("mut".to_string()),
        PatToken::Ident("a".to_string()),
    ];
    let stripped = remove_ref_mut(&pat);
    assert_eq!(stripped.len(), 1);
    assert!(matches!(&stripped[0], PatToken::Ident(s) if s == "a"));
    let reference = vec![
        PatToken::Punct('&'),
        PatToken::Ident("mut".to_string()),
        PatToken::Ident("b".to_string()),
    ];
    assert_eq!(remove_ref_mut(&reference).len(), 3);
    let inputs = vec![FnArg::Receiver, FnArg::Typed(pat)];
    let with_self = get_args(&inputs, true);
    assert_eq!(with_self.len(), 2);
    assert!(matches!(with_self[0][0], PatToken::SelfValue));
    assert_eq!(get_args(&inputs, false).len(), 1);
}

#[test]
fn join_tuple_parenthesizes_unless_single() {
    assert!(matches!(join_tuple(vec![1u8]), JoinedTuple::Bare(v) if v == vec![1u8]));
    assert!(matches!(join_tuple(vec![1u8, 2]), JoinedTuple::Parenthesized(v) if v == vec![1u8, 2]));
    assert!(matches!(join_tuple(Vec::<u8>::new()), JoinedTuple::Parenthesized(v) if v.is_empty()));
}

#[test]
fn add_lifetime_counts() {
    let mut add = AddLifetime::new("a".to_string(), Annotations::Counter);
    let first = add.next_lifetime();
    assert_eq!(first.counter, Some(1));
    let second = add.visit_lifetime(Lifetime { name: "_".to_string(), counter: None });
    assert_eq!(second.counter, Some(2));
    assert_eq!(add.added_lifetimes.len(), 2);
    let explicit = add.visit_lifetime(Lifetime { name: "b".to_string(), counter: None });
    assert_eq!(explicit.name, "b");
    assert_eq!(add.explicit_lifetimes.len(), 1);
    let mut uniform = AddLifetime::new("a".to_string(), Annotations::Uniform);
    assert_eq!(uniform.next_lifetime().counter, None);
    assert!(uniform.added_lifetimes.is_empty());
    assert_eq!(Annotations::default(), Annotations::Counter);
}

#[test]
fn add_lifetime_references() {
    let mut add = AddLifetime::new("life".to_string(), Annotations::Counter);
    let elided = add.visit_reference(None);
    assert_eq!(elided.name, "life");
    assert_eq!(elided.counter, Some(1));
    let given = add.visit_reference(Some(Lifetime { name: "x".to_string(), counter: None }));
    assert_eq!(given.name, "x");
    assert_eq!(given.counter, None);
    assert_eq!(add.added_lifetimes.len(), 1);
    assert_eq!(add.explicit_lifetimes.len(), 1);
    assert_eq!(add.explicit_lifetimes[0].name, "x");
    let again = add.visit_reference(None);
    assert_eq!(again.counter, Some(2));
}

#[test]
fn error_attributes_parse() {
    let bound = |maybe: bool, name: Option<&str>, id: usize| TraitBound {
        lifetimes: None,
        maybe,
        ident: name.map(|n| n.to_string()),
        span: sp(id),
        path_span: sp(id + 100),
    };
    let ok = Attributes::parse(&vec![bound(true, Some("Debug"), 1), bound(true, Some("Display"), 2)]);
    assert_eq!(ok, Ok(Attributes { no_display: Some(sp(102)), no_debug: Some(sp(101)) }));
    let no_q = Attributes::parse(&vec![bound(false, Some("Debug"), 1)]);
    assert_eq!(no_q, Err(ParseError { span: sp(1), message: ErrorMessage::ExpectedMaybe }));
    let dup = Attributes::parse(&vec![bound(true, Some("Debug"), 1), bound(true, Some("Debug"), 2)]);
    assert_eq!(dup, Err(ParseError { span: sp(102), message: ErrorMessage::DuplicateBound }));
    let other = Attributes::parse(&vec![bound(true, Some("Clone"), 1)]);
    assert_eq!(other, Err(ParseError { span: sp(101), message: ErrorMessage::ExpectedDebugOrDisplay }));
    let mut lt = bound(true, Some("Debug"), 1);
    lt.lifetimes = Some(sp(50));
    assert_eq!(Attributes::parse(&vec![lt]), Err(ParseError { span: sp(50), message: ErrorMessage::NotAllowed }));
}

#[test]
fn error_variant_checks() {
    let ok = check_variant(None, Some((sp(1), true)), None, None, 1).unwrap();
    assert_eq!(ok.display, Some((sp(1), true)));
    let e = check_variant(None, Some((sp(1), true)), None, None, 2);
    assert_eq!(e.err(), Some(ParseError { span: sp(1), message: ErrorMessage::DisplayTransparentOneField }));
    let e = check_variant(Some((sp(3), true)), None, None, None, 0);
    assert_eq!(e.err(), Some(ParseError { span: sp(3), message: ErrorMessage::DisplayTransparentOneField }));
    let e = check_variant(None, None, None, Some(sp(4)), 2);
    assert_eq!(e.err(), Some(ParseError { span: sp(4), message: ErrorMessage::FromOneField }));
    assert_eq!(field_attrs(&[(false, true), (true, true), (true, false)]), (Some(1), Some(0)));
}

#[test]
fn error_debug_styles() {
    assert_eq!(debug_style(Some((sp(1), true)), None, 1, false), DebugStyle::Transparent);
    assert_eq!(debug_style(Some((sp(1), true)), Some((sp(2), false)), 1, false), DebugStyle::Format);
    assert_eq!(debug_style(None, None, 0, true), DebugStyle::Name);
    assert_eq!(debug_style(None, None, 2, true), DebugStyle::Struct);
    assert_eq!(debug_style(None, None, 2, false), DebugStyle::Tuple);
}

#[test]
fn error_impls_follow_options() {
    let plain = Attributes { no_display: None, no_debug: None };
    let no_debug = Attributes { no_display: None, no_debug: Some(sp(1)) };
    let no_both = Attributes { no_display: Some(sp(2)), no_debug: Some(sp(1)) };
    assert_eq!(
        error_impls(plain, &ErrorItem::Struct { has_display: true }),
        Ok(ErrorImpls { display: true, debug: false, display_bound: true, derive_debug: true })
    );
    assert_eq!(
        error_impls(no_debug, &ErrorItem::Struct { has_display: true }),
        Ok(ErrorImpls { display: true, debug: true, display_bound: true, derive_debug: false })
    );
    assert_eq!(
        error_impls(no_both, &ErrorItem::Struct { has_display: true }),
        Ok(ErrorImpls { display: true, debug: true, display_bound: false, derive_debug: false })
    );
    assert_eq!(
        error_impls(no_debug, &ErrorItem::Struct { has_display: false }),
        Ok(ErrorImpls { display: false, debug: false, display_bound: false, derive_debug: false })
    );
}

#[test]
fn error_impls_on_enums_and_unions() {
    let plain = Attributes { no_display: None, no_debug: None };
    let all = ErrorItem::Enum(vec![(true, sp(1)), (true, sp(2))]);
    assert_eq!(
        error_impls(plain, &all),
        Ok(ErrorImpls { display: true, debug: false, display_bound: true, derive_debug: true })
    );
    let none = ErrorItem::Enum(vec![(false, sp(1)), (false, sp(2))]);
    assert_eq!(
        error_impls(plain, &none),
        Ok(ErrorImpls { display: false, debug: false, display_bound: false, derive_debug: true })
    );
    let some = ErrorItem::Enum(vec![(true, sp(1)), (false, sp(2)), (false, sp(3))]);
    assert_eq!(error_impls(plain, &some), Err(ParseError { span: sp(2), message: ErrorMessage::MissingDisplay }));
    assert_eq!(
        error_impls(plain, &ErrorItem::Union(sp(9))),
        Err(ParseError { span: sp(9), message: ErrorMessage::UnionsNotSupported })
    );
    assert_eq!(ErrorMessage::MissingDisplay.text(), "Missing #[display(..)] attribute");
    assert_eq!(ErrorMessage::UnionsNotSupported.text(), "Unions are not supported");
}

#[test]
fn explicit_closure_captures_inputs() {
    let pat = vec![PatToken::Ident("mut".to_string()), PatToken::Ident("x".to_string())];
    let plan = explicit_closure_plan(vec![
        ClosureInput::Receiver { ty: "Self", reference: false, mutable: true },
        ClosureInput::Typed(pat, "u8"),
    ]);
    assert!(matches!(plan.types, JoinedTuple::Parenthesized(ref v) if *v == vec!["Self", "u8"]));
    match plan.construct {
        JoinedTuple::Parenthesized(v) => {
            assert!(matches!(v[0], CapturePattern::SelfValue));
            assert!(matches!(&v[1], CapturePattern::Tokens(t) if t.len() == 1));
        }
        JoinedTuple::Bare(_) => panic!("two inputs are parenthesized"),
    }
    match plan.destruct {
        JoinedTuple::Parenthesized(v) => {
            assert!(matches!(v[0], CapturePattern::SelfBinding { mutable: true }));
            assert!(matches!(&v[1], CapturePattern::Tokens(t) if t.len() == 2));
        }
        JoinedTuple::Bare(_) => panic!("two inputs are parenthesized"),
    }
    let single = explicit_closure_plan(vec![ClosureInput::Receiver { ty: 1u8, reference: true, mutable: true }]);
    assert!(matches!(single.destruct, JoinedTuple::Bare(ref v) if matches!(v[0], CapturePattern::SelfBinding { mutable: false })));
}

#[test]
fn closure_lifetimes_bound_and_capture() {
    assert!(closure_lifetimes(None, 2, 1, &[GenericKind::Type], None).is_none());
    assert!(closure_lifetimes(Some(Annotations::Counter), 0, 0, &[GenericKind::Type], None).is_none());
    let sig = [GenericKind::Lifetime, GenericKind::Const, GenericKind::Type];
    let env = [GenericKind::Type, GenericKind::Lifetime];
    let plan = closure_lifetimes(Some(Annotations::Counter), 1, 2, &sig, Some(&env)).unwrap();
    assert_eq!(
        plan.outlives,
        vec![
            Outlives::SigParam(0),
            Outlives::SigParam(2),
            Outlives::EnvParam(0),
            Outlives::EnvParam(1),
            Outlives::Added(1),
            Outlives::Added(2),
            Outlives::Explicit(0),
        ]
    );
    assert_eq!(plan.added, 2);
    assert_eq!(
        plan.captures,
        vec![
            Capture::EnvLifetime(1),
            Capture::SigLifetime(0),
            Capture::Closure,
            Capture::Added(1),
            Capture::Added(2),
            Capture::Closure,
        ]
    );
}

#[test]
fn receiver_becomes_this() {
    assert!(this_arg(false, true).mutable);
    assert!(!this_arg(true, true).mutable);
    assert!(!this_arg(false, false).mutable);
}
