use xx_core::macros::asynchronous::options::{AsyncKind, AttributeArgs, Lang};
use xx_core::macros::asynchronous::traits::{format_trait_ident, trait_ext_plan};
use xx_core::macros::asynchronous::visit::{
    async_fn_bound, name_lifetimes, BoundArgs, BoundModel, LifetimeTok, TypeModel,
};
use xx_core::macros::asynchronous::transform::{
    context_lifetime, transform_async_plan, tuple_args, ArgType, AsyncPlan, AsyncSig, ClosureArg, ForLifetime, GenericParamAttr,
};
use xx_core::macros::future::{
    check_cancel_sig, check_request_arg, future_plan, not_allowed, ArgPattern, CancelSig, FuturePlan, FutureSig, SigInput,
};
use xx_core::macros::make_closure::JoinedTuple;
use xx_core::macros::syscall::{array_options, get_raw_args, ArrayAttr, ArrayOption, RawArg, SyscallArg, SyscallImpl};
use xx_core::macros::transform::{doc_block, transform_all, transform_layout, DocBlock, Functions};
use xx_core::macros::wrap_function::{check_inner_name, get_chain, resolve_inner, wrapper_header, Chain, Receiver, WrapperHeader};
use xx_core::macros::{ErrorMessage, ParseError, Span, TokenTree};

fn sp(id: usize) -> Span {
    Span { id }
}

fn id(name: &str, n: usize) -> TokenTree {
    TokenTree::Ident(name.to_string(), sp(n))
}

fn p(c: char, n: usize) -> TokenTree {
    TokenTree::Punct(c, sp(n))
}

fn lit(text: &str, n: usize) -> TokenTree {
    TokenTree::Literal(text.to_string(), sp(n))
}

#[test]
fn syscall_impl_parses_registers() {
    let ts = vec![
        lit("\"syscall\"", 1),
        p(';', 2),
        id("out", 3),
        p('=', 4),
        id("rax", 5),
        p(';', 6),
        id("num", 7),
        p('=', 8),
        id("rax", 9),
        p(';', 10),
        id("arg", 11),
        p('=', 12),
        id("rdi", 13),
        p(',', 14),
        id("rsi", 15),
        p(';', 16),
        id("clobber", 17),
        p('=', 18),
        id("rcx", 19),
        p(';', 20),
    ];
    let s = SyscallImpl::parse(&ts).unwrap();
    assert_eq!(s.instruction, "\"syscall\"");
    assert_eq!(s.out, "rax");
    assert_eq!(s.num, "rax");
    assert_eq!(s.regs, vec!["rdi".to_string(), "rsi".to_string()]);
    assert_eq!(s.clobber, vec!["rcx".to_string()]);
}

#[test]
fn syscall_impl_errors() {
    let no_lit = SyscallImpl::parse(&vec![id("x", 1)]);
    assert_eq!(no_lit.err(), Some(ParseError { span: sp(1), message: ErrorMessage::ExpectedStrLit }));
    let no_semi = SyscallImpl::parse(&vec![lit("\"svc 0\"", 1)]);
    assert_eq!(no_semi.err(), Some(ParseError { span: sp(0), message: ErrorMessage::EndExpectedSemi }));
    let two_out = SyscallImpl::parse(&vec![
        lit("\"syscall\"", 1),
        p(';', 2),
        id("out", 3),
        p('=', 4),
        id("rax", 5),
        p(',', 6),
        id("rdx", 7),
        p(';', 8),
    ]);
    assert_eq!(two_out.err(), Some(ParseError { span: sp(3), message: ErrorMessage::OneOutRegister }));
    let unknown = SyscallImpl::parse(&vec![lit("\"syscall\"", 1), p(';', 2), id("in", 3), p('=', 4), id("rax", 5), p(';', 6)]);
    assert_eq!(unknown.err(), Some(ParseError { span: sp(3), message: ErrorMessage::UnknownKind }));
    let missing = SyscallImpl::parse(&vec![lit("\"syscall\"", 1), p(';', 2), id("out", 3), p('=', 4), id("rax", 5), p(';', 6)]);
    assert_eq!(missing.err(), Some(ParseError { span: sp(0), message: ErrorMessage::MissingNum }));
    let no_eq = SyscallImpl::parse(&vec![lit("\"syscall\"", 1), p(';', 2), id("out", 3), id("rax", 4)]);
    assert_eq!(no_eq.err(), Some(ParseError { span: sp(4), message: ErrorMessage::ExpectedEq }));
}

#[test]
fn chain_of_forwarding_functions() {
    let by_ref = Some(Receiver { ty: "& mut Self".to_string(), reference: true });
    assert_eq!(get_chain(&by_ref, "& mut Self"), Chain::Ref);
    assert_eq!(get_chain(&by_ref, "usize"), Chain::Unchained);
    let owned = Some(Receiver { ty: "Self".to_string(), reference: false });
    assert_eq!(get_chain(&owned, "Self"), Chain::Owned);
    assert_eq!(get_chain(&None, "Self"), Chain::Unchained);
    let boxed = Some(Receiver { ty: "Box < Self >".to_string(), reference: false });
    assert_eq!(get_chain(&boxed, "Box < Self >"), Chain::Unchained);
}

#[test]
fn inner_expressions_resolve() {
    assert_eq!(resolve_inner(Some(1u8), Some(2u8), None), Ok((1, 2)));
    assert_eq!(resolve_inner(Some(1u8), None, None), Ok((1, 1)));
    assert_eq!(resolve_inner(None, Some(2u8), None), Ok((2, 2)));
    assert_eq!(
        resolve_inner::<u8>(None, None, Some(sp(5))),
        Err(ParseError { span: sp(5), message: ErrorMessage::ExpectedInner })
    );
    assert_eq!(
        resolve_inner::<u8>(None, None, None),
        Err(ParseError { span: sp(0), message: ErrorMessage::EndExpectedInner })
    );
    assert_eq!(check_inner_name("inner", sp(1)), Ok(()));
    assert_eq!(check_inner_name("outer", sp(1)), Err(ParseError { span: sp(1), message: ErrorMessage::ExpectedInnerName }));
}

#[test]
fn functions_kind_from_keywords() {
    assert_eq!(Functions::parse(&vec![id("fn", 1)], true), Ok(Functions::Fn));
    assert_eq!(Functions::parse(&vec![id("async", 1), id("fn", 2)], false), Ok(Functions::TraitFn));
    assert_eq!(Functions::parse(&vec![id("unsafe", 1), id("trait", 2)], false), Ok(Functions::Trait));
    assert_eq!(Functions::parse(&vec![id("default", 1), id("impl", 2)], true), Ok(Functions::Impl));
    assert_eq!(
        Functions::parse(&vec![id("extern", 1), lit("\"C\"", 2), id("fn", 3)], true),
        Ok(Functions::Fn)
    );
    assert_eq!(
        Functions::parse(&vec![id("struct", 1)], true),
        Err(ParseError { span: sp(1), message: ErrorMessage::ExpectedFnTraitImpl })
    );
}

#[test]
fn transform_layout_puts_docs_after_functions() {
    assert_eq!(
        transform_layout(&[true, false, true]),
        vec![(0, false), (0, true), (1, false), (2, false), (2, true)]
    );
    assert_eq!(doc_block(true), DocBlock::Empty);
    assert_eq!(doc_block(false), DocBlock::Semicolon);
}

fn binding(name: &str, subpattern: bool) -> ArgPattern {
    ArgPattern::Binding { name: name.to_string(), name_span: sp(2), subpattern }
}

fn typed(pat: ArgPattern, infer: bool) -> SigInput {
    SigInput::Typed { pat, pat_span: sp(1), infer, ty_span: sp(3) }
}

fn request_err(id: usize) -> Result<(), ParseError> {
    Err(ParseError { span: sp(id), message: ErrorMessage::LastArgRequest })
}

#[test]
fn request_argument_accepted() {
    assert_eq!(check_request_arg(&vec![SigInput::Receiver, typed(binding("request", false), true)], sp(9)), Ok(()));
}

#[test]
fn request_argument_rejected() {
    assert_eq!(check_request_arg(&vec![], sp(9)), request_err(9));
    assert_eq!(check_request_arg(&vec![SigInput::Receiver], sp(9)), request_err(9));
    assert_eq!(check_request_arg(&vec![typed(ArgPattern::Other, true)], sp(9)), request_err(1));
    assert_eq!(check_request_arg(&vec![typed(binding("request", true), true)], sp(9)), request_err(1));
    assert_eq!(check_request_arg(&vec![typed(binding("req", false), true)], sp(9)), request_err(2));
    assert_eq!(check_request_arg(&vec![typed(binding("request", false), false)], sp(9)), request_err(3));
    assert_eq!(ErrorMessage::LastArgRequest.text(), "The last argument must be `request: _`");
}

#[test]
fn cancel_signature_checks_in_order() {
    let none = CancelSig { visibility: None, constness: None, asyncness: None, abi: None, generics: None, variadic: None };
    assert_eq!(check_cancel_sig(&none), Ok(()));
    let all = CancelSig {
        visibility: Some(sp(1)),
        constness: Some(sp(2)),
        asyncness: Some(sp(3)),
        abi: Some(sp(4)),
        generics: Some(sp(5)),
        variadic: Some(sp(6)),
    };
    assert_eq!(check_cancel_sig(&all), Err(ParseError { span: sp(1), message: ErrorMessage::VisibilityNotAllowed }));
    let later = CancelSig { visibility: None, constness: None, asyncness: Some(sp(3)), ..all };
    assert_eq!(check_cancel_sig(&later), Err(ParseError { span: sp(3), message: ErrorMessage::AsyncNotAllowed }));
    let last = CancelSig { variadic: Some(sp(6)), ..none };
    assert_eq!(check_cancel_sig(&last), Err(ParseError { span: sp(6), message: ErrorMessage::VariadicsNotAllowed }));
    assert_eq!(ErrorMessage::AbiNotAllowed.text(), "ABI not allowed here");
    assert_eq!(not_allowed(Some(sp(7)), ErrorMessage::ConstNotAllowed), Err(ParseError { span: sp(7), message: ErrorMessage::ConstNotAllowed }));
    assert_eq!(not_allowed(None, ErrorMessage::ConstNotAllowed), Ok(()));
}

#[test]
fn context_lifetime_found_once() {
    let params = vec![GenericParamAttr::Other, GenericParamAttr::Lifetime { cx: None }, GenericParamAttr::Lifetime { cx: Some(sp(4)) }];
    assert_eq!(context_lifetime(&params), Ok(Some(2)));
    assert_eq!(context_lifetime(&vec![GenericParamAttr::Lifetime { cx: None }]), Ok(None));
    assert_eq!(context_lifetime(&vec![]), Ok(None));
}

#[test]
fn context_lifetime_duplicate() {
    let params = vec![
        GenericParamAttr::Lifetime { cx: Some(sp(1)) },
        GenericParamAttr::Other,
        GenericParamAttr::Lifetime { cx: Some(sp(3)) },
        GenericParamAttr::Lifetime { cx: Some(sp(5)) },
    ];
    assert_eq!(context_lifetime(&params), Err(ParseError { span: sp(3), message: ErrorMessage::DuplicateContextLifetime }));
    assert_eq!(ErrorMessage::DuplicateContextLifetime.text(), "Duplicate context lifetime");
}

#[test]
fn closure_arguments_become_one_tuple() {
    let (pats, tys) = tuple_args(vec![ClosureArg::Typed("a", 1u8), ClosureArg::Untyped("b")]);
    assert!(matches!(pats, JoinedTuple::Parenthesized(v) if v == vec!["a", "b"]));
    match tys {
        JoinedTuple::Parenthesized(v) => {
            assert_eq!(v.len(), 2);
            assert!(matches!(v[0], ArgType::Given(1)));
            assert!(matches!(v[1], ArgType::Infer));
        }
        JoinedTuple::Bare(_) => panic!("two arguments are parenthesized"),
    }
    let (pats, tys) = tuple_args(vec![ClosureArg::<&str, u8>::Untyped("x")]);
    assert!(matches!(pats, JoinedTuple::Bare(v) if v == vec!["x"]));
    assert!(matches!(tys, JoinedTuple::Bare(v) if v.len() == 1 && matches!(v[0], ArgType::Infer)));
    let (pats, _) = tuple_args(Vec::<ClosureArg<&str, u8>>::new());
    assert!(matches!(pats, JoinedTuple::Parenthesized(v) if v.is_empty()));
}

fn plain_arg(pat: usize) -> SyscallArg {
    SyscallArg::Typed { ident: true, pat_span: sp(pat), array: None }
}

#[test]
fn raw_args_split_arrays() {
    let args = vec![
        plain_arg(1),
        SyscallArg::Typed { ident: true, pat_span: sp(2), array: Some(ArrayAttr::Path) },
        SyscallArg::Typed {
            ident: true,
            pat_span: sp(3),
            array: Some(ArrayAttr::List(vec![ArrayOption::NameValue {
                ident: Some("len".to_string()),
                path_span: sp(4),
                value: sp(5),
            }])),
        },
    ];
    assert_eq!(
        get_raw_args(&args),
        Ok(vec![RawArg::Plain(0), RawArg::Array { index: 1, len: None }, RawArg::Array { index: 2, len: Some(sp(5)) }])
    );
    assert_eq!(get_raw_args(&vec![]), Ok(vec![]));
}

#[test]
fn raw_args_refuse_receivers_and_patterns() {
    assert_eq!(
        get_raw_args(&vec![plain_arg(1), SyscallArg::Receiver(sp(7))]),
        Err(ParseError { span: sp(7), message: ErrorMessage::ReceiverNotAllowed })
    );
    assert_eq!(
        get_raw_args(&vec![SyscallArg::Typed { ident: false, pat_span: sp(8), array: None }, SyscallArg::Receiver(sp(9))]),
        Err(ParseError { span: sp(8), message: ErrorMessage::PatternNotAllowed })
    );
    assert_eq!(ErrorMessage::ReceiverNotAllowed.text(), "Receiver is not allowed here");
}

#[test]
fn array_options_errors() {
    assert_eq!(
        array_options(&ArrayAttr::NameValue(sp(1))),
        Err(ParseError { span: sp(1), message: ErrorMessage::ExpectedArrayOptions })
    );
    assert_eq!(
        array_options(&ArrayAttr::List(vec![ArrayOption::Other(sp(2))])),
        Err(ParseError { span: sp(2), message: ErrorMessage::ExpectedOptionValue })
    );
    let unknown = ArrayOption::NameValue { ident: Some("size".to_string()), path_span: sp(3), value: sp(4) };
    assert_eq!(
        array_options(&ArrayAttr::List(vec![unknown])),
        Err(ParseError { span: sp(3), message: ErrorMessage::UnknownOption })
    );
    let path = ArrayOption::NameValue { ident: None, path_span: sp(5), value: sp(6) };
    assert_eq!(
        array_options(&ArrayAttr::List(vec![path])),
        Err(ParseError { span: sp(5), message: ErrorMessage::ExpectedPathIdent })
    );
    let twice = vec![
        ArrayOption::NameValue { ident: Some("len".to_string()), path_span: sp(1), value: sp(2) },
        ArrayOption::NameValue { ident: Some("len".to_string()), path_span: sp(3), value: sp(4) },
    ];
    assert_eq!(array_options(&ArrayAttr::List(twice)), Ok(Some(sp(4))));
}

fn async_sig(asyncness: bool, cx: bool, generics: usize, block: Option<(bool, bool)>) -> AsyncSig {
    AsyncSig {
        asyncness: if asyncness { Some(sp(1)) } else { None },
        fn_token: sp(2),
        sig_span: sp(3),
        unsafety: false,
        generics: (generics, sp(4)),
        cx_lifetime: if cx { Some(sp(5)) } else { None },
        block: block.map(|(empty, awaits)| (sp(6), empty, awaits)),
    }
}

#[test]
fn async_plan_errors() {
    let implicit = AttributeArgs::new(AsyncKind::Implicit, sp(7));
    assert_eq!(
        transform_async_plan(&async_sig(false, false, 0, None), &implicit, true),
        Err(ParseError { span: sp(2), message: ErrorMessage::MissingAsync })
    );
    assert_eq!(transform_async_plan(&async_sig(false, false, 0, None), &implicit, false), Ok(AsyncPlan::Sync));
    assert_eq!(
        transform_async_plan(&async_sig(true, true, 2, Some((false, true))), &implicit, true),
        Err(ParseError { span: sp(4), message: ErrorMessage::GenericsNotAllowed })
    );
    let task = AttributeArgs::new(AsyncKind::Task, sp(7));
    assert_eq!(
        transform_async_plan(&async_sig(true, true, 1, Some((false, true))), &task, true),
        Err(ParseError { span: sp(7), message: ErrorMessage::UnsupportedClosureType })
    );
    let mut lang = implicit;
    lang.language = Some((Lang::GetContext, sp(8)));
    assert_eq!(
        transform_async_plan(&async_sig(true, true, 1, Some((true, false))), &lang, true),
        Err(ParseError { span: sp(5), message: ErrorMessage::ContextLifetimeInLang })
    );
    assert_eq!(
        transform_async_plan(&async_sig(true, false, 0, Some((false, false))), &lang, true),
        Err(ParseError { span: sp(6), message: ErrorMessage::BlockMustBeEmpty })
    );
    assert_eq!(
        transform_async_plan(&async_sig(true, false, 0, None), &lang, true),
        Err(ParseError { span: sp(3), message: ErrorMessage::EmptyBlockRequired })
    );
}

#[test]
fn async_plan_rewrites() {
    let implicit = AttributeArgs::new(AsyncKind::Implicit, sp(7));
    assert_eq!(
        transform_async_plan(&async_sig(true, false, 0, Some((false, false))), &implicit, true),
        Ok(AsyncPlan::Closure {
            for_lifetime: ForLifetime::Internal,
            clear_generics: false,
            annotate: true,
            lending: false,
            warn_no_await: true,
        })
    );
    assert_eq!(
        transform_async_plan(&async_sig(true, true, 1, Some((false, true))), &implicit, true),
        Ok(AsyncPlan::Closure {
            for_lifetime: ForLifetime::Context(sp(5)),
            clear_generics: true,
            annotate: true,
            lending: true,
            warn_no_await: false,
        })
    );
    let mut lang = implicit;
    lang.language = Some((Lang::GetContext, sp(8)));
    assert_eq!(
        transform_async_plan(&async_sig(true, false, 0, Some((true, false))), &lang, true),
        Ok(AsyncPlan::Closure {
            for_lifetime: ForLifetime::Current,
            clear_generics: false,
            annotate: false,
            lending: false,
            warn_no_await: false,
        })
    );
    let task = AttributeArgs::new(AsyncKind::Task, sp(7));
    assert_eq!(
        transform_async_plan(&async_sig(true, false, 0, Some((false, true))), &task, true),
        Ok(AsyncPlan::Plain { make_unsafe: true, deny_unsafe_op: true })
    );
}

#[test]
fn future_plans() {
    let request = || typed(binding("request", false), true);
    let sig = FutureSig { inputs: vec![SigInput::Receiver, request()], inputs_span: sp(9), cancel: None };
    assert_eq!(future_plan(&sig, false, false), Ok(FuturePlan::Unchanged));
    assert_eq!(future_plan(&sig, true, false), Ok(FuturePlan::Future { receiver: true, custom_cancel: false }));
    let none = CancelSig { visibility: None, constness: None, asyncness: None, abi: None, generics: None, variadic: None };
    let with_cancel = FutureSig { inputs: vec![request()], inputs_span: sp(9), cancel: Some(none) };
    assert_eq!(future_plan(&with_cancel, false, true), Ok(FuturePlan::Future { receiver: false, custom_cancel: true }));
    let bad_cancel = FutureSig {
        inputs: vec![],
        inputs_span: sp(9),
        cancel: Some(CancelSig { abi: Some(sp(4)), ..none }),
    };
    assert_eq!(future_plan(&bad_cancel, true, false), Err(ParseError { span: sp(4), message: ErrorMessage::AbiNotAllowed }));
    let no_request = FutureSig { inputs: vec![], inputs_span: sp(9), cancel: None };
    assert_eq!(future_plan(&no_request, true, false), request_err(9).map(|_| FuturePlan::Unchanged));
}

#[test]
fn transform_all_plans() {
    assert_eq!(
        transform_all(Functions::Impl, false, sp(3), &[]).err(),
        Some(ParseError { span: sp(3), message: ErrorMessage::UnexpectedDeclaration })
    );
    let single = transform_all(Functions::Fn, true, sp(3), &[]).ok().unwrap();
    assert!(single.is_root);
    assert_eq!(single.layout, vec![(0, false), (0, true)]);
    let items = transform_all(Functions::Trait, true, sp(3), &[true, false]).ok().unwrap();
    assert!(!items.is_root);
    assert_eq!(items.layout, vec![(0, false), (0, true), (1, false)]);
}

#[test]
fn trait_ext_plans() {
    assert_eq!(format_trait_ident("Read"), "ReadExt");
    let plan = trait_ext_plan("Read", AttributeArgs::new(AsyncKind::Implicit, sp(2)), &[true, false, true]);
    assert_eq!(plan.ident, "ReadExt");
    assert_eq!(plan.args.async_kind, (AsyncKind::TraitExt, sp(2)));
    assert_eq!(plan.layout, vec![(0, false), (0, true), (2, false), (2, true)]);
}

#[test]
fn wrapper_header_reads_inner_statements() {
    let ts = vec![
        id("inner", 1), p('=', 2), id("self", 3), p('.', 4), lit("0", 5), p(';', 6),
        id("mut", 7), id("inner", 8), p('=', 9), id("x", 10), p(';', 11),
        id("pub", 12), id("fn", 13),
    ];
    assert_eq!(wrapper_header(&ts), Ok(WrapperHeader { inner: (2, 5), inner_mut: (9, 10), rest: 11 }));
    let one = vec![id("inner", 1), p('=', 2), id("x", 3), p(';', 4), id("fn", 5)];
    assert_eq!(wrapper_header(&one), Ok(WrapperHeader { inner: (2, 3), inner_mut: (2, 3), rest: 4 }));
}

#[test]
fn wrapper_header_errors() {
    assert_eq!(
        wrapper_header(&vec![id("fn", 1)]),
        Err(ParseError { span: sp(1), message: ErrorMessage::ExpectedInner })
    );
    assert_eq!(
        wrapper_header(&vec![id("outer", 1), p('=', 2)]),
        Err(ParseError { span: sp(1), message: ErrorMessage::ExpectedInnerName })
    );
    assert_eq!(
        wrapper_header(&vec![id("inner", 1), p(':', 2)]),
        Err(ParseError { span: sp(2), message: ErrorMessage::ExpectedEq })
    );
    assert_eq!(
        wrapper_header(&vec![id("inner", 1), p('=', 2), p(';', 3)]),
        Err(ParseError { span: sp(3), message: ErrorMessage::ExpectedExpression })
    );
    assert_eq!(
        wrapper_header(&vec![id("inner", 1), p('=', 2), id("x", 3)]),
        Err(ParseError { span: sp(0), message: ErrorMessage::EndExpectedSemi })
    );
    assert_eq!(wrapper_header(&vec![]), Err(ParseError { span: sp(0), message: ErrorMessage::EndExpectedInner }));
}

fn reference(elem: TypeModel) -> TypeModel {
    TypeModel::Ref(None, Box::new(elem))
}

#[test]
fn lifetimes_named_inner_first() {
    // &Foo<'_, &T>: the inner reference, then '_ in order, then the outer
    let inner = TypeModel::Cons(Box::new(TypeModel::Life(LifetimeTok::Elided)), Box::new(reference(TypeModel::Nil)));
    let (named, next) = name_lifetimes(reference(inner), 1);
    assert_eq!(next, 4);
    match named {
        TypeModel::Ref(Some(LifetimeTok::Added(3)), elem) => match *elem {
            TypeModel::Cons(a, b) => {
                assert!(matches!(*a, TypeModel::Life(LifetimeTok::Added(1))));
                assert!(matches!(*b, TypeModel::Ref(Some(LifetimeTok::Added(2)), _)));
            }
            _ => panic!("the shape is kept"),
        },
        _ => panic!("the outer reference is named last"),
    }
    let (kept, next) = name_lifetimes(TypeModel::Ref(Some(LifetimeTok::Written(sp(1))), Box::new(reference(TypeModel::Nil))), 5);
    assert_eq!(next, 5);
    assert!(matches!(kept, TypeModel::Ref(Some(LifetimeTok::Written(_)), _)));
    let (with_impl, next) = name_lifetimes(reference(TypeModel::Impl(None)), 1);
    assert_eq!(next, 2);
    assert!(matches!(with_impl, TypeModel::Ref(Some(LifetimeTok::Added(1)), ref e) if matches!(**e, TypeModel::Impl(None))));
}

#[test]
fn async_fn_bounds_rewritten() {
    let bound = BoundModel::Trait(
        "AsyncFnMut".to_string(),
        BoundArgs::Parenthesized(vec![reference(TypeModel::Nil), TypeModel::Nil], None),
    );
    let rewritten = async_fn_bound(bound).ok().unwrap().unwrap();
    assert_eq!(rewritten.added, 1);
    assert!(rewritten.output.is_none());
    match rewritten.inputs {
        xx_core::macros::make_closure::JoinedTuple::Parenthesized(v) => {
            assert_eq!(v.len(), 2);
            assert!(matches!(v[0], TypeModel::Ref(Some(LifetimeTok::Added(1)), _)));
        }
        _ => panic!("two inputs are parenthesized"),
    }
    assert!(async_fn_bound(BoundModel::Trait("Fn".to_string(), BoundArgs::Other(sp(1)))).ok().unwrap().is_none());
    assert!(async_fn_bound(BoundModel::Lifetime).ok().unwrap().is_none());
    assert_eq!(
        async_fn_bound(BoundModel::Trait("AsyncFn".to_string(), BoundArgs::Other(sp(4)))).err(),
        Some(ParseError { span: sp(4), message: ErrorMessage::ExpectedParenthetical })
    );
}
