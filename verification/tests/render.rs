use proc_macro2::{Delimiter, Spacing, Span, TokenStream, TokenTree};
use starlark_kit::binding::{render_binding, render_binding_arg};
use starlark_kit::documentation::render_documentation;
use starlark_kit::fun::{render_fun, render_fun_at};
use starlark_kit::signature::{render_signature, render_signature_arg, render_signature_args};
use starlark_kit::template::{quote_at, Hole};
use starlark_kit::tokens;
use starlark_kit::typ::{
    SpecialParam, StarArg, StarArgPassStyle, StarArgSource, StarFun, StarFunSource,
};

fn code(text: &str) -> TokenStream {
    text.parse().unwrap()
}

fn site() -> Span {
    Span::call_site()
}

/// The tokens of a stream as texts, groups opened up, spacing left aside.
fn flat(stream: &TokenStream) -> Vec<String> {
    let mut texts = Vec::new();
    for tree in stream.clone() {
        match tree {
            TokenTree::Group(group) => {
                let (open, close) = match group.delimiter() {
                    Delimiter::Parenthesis => ("(", ")"),
                    Delimiter::Brace => ("{", "}"),
                    Delimiter::Bracket => ("[", "]"),
                    Delimiter::None => ("<<", ">>"),
                };
                texts.push(open.to_owned());
                texts.extend(flat(&group.stream()));
                texts.push(close.to_owned());
            }
            TokenTree::Ident(ident) => texts.push(ident.to_string()),
            TokenTree::Punct(punct) => texts.push(punct.as_char().to_string()),
            TokenTree::Literal(literal) => texts.push(literal.to_string()),
        }
    }
    texts
}

fn same_code(stream: &TokenStream, text: &str) {
    assert_eq!(flat(stream), flat(&code(text)));
}

fn arg(name: &str, ty: &str) -> StarArg {
    StarArg {
        span: Span::call_site(),
        attrs: Vec::new(),
        mutable: false,
        this: false,
        pass_style: StarArgPassStyle::PosOnly,
        name: code(name),
        name_str: name.to_owned(),
        ty: code(ty),
        default: None,
        source: StarArgSource::Argument(0),
        is_args: false,
        is_kwargs: false,
        is_option: false,
        is_value: false,
    }
}

fn fun(source: StarFunSource, args: Vec<StarArg>) -> StarFun {
    StarFun {
        span: Span::call_site(),
        args_span: Span::call_site(),
        name: code("f"),
        name_str: "f".to_owned(),
        type_attribute: None,
        attrs: Vec::new(),
        args,
        heap: None,
        eval: None,
        return_type: code("anyhow::Result<i32>"),
        return_type_arg: code("i32"),
        speculative_exec_safe: false,
        body: code("{ Ok(1) }"),
        source,
        docstring: None,
        is_method: false,
    }
}

#[test]
fn template_reads_words_lifetimes_operators_and_groups() {
    let stream = quote_at(
        site(),
        "fn f < 'v > ( x : [ _ ] ) -> a :: B { }",
        Vec::new(),
    );
    assert_eq!(stream.to_string(), "fn f < 'v > (x : [_]) -> a :: B { }");
}

#[test]
fn template_joins_the_characters_of_an_operator() {
    let stream = quote_at(site(), ">> ? ;", Vec::new());
    let spacing: Vec<(char, bool)> = stream
        .into_iter()
        .map(|tree| match tree {
            TokenTree::Punct(p) => (p.as_char(), p.spacing() == Spacing::Joint),
            _ => panic!("punctuation expected"),
        })
        .collect();
    assert_eq!(
        spacing,
        vec![('>', true), ('>', false), ('?', false), (';', false)]
    );
}

#[test]
fn template_fills_holes_by_name_as_often_as_they_occur() {
    let holes = vec![
        Hole { name: "a", tokens: code("x + 1") },
        Hole { name: "b", tokens: code("y") },
    ];
    let stream = quote_at(site(), "$b ( $a , $a ) $c ;", holes);
    assert_eq!(stream.to_string(), "y (x + 1 , x + 1) ;");
}

#[test]
fn template_closes_what_is_open_and_passes_over_stray_brackets() {
    let stream = quote_at(site(), "a ) ( b [ c ) d 1x", Vec::new());
    assert_eq!(stream.to_string(), "a (b [c d])");
}

#[test]
fn literals_are_escaped_and_suffixed() {
    assert_eq!(tokens::str_literal("a\"b", site()).to_string(), "\"a\\\"b\"");
    assert_eq!(tokens::usize_literal(3, site()).to_string(), "3usize");
    assert_eq!(tokens::bool_literal(true, site()).to_string(), "true");
    assert_eq!(tokens::bool_literal(false, site()).to_string(), "false");
    assert_eq!(tokens::mut_token(true, site()).to_string(), "mut");
    assert_eq!(tokens::mut_token(false, site()).to_string(), "");
    let pieces = vec![code("a b"), code("c")];
    assert_eq!(tokens::concat(&pieces).to_string(), "a b c");
    assert_eq!(tokens::copy(&pieces[0]).to_string(), "a b");
}

#[test]
fn type_expr_without_type() {
    let x = fun(StarFunSource::Parameters, Vec::new());
    same_code(&x.type_expr(), "std::option::Option::None");
}

#[test]
fn type_expr_with_type() {
    let mut x = fun(StarFunSource::Parameters, Vec::new());
    x.type_attribute = Some(code("\"struct\""));
    same_code(
        &x.type_expr(),
        "std::option::Option::Some({
            const TYPE_N: usize = \"struct\".len();
            static TYPE: starlark::values::StarlarkStrNRepr<TYPE_N> =
                starlark::values::StarlarkStrNRepr::new(\"struct\");
            TYPE.unpack()
        })",
    );
}

#[test]
fn binding_arg_required() {
    let mut x = arg("x", "i32");
    x.source = StarArgSource::Argument(2);
    same_code(
        &render_binding_arg(&x, site()),
        "let x: i32 = starlark::eval::Arguments::check_required(\"x\", __args[2usize].get())?;",
    );
}

#[test]
fn binding_arg_this() {
    let mut x = arg("this", "Value");
    x.this = true;
    x.source = StarArgSource::This;
    same_code(
        &render_binding_arg(&x, site()),
        "let this: Value = starlark::eval::Arguments::check_this(__this)?;",
    );
}

#[test]
fn binding_arg_optional() {
    let mut x = arg("x", "Option<i32>");
    x.is_option = true;
    x.source = StarArgSource::Optional(1);
    same_code(
        &render_binding_arg(&x, site()),
        "let x: Option<i32> =
            starlark::eval::Arguments::check_optional(\"x\", __optional[1usize])?;",
    );
}

#[test]
fn binding_arg_default_of_a_plain_type() {
    let mut x = arg("x", "i32");
    x.default = Some(code("7"));
    x.mutable = true;
    x.attrs = vec![code("#[a]"), code("#[b]")];
    x.source = StarArgSource::Required(0);
    same_code(
        &render_binding_arg(&x, site()),
        "#[a] #[b] let mut x: i32 = {
            #[allow(clippy::manual_unwrap_or)]
            #[allow(clippy::unnecessary_lazy_evaluations)]
            #[allow(clippy::redundant_closure)]
            let x = starlark::eval::Arguments::check_optional(\"x\", Some(__required[0usize]))?
                .unwrap_or_else(|| 7);
            x
        };",
    );
}

#[test]
fn binding_arg_default_of_a_value() {
    let mut x = arg("x", "Value<'v>");
    x.default = Some(code("7"));
    x.is_value = true;
    same_code(
        &render_binding_arg(&x, site()),
        "let x: Value<'v> =
            starlark::eval::Arguments::check_required(\"x\", __args[0usize].get())?;",
    );
}

#[test]
fn binding_of_parameters() {
    let mut args = arg("args", "&Arguments");
    args.attrs = vec![code("#[a]")];
    let x = fun(StarFunSource::Parameters, vec![args]);
    same_code(
        &render_binding(&x, site()),
        "#[a] let args: &Arguments = __args;",
    );
}

#[test]
fn binding_of_this_and_parameters() {
    let mut this = arg("this", "Value");
    this.this = true;
    this.source = StarArgSource::This;
    let x = fun(
        StarFunSource::ThisParameters,
        vec![this, arg("args", "&Arguments")],
    );
    same_code(
        &render_binding(&x, site()),
        "let this: Value = starlark::eval::Arguments::check_this(__this)?;
         let args: &Arguments = __args;",
    );
}

#[test]
fn binding_by_signature() {
    let mut b = arg("b", "i32");
    b.source = StarArgSource::Argument(1);
    let x = fun(StarFunSource::Argument(2), vec![arg("a", "i32"), b]);
    same_code(
        &render_binding(&x, site()),
        "let __args: [_; 2usize] = __signature.collect_into(__args, eval.heap())?;
         let a: i32 = starlark::eval::Arguments::check_required(\"a\", __args[0usize].get())?;
         let b: i32 = starlark::eval::Arguments::check_required(\"b\", __args[1usize].get())?;",
    );
}

#[test]
fn binding_by_position() {
    let mut a = arg("a", "i32");
    a.source = StarArgSource::Required(0);
    let x = fun(StarFunSource::Positional(1, 0), vec![a]);
    same_code(
        &render_binding(&x, site()),
        "__args.no_named_args()?;
         let __required: [_; 1usize] = __args.positional(eval.heap())?;
         let a: i32 =
            starlark::eval::Arguments::check_required(\"a\", Some(__required[0usize]))?;",
    );
}

#[test]
fn binding_by_position_with_optional_arguments() {
    let mut a = arg("a", "Option<i32>");
    a.is_option = true;
    a.source = StarArgSource::Optional(0);
    let x = fun(StarFunSource::Positional(0, 1), vec![a]);
    same_code(
        &render_binding(&x, site()),
        "__args.no_named_args()?;
         let (__required, __optional): ([_; 0usize], [_; 1usize]) =
            __args.optional(eval.heap())?;
         let a: Option<i32> =
            starlark::eval::Arguments::check_optional(\"a\", __optional[0usize])?;",
    );
}

#[test]
fn signature_arg_of_each_kind() {
    let mut args = arg("args", "Vec<Value>");
    args.is_args = true;
    same_code(&render_signature_arg(&args, site()), "__signature.args();");

    let mut kwargs = arg("kwargs", "Dict");
    kwargs.is_kwargs = true;
    same_code(&render_signature_arg(&kwargs, site()), "__signature.kwargs();");

    let mut this = arg("this", "Value");
    this.this = true;
    same_code(&render_signature_arg(&this, site()), "");

    let mut option = arg("x", "Option<i32>");
    option.is_option = true;
    same_code(
        &render_signature_arg(&option, site()),
        "__signature.optional(\"x\");",
    );

    let mut value = arg("x", "Value");
    value.is_value = true;
    value.default = Some(code("NoneType"));
    same_code(
        &render_signature_arg(&value, site()),
        "__signature.defaulted(\"x\", globals_builder.alloc(NoneType));",
    );

    let mut plain = arg("x", "i32");
    plain.default = Some(code("7"));
    same_code(
        &render_signature_arg(&plain, site()),
        "__signature.optional(\"x\");",
    );

    same_code(
        &render_signature_arg(&arg("x", "i32"), site()),
        "__signature.required(\"x\");",
    );
}

#[test]
fn signature_names_lose_their_outer_underscores() {
    for (name, shown) in [("__a_b_", "a_b"), ("___", ""), ("x", "x"), ("_x", "x"), ("x_", "x")] {
        same_code(
            &render_signature_arg(&arg(name, "i32"), site()),
            &format!("__signature.required(\"{}\");", shown),
        );
    }
}

fn styled(name: &str, style: StarArgPassStyle) -> StarArg {
    let mut x = arg(name, "i32");
    x.pass_style = style;
    x
}

#[test]
fn signature_args_mark_each_change_of_style() {
    let args = vec![
        styled("a", StarArgPassStyle::PosOnly),
        styled("b", StarArgPassStyle::PosOrNamed),
        styled("c", StarArgPassStyle::PosOrNamed),
        styled("d", StarArgPassStyle::NamedOnly),
    ];
    same_code(
        &render_signature_args(&args, site()).unwrap(),
        "__signature.required(\"a\");
         __signature.no_more_positional_only_args();
         __signature.required(\"b\");
         __signature.required(\"c\");
         __signature.no_more_positional_args();
         __signature.required(\"d\");",
    );
}

#[test]
fn signature_args_end_positional_ones_by_star_args() {
    let mut args = styled("args", StarArgPassStyle::PosOnly);
    args.is_args = true;
    let args = vec![args, styled("d", StarArgPassStyle::NamedOnly)];
    same_code(
        &render_signature_args(&args, site()).unwrap(),
        "__signature.args(); __signature.required(\"d\");",
    );
}

#[test]
fn signature_args_refuse_positional_only_after_others() {
    let args = vec![
        styled("a", StarArgPassStyle::PosOrNamed),
        styled("b", StarArgPassStyle::PosOnly),
    ];
    let error = render_signature_args(&args, site()).unwrap_err();
    assert_eq!(
        error.to_string(),
        "Positional-only parameter after non-positional-only"
    );
}

#[test]
fn signature_args_refuse_positional_only_after_star_args() {
    let mut star = styled("args", StarArgPassStyle::PosOnly);
    star.is_args = true;
    let args = vec![star, styled("b", StarArgPassStyle::PosOnly)];
    assert!(render_signature_args(&args, site()).is_err());
}

#[test]
fn signature_args_do_not_look_past_the_error() {
    let mut kwargs = styled("kwargs", StarArgPassStyle::NamedOnly);
    kwargs.is_kwargs = true;
    kwargs.default = Some(code("1"));
    let args = vec![
        styled("a", StarArgPassStyle::NamedOnly),
        styled("b", StarArgPassStyle::PosOnly),
        kwargs,
    ];
    assert!(render_signature_args(&args, site()).is_err());
}

#[test]
fn signature_is_rendered_where_it_is_needed() {
    let x = fun(StarFunSource::Argument(1), vec![arg("a", "i32")]);
    same_code(
        &render_signature(&x, site()).unwrap().unwrap(),
        "#[allow(unused_mut)]
         let mut __signature =
            starlark::eval::ParametersSpec::with_capacity(\"f\".to_owned(), 1usize);
         __signature.required(\"a\");
         let __signature = __signature.finish();",
    );
    let y = fun(StarFunSource::Positional(1, 0), vec![arg("a", "i32")]);
    assert!(render_signature(&y, site()).unwrap().is_none());
}

#[test]
fn documentation_of_a_function_with_a_signature() {
    let mut this = arg("this", "Value");
    this.this = true;
    let mut x = fun(
        StarFunSource::Argument(2),
        vec![this, arg("a", "i32"), arg("b", "Vec<String>")],
    );
    x.docstring = Some("Does it.".to_owned());
    same_code(
        &render_documentation(&x, site()).unwrap(),
        "let __documentation_renderer = {
            let signature = {
                #[allow(unused_mut)]
                let mut __signature =
                    starlark::eval::ParametersSpec::with_capacity(\"f\".to_owned(), 2usize);
                __signature.required(\"a\");
                __signature.required(\"b\");
                __signature.finish()
            };
            let parameter_types = std::collections::HashMap::from([
                (0usize, starlark::values::docs::Type { raw_type: stringify!(i32).to_owned() }),
                (1usize, starlark::values::docs::Type {
                    raw_type: stringify!(Vec<String>).to_owned()
                })
            ]);
            let return_type = Some(
                starlark::values::docs::Type {
                    raw_type: stringify!(i32).to_owned()
                }
            );
            starlark::values::function::NativeCallableRawDocs {
                rust_docstring: Some(\"Does it.\"),
                signature,
                parameter_types,
                return_type,
            }
        };",
    );
}

#[test]
fn documentation_of_positional_functions_is_that_of_a_signature() {
    let by_position = fun(
        StarFunSource::Positional(1, 1),
        vec![arg("a", "i32"), arg("b", "i32")],
    );
    let by_signature = fun(
        StarFunSource::Argument(2),
        vec![arg("a", "i32"), arg("b", "i32")],
    );
    assert_eq!(
        render_documentation(&by_position, site()).unwrap().to_string(),
        render_documentation(&by_signature, site()).unwrap().to_string()
    );
}

#[test]
fn documentation_ignores_the_receiver() {
    for source in [StarFunSource::Argument(2), StarFunSource::Positional(1, 1)] {
        let mut this = arg("this", "Value");
        this.this = true;
        let others = || vec![arg("a", "i32"), styled("b", StarArgPassStyle::NamedOnly)];
        let mut args = vec![this];
        args.extend(others());
        let (with, without) = match source {
            StarFunSource::Argument(n) => (
                fun(StarFunSource::Argument(n), args),
                fun(StarFunSource::Argument(n), others()),
            ),
            _ => (
                fun(StarFunSource::Positional(1, 1), args),
                fun(StarFunSource::Positional(1, 1), others()),
            ),
        };
        assert_eq!(
            flat(&render_documentation(&with, site()).unwrap()),
            flat(&render_documentation(&without, site()).unwrap())
        );
    }
}

#[test]
fn signature_grows_with_its_arguments() {
    let args = || {
        vec![
            styled("a", StarArgPassStyle::PosOnly),
            styled("b", StarArgPassStyle::PosOrNamed),
            styled("c", StarArgPassStyle::NamedOnly),
        ]
    };
    let all = flat(&render_signature_args(&args(), site()).unwrap());
    for n in 0..4 {
        let first: Vec<StarArg> = args().into_iter().take(n).collect();
        let statements = flat(&render_signature_args(&first, site()).unwrap());
        assert!(all.starts_with(&statements));
        assert_eq!(statements.len() == all.len(), n == 3);
    }
}

#[test]
fn binding_relies_on_the_signature_that_is_rendered() {
    let this = || {
        let mut this = arg("this", "Value");
        this.this = true;
        this.source = StarArgSource::This;
        this
    };
    for x in [
        fun(StarFunSource::Parameters, vec![arg("args", "&Arguments")]),
        fun(StarFunSource::ThisParameters, vec![this(), arg("args", "&Arguments")]),
        fun(StarFunSource::Argument(1), vec![this(), arg("a", "i32")]),
        fun(StarFunSource::Argument(0), Vec::new()),
        fun(StarFunSource::Argument(1), vec![arg("__signature", "i32")]),
        fun(
            StarFunSource::Parameters,
            vec![arg("args", "&Arguments"), arg("__signature", "i32")],
        ),
        fun(
            StarFunSource::ThisParameters,
            vec![this(), arg("args", "&Arguments"), arg("__signature", "i32")],
        ),
        fun(StarFunSource::Positional(1, 0), vec![arg("a", "i32")]),
        fun(StarFunSource::Positional(0, 1), vec![arg("a", "i32")]),
    ] {
        let binding = flat(&render_binding(&x, site()));
        assert_eq!(
            binding.contains(&"__signature".to_owned()),
            render_signature(&x, site()).unwrap().is_some()
        );
    }
}

#[test]
fn documentation_of_a_function_of_raw_parameters() {
    let x = fun(StarFunSource::Parameters, Vec::new());
    same_code(
        &render_documentation(&x, site()).unwrap(),
        "let __documentation_renderer = {
            let signature = starlark::eval::ParametersSpec::<starlark::values::FrozenValue>::new(
                \"f\".to_owned()
            ).finish();
            let parameter_types = std::collections::HashMap::from([]);
            let return_type = Some(
                starlark::values::docs::Type {
                    raw_type: stringify!(i32).to_owned()
                }
            );
            starlark::values::function::NativeCallableRawDocs {
                rust_docstring: None,
                signature,
                parameter_types,
                return_type,
            }
        };",
    );
}

#[test]
fn function_with_a_signature() {
    let mut x = fun(StarFunSource::Argument(1), vec![arg("a", "i32")]);
    x.attrs = vec![code("#[inline]")];
    x.eval = Some(SpecialParam { ident: code("ev"), ty: code("&mut Evaluator") });
    x.heap = Some(SpecialParam { ident: code("hp"), ty: code("&Heap") });
    x.speculative_exec_safe = true;
    let documentation = render_documentation(&x, site()).unwrap().to_string();
    let expected = format!(
        "#[inline]
        #[allow(non_snake_case)]
        fn f<'v>(
            eval: &mut starlark::eval::Evaluator<'v, '_>,
            parameters: &starlark::eval::Arguments<'v, '_>,
            __signature: &starlark::eval::ParametersSpec<starlark::values::FrozenValue>,
        ) -> anyhow::Result<starlark::values::Value<'v>> {{
            fn inner<'v>(
                #[allow(unused_variables)]
                eval: &mut starlark::eval::Evaluator<'v, '_>,
                __args: &starlark::eval::Arguments<'v, '_>,
                __signature: &starlark::eval::ParametersSpec<starlark::values::FrozenValue>,
            ) -> anyhow::Result<i32> {{
                let __args: [_; 1usize] = __signature.collect_into(__args, eval.heap())?;
                let a: i32 =
                    starlark::eval::Arguments::check_required(\"a\", __args[0usize].get())?;
                #[allow(unused_variables)]
                let heap = eval.heap();
                let ev: &mut Evaluator = eval;
                let hp: &Heap = eval.heap();
                {{ Ok(1) }}
            }}
            match inner(eval, parameters, __signature) {{
                Ok(v) => Ok(eval.heap().alloc(v)),
                Err(e) => Err(e),
            }}
        }}
        {{
            #[allow(unused_mut)]
            let mut __signature =
                starlark::eval::ParametersSpec::with_capacity(\"f\".to_owned(), 1usize);
            __signature.required(\"a\");
            let __signature = __signature.finish();
            {}
            #[allow(clippy::redundant_closure)]
            globals_builder.set_function(
                \"f\",
                true,
                __documentation_renderer,
                std::option::Option::None,
                move |eval, parameters| {{f(eval, parameters, &__signature)}},
            );
        }}",
        documentation
    );
    same_code(&render_fun(x).unwrap(), &expected);
}

#[test]
fn method_called_by_position() {
    let mut this = arg("this", "Value");
    this.this = true;
    this.source = StarArgSource::This;
    let mut a = arg("a", "i32");
    a.source = StarArgSource::Required(0);
    let mut x = fun(StarFunSource::Positional(1, 0), vec![this, a]);
    x.is_method = true;
    let documentation = render_documentation(&x, site()).unwrap().to_string();
    let expected = format!(
        "#[allow(non_snake_case)]
        fn f<'v>(
            eval: &mut starlark::eval::Evaluator<'v, '_>,
            __this: starlark::values::Value<'v>,
            parameters: &starlark::eval::Arguments<'v, '_>,
        ) -> anyhow::Result<starlark::values::Value<'v>> {{
            fn inner<'v>(
                #[allow(unused_variables)]
                eval: &mut starlark::eval::Evaluator<'v, '_>,
                __this: starlark::values::Value<'v>,
                __args: &starlark::eval::Arguments<'v, '_>,
            ) -> anyhow::Result<i32> {{
                __args.no_named_args()?;
                let __required: [_; 1usize] = __args.positional(eval.heap())?;
                let this: Value = starlark::eval::Arguments::check_this(__this)?;
                let a: i32 =
                    starlark::eval::Arguments::check_required(\"a\", Some(__required[0usize]))?;
                #[allow(unused_variables)]
                let heap = eval.heap();
                {{ Ok(1) }}
            }}
            match inner(eval, __this, parameters, ) {{
                Ok(v) => Ok(eval.heap().alloc(v)),
                Err(e) => Err(e),
            }}
        }}
        {{
            {}
            #[allow(clippy::redundant_closure)]
            globals_builder.set_method(
                \"f\",
                false,
                __documentation_renderer,
                std::option::Option::None,
                move |eval, __this, parameters| {{f(eval, __this, parameters, )}},
            );
        }}",
        documentation
    );
    same_code(&render_fun_at(x, site()).unwrap(), &expected);
}

#[test]
fn function_is_refused_for_the_order_of_its_parameters() {
    let args = || {
        vec![
            styled("a", StarArgPassStyle::NamedOnly),
            styled("b", StarArgPassStyle::PosOnly),
        ]
    };
    let message = "Positional-only parameter after non-positional-only";
    let by_signature = render_fun(fun(StarFunSource::Argument(2), args())).unwrap_err();
    assert_eq!(by_signature.to_string(), message);
    let by_position = render_fun(fun(StarFunSource::Positional(2, 0), args())).unwrap_err();
    assert_eq!(by_position.to_string(), message);
    assert!(render_fun(fun(StarFunSource::Parameters, args())).is_ok());
}
