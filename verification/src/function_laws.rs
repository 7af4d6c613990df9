//! What code is rendered for a function.

use proc_macro2::{Span, TokenStream};
use vstd::prelude::*;

use crate::binding;
use crate::code_laws;
use crate::documentation;
use crate::fun;
use crate::signature;
use crate::template::{self, Binding};
use crate::template_laws;
use crate::tokens::{self, Delim, Token};
use crate::typ::{StarArg, StarFun, StarFunSource};

verus! {

/// Some code has `part` in it, as it is.
pub open spec fn occurs(code: Seq<Token>, part: Seq<Token>) -> bool {
    exists|before: Seq<Token>, after: Seq<Token>| code == #[trigger] (before + part + after)
}

proof fn lemma_occurs_within(code: Seq<Token>, part: Seq<Token>, smaller: Seq<Token>)
    requires
        occurs(code, part),
        occurs(part, smaller),
    ensures
        occurs(code, smaller),
{
    let (a, b) = choose|a: Seq<Token>, b: Seq<Token>| code == #[trigger] (a + part + b);
    let (c, d) = choose|c: Seq<Token>, d: Seq<Token>| part == #[trigger] (c + smaller + d);
    assert(code =~= (a + c) + smaller + (d + b));
}

proof fn lemma_docstring_occurs(span: Span, holes: Seq<Binding>)
    requires
        holes.len() == 4,
        holes[0].0 == "documentation_signature"@,
        holes[1].0 == "parameter_types"@,
        holes[2].0 == "return_type_arg"@,
        holes[3].0 == "docs"@,
    ensures
        occurs(
            template::template(span, documentation::DOCUMENTATION@, holes),
            seq![
                Token::Ident("rust_docstring"@, span),
                Token::Punct(':', false, span),
            ] + holes[3].1 + seq![Token::Punct(',', false, span)],
        ),
{
    reveal_strlit(
        "let __documentation_renderer = { \
        let signature = $documentation_signature ; \
        let parameter_types = std :: collections :: HashMap :: from ( [ $parameter_types ] ) ; \
        let return_type = Some ( starlark :: values :: docs :: Type { \
        raw_type : stringify ! ( $return_type_arg ) . to_owned ( ) } ) ; \
        starlark :: values :: function :: NativeCallableRawDocs { \
        rust_docstring : $docs , signature , parameter_types , return_type , } } ;",
    );
    reveal_strlit("documentation_signature");
    reveal_strlit("parameter_types");
    reveal_strlit("return_type_arg");
    reveal_strlit("docs");
    reveal_strlit("rust_docstring");
    let text = documentation::DOCUMENTATION@;
    let none = Seq::<Delim>::empty();
    let (before, open) = template_laws::lemma_read_reaches(span, text, holes, none, 0, 348);
    template_laws::lemma_read_ident(span, text, holes, open, 348, "rust_docstring"@);
    template_laws::lemma_read_mark(span, text, holes, open, 363);
    template_laws::lemma_read_hole(span, text, holes, open, 365, 3);
    template_laws::lemma_read_mark(span, text, holes, open, 371);
    let segment = seq![
        Token::Ident("rust_docstring"@, span),
        Token::Punct(':', false, span),
    ] + holes[3].1 + seq![Token::Punct(',', false, span)];
    let after = template_laws::read_from(span, text, holes, open, 373);
    assert(template::template(span, text, holes) =~= before + segment + after);
}

proof fn lemma_call_in_set_method(span: Span, holes: Seq<Binding>)
    requires
        holes.len() == 5,
        holes[0].0 == "name_str"@,
        holes[1].0 == "speculative_exec_safe"@,
        holes[2].0 == "typ"@,
        holes[3].0 == "name"@,
        holes[4].0 == "signature_val_ref"@,
    ensures
        occurs(
            template::template(span, fun::SET_METHOD@, holes),
            seq![Token::Open(Delim::Brace, span)] + holes[3].1 + seq![
                Token::Open(Delim::Paren, span),
                Token::Ident("eval"@, span),
                Token::Punct(',', false, span),
                Token::Ident("__this"@, span),
                Token::Punct(',', false, span),
                Token::Ident("parameters"@, span),
                Token::Punct(',', false, span),
            ] + holes[4].1 + seq![
                Token::Close(Delim::Paren, span),
                Token::Close(Delim::Brace, span),
            ],
        ),
{
    reveal_strlit(
        "# [ allow ( clippy :: redundant_closure ) ] \
        globals_builder . set_method ( \
        $name_str , $speculative_exec_safe , __documentation_renderer , $typ , \
        move | eval , __this , parameters | { \
        $name ( eval , __this , parameters , $signature_val_ref ) } , ) ;",
    );
    reveal_strlit("name_str");
    reveal_strlit("speculative_exec_safe");
    reveal_strlit("typ");
    reveal_strlit("__this");
    reveal_strlit("eval");
    reveal_strlit("name");
    reveal_strlit("parameters");
    reveal_strlit("signature_val_ref");
    let text = fun::SET_METHOD@;
    let none = Seq::<Delim>::empty();
    let (before, open) = template_laws::lemma_read_reaches(span, text, holes, none, 0, 182);
    template_laws::lemma_read_open(span, text, holes, open, 182, Delim::Brace);
    template_laws::lemma_read_hole(span, text, holes, open.push(Delim::Brace), 184, 3);
    template_laws::lemma_read_open(span, text, holes, open.push(Delim::Brace), 190, Delim::Paren);
    template_laws::lemma_read_ident(span, text, holes, open.push(Delim::Brace).push(Delim::Paren), 192, "eval"@);
    template_laws::lemma_read_mark(span, text, holes, open.push(Delim::Brace).push(Delim::Paren), 197);
    template_laws::lemma_read_ident(span, text, holes, open.push(Delim::Brace).push(Delim::Paren), 199, "__this"@);
    template_laws::lemma_read_mark(span, text, holes, open.push(Delim::Brace).push(Delim::Paren), 206);
    template_laws::lemma_read_ident(span, text, holes, open.push(Delim::Brace).push(Delim::Paren), 208, "parameters"@);
    template_laws::lemma_read_mark(span, text, holes, open.push(Delim::Brace).push(Delim::Paren), 219);
    template_laws::lemma_read_hole(span, text, holes, open.push(Delim::Brace).push(Delim::Paren), 221, 4);
    template_laws::lemma_read_close(span, text, holes, open.push(Delim::Brace), 240, Delim::Paren);
    template_laws::lemma_read_close(span, text, holes, open, 242, Delim::Brace);
    let segment = seq![Token::Open(Delim::Brace, span)] + holes[3].1 + seq![
        Token::Open(Delim::Paren, span),
        Token::Ident("eval"@, span),
        Token::Punct(',', false, span),
        Token::Ident("__this"@, span),
        Token::Punct(',', false, span),
        Token::Ident("parameters"@, span),
        Token::Punct(',', false, span),
    ] + holes[4].1 + seq![
        Token::Close(Delim::Paren, span),
        Token::Close(Delim::Brace, span),
    ];
    let after = template_laws::read_from(span, text, holes, open, 244);
    assert(template::template(span, text, holes) =~= before + segment + after);
}

proof fn lemma_call_in_set_function(span: Span, holes: Seq<Binding>)
    requires
        holes.len() == 5,
        holes[0].0 == "name_str"@,
        holes[1].0 == "speculative_exec_safe"@,
        holes[2].0 == "typ"@,
        holes[3].0 == "name"@,
        holes[4].0 == "signature_val_ref"@,
    ensures
        occurs(
            template::template(span, fun::SET_FUNCTION@, holes),
            seq![Token::Open(Delim::Brace, span)] + holes[3].1 + seq![
                Token::Open(Delim::Paren, span),
                Token::Ident("eval"@, span),
                Token::Punct(',', false, span),
                Token::Ident("parameters"@, span),
                Token::Punct(',', false, span),
            ] + holes[4].1 + seq![
                Token::Close(Delim::Paren, span),
                Token::Close(Delim::Brace, span),
            ],
        ),
{
    reveal_strlit(
        "# [ allow ( clippy :: redundant_closure ) ] \
        globals_builder . set_function ( \
        $name_str , $speculative_exec_safe , __documentation_renderer , $typ , \
        move | eval , parameters | { \
        $name ( eval , parameters , $signature_val_ref ) } , ) ;",
    );
    reveal_strlit("name_str");
    reveal_strlit("speculative_exec_safe");
    reveal_strlit("typ");
    reveal_strlit("eval");
    reveal_strlit("name");
    reveal_strlit("parameters");
    reveal_strlit("signature_val_ref");
    let text = fun::SET_FUNCTION@;
    let none = Seq::<Delim>::empty();
    let (before, open) = template_laws::lemma_read_reaches(span, text, holes, none, 0, 175);
    template_laws::lemma_read_open(span, text, holes, open, 175, Delim::Brace);
    template_laws::lemma_read_hole(span, text, holes, open.push(Delim::Brace), 177, 3);
    template_laws::lemma_read_open(span, text, holes, open.push(Delim::Brace), 183, Delim::Paren);
    template_laws::lemma_read_ident(span, text, holes, open.push(Delim::Brace).push(Delim::Paren), 185, "eval"@);
    template_laws::lemma_read_mark(span, text, holes, open.push(Delim::Brace).push(Delim::Paren), 190);
    template_laws::lemma_read_ident(span, text, holes, open.push(Delim::Brace).push(Delim::Paren), 192, "parameters"@);
    template_laws::lemma_read_mark(span, text, holes, open.push(Delim::Brace).push(Delim::Paren), 203);
    template_laws::lemma_read_hole(span, text, holes, open.push(Delim::Brace).push(Delim::Paren), 205, 4);
    template_laws::lemma_read_close(span, text, holes, open.push(Delim::Brace), 224, Delim::Paren);
    template_laws::lemma_read_close(span, text, holes, open, 226, Delim::Brace);
    let segment = seq![Token::Open(Delim::Brace, span)] + holes[3].1 + seq![
        Token::Open(Delim::Paren, span),
        Token::Ident("eval"@, span),
        Token::Punct(',', false, span),
        Token::Ident("parameters"@, span),
        Token::Punct(',', false, span),
    ] + holes[4].1 + seq![
        Token::Close(Delim::Paren, span),
        Token::Close(Delim::Brace, span),
    ];
    let after = template_laws::read_from(span, text, holes, open, 228);
    assert(template::template(span, text, holes) =~= before + segment + after);
}

spec fn function_holes(holes: Seq<Binding>) -> bool {
    &&& holes.len() == 14
    &&& holes[0].0 == "attrs"@
    &&& holes[1].0 == "name"@
    &&& holes[2].0 == "this_param"@
    &&& holes[3].0 == "signature_arg"@
    &&& holes[4].0 == "return_type"@
    &&& holes[5].0 == "binding"@
    &&& holes[6].0 == "let_eval"@
    &&& holes[7].0 == "let_heap"@
    &&& holes[8].0 == "body"@
    &&& holes[9].0 == "this_arg"@
    &&& holes[10].0 == "signature_val"@
    &&& holes[11].0 == "signature"@
    &&& holes[12].0 == "documentation"@
    &&& holes[13].0 == "builder_set"@
}

proof fn lemma_function_holes_differ(holes: Seq<Binding>)
    requires
        function_holes(holes),
    ensures
        forall|i: int, j: int|
            0 <= i < j < holes.len() ==> (#[trigger] holes[i]).0 != (#[trigger] holes[j]).0,
{
    reveal_strlit("attrs");
    reveal_strlit("name");
    reveal_strlit("this_param");
    reveal_strlit("signature_arg");
    reveal_strlit("return_type");
    reveal_strlit("binding");
    reveal_strlit("let_eval");
    reveal_strlit("let_heap");
    reveal_strlit("body");
    reveal_strlit("this_arg");
    reveal_strlit("signature_val");
    reveal_strlit("signature");
    reveal_strlit("documentation");
    reveal_strlit("builder_set");
    assert("attrs"@.len() == 5);
    assert("name"@.len() == 4);
    assert("this_param"@.len() == 10);
    assert("signature_arg"@.len() == 13);
    assert("return_type"@.len() == 11);
    assert("binding"@.len() == 7);
    assert("let_eval"@.len() == 8);
    assert("let_heap"@.len() == 8);
    assert("body"@.len() == 4);
    assert("this_arg"@.len() == 8);
    assert("signature_val"@.len() == 13);
    assert("signature"@.len() == 9);
    assert("documentation"@.len() == 13);
    assert("builder_set"@.len() == 11);
    assert("name"@[0] != "body"@[0]);
    assert("signature_arg"@[10] != "signature_val"@[10]);
    assert("signature_arg"@[0] != "documentation"@[0]);
    assert("return_type"@[0] != "builder_set"@[0]);
    assert("let_eval"@[4] != "let_heap"@[4]);
    assert("let_eval"@[0] != "this_arg"@[0]);
    assert("let_heap"@[0] != "this_arg"@[0]);
    assert("signature_val"@[0] != "documentation"@[0]);
    assert forall|i: int, j: int| 0 <= i < j < holes.len() implies (#[trigger] holes[i]).0 != (
    #[trigger] holes[j]).0 by {
        assert(0 <= i < 14 && 0 < j < 14);
    }
}

proof fn lemma_parts_occur(span: Span, holes: Seq<Binding>)
    requires
        function_holes(holes),
    ensures
        occurs(template::template(span, fun::FUNCTION@, holes), holes[12].1),
        occurs(template::template(span, fun::FUNCTION@, holes), holes[13].1),
        occurs(
            template::template(span, fun::FUNCTION@, holes),
            seq![
                Token::Ident("inner"@, span),
                Token::Open(Delim::Paren, span),
                Token::Ident("eval"@, span),
                Token::Punct(',', false, span),
            ] + holes[9].1 + seq![
                Token::Ident("parameters"@, span),
                Token::Punct(',', false, span),
            ] + holes[10].1 + seq![Token::Close(Delim::Paren, span)],
        ),
{
    reveal_strlit(
        "$attrs \
        # [ allow ( non_snake_case ) ] \
        fn $name < 'v > ( \
        eval : & mut starlark :: eval :: Evaluator < 'v , '_ > , \
        $this_param \
        parameters : & starlark :: eval :: Arguments < 'v , '_ > , \
        $signature_arg \
        ) -> anyhow :: Result < starlark :: values :: Value < 'v >> { \
        fn inner < 'v > ( \
        # [ allow ( unused_variables ) ] \
        eval : & mut starlark :: eval :: Evaluator < 'v , '_ > , \
        $this_param \
        __args : & starlark :: eval :: Arguments < 'v , '_ > , \
        $signature_arg \
        ) -> $return_type { \
        $binding \
        # [ allow ( unused_variables ) ] \
        let heap = eval . heap ( ) ; \
        $let_eval \
        $let_heap \
        $body \
        } \
        match inner ( eval , $this_arg parameters , $signature_val ) { \
        Ok ( v ) => Ok ( eval . heap ( ) . alloc ( v ) ) , \
        Err ( e ) => Err ( e ) , \
        } \
        } \
        { \
        $signature \
        $documentation \
        $builder_set \
        }",
    );
    reveal_strlit("attrs");
    reveal_strlit("name");
    reveal_strlit("this_param");
    reveal_strlit("signature_arg");
    reveal_strlit("return_type");
    reveal_strlit("binding");
    reveal_strlit("let_eval");
    reveal_strlit("let_heap");
    reveal_strlit("body");
    reveal_strlit("this_arg");
    reveal_strlit("signature_val");
    reveal_strlit("signature");
    reveal_strlit("documentation");
    reveal_strlit("builder_set");
    reveal_strlit("eval");
    reveal_strlit("inner");
    reveal_strlit("parameters");
    let text = fun::FUNCTION@;
    let none = Seq::<Delim>::empty();
    let code = template::template(span, text, holes);
    lemma_function_holes_differ(holes);
    let (before, open) = template_laws::lemma_read_reaches(span, text, holes, none, 0, 576);
    template_laws::lemma_read_ident(span, text, holes, open, 576, "inner"@);
    template_laws::lemma_read_open(span, text, holes, open, 582, Delim::Paren);
    template_laws::lemma_read_ident(span, text, holes, open.push(Delim::Paren), 584, "eval"@);
    template_laws::lemma_read_mark(span, text, holes, open.push(Delim::Paren), 589);
    template_laws::lemma_read_hole(span, text, holes, open.push(Delim::Paren), 591, 9);
    template_laws::lemma_read_ident(span, text, holes, open.push(Delim::Paren), 601, "parameters"@);
    template_laws::lemma_read_mark(span, text, holes, open.push(Delim::Paren), 612);
    template_laws::lemma_read_hole(span, text, holes, open.push(Delim::Paren), 614, 10);
    template_laws::lemma_read_close(span, text, holes, open, 629, Delim::Paren);
    let segment = seq![
        Token::Ident("inner"@, span),
        Token::Open(Delim::Paren, span),
        Token::Ident("eval"@, span),
        Token::Punct(',', false, span),
    ] + holes[9].1 + seq![
        Token::Ident("parameters"@, span),
        Token::Punct(',', false, span),
    ] + holes[10].1 + seq![Token::Close(Delim::Paren, span)];
    let after = template_laws::read_from(span, text, holes, open, 631);
    assert(code =~= before + segment + after);
    let (before, open) = template_laws::lemma_read_reaches(span, text, holes, none, 0, 726);
    template_laws::lemma_read_hole(span, text, holes, open, 726, 12);
    let after = template_laws::read_from(span, text, holes, open, 741);
    assert(code =~= before + holes[12].1 + after);
    let (before, open) = template_laws::lemma_read_reaches(span, text, holes, none, 0, 741);
    template_laws::lemma_read_hole(span, text, holes, open, 741, 13);
    let after = template_laws::read_from(span, text, holes, open, 754);
    assert(code =~= before + holes[13].1 + after);
}

/// The variable `__signature` is set to a `ParametersSpec` that is made for the function's
/// own name and its number of slots, and told of all arguments. It is made if and only if
/// the function collects its arguments by a signature; that is refused if and only if its
/// arguments are.
pub proof fn law_signature_is_made_of_all_arguments(x: StarFun, site: Span)
    ensures
        x.source !is Argument ==> signature::signature_outcome(x, site) == Ok::<
            Option<Seq<Token>>,
            syn::Error,
        >(None),
        x.source matches StarFunSource::Argument(count) ==> match signature::signature_args_outcome(
            x.args@,
            site,
        ) {
            Err(error) => signature::signature_outcome(x, site) == Err::<
                Option<Seq<Token>>,
                syn::Error,
            >(error),
            Ok(arguments) => signature::signature_outcome(x, site) == Ok::<
                Option<Seq<Token>>,
                syn::Error,
            >(
                Some(
                    template::template(
                        x.args_span,
                        "# [ allow ( unused_mut ) ] \
                        let mut __signature = \
                        starlark :: eval :: ParametersSpec :: with_capacity ( $name_str . to_owned ( ) , $args_count ) ; \
                        $sig_args \
                        let __signature = __signature . finish ( ) ;"@,
                        seq![
                            ("name_str"@, seq![Token::Str(x.name_str@, site)]),
                            ("args_count"@, seq![Token::Usize(count, site)]),
                            ("sig_args"@, arguments),
                        ],
                    ),
                ),
            ),
        },
{
}

/// A function that takes its arguments raw has no parameters to tell of in its
/// documentation.
pub proof fn law_raw_arguments_are_not_documented(x: StarFun, site: Span)
    requires
        x.source is Unknown || x.source is Parameters || x.source is ThisParameters,
    ensures
        documentation::documentation_signature(x, site) == Ok::<Seq<Token>, syn::Error>(
            template::template(
                x.args_span,
                "starlark :: eval :: ParametersSpec :: < starlark :: values :: FrozenValue > :: new \
                ( $name_str . to_owned ( ) ) . finish ( )"@,
                seq![("name_str"@, seq![Token::Str(x.name_str@, site)])],
            ),
        ),
{
}

/// The signature that is documented is that of all arguments, with as many slots as the
/// function has, whether it collects its arguments by a signature or by position. It is
/// refused if and only if its arguments are.
pub proof fn law_documented_signature_is_that_of_all_arguments(
    x: StarFun,
    count: usize,
    site: Span,
)
    requires
        x.source == StarFunSource::Argument(count) || (
        x.source matches StarFunSource::Positional(required, optional) && required + optional
            == count),
    ensures
        match signature::signature_args_outcome(x.args@, site) {
            Err(error) => documentation::documentation_signature(x, site) == Err::<
                Seq<Token>,
                syn::Error,
            >(error),
            Ok(arguments) => documentation::documentation_signature(x, site) == Ok::<
                Seq<Token>,
                syn::Error,
            >(
                template::template(
                    x.args_span,
                    "{ \
                    # [ allow ( unused_mut ) ] \
                    let mut __signature = \
                    starlark :: eval :: ParametersSpec :: with_capacity ( $name_str . to_owned ( ) , $args_count ) ; \
                    $sig_args \
                    __signature . finish ( ) }"@,
                    seq![
                        ("name_str"@, seq![Token::Str(x.name_str@, site)]),
                        ("args_count"@, seq![Token::Usize(count, site)]),
                        ("sig_args"@, arguments),
                    ],
                ),
            ),
        },
{
}

/// The documentation tells the function's signature, the types of its parameters, its
/// return type and its docstring, whatever kind of function it is. It is refused if and only
/// if its signature is.
pub proof fn law_documentation_tells_what_is_known(x: StarFun, site: Span)
    ensures
        match documentation::documentation_signature(x, site) {
            Err(error) => documentation::documentation_outcome(x, site) == Err::<
                Seq<Token>,
                syn::Error,
            >(error),
            Ok(signature) => documentation::documentation_outcome(x, site) == Ok::<
                Seq<Token>,
                syn::Error,
            >(
                template::template(
                    x.args_span,
                    "let __documentation_renderer = { \
                    let signature = $documentation_signature ; \
                    let parameter_types = std :: collections :: HashMap :: from ( [ $parameter_types ] ) ; \
                    let return_type = Some ( starlark :: values :: docs :: Type { \
                    raw_type : stringify ! ( $return_type_arg ) . to_owned ( ) } ) ; \
                    starlark :: values :: function :: NativeCallableRawDocs { \
                    rust_docstring : $docs , signature , parameter_types , return_type , } } ;"@,
                    seq![
                        ("documentation_signature"@, signature),
                        (
                            "parameter_types"@,
                            documentation::parameter_types(
                                documentation::documented(x.args@),
                                x.args_span,
                                site,
                            ),
                        ),
                        ("return_type_arg"@, tokens::tokens_of(x.return_type_arg)),
                        (
                            "docs"@,
                            if x.docstring is Some {
                                seq![
                                    Token::Ident("Some"@, x.args_span),
                                    Token::Open(Delim::Paren, x.args_span),
                                    Token::Str(x.docstring->Some_0@, site),
                                    Token::Close(Delim::Paren, x.args_span),
                                ]
                            } else {
                                seq![Token::Ident("None"@, x.args_span)]
                            },
                        ),
                    ],
                ),
            ),
        },
{
    if let Some(docstring) = x.docstring {
        code_laws::lemma_read_docs_some(x.args_span, docstring@, site);
    } else {
        code_laws::lemma_read_docs_none(x.args_span);
    }
}

/// The docstring is told as it is: wherever documentation is rendered, `rust_docstring` is
/// `Some` of the docstring if the function has one, and `None` if it has none.
pub proof fn law_docstring_is_told(x: StarFun, site: Span)
    requires
        documentation::documentation_outcome(x, site) is Ok,
    ensures
        occurs(
            documentation::documentation_outcome(x, site)->Ok_0,
            seq![
                Token::Ident("rust_docstring"@, x.args_span),
                Token::Punct(':', false, x.args_span),
            ] + (match x.docstring {
                Some(docstring) => seq![
                    Token::Ident("Some"@, x.args_span),
                    Token::Open(Delim::Paren, x.args_span),
                    Token::Str(docstring@, site),
                    Token::Close(Delim::Paren, x.args_span),
                ],
                None => seq![Token::Ident("None"@, x.args_span)],
            }) + seq![Token::Punct(',', false, x.args_span)],
        ),
{
    code_laws::lemma_read_docs_none(x.args_span);
    if let Some(docstring) = x.docstring {
        code_laws::lemma_read_docs_some(x.args_span, docstring@, site);
    }
    let signature = documentation::documentation_signature(x, site)->Ok_0;
    lemma_docstring_occurs(
        x.args_span,
        seq![
            ("documentation_signature"@, signature),
            (
                "parameter_types"@,
                documentation::parameter_types(
                    documentation::documented(x.args@),
                    x.args_span,
                    site,
                ),
            ),
            ("return_type_arg"@, tokens::tokens_of(x.return_type_arg)),
            ("docs"@, documentation::docs_tokens(x.docstring, x.args_span, site)),
        ],
    );
}

/// No argument has a type to be told of if there is none.
pub proof fn law_no_arguments_are_documented_by_nothing(span: Span, site: Span)
    ensures
        documentation::documented(Seq::empty()) == Seq::<StarArg>::empty(),
        documentation::parameter_types(Seq::empty(), span, site) == Seq::<Token>::empty(),
{
    reveal(Seq::filter);
}

/// What is rendered of the arguments does not depend on what else the function is: two
/// functions with the same name, source, arguments, docstring and return type have the same
/// signature, documentation and bindings, be they methods or not.
pub proof fn law_arguments_are_rendered_alike(x: StarFun, y: StarFun, site: Span)
    requires
        x.source == y.source,
        x.args@ == y.args@,
        x.args_span == y.args_span,
        x.name_str@ == y.name_str@,
        x.docstring == y.docstring,
        tokens::tokens_of(x.return_type_arg) == tokens::tokens_of(y.return_type_arg),
    ensures
        signature::signature_outcome(x, site) == signature::signature_outcome(y, site),
        documentation::documentation_outcome(x, site) == documentation::documentation_outcome(
            y,
            site,
        ),
        binding::binding_tokens(x, site) == binding::binding_tokens(y, site),
{
}

/// The type of a function is the static string that is given for it, if one is.
pub proof fn law_type_is_the_one_that_is_given(x: StarFun)
    ensures
        match x.type_attribute {
            Some(given) => x.type_expr_tokens() == template::template(
                x.span,
                "std :: option :: Option :: Some ( { \
                const TYPE_N : usize = $x . len ( ) ; \
                static TYPE : starlark :: values :: StarlarkStrNRepr < TYPE_N > = \
                starlark :: values :: StarlarkStrNRepr :: new ( $x ) ; \
                TYPE . unpack ( ) } )"@,
                seq![("x"@, tokens::tokens_of(given))],
            ),
            None => x.type_expr_tokens() == template::template(
                x.span,
                "std :: option :: Option :: None"@,
                Seq::empty(),
            ),
        },
{
}

/// A function is registered under its own name, with its own safety, documentation and
/// type: as a method if it is one, and else as a function. The closure that is registered
/// passes a reference to the signature if and only if there is a signature.
pub proof fn law_function_is_registered_as_what_it_is(x: StarFun, signed: bool, site: Span)
    ensures
        fun::builder_set_tokens(x, signed, site) == template::template(
            x.span,
            if x.is_method {
                "# [ allow ( clippy :: redundant_closure ) ] \
                globals_builder . set_method ( \
                $name_str , $speculative_exec_safe , __documentation_renderer , $typ , \
                move | eval , __this , parameters | { \
                $name ( eval , __this , parameters , $signature_val_ref ) } , ) ;"@
            } else {
                "# [ allow ( clippy :: redundant_closure ) ] \
                globals_builder . set_function ( \
                $name_str , $speculative_exec_safe , __documentation_renderer , $typ , \
                move | eval , parameters | { \
                $name ( eval , parameters , $signature_val_ref ) } , ) ;"@
            },
            seq![
                ("name_str"@, seq![Token::Str(x.name_str@, site)]),
                (
                    "speculative_exec_safe"@,
                    seq![
                        Token::Ident(
                            if x.speculative_exec_safe {
                                "true"@
                            } else {
                                "false"@
                            },
                            site,
                        ),
                    ],
                ),
                ("typ"@, x.type_expr_tokens()),
                ("name"@, tokens::tokens_of(x.name)),
                (
                    "signature_val_ref"@,
                    if signed {
                        seq![
                            Token::Punct('&', false, x.span),
                            Token::Ident("__signature"@, x.span),
                        ]
                    } else {
                        Seq::empty()
                    },
                ),
            ],
        ),
{
    code_laws::lemma_read_signature_val_ref(x.span);
}

/// The code of a function is its attributes and its definition, and then a block that sets
/// up its signature and documentation and registers it. The definition takes and passes on
/// the receiver if and only if the function is a method, and the signature if and only if
/// there is one; it binds the arguments and the special parameters that there are before
/// its own body.
pub proof fn law_code_of_a_function(
    x: StarFun,
    signature: Option<Seq<Token>>,
    documentation: Seq<Token>,
    site: Span,
)
    ensures
        ({
            let parts = fun::fun_bindings(x, signature, documentation, site);
            &&& fun::fun_tokens(x, signature, documentation, site) == template::template(
                x.span,
                "$attrs \
                # [ allow ( non_snake_case ) ] \
                fn $name < 'v > ( \
                eval : & mut starlark :: eval :: Evaluator < 'v , '_ > , \
                $this_param \
                parameters : & starlark :: eval :: Arguments < 'v , '_ > , \
                $signature_arg \
                ) -> anyhow :: Result < starlark :: values :: Value < 'v >> { \
                fn inner < 'v > ( \
                # [ allow ( unused_variables ) ] \
                eval : & mut starlark :: eval :: Evaluator < 'v , '_ > , \
                $this_param \
                __args : & starlark :: eval :: Arguments < 'v , '_ > , \
                $signature_arg \
                ) -> $return_type { \
                $binding \
                # [ allow ( unused_variables ) ] \
                let heap = eval . heap ( ) ; \
                $let_eval \
                $let_heap \
                $body \
                } \
                match inner ( eval , $this_arg parameters , $signature_val ) { \
                Ok ( v ) => Ok ( eval . heap ( ) . alloc ( v ) ) , \
                Err ( e ) => Err ( e ) , \
                } \
                } \
                { \
                $signature \
                $documentation \
                $builder_set \
                }"@,
                parts,
            )
            &&& parts.len() == 14
            &&& parts[0] == ("attrs"@, tokens::all_tokens(x.attrs@))
            &&& parts[1] == ("name"@, tokens::tokens_of(x.name))
            &&& parts[2].0 == "this_param"@
            &&& x.is_method ==> parts[2].1 == template::template(
                x.span,
                "__this : starlark :: values :: Value < 'v > ,"@,
                Seq::empty(),
            )
            &&& !x.is_method ==> parts[2].1 == Seq::<Token>::empty()
            &&& parts[3].0 == "signature_arg"@
            &&& signature is Some ==> parts[3].1 == template::template(
                x.span,
                "__signature : & starlark :: eval :: ParametersSpec < starlark :: values :: FrozenValue > ,"@,
                Seq::empty(),
            )
            &&& signature is None ==> parts[3].1 == Seq::<Token>::empty()
            &&& parts[4] == ("return_type"@, tokens::tokens_of(x.return_type))
            &&& parts[5] == ("binding"@, binding::binding_tokens(x, site))
            &&& parts[6].0 == "let_eval"@
            &&& x.eval matches Some(eval) ==> parts[6].1 == template::template(
                x.span,
                "let $ident : $ty = eval ;"@,
                seq![
                    ("ident"@, tokens::tokens_of(eval.ident)),
                    ("ty"@, tokens::tokens_of(eval.ty)),
                ],
            )
            &&& x.eval is None ==> parts[6].1 == Seq::<Token>::empty()
            &&& parts[7].0 == "let_heap"@
            &&& x.heap matches Some(heap) ==> parts[7].1 == template::template(
                x.span,
                "let $ident : $ty = eval . heap ( ) ;"@,
                seq![
                    ("ident"@, tokens::tokens_of(heap.ident)),
                    ("ty"@, tokens::tokens_of(heap.ty)),
                ],
            )
            &&& x.heap is None ==> parts[7].1 == Seq::<Token>::empty()
            &&& parts[8] == ("body"@, tokens::tokens_of(x.body))
            &&& parts[9].0 == "this_arg"@
            &&& x.is_method ==> parts[9].1 == seq![
                Token::Ident("__this"@, x.span),
                Token::Punct(',', false, x.span),
            ]
            &&& !x.is_method ==> parts[9].1 == Seq::<Token>::empty()
            &&& parts[10].0 == "signature_val"@
            &&& signature is Some ==> parts[10].1 == seq![Token::Ident("__signature"@, x.span)]
            &&& signature is None ==> parts[10].1 == Seq::<Token>::empty()
            &&& parts[11].0 == "signature"@
            &&& signature matches Some(code) ==> parts[11].1 == code
            &&& signature is None ==> parts[11].1 == Seq::<Token>::empty()
            &&& parts[12] == ("documentation"@, documentation)
            &&& parts[13] == (
                "builder_set"@,
                fun::builder_set_tokens(x, signature is Some, site),
            )
        }),
{
    lemma_nothing(x.span);
    code_laws::lemma_read_this_arg(x.span);
    code_laws::lemma_read_signature_val(x.span);
}

/// A function is rendered from its signature and its documentation, and refused with the
/// error of the first of them that is.
pub proof fn law_function_is_rendered_from_its_parts(x: StarFun, site: Span)
    ensures
        match signature::signature_outcome(x, site) {
            Err(error) => fun::fun_outcome(x, site) == Err::<Seq<Token>, syn::Error>(error),
            Ok(signature) => match documentation::documentation_outcome(x, site) {
                Err(error) => fun::fun_outcome(x, site) == Err::<Seq<Token>, syn::Error>(error),
                Ok(documentation) => fun::fun_outcome(x, site) == Ok::<Seq<Token>, syn::Error>(
                    fun::fun_tokens(x, signature, documentation, site),
                ),
            },
        },
{
}

proof fn lemma_nothing(span: Span)
    ensures
        template::template(span, fun::NOTHING@, Seq::empty()) == Seq::<Token>::empty(),
{
    reveal_strlit("");
    template_laws::law_text_without_spaces_is_a_word(fun::NOTHING@);
}

/// What is registered calls the function with just the arguments that the function takes:
/// the evaluator, the receiver if and only if it is a method, the parameters, and a
/// reference to the signature if and only if one is rendered. The function passes the same
/// on to its inner one.
pub proof fn law_function_is_called_with_what_it_takes(x: StarFun, site: Span)
    requires
        fun::fun_outcome(x, site) is Ok,
    ensures
        signature::signature_outcome(x, site) is Ok,
        ({
            let code = fun::fun_outcome(x, site)->Ok_0;
            let signed = signature::signature_outcome(x, site)->Ok_0 is Some;
            let comma = Token::Punct(',', false, x.span);
            let receiver = if x.is_method {
                seq![Token::Ident("__this"@, x.span), comma]
            } else {
                Seq::empty()
            };
            let by_reference = if signed {
                seq![Token::Punct('&', false, x.span), Token::Ident("__signature"@, x.span)]
            } else {
                Seq::empty()
            };
            let by_name = if signed {
                seq![Token::Ident("__signature"@, x.span)]
            } else {
                Seq::empty()
            };
            &&& occurs(
                code,
                seq![Token::Open(Delim::Brace, x.span)] + tokens::tokens_of(x.name) + seq![
                    Token::Open(Delim::Paren, x.span),
                    Token::Ident("eval"@, x.span),
                    comma,
                ] + receiver + seq![Token::Ident("parameters"@, x.span), comma] + by_reference
                    + seq![Token::Close(Delim::Paren, x.span), Token::Close(Delim::Brace, x.span)],
            )
            &&& occurs(
                code,
                seq![
                    Token::Ident("inner"@, x.span),
                    Token::Open(Delim::Paren, x.span),
                    Token::Ident("eval"@, x.span),
                    comma,
                ] + receiver + seq![Token::Ident("parameters"@, x.span), comma] + by_name + seq![
                    Token::Close(Delim::Paren, x.span),
                ],
            )
        }),
{
    let signature = signature::signature_outcome(x, site)->Ok_0;
    let documentation = documentation::documentation_outcome(x, site)->Ok_0;
    let signed = signature is Some;
    let code = fun::fun_outcome(x, site)->Ok_0;
    let holes = fun::fun_bindings(x, signature, documentation, site);
    lemma_nothing(x.span);
    code_laws::lemma_read_this_arg(x.span);
    code_laws::lemma_read_signature_val(x.span);
    code_laws::lemma_read_signature_val_ref(x.span);
    lemma_parts_occur(x.span, holes);
    let registration = fun::builder_set_tokens(x, signed, site);
    let parts = seq![
        ("name_str"@, seq![Token::Str(x.name_str@, site)]),
        (
            "speculative_exec_safe"@,
            seq![Token::Ident(tokens::bool_word(x.speculative_exec_safe), site)],
        ),
        ("typ"@, x.type_expr_tokens()),
        ("name"@, tokens::tokens_of(x.name)),
        ("signature_val_ref"@, fun::if_signature(signed, x.span, fun::SIGNATURE_VAL_REF@)),
    ];
    let comma = Token::Punct(',', false, x.span);
    let receiver = if x.is_method {
        seq![Token::Ident("__this"@, x.span), comma]
    } else {
        Seq::empty()
    };
    let call = seq![Token::Open(Delim::Brace, x.span)] + tokens::tokens_of(x.name) + seq![
        Token::Open(Delim::Paren, x.span),
        Token::Ident("eval"@, x.span),
        comma,
    ] + receiver + seq![Token::Ident("parameters"@, x.span), comma] + parts[4].1 + seq![
        Token::Close(Delim::Paren, x.span),
        Token::Close(Delim::Brace, x.span),
    ];
    if x.is_method {
        lemma_call_in_set_method(x.span, parts);
        let found = seq![Token::Open(Delim::Brace, x.span)] + parts[3].1 + seq![
            Token::Open(Delim::Paren, x.span),
            Token::Ident("eval"@, x.span),
            comma,
            Token::Ident("__this"@, x.span),
            comma,
            Token::Ident("parameters"@, x.span),
            comma,
        ] + parts[4].1 + seq![Token::Close(Delim::Paren, x.span), Token::Close(Delim::Brace, x.span)];
        assert(occurs(registration, found));
        assert(call =~= found);
    } else {
        lemma_call_in_set_function(x.span, parts);
        let found = seq![Token::Open(Delim::Brace, x.span)] + parts[3].1 + seq![
            Token::Open(Delim::Paren, x.span),
            Token::Ident("eval"@, x.span),
            comma,
            Token::Ident("parameters"@, x.span),
            comma,
        ] + parts[4].1 + seq![Token::Close(Delim::Paren, x.span), Token::Close(Delim::Brace, x.span)];
        assert(occurs(registration, found));
        assert(call =~= found);
    }
    assert(occurs(code, registration));
    lemma_occurs_within(code, registration, call);
}

/// A rendering is told by the tokens that it holds, and an error as it is.
pub proof fn law_renderings_are_told_as_they_are(
    one: syn::Result<TokenStream>,
    optional: syn::Result<Option<TokenStream>>,
)
    ensures
        match one {
            Ok(stream) => signature::outcome(one) == Ok::<Seq<Token>, syn::Error>(
                tokens::tokens_of(stream),
            ),
            Err(error) => signature::outcome(one) == Err::<Seq<Token>, syn::Error>(error),
        },
        match optional {
            Ok(Some(stream)) => signature::optional_outcome(optional) == Ok::<
                Option<Seq<Token>>,
                syn::Error,
            >(Some(tokens::tokens_of(stream))),
            Ok(None) => signature::optional_outcome(optional) == Ok::<
                Option<Seq<Token>>,
                syn::Error,
            >(None),
            Err(error) => signature::optional_outcome(optional) == Err::<
                Option<Seq<Token>>,
                syn::Error,
            >(error),
        },
{
}

/// What can be rendered. Every function can be whose parameters fit into a count, whose
/// `*args` and `**kwargs` have no defaults, whose arguments that are options have none
/// either, and of which it is known where the arguments come from.
pub proof fn law_function_can_be_rendered(x: StarFun)
    requires
        x.source matches StarFunSource::Positional(required, optional) ==> required + optional
            <= usize::MAX,
        x.source !is Unknown,
        x.source is Parameters ==> x.args@.len() >= 1,
        x.source is ThisParameters ==> x.args@.len() >= 2,
        forall|i: int|
            0 <= i < x.args@.len() ==> (#[trigger] x.args@[i]).source !is Unknown && ((
            x.args@[i].is_args || x.args@[i].is_kwargs || x.args@[i].is_option)
                ==> x.args@[i].default is None),
    ensures
        fun::fun_ok(x),
        binding::binding_ok(x),
        documentation::documentation_ok(x),
        signature::signature_args_ok(x.args@),
{
    signature::lemma_misplaced_from(x.args@, 0);
}

/// An argument can be bound if and only if it is known where it comes from, and it has no
/// default beside being an option, unless it is a receiver. It can be added to a signature
/// if and only if it is not `*args` or `**kwargs` with a default.
pub proof fn law_argument_can_be_rendered(arg: StarArg)
    ensures
        binding::bindable(arg) <==> arg.source !is Unknown && (arg.this || !arg.is_option
            || arg.default is None),
        signature::signature_arg_ok(arg) <==> arg.default is None || !arg.is_args
            && !arg.is_kwargs,
{
}

} // verus!
