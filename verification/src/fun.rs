//! Renders the description of a native function as the code that defines and
//! registers it.
//!
//! Each piece of code is a template, filled at the span of what it stands for.
//! Literals that the rendering makes itself (names, indices, flags) and the word
//! `mut` are placed at `site`, the place of the macro call.

use proc_macro2::{Span, TokenStream};
use vstd::prelude::*;

use crate::binding;
use crate::documentation;
use crate::signature;
use crate::template::{self, quote_at, Binding, Hole};
use crate::tokens::{self, Token};
use crate::typ::{SpecialParam, StarFun};

verus! {

pub const TYPE_SOME: &'static str = "std :: option :: Option :: Some ( { \
    const TYPE_N : usize = $x . len ( ) ; \
    static TYPE : starlark :: values :: StarlarkStrNRepr < TYPE_N > = \
    starlark :: values :: StarlarkStrNRepr :: new ( $x ) ; \
    TYPE . unpack ( ) } )";

pub const TYPE_NONE: &'static str = "std :: option :: Option :: None";

impl StarFun {
    /// The expression for the type of the function, as an optional static string.
    pub open spec fn type_expr_tokens(self) -> Seq<Token> {
        match self.type_attribute {
            Some(x) => template::template(
                self.span,
                TYPE_SOME@,
                seq![("x"@, tokens::tokens_of(x))],
            ),
            None => template::template(self.span, TYPE_NONE@, Seq::empty()),
        }
    }

    /// Renders the type that the function declares for itself, if it does.
    pub fn type_expr(&self) -> (stream: TokenStream)
        ensures
            tokens::tokens_of(stream) == self.type_expr_tokens(),
    {
        match &self.type_attribute {
            Some(x) => {
                let holes = vec![Hole { name: "x", tokens: tokens::copy(x) }];
                assert(template::bindings(holes@) =~= seq![("x"@, tokens::tokens_of(*x))]);
                quote_at(self.span, TYPE_SOME, holes)
            },
            None => {
                let holes: Vec<Hole> = Vec::new();
                assert(template::bindings(holes@) =~= Seq::empty());
                quote_at(self.span, TYPE_NONE, holes)
            },
        }
    }
}

pub const SIGNATURE_ARG: &'static str =
    "__signature : & starlark :: eval :: ParametersSpec < starlark :: values :: FrozenValue > ,";

pub const SIGNATURE_VAL: &'static str = "__signature";

pub const SIGNATURE_VAL_REF: &'static str = "& __signature";

pub const THIS_PARAM: &'static str = "__this : starlark :: values :: Value < 'v > ,";

pub const THIS_ARG: &'static str = "__this ,";

pub const NOTHING: &'static str = "";

pub const SET_METHOD: &'static str = "# [ allow ( clippy :: redundant_closure ) ] \
    globals_builder . set_method ( \
    $name_str , $speculative_exec_safe , __documentation_renderer , $typ , \
    move | eval , __this , parameters | { \
    $name ( eval , __this , parameters , $signature_val_ref ) } , ) ;";

pub const SET_FUNCTION: &'static str = "# [ allow ( clippy :: redundant_closure ) ] \
    globals_builder . set_function ( \
    $name_str , $speculative_exec_safe , __documentation_renderer , $typ , \
    move | eval , parameters | { \
    $name ( eval , parameters , $signature_val_ref ) } , ) ;";

pub const LET_EVAL: &'static str = "let $ident : $ty = eval ;";

pub const LET_HEAP: &'static str = "let $ident : $ty = eval . heap ( ) ;";

pub const FUNCTION: &'static str = "$attrs \
    # [ allow ( non_snake_case ) ] \
    fn $name < 'v > ( \
    eval : & mut starlark :: eval :: Evaluator < 'v , '_ > , \
    $this_param \
    parameters : & starlark :: eval :: Arguments < 'v , '_ > , \
    $signature_arg \
    ) -> anyhow :: Result < starlark :: values :: Value < 'v >> { \
    fn inner < 'v > ( \
    # [ allow ( unused_variables ) ] \
    eval : & mut starlark :: eval :: Evaluator < 'v , '_ > , \
    $this_param \
    __args : & starlark :: eval :: Arguments < 'v , '_ > , \
    $signature_arg \
    ) -> $return_type { \
    $binding \
    # [ allow ( unused_variables ) ] \
    let heap = eval . heap ( ) ; \
    $let_eval \
    $let_heap \
    $body \
    } \
    match inner ( eval , $this_arg parameters , $signature_val ) { \
    Ok ( v ) => Ok ( eval . heap ( ) . alloc ( v ) ) , \
    Err ( e ) => Err ( e ) , \
    } \
    } \
    { \
    $signature \
    $documentation \
    $builder_set \
    }";

/// The code that stands only where a signature is needed.
pub open spec fn if_signature(needed: bool, span: Span, text: Seq<char>) -> Seq<Token> {
    if needed {
        template::template(span, text, Seq::empty())
    } else {
        Seq::empty()
    }
}

/// The statement that gives a special parameter its value.
pub open spec fn special_param_tokens(
    param: Option<SpecialParam>,
    span: Span,
    text: Seq<char>,
) -> Seq<Token> {
    match param {
        Some(param) => template::template(
            span,
            text,
            seq![
                ("ident"@, tokens::tokens_of(param.ident)),
                ("ty"@, tokens::tokens_of(param.ty)),
            ],
        ),
        None => Seq::empty(),
    }
}

/// The statement that registers the function: as a method if it is one.
pub open spec fn builder_set_tokens(x: StarFun, needs_signature: bool, site: Span) -> Seq<Token> {
    template::template(
        x.span,
        if x.is_method {
            SET_METHOD@
        } else {
            SET_FUNCTION@
        },
        seq![
            ("name_str"@, seq![Token::Str(x.name_str@, site)]),
            (
                "speculative_exec_safe"@,
                seq![Token::Ident(tokens::bool_word(x.speculative_exec_safe), site)],
            ),
            ("typ"@, x.type_expr_tokens()),
            ("name"@, tokens::tokens_of(x.name)),
            ("signature_val_ref"@, if_signature(needs_signature, x.span, SIGNATURE_VAL_REF@)),
        ],
    )
}

/// What the holes in the code of a function are filled with.
pub open spec fn fun_bindings(
    x: StarFun,
    signature: Option<Seq<Token>>,
    documentation: Seq<Token>,
    site: Span,
) -> Seq<Binding> {
    let needs_signature = signature is Some;
    seq![
        ("attrs"@, tokens::all_tokens(x.attrs@)),
        ("name"@, tokens::tokens_of(x.name)),
        (
            "this_param"@,
            template::template(
                x.span,
                if x.is_method {
                    THIS_PARAM@
                } else {
                    NOTHING@
                },
                Seq::empty(),
            ),
        ),
        ("signature_arg"@, if_signature(needs_signature, x.span, SIGNATURE_ARG@)),
        ("return_type"@, tokens::tokens_of(x.return_type)),
        ("binding"@, binding::binding_tokens(x, site)),
        ("let_eval"@, special_param_tokens(x.eval, x.span, LET_EVAL@)),
        ("let_heap"@, special_param_tokens(x.heap, x.span, LET_HEAP@)),
        ("body"@, tokens::tokens_of(x.body)),
        (
            "this_arg"@,
            template::template(
                x.span,
                if x.is_method {
                    THIS_ARG@
                } else {
                    NOTHING@
                },
                Seq::empty(),
            ),
        ),
        ("signature_val"@, if_signature(needs_signature, x.span, SIGNATURE_VAL@)),
        (
            "signature"@,
            match signature {
                Some(signature) => signature,
                None => Seq::empty(),
            },
        ),
        ("documentation"@, documentation),
        ("builder_set"@, builder_set_tokens(x, needs_signature, site)),
    ]
}

/// The code of a function, given its signature, if it needs one, and its documentation.
pub open spec fn fun_tokens(
    x: StarFun,
    signature: Option<Seq<Token>>,
    documentation: Seq<Token>,
    site: Span,
) -> Seq<Token> {
    template::template(x.span, FUNCTION@, fun_bindings(x, signature, documentation, site))
}

/// What a function is rendered as. The arguments are looked at first for the signature,
/// then for the documentation; an error there is the outcome.
pub open spec fn fun_outcome(x: StarFun, site: Span) -> Result<Seq<Token>, syn::Error> {
    match signature::signature_outcome(x, site) {
        Err(error) => Err(error),
        Ok(signature) => match documentation::documentation_outcome(x, site) {
            Err(error) => Err(error),
            Ok(documentation) => Ok(fun_tokens(x, signature, documentation, site)),
        },
    }
}

/// A function that can be rendered: its parameters can be counted and added to a
/// signature, and its arguments can be bound unless the signature is refused.
pub open spec fn fun_ok(x: StarFun) -> bool {
    &&& documentation::documentation_ok(x)
    &&& documentation::documented_count(x.source) is Some && signature::misplaced_from(x.args@, 0)
        < x.args@.len() || binding::binding_ok(x)
}

fn plain(span: Span, text: &str) -> (stream: TokenStream)
    ensures
        tokens::tokens_of(stream) == template::template(span, text@, Seq::empty()),
{
    let holes: Vec<Hole> = Vec::new();
    assert(template::bindings(holes@) =~= Seq::empty());
    quote_at(span, text, holes)
}

fn render_if_signature(needed: bool, span: Span, text: &str) -> (stream: TokenStream)
    ensures
        tokens::tokens_of(stream) == if_signature(needed, span, text@),
{
    if needed {
        plain(span, text)
    } else {
        TokenStream::new()
    }
}

fn render_special_param(param: &Option<SpecialParam>, span: Span, text: &str) -> (stream:
    TokenStream)
    ensures
        tokens::tokens_of(stream) == special_param_tokens(*param, span, text@),
{
    match param {
        Some(param) => {
            let holes = vec![
                Hole { name: "ident", tokens: tokens::copy(&param.ident) },
                Hole { name: "ty", tokens: tokens::copy(&param.ty) },
            ];
            assert(template::bindings(holes@) =~= seq![
                ("ident"@, tokens::tokens_of(param.ident)),
                ("ty"@, tokens::tokens_of(param.ty)),
            ]);
            quote_at(span, text, holes)
        },
        None => TokenStream::new(),
    }
}

fn render_builder_set(x: &StarFun, needs_signature: bool, site: Span) -> (stream: TokenStream)
    ensures
        tokens::tokens_of(stream) == builder_set_tokens(*x, needs_signature, site),
{
    let holes = vec![
        Hole { name: "name_str", tokens: tokens::str_literal(x.name_str.as_str(), site) },
        Hole {
            name: "speculative_exec_safe",
            tokens: tokens::bool_literal(x.speculative_exec_safe, site),
        },
        Hole { name: "typ", tokens: x.type_expr() },
        Hole { name: "name", tokens: tokens::copy(&x.name) },
        Hole {
            name: "signature_val_ref",
            tokens: render_if_signature(needs_signature, x.span, SIGNATURE_VAL_REF),
        },
    ];
    assert(template::bindings(holes@) =~= seq![
        ("name_str"@, seq![Token::Str(x.name_str@, site)]),
        (
            "speculative_exec_safe"@,
            seq![Token::Ident(tokens::bool_word(x.speculative_exec_safe), site)],
        ),
        ("typ"@, x.type_expr_tokens()),
        ("name"@, tokens::tokens_of(x.name)),
        ("signature_val_ref"@, if_signature(needs_signature, x.span, SIGNATURE_VAL_REF@)),
    ]);
    quote_at(x.span, if x.is_method { SET_METHOD } else { SET_FUNCTION }, holes)
}

/// Renders a function for a macro call at `site`.
pub fn render_fun_at(x: StarFun, site: Span) -> (result: syn::Result<TokenStream>)
    requires
        fun_ok(x),
    ensures
        signature::outcome(result) == fun_outcome(x, site),
{
    let span = x.span;
    let signature = match signature::render_signature(&x, site) {
        Ok(signature) => signature,
        Err(error) => {
            return Err(error);
        },
    };
    let documentation = match documentation::render_documentation(&x, site) {
        Ok(documentation) => documentation,
        Err(error) => {
            return Err(error);
        },
    };
    let binding = binding::render_binding(&x, site);
    let needs_signature = signature.is_some();
    let builder_set = render_builder_set(&x, needs_signature, site);
    let ghost signature_tokens = tokens::optional_tokens(signature);
    let signature_stream = match signature {
        Some(signature) => signature,
        None => TokenStream::new(),
    };
    let holes = vec![
        Hole { name: "attrs", tokens: tokens::concat(&x.attrs) },
        Hole { name: "name", tokens: tokens::copy(&x.name) },
        Hole {
            name: "this_param",
            tokens: plain(span, if x.is_method { THIS_PARAM } else { NOTHING }),
        },
        Hole {
            name: "signature_arg",
            tokens: render_if_signature(needs_signature, span, SIGNATURE_ARG),
        },
        Hole { name: "return_type", tokens: tokens::copy(&x.return_type) },
        Hole { name: "binding", tokens: binding },
        Hole { name: "let_eval", tokens: render_special_param(&x.eval, span, LET_EVAL) },
        Hole { name: "let_heap", tokens: render_special_param(&x.heap, span, LET_HEAP) },
        Hole { name: "body", tokens: tokens::copy(&x.body) },
        Hole {
            name: "this_arg",
            tokens: plain(span, if x.is_method { THIS_ARG } else { NOTHING }),
        },
        Hole {
            name: "signature_val",
            tokens: render_if_signature(needs_signature, span, SIGNATURE_VAL),
        },
        Hole { name: "signature", tokens: signature_stream },
        Hole { name: "documentation", tokens: documentation },
        Hole { name: "builder_set", tokens: builder_set },
    ];
    assert(template::bindings(holes@) =~= fun_bindings(
        x,
        signature_tokens,
        tokens::tokens_of(documentation),
        site,
    ));
    Ok(quote_at(span, FUNCTION, holes))
}

/// Renders a function.
pub fn render_fun(x: StarFun) -> (result: syn::Result<TokenStream>)
    requires
        fun_ok(x),
    ensures
        exists|site: Span| signature::outcome(result) == #[trigger] fun_outcome(x, site),
{
    let site = Span::call_site();
    render_fun_at(x, site)
}

} // verus!
