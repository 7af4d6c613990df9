//! Renders the bindings of the arguments of a native function: the statements that
//! take each of them from what the caller passed.

use proc_macro2::{Span, TokenStream};
use vstd::prelude::*;

use crate::template::{self, quote_at, Hole};
use crate::tokens::{self, Token};
use crate::typ::{StarArg, StarArgSource, StarFun, StarFunSource};

verus! {

pub const SOURCE_THIS: &'static str = "__this";

pub const SOURCE_ARGUMENT: &'static str = "__args [ $i ] . get ( )";

pub const SOURCE_REQUIRED: &'static str = "Some ( __required [ $i ] )";

pub const SOURCE_OPTIONAL: &'static str = "__optional [ $i ]";

pub const CHECK_THIS: &'static str = "starlark :: eval :: Arguments :: check_this ( $source ) ?";

pub const CHECK_OPTIONAL: &'static str =
    "starlark :: eval :: Arguments :: check_optional ( $name_str , $source ) ?";

pub const CHECK_DEFAULTED: &'static str = "{ \
    # [ allow ( clippy :: manual_unwrap_or ) ] \
    # [ allow ( clippy :: unnecessary_lazy_evaluations ) ] \
    # [ allow ( clippy :: redundant_closure ) ] \
    let x = starlark :: eval :: Arguments :: check_optional ( $name_str , $source ) ? \
    . unwrap_or_else ( || $default ) ; \
    x }";

pub const CHECK_REQUIRED: &'static str =
    "starlark :: eval :: Arguments :: check_required ( $name_str , $source ) ?";

pub const BIND_ARG: &'static str = "$attrs let $mutability $name : $ty = $next ;";

/// Where the value of an argument comes from, before it is checked.
pub open spec fn source_tokens(arg: StarArg, site: Span) -> Seq<Token> {
    match arg.source {
        StarArgSource::Unknown => Seq::empty(),
        StarArgSource::This => template::template(arg.span, SOURCE_THIS@, Seq::empty()),
        StarArgSource::Argument(i) => template::template(
            arg.span,
            SOURCE_ARGUMENT@,
            seq![("i"@, seq![Token::Usize(i, site)])],
        ),
        StarArgSource::Required(i) => template::template(
            arg.span,
            SOURCE_REQUIRED@,
            seq![("i"@, seq![Token::Usize(i, site)])],
        ),
        StarArgSource::Optional(i) => template::template(
            arg.span,
            SOURCE_OPTIONAL@,
            seq![("i"@, seq![Token::Usize(i, site)])],
        ),
    }
}

/// The expression that checks and converts the value of an argument: a receiver, an
/// optional value, a value with a default that is made where it is missing, or else a
/// value that has to be there. A default of type `Value` is none of the expression's
/// business: the signature has filled it in.
pub open spec fn checked_tokens(arg: StarArg, site: Span) -> Seq<Token> {
    let source = ("source"@, source_tokens(arg, site));
    let name_str = ("name_str"@, seq![Token::Str(arg.name_str@, site)]);
    if arg.this {
        template::template(arg.span, CHECK_THIS@, seq![source])
    } else if arg.is_option {
        template::template(arg.span, CHECK_OPTIONAL@, seq![name_str, source])
    } else if !arg.is_value && arg.default is Some {
        template::template(
            arg.span,
            CHECK_DEFAULTED@,
            seq![name_str, source, ("default"@, tokens::tokens_of(arg.default->Some_0))],
        )
    } else {
        template::template(arg.span, CHECK_REQUIRED@, seq![name_str, source])
    }
}

/// The statement that binds an argument.
pub open spec fn binding_arg_tokens(arg: StarArg, site: Span) -> Seq<Token> {
    template::template(
        arg.span,
        BIND_ARG@,
        seq![
            ("attrs"@, tokens::all_tokens(arg.attrs@)),
            ("mutability"@, tokens::mut_tokens(arg.mutable, site)),
            ("name"@, tokens::tokens_of(arg.name)),
            ("ty"@, tokens::tokens_of(arg.ty)),
            ("next"@, checked_tokens(arg, site)),
        ],
    )
}

/// An argument that can be bound: its source is known, and it does not have a default
/// beside being optional by its type.
pub open spec fn bindable(arg: StarArg) -> bool {
    &&& arg.source != StarArgSource::Unknown
    &&& !arg.this && arg.is_option ==> arg.default is None
}

fn render_source(arg: &StarArg, site: Span) -> (stream: TokenStream)
    ensures
        tokens::tokens_of(stream) == source_tokens(*arg, site),
{
    let span = arg.span;
    match arg.source {
        StarArgSource::Unknown => TokenStream::new(),
        StarArgSource::This => {
            let holes: Vec<Hole> = Vec::new();
            assert(template::bindings(holes@) =~= Seq::empty());
            quote_at(span, SOURCE_THIS, holes)
        },
        StarArgSource::Argument(i) => {
            let holes = vec![Hole { name: "i", tokens: tokens::usize_literal(i, site) }];
            assert(template::bindings(holes@) =~= seq![("i"@, seq![Token::Usize(i, site)])]);
            quote_at(span, SOURCE_ARGUMENT, holes)
        },
        StarArgSource::Required(i) => {
            let holes = vec![Hole { name: "i", tokens: tokens::usize_literal(i, site) }];
            assert(template::bindings(holes@) =~= seq![("i"@, seq![Token::Usize(i, site)])]);
            quote_at(span, SOURCE_REQUIRED, holes)
        },
        StarArgSource::Optional(i) => {
            let holes = vec![Hole { name: "i", tokens: tokens::usize_literal(i, site) }];
            assert(template::bindings(holes@) =~= seq![("i"@, seq![Token::Usize(i, site)])]);
            quote_at(span, SOURCE_OPTIONAL, holes)
        },
    }
}

fn render_checked(arg: &StarArg, site: Span) -> (stream: TokenStream)
    ensures
        tokens::tokens_of(stream) == checked_tokens(*arg, site),
{
    let span = arg.span;
    let ghost source = ("source"@, source_tokens(*arg, site));
    let ghost name_str = ("name_str"@, seq![Token::Str(arg.name_str@, site)]);
    if arg.this {
        let holes = vec![Hole { name: "source", tokens: render_source(arg, site) }];
        assert(template::bindings(holes@) =~= seq![source]);
        return quote_at(span, CHECK_THIS, holes);
    }
    let mut holes = vec![
        Hole { name: "name_str", tokens: tokens::str_literal(arg.name_str.as_str(), site) },
        Hole { name: "source", tokens: render_source(arg, site) },
    ];
    assert(template::bindings(holes@) =~= seq![name_str, source]);
    if arg.is_option {
        return quote_at(span, CHECK_OPTIONAL, holes);
    }
    if !arg.is_value {
        if let Some(default) = &arg.default {
            holes.push(Hole { name: "default", tokens: tokens::copy(default) });
            assert(template::bindings(holes@) =~= seq![
                name_str,
                source,
                ("default"@, tokens::tokens_of(*default)),
            ]);
            return quote_at(span, CHECK_DEFAULTED, holes);
        }
    }
    quote_at(span, CHECK_REQUIRED, holes)
}

/// Creates the binding of one argument.
pub fn render_binding_arg(arg: &StarArg, site: Span) -> (stream: TokenStream)
    requires
        bindable(*arg),
    ensures
        tokens::tokens_of(stream) == binding_arg_tokens(*arg, site),
{
    let holes = vec![
        Hole { name: "attrs", tokens: tokens::concat(&arg.attrs) },
        Hole { name: "mutability", tokens: tokens::mut_token(arg.mutable, site) },
        Hole { name: "name", tokens: tokens::copy(&arg.name) },
        Hole { name: "ty", tokens: tokens::copy(&arg.ty) },
        Hole { name: "next", tokens: render_checked(arg, site) },
    ];
    assert(template::bindings(holes@) =~= seq![
        ("attrs"@, tokens::all_tokens(arg.attrs@)),
        ("mutability"@, tokens::mut_tokens(arg.mutable, site)),
        ("name"@, tokens::tokens_of(arg.name)),
        ("ty"@, tokens::tokens_of(arg.ty)),
        ("next"@, checked_tokens(*arg, site)),
    ]);
    quote_at(arg.span, BIND_ARG, holes)
}

/// The bindings of several arguments, in order.
pub open spec fn binding_args_tokens(args: Seq<StarArg>, site: Span) -> Seq<Token>
    decreases args.len(),
{
    if args.len() == 0 {
        Seq::empty()
    } else {
        binding_args_tokens(args.drop_last(), site) + binding_arg_tokens(args.last(), site)
    }
}

fn render_binding_args(args: &Vec<StarArg>, site: Span) -> (stream: TokenStream)
    requires
        forall|i: int| 0 <= i < args@.len() ==> bindable(#[trigger] args@[i]),
    ensures
        tokens::tokens_of(stream) == binding_args_tokens(args@, site),
{
    let mut stream = TokenStream::new();
    let mut i: usize = 0;
    while i < args.len()
        invariant
            i <= args@.len(),
            forall|j: int| 0 <= j < args@.len() ==> bindable(#[trigger] args@[j]),
            tokens::tokens_of(stream) == binding_args_tokens(args@.take(i as int), site),
        decreases args@.len() - i,
    {
        let binding = render_binding_arg(&args[i], site);
        tokens::append_stream(&mut stream, &binding);
        i = i + 1;
        assert(args@.take(i as int).drop_last() =~= args@.take(i - 1));
    }
    assert(args@.take(i as int) =~= args@);
    stream
}

pub const BIND_PARAMETERS: &'static str = "$attrs let $name : $ty = __args ;";

pub const BIND_THIS_PARAMETERS: &'static str = "$this $attrs let $name : $ty = __args ;";

pub const BIND_SIGNATURE: &'static str =
    "let __args : [ _ ; $arg_count ] = __signature . collect_into ( __args , eval . heap ( ) ) ? ; \
    $bind_args";

pub const BIND_POSITIONAL: &'static str = "__args . no_named_args ( ) ? ; \
    let __required : [ _ ; $required ] = __args . positional ( eval . heap ( ) ) ? ; \
    $bind_args";

pub const BIND_OPTIONAL: &'static str = "__args . no_named_args ( ) ? ; \
    let ( __required , __optional ) : ( [ _ ; $required ] , [ _ ; $optional ] ) = \
    __args . optional ( eval . heap ( ) ) ? ; \
    $bind_args";

/// The code that, given `__args` and, if there is one, `__signature`, binds all
/// arguments.
pub open spec fn binding_tokens(x: StarFun, site: Span) -> Seq<Token> {
    let bind_args = ("bind_args"@, binding_args_tokens(x.args@, site));
    match x.source {
        StarFunSource::Unknown => Seq::empty(),
        StarFunSource::Parameters => {
            let arg = x.args@[0];
            template::template(
                arg.span,
                BIND_PARAMETERS@,
                seq![
                    ("attrs"@, tokens::all_tokens(arg.attrs@)),
                    ("name"@, tokens::tokens_of(arg.name)),
                    ("ty"@, tokens::tokens_of(arg.ty)),
                ],
            )
        },
        StarFunSource::ThisParameters => {
            let arg = x.args@[1];
            template::template(
                arg.span,
                BIND_THIS_PARAMETERS@,
                seq![
                    ("this"@, binding_arg_tokens(x.args@[0], site)),
                    ("attrs"@, tokens::all_tokens(arg.attrs@)),
                    ("name"@, tokens::tokens_of(arg.name)),
                    ("ty"@, tokens::tokens_of(arg.ty)),
                ],
            )
        },
        StarFunSource::Argument(arg_count) => template::template(
            x.args_span,
            BIND_SIGNATURE@,
            seq![("arg_count"@, seq![Token::Usize(arg_count, site)]), bind_args],
        ),
        StarFunSource::Positional(required, optional) => if optional == 0 {
            template::template(
                x.args_span,
                BIND_POSITIONAL@,
                seq![("required"@, seq![Token::Usize(required, site)]), bind_args],
            )
        } else {
            template::template(
                x.args_span,
                BIND_OPTIONAL@,
                seq![
                    ("required"@, seq![Token::Usize(required, site)]),
                    ("optional"@, seq![Token::Usize(optional, site)]),
                    bind_args,
                ],
            )
        },
    }
}

/// A function whose arguments can be bound: it is known how they are collected, the
/// arguments that are bound by name are there, and each of those that are taken from a
/// slot can be.
pub open spec fn binding_ok(x: StarFun) -> bool {
    match x.source {
        StarFunSource::Unknown => false,
        StarFunSource::Parameters => x.args@.len() >= 1,
        StarFunSource::ThisParameters => x.args@.len() >= 2 && bindable(x.args@[0]),
        StarFunSource::Argument(_) | StarFunSource::Positional(_, _) => forall|i: int|
            0 <= i < x.args@.len() ==> bindable(#[trigger] x.args@[i]),
    }
}

/// Creates the bindings of all arguments.
pub fn render_binding(x: &StarFun, site: Span) -> (stream: TokenStream)
    requires
        binding_ok(*x),
    ensures
        tokens::tokens_of(stream) == binding_tokens(*x, site),
{
    let ghost bind_args = ("bind_args"@, binding_args_tokens(x.args@, site));
    match x.source {
        StarFunSource::Unknown => TokenStream::new(),
        StarFunSource::Parameters => {
            let arg = &x.args[0];
            let holes = vec![
                Hole { name: "attrs", tokens: tokens::concat(&arg.attrs) },
                Hole { name: "name", tokens: tokens::copy(&arg.name) },
                Hole { name: "ty", tokens: tokens::copy(&arg.ty) },
            ];
            assert(template::bindings(holes@) =~= seq![
                ("attrs"@, tokens::all_tokens(arg.attrs@)),
                ("name"@, tokens::tokens_of(arg.name)),
                ("ty"@, tokens::tokens_of(arg.ty)),
            ]);
            quote_at(arg.span, BIND_PARAMETERS, holes)
        },
        StarFunSource::ThisParameters => {
            let arg = &x.args[1];
            let holes = vec![
                Hole { name: "this", tokens: render_binding_arg(&x.args[0], site) },
                Hole { name: "attrs", tokens: tokens::concat(&arg.attrs) },
                Hole { name: "name", tokens: tokens::copy(&arg.name) },
                Hole { name: "ty", tokens: tokens::copy(&arg.ty) },
            ];
            assert(template::bindings(holes@) =~= seq![
                ("this"@, binding_arg_tokens(x.args@[0], site)),
                ("attrs"@, tokens::all_tokens(arg.attrs@)),
                ("name"@, tokens::tokens_of(arg.name)),
                ("ty"@, tokens::tokens_of(arg.ty)),
            ]);
            quote_at(arg.span, BIND_THIS_PARAMETERS, holes)
        },
        StarFunSource::Argument(arg_count) => {
            let holes = vec![
                Hole { name: "arg_count", tokens: tokens::usize_literal(arg_count, site) },
                Hole { name: "bind_args", tokens: render_binding_args(&x.args, site) },
            ];
            assert(template::bindings(holes@) =~= seq![
                ("arg_count"@, seq![Token::Usize(arg_count, site)]),
                bind_args,
            ]);
            quote_at(x.args_span, BIND_SIGNATURE, holes)
        },
        StarFunSource::Positional(required, optional) => {
            if optional == 0 {
                let holes = vec![
                    Hole { name: "required", tokens: tokens::usize_literal(required, site) },
                    Hole { name: "bind_args", tokens: render_binding_args(&x.args, site) },
                ];
                assert(template::bindings(holes@) =~= seq![
                    ("required"@, seq![Token::Usize(required, site)]),
                    bind_args,
                ]);
                quote_at(x.args_span, BIND_POSITIONAL, holes)
            } else {
                let holes = vec![
                    Hole { name: "required", tokens: tokens::usize_literal(required, site) },
                    Hole { name: "optional", tokens: tokens::usize_literal(optional, site) },
                    Hole { name: "bind_args", tokens: render_binding_args(&x.args, site) },
                ];
                assert(template::bindings(holes@) =~= seq![
                    ("required"@, seq![Token::Usize(required, site)]),
                    ("optional"@, seq![Token::Usize(optional, site)]),
                    bind_args,
                ]);
                quote_at(x.args_span, BIND_OPTIONAL, holes)
            }
        },
    }
}

} // verus!
