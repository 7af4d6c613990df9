//! Renders the signature of a native function: the statements that tell a
//! `ParametersSpec` what parameters there are.

use proc_macro2::{Span, TokenStream};
use vstd::prelude::*;
use vstd::string::*;

use crate::template::{self, quote_at, Hole};
use crate::tokens::{self, Token};
use crate::typ::{StarArg, StarArgPassStyle, StarFun, StarFunSource};

verus! {

/// `syn::Error`: made here, and handed to the caller.
#[verifier::external_type_specification]
#[verifier::external_body]
pub struct ExError(syn::Error);

/// The error that `syn::Error::new` makes of a span and a message.
pub uninterp spec fn error_at(span: Span, message: Seq<char>) -> syn::Error;

/// `syn::Error::new`: an error with one message, at one span.
#[verifier::external_body]
fn new_error(span: Span, message: &str) -> (error: syn::Error)
    ensures
        error == error_at(span, message@),
{
    syn::Error::new(span, message)
}

pub const MISPLACED: &'static str = "Positional-only parameter after non-positional-only";

pub const ADD_ARGS: &'static str = "__signature . args ( ) ;";

pub const ADD_KWARGS: &'static str = "__signature . kwargs ( ) ;";

pub const ADD_OPTIONAL: &'static str = "__signature . optional ( $name_str ) ;";

pub const ADD_DEFAULTED: &'static str =
    "__signature . defaulted ( $name_str , globals_builder . alloc ( $default ) ) ;";

pub const ADD_REQUIRED: &'static str = "__signature . required ( $name_str ) ;";

pub const END_POSITIONAL_ONLY: &'static str = "__signature . no_more_positional_only_args ( ) ;";

pub const END_POSITIONAL: &'static str = "__signature . no_more_positional_args ( ) ;";

/// A name without the underscores at its ends.
pub open spec fn trimmed(name: Seq<char>) -> Seq<char>
    decreases name.len(),
{
    if name.len() > 0 && name[0] == '_' {
        trimmed(name.drop_first())
    } else if name.len() > 0 && name.last() == '_' {
        trimmed(name.drop_last())
    } else {
        name
    }
}

/// The parameter that an argument is for a Starlark caller.
pub enum Parameter {
    /// `*args`
    Args,
    /// `**kwargs`
    Kwargs,
    /// May be left out, and is then absent.
    Optional(Seq<char>),
    /// May be left out, and is then the value of the given expression.
    Defaulted(Seq<char>, Seq<Token>),
    /// Has to be given.
    Required(Seq<char>),
}

/// The parameter of an argument: a receiver has none. A default of a type other than
/// `Value` is left to the binding of the argument, so the parameter is optional.
pub open spec fn parameter(arg: StarArg) -> Option<Parameter> {
    let name = trimmed(arg.name_str@);
    if arg.is_args {
        Some(Parameter::Args)
    } else if arg.is_kwargs {
        Some(Parameter::Kwargs)
    } else if arg.this {
        None
    } else if arg.is_option {
        Some(Parameter::Optional(name))
    } else {
        match arg.default {
            Some(default) => if arg.is_value {
                Some(Parameter::Defaulted(name, tokens::tokens_of(default)))
            } else {
                Some(Parameter::Optional(name))
            },
            None => Some(Parameter::Required(name)),
        }
    }
}

/// The statement that adds a parameter to the signature.
pub open spec fn parameter_tokens(
    parameter: Option<Parameter>,
    span: Span,
    site: Span,
) -> Seq<Token> {
    match parameter {
        None => Seq::empty(),
        Some(Parameter::Args) => template::template(span, ADD_ARGS@, Seq::empty()),
        Some(Parameter::Kwargs) => template::template(span, ADD_KWARGS@, Seq::empty()),
        Some(Parameter::Optional(name)) => template::template(
            span,
            ADD_OPTIONAL@,
            seq![("name_str"@, seq![Token::Str(name, site)])],
        ),
        Some(Parameter::Defaulted(name, default)) => template::template(
            span,
            ADD_DEFAULTED@,
            seq![("name_str"@, seq![Token::Str(name, site)]), ("default"@, default)],
        ),
        Some(Parameter::Required(name)) => template::template(
            span,
            ADD_REQUIRED@,
            seq![("name_str"@, seq![Token::Str(name, site)])],
        ),
    }
}

/// The statement that adds an argument to the signature.
pub open spec fn signature_arg_tokens(arg: StarArg, site: Span) -> Seq<Token> {
    parameter_tokens(parameter(arg), arg.span, site)
}

/// `*args` and `**kwargs` have no default.
pub open spec fn signature_arg_ok(arg: StarArg) -> bool {
    arg.is_args || arg.is_kwargs ==> arg.default is None
}

proof fn lemma_trimmed_front(name: Seq<char>, n: int)
    requires
        0 <= n <= name.len(),
        forall|i: int| 0 <= i < n ==> name[i] == '_',
    ensures
        trimmed(name) == trimmed(name.skip(n)),
    decreases n,
{
    if n > 0 {
        lemma_trimmed_front(name.drop_first(), n - 1);
        assert(name.drop_first().skip(n - 1) =~= name.skip(n));
    } else {
        assert(name.skip(0) =~= name);
    }
}

/// `name` without the underscores at its ends.
fn trim_underscores<'a>(name: &'a str) -> (trim: &'a str)
    ensures
        trim@ == trimmed(name@),
{
    let len: usize = name.unicode_len();
    let mut start: usize = 0;
    while start < len && name.get_char(start) == '_'
        invariant
            start <= len,
            len == name@.len(),
            forall|i: int| 0 <= i < start ==> name@[i] == '_',
        decreases len - start,
    {
        start = start + 1;
    }
    proof {
        lemma_trimmed_front(name@, start as int);
        assert(name@.skip(start as int) =~= name@.subrange(start as int, len as int));
    }
    let mut end: usize = len;
    while start < end && name.get_char(end - 1) == '_'
        invariant
            start <= end <= len,
            len == name@.len(),
            start < len ==> name@[start as int] != '_',
            trimmed(name@) == trimmed(name@.subrange(start as int, end as int)),
        decreases end,
    {
        let ghost kept = name@.subrange(start as int, end as int);
        end = end - 1;
        assert(kept.drop_last() =~= name@.subrange(start as int, end as int));
    }
    name.substring_char(start, end)
}

/// Generates the statement that adds an argument to the signature.
pub fn render_signature_arg(arg: &StarArg, site: Span) -> (stream: TokenStream)
    requires
        signature_arg_ok(*arg),
    ensures
        tokens::tokens_of(stream) == signature_arg_tokens(*arg, site),
{
    let span = arg.span;
    if arg.is_args || arg.is_kwargs {
        let holes: Vec<Hole> = Vec::new();
        assert(template::bindings(holes@) =~= Seq::empty());
        return quote_at(span, if arg.is_args { ADD_ARGS } else { ADD_KWARGS }, holes);
    }
    if arg.this {
        return TokenStream::new();
    }
    let name = trim_underscores(arg.name_str.as_str());
    let ghost name_str = ("name_str"@, seq![Token::Str(name@, site)]);
    let mut holes = vec![Hole { name: "name_str", tokens: tokens::str_literal(name, site) }];
    assert(template::bindings(holes@) =~= seq![name_str]);
    if arg.is_option {
        return quote_at(span, ADD_OPTIONAL, holes);
    }
    match &arg.default {
        Some(default) => {
            if arg.is_value {
                holes.push(Hole { name: "default", tokens: tokens::copy(default) });
                assert(template::bindings(holes@) =~= seq![
                    name_str,
                    ("default"@, tokens::tokens_of(*default)),
                ]);
                quote_at(span, ADD_DEFAULTED, holes)
            } else {
                quote_at(span, ADD_OPTIONAL, holes)
            }
        },
        None => quote_at(span, ADD_REQUIRED, holes),
    }
}

/// The pass style in force before the argument at `i`. It is that of the argument
/// before; `*args` ends the positional ones. At the start it is positional-only.
pub open spec fn style_before(args: Seq<StarArg>, i: int) -> StarArgPassStyle {
    if i == 0 {
        StarArgPassStyle::PosOnly
    } else if args[i - 1].is_args {
        StarArgPassStyle::NamedOnly
    } else {
        args[i - 1].pass_style
    }
}

/// A positional-only argument right after one that is not.
pub open spec fn misplaced(args: Seq<StarArg>, i: int) -> bool {
    &&& !args[i].is_args
    &&& args[i].pass_style == StarArgPassStyle::PosOnly
    &&& style_before(args, i) != StarArgPassStyle::PosOnly
}

/// The first misplaced argument from position `i` on, or the number of arguments.
pub open spec fn misplaced_from(args: Seq<StarArg>, i: int) -> int
    decreases args.len() - i,
{
    if i >= args.len() {
        args.len() as int
    } else if misplaced(args, i) {
        i
    } else {
        misplaced_from(args, i + 1)
    }
}

/// The statement, if any, that ends the part of the parameters before the argument at
/// `i`, whose pass style is a new one.
pub open spec fn transition_tokens(args: Seq<StarArg>, i: int) -> Seq<Token> {
    let arg = args[i];
    if arg.is_args || arg.pass_style == style_before(args, i) {
        Seq::empty()
    } else {
        match arg.pass_style {
            StarArgPassStyle::PosOnly => Seq::empty(),
            StarArgPassStyle::PosOrNamed => template::template(
                arg.span,
                END_POSITIONAL_ONLY@,
                Seq::empty(),
            ),
            StarArgPassStyle::NamedOnly => template::template(
                arg.span,
                END_POSITIONAL@,
                Seq::empty(),
            ),
        }
    }
}

/// The statements that add the first `n` arguments.
pub open spec fn signature_statements(args: Seq<StarArg>, n: int, site: Span) -> Seq<Token>
    decreases n,
{
    if n <= 0 {
        Seq::empty()
    } else {
        signature_statements(args, n - 1, site) + transition_tokens(args, n - 1)
            + signature_arg_tokens(args[n - 1], site)
    }
}

/// What the signature of these arguments is: the statements that add them, or the
/// error at the first misplaced one.
pub open spec fn signature_args_outcome(args: Seq<StarArg>, site: Span) -> Result<
    Seq<Token>,
    syn::Error,
> {
    let first = misplaced_from(args, 0);
    if first < args.len() {
        Err(error_at(args[first].span, MISPLACED@))
    } else {
        Ok(signature_statements(args, args.len() as int, site))
    }
}

/// The arguments that are added have to be such that they can be.
pub open spec fn signature_args_ok(args: Seq<StarArg>) -> bool {
    forall|i: int| 0 <= i < misplaced_from(args, 0) ==> signature_arg_ok(#[trigger] args[i])
}

/// A rendering by the tokens that it holds.
pub open spec fn outcome(result: syn::Result<TokenStream>) -> Result<Seq<Token>, syn::Error> {
    match result {
        Ok(stream) => Ok(tokens::tokens_of(stream)),
        Err(error) => Err(error),
    }
}

pub proof fn lemma_misplaced_from(args: Seq<StarArg>, i: int)
    requires
        0 <= i <= args.len(),
    ensures
        i <= misplaced_from(args, i) <= args.len(),
        forall|j: int| i <= j < misplaced_from(args, i) ==> !#[trigger] misplaced(args, j),
        misplaced_from(args, i) < args.len() ==> misplaced(args, misplaced_from(args, i)),
    decreases args.len() - i,
{
    if i < args.len() && !misplaced(args, i) {
        lemma_misplaced_from(args, i + 1);
    }
}

/// Renders the statements that add all arguments to the signature.
pub fn render_signature_args(args: &Vec<StarArg>, site: Span) -> (result: syn::Result<TokenStream>)
    requires
        signature_args_ok(args@),
    ensures
        outcome(result) == signature_args_outcome(args@, site),
{
    let mut sig_args = TokenStream::new();
    let mut last_pass_style = StarArgPassStyle::PosOnly;
    let mut i: usize = 0;
    while i < args.len()
        invariant
            i <= args@.len(),
            signature_args_ok(args@),
            misplaced_from(args@, 0) == misplaced_from(args@, i as int),
            last_pass_style == style_before(args@, i as int),
            tokens::tokens_of(sig_args) == signature_statements(args@, i as int, site),
        decreases args@.len() - i,
    {
        let arg = &args[i];
        let ghost before = tokens::tokens_of(sig_args);
        proof {
            lemma_misplaced_from(args@, i as int);
        }
        if arg.is_args {
            last_pass_style = StarArgPassStyle::NamedOnly;
        } else {
            if arg.pass_style != last_pass_style {
                let holes: Vec<Hole> = Vec::new();
                assert(template::bindings(holes@) =~= Seq::empty());
                match arg.pass_style {
                    StarArgPassStyle::PosOnly => {
                        return Err(new_error(arg.span, MISPLACED));
                    },
                    StarArgPassStyle::PosOrNamed => {
                        let end = quote_at(arg.span, END_POSITIONAL_ONLY, holes);
                        tokens::append_stream(&mut sig_args, &end);
                    },
                    StarArgPassStyle::NamedOnly => {
                        let end = quote_at(arg.span, END_POSITIONAL, holes);
                        tokens::append_stream(&mut sig_args, &end);
                    },
                }
            }
            last_pass_style = arg.pass_style;
        }
        assert(tokens::tokens_of(sig_args) =~= before + transition_tokens(args@, i as int));
        proof {
            lemma_misplaced_from(args@, i + 1);
        }
        assert(signature_arg_ok(args@[i as int]));
        let added = render_signature_arg(arg, site);
        tokens::append_stream(&mut sig_args, &added);
        i = i + 1;
    }
    Ok(sig_args)
}

pub const SIGNATURE: &'static str = "# [ allow ( unused_mut ) ] \
    let mut __signature = \
    starlark :: eval :: ParametersSpec :: with_capacity ( $name_str . to_owned ( ) , $args_count ) ; \
    $sig_args \
    let __signature = __signature . finish ( ) ;";

/// What the variable `__signature` is set to, if there is one: only a function that
/// collects its arguments by a signature needs it.
pub open spec fn signature_outcome(x: StarFun, site: Span) -> Result<
    Option<Seq<Token>>,
    syn::Error,
> {
    match x.source {
        StarFunSource::Argument(args_count) => match signature_args_outcome(x.args@, site) {
            Ok(sig_args) => Ok(
                Some(
                    template::template(
                        x.args_span,
                        SIGNATURE@,
                        seq![
                            ("name_str"@, seq![Token::Str(x.name_str@, site)]),
                            ("args_count"@, seq![Token::Usize(args_count, site)]),
                            ("sig_args"@, sig_args),
                        ],
                    ),
                ),
            ),
            Err(error) => Err(error),
        },
        _ => Ok(None),
    }
}

/// An optional rendering by the tokens that it holds.
pub open spec fn optional_outcome(result: syn::Result<Option<TokenStream>>) -> Result<
    Option<Seq<Token>>,
    syn::Error,
> {
    match result {
        Ok(stream) => Ok(tokens::optional_tokens(stream)),
        Err(error) => Err(error),
    }
}

/// Creates a variable `__signature` that holds a `ParametersSpec`, or returns `None` if
/// no signature is needed.
pub fn render_signature(x: &StarFun, site: Span) -> (result: syn::Result<Option<TokenStream>>)
    requires
        x.source is Argument ==> signature_args_ok(x.args@),
    ensures
        optional_outcome(result) == signature_outcome(*x, site),
{
    if let StarFunSource::Argument(args_count) = x.source {
        let sig_args = match render_signature_args(&x.args, site) {
            Ok(sig_args) => sig_args,
            Err(error) => {
                return Err(error);
            },
        };
        let holes = vec![
            Hole { name: "name_str", tokens: tokens::str_literal(x.name_str.as_str(), site) },
            Hole { name: "args_count", tokens: tokens::usize_literal(args_count, site) },
            Hole { name: "sig_args", tokens: sig_args },
        ];
        assert(template::bindings(holes@) =~= seq![
            ("name_str"@, seq![Token::Str(x.name_str@, site)]),
            ("args_count"@, seq![Token::Usize(args_count, site)]),
            ("sig_args"@, tokens::tokens_of(sig_args)),
        ]);
        Ok(Some(quote_at(x.args_span, SIGNATURE, holes)))
    } else {
        Ok(None)
    }
}

} // verus!
