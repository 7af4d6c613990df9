//! Renders the documentation of a native function: the value from which
//! `.documentation()` is answered.

use proc_macro2::{Span, TokenStream};
use vstd::prelude::*;

use crate::signature;
use crate::template::{self, quote_at, Hole};
use crate::tokens::{self, Token};
use crate::typ::{StarArg, StarFun, StarFunSource};

verus! {

pub const DOCUMENTED_SIGNATURE: &'static str = "{ \
    # [ allow ( unused_mut ) ] \
    let mut __signature = \
    starlark :: eval :: ParametersSpec :: with_capacity ( $name_str . to_owned ( ) , $args_count ) ; \
    $sig_args \
    __signature . finish ( ) }";

pub const EMPTY_SIGNATURE: &'static str =
    "starlark :: eval :: ParametersSpec :: < starlark :: values :: FrozenValue > :: new \
    ( $name_str . to_owned ( ) ) . finish ( )";

pub const DOCS_SOME: &'static str = "Some ( $d )";

pub const DOCS_NONE: &'static str = "None";

pub const PARAMETER_TYPE: &'static str =
    "( $i , starlark :: values :: docs :: Type { raw_type : stringify ! ( $typ ) . to_owned ( ) } )";

pub const COMMA: &'static str = ",";

pub const DOCUMENTATION: &'static str = "let __documentation_renderer = { \
    let signature = $documentation_signature ; \
    let parameter_types = std :: collections :: HashMap :: from ( [ $parameter_types ] ) ; \
    let return_type = Some ( starlark :: values :: docs :: Type { \
    raw_type : stringify ! ( $return_type_arg ) . to_owned ( ) } ) ; \
    starlark :: values :: function :: NativeCallableRawDocs { \
    rust_docstring : $docs , signature , parameter_types , return_type , } } ;";

/// The number of parameters that the documentation tells of. A signature is not needed
/// to call a positional-only function, but its parameters are documented all the same.
pub open spec fn documented_count(source: StarFunSource) -> Option<int> {
    match source {
        StarFunSource::Argument(args_count) => Some(args_count as int),
        StarFunSource::Positional(required, optional) => Some(required + optional),
        StarFunSource::Unknown | StarFunSource::Parameters | StarFunSource::ThisParameters => None,
    }
}

/// The signature as the documentation shows it.
pub open spec fn documentation_signature(x: StarFun, site: Span) -> Result<
    Seq<Token>,
    syn::Error,
> {
    let name_str = ("name_str"@, seq![Token::Str(x.name_str@, site)]);
    match documented_count(x.source) {
        Some(args_count) => match signature::signature_args_outcome(x.args@, site) {
            Ok(sig_args) => Ok(
                template::template(
                    x.args_span,
                    DOCUMENTED_SIGNATURE@,
                    seq![
                        name_str,
                        ("args_count"@, seq![Token::Usize(args_count as usize, site)]),
                        ("sig_args"@, sig_args),
                    ],
                ),
            ),
            Err(error) => Err(error),
        },
        None => Ok(template::template(x.args_span, EMPTY_SIGNATURE@, seq![name_str])),
    }
}

/// The arguments whose types are documented: all but the receiver, which has no place
/// among the parameters of the signature.
pub open spec fn documented(args: Seq<StarArg>) -> Seq<StarArg> {
    args.filter(|arg: StarArg| !arg.this)
}

/// The types of the given arguments, each with its index, separated by commas.
pub open spec fn parameter_types(args: Seq<StarArg>, span: Span, site: Span) -> Seq<Token>
    decreases args.len(),
{
    if args.len() == 0 {
        Seq::empty()
    } else {
        let before = parameter_types(args.drop_last(), span, site);
        let separator = if args.len() > 1 {
            template::template(span, COMMA@, Seq::empty())
        } else {
            Seq::empty()
        };
        before + separator + template::template(
            span,
            PARAMETER_TYPE@,
            seq![
                ("i"@, seq![Token::Usize((args.len() - 1) as usize, site)]),
                ("typ"@, tokens::tokens_of(args.last().ty)),
            ],
        )
    }
}

/// The docstring, as an optional string.
pub open spec fn docs_tokens(docstring: Option<String>, span: Span, site: Span) -> Seq<Token> {
    match docstring {
        Some(d) => template::template(
            span,
            DOCS_SOME@,
            seq![("d"@, seq![Token::Str(d@, site)])],
        ),
        None => template::template(span, DOCS_NONE@, Seq::empty()),
    }
}

/// What the variable `__documentation_renderer` is set to.
pub open spec fn documentation_outcome(x: StarFun, site: Span) -> Result<Seq<Token>, syn::Error> {
    match documentation_signature(x, site) {
        Ok(documentation_signature) => Ok(
            template::template(
                x.args_span,
                DOCUMENTATION@,
                seq![
                    ("documentation_signature"@, documentation_signature),
                    ("parameter_types"@, parameter_types(documented(x.args@), x.args_span, site)),
                    ("return_type_arg"@, tokens::tokens_of(x.return_type_arg)),
                    ("docs"@, docs_tokens(x.docstring, x.args_span, site)),
                ],
            ),
        ),
        Err(error) => Err(error),
    }
}

/// The parameters can be counted and added to a signature, where they are.
pub open spec fn documentation_ok(x: StarFun) -> bool {
    match documented_count(x.source) {
        Some(args_count) => args_count <= usize::MAX && signature::signature_args_ok(x.args@),
        None => true,
    }
}

fn render_parameter_types(args: &Vec<StarArg>, span: Span, site: Span) -> (stream: TokenStream)
    ensures
        tokens::tokens_of(stream) == parameter_types(documented(args@), span, site),
{
    let mut stream = TokenStream::new();
    let mut count: usize = 0;
    let mut i: usize = 0;
    let ghost keep = |arg: StarArg| !arg.this;
    assert(documented(args@.take(0)) =~= Seq::empty()) by {
        reveal(Seq::filter);
    }
    while i < args.len()
        invariant
            count <= i <= args@.len(),
            count == documented(args@.take(i as int)).len(),
            tokens::tokens_of(stream) == parameter_types(
                documented(args@.take(i as int)),
                span,
                site,
            ),
        decreases args@.len() - i,
    {
        let arg = &args[i];
        let ghost done = documented(args@.take(i as int));
        let ghost next = documented(args@.take(i + 1));
        assert(next == if arg.this {
            done
        } else {
            done.push(*arg)
        }) by {
            reveal(Seq::filter);
            assert(args@.take(i + 1).drop_last() =~= args@.take(i as int));
        }
        if !arg.this {
            let ghost before = tokens::tokens_of(stream);
            if count > 0 {
                let none: Vec<Hole> = Vec::new();
                assert(template::bindings(none@) =~= Seq::empty());
                let comma = quote_at(span, COMMA, none);
                tokens::append_stream(&mut stream, &comma);
            }
            let holes = vec![
                Hole { name: "i", tokens: tokens::usize_literal(count, site) },
                Hole { name: "typ", tokens: tokens::copy(&arg.ty) },
            ];
            assert(template::bindings(holes@) =~= seq![
                ("i"@, seq![Token::Usize(count, site)]),
                ("typ"@, tokens::tokens_of(arg.ty)),
            ]);
            let entry = quote_at(span, PARAMETER_TYPE, holes);
            tokens::append_stream(&mut stream, &entry);
            assert(next.drop_last() =~= done);
            assert(tokens::tokens_of(stream) =~= parameter_types(next, span, site));
            count = count + 1;
        }
        i = i + 1;
    }
    assert(args@.take(i as int) =~= args@);
    stream
}

fn render_documentation_signature(x: &StarFun, site: Span) -> (result: syn::Result<TokenStream>)
    requires
        documentation_ok(*x),
    ensures
        signature::outcome(result) == documentation_signature(*x, site),
{
    let span = x.args_span;
    let args_count: Option<usize> = match x.source {
        StarFunSource::Argument(args_count) => Some(args_count),
        StarFunSource::Positional(required, optional) => Some(required + optional),
        StarFunSource::Unknown | StarFunSource::Parameters | StarFunSource::ThisParameters => None,
    };
    let ghost name_str = ("name_str"@, seq![Token::Str(x.name_str@, site)]);
    let name = tokens::str_literal(x.name_str.as_str(), site);
    match args_count {
        Some(args_count) => {
            let sig_args = match signature::render_signature_args(&x.args, site) {
                Ok(sig_args) => sig_args,
                Err(error) => {
                    return Err(error);
                },
            };
            let holes = vec![
                Hole { name: "name_str", tokens: name },
                Hole { name: "args_count", tokens: tokens::usize_literal(args_count, site) },
                Hole { name: "sig_args", tokens: sig_args },
            ];
            assert(template::bindings(holes@) =~= seq![
                name_str,
                ("args_count"@, seq![Token::Usize(args_count, site)]),
                ("sig_args"@, tokens::tokens_of(sig_args)),
            ]);
            Ok(quote_at(span, DOCUMENTED_SIGNATURE, holes))
        },
        None => {
            let holes = vec![Hole { name: "name_str", tokens: name }];
            assert(template::bindings(holes@) =~= seq![name_str]);
            Ok(quote_at(span, EMPTY_SIGNATURE, holes))
        },
    }
}

fn render_docs(docstring: &Option<String>, span: Span, site: Span) -> (stream: TokenStream)
    ensures
        tokens::tokens_of(stream) == docs_tokens(*docstring, span, site),
{
    match docstring {
        Some(d) => {
            let holes = vec![Hole { name: "d", tokens: tokens::str_literal(d.as_str(), site) }];
            assert(template::bindings(holes@) =~= seq![("d"@, seq![Token::Str(d@, site)])]);
            quote_at(span, DOCS_SOME, holes)
        },
        None => {
            let holes: Vec<Hole> = Vec::new();
            assert(template::bindings(holes@) =~= Seq::empty());
            quote_at(span, DOCS_NONE, holes)
        },
    }
}

/// Creates a variable `__documentation_renderer` that holds what is known of the
/// function: its docstring, its signature and its types.
pub fn render_documentation(x: &StarFun, site: Span) -> (result: syn::Result<TokenStream>)
    requires
        documentation_ok(*x),
    ensures
        signature::outcome(result) == documentation_outcome(*x, site),
{
    let span = x.args_span;
    let signature = match render_documentation_signature(x, site) {
        Ok(signature) => signature,
        Err(error) => {
            return Err(error);
        },
    };
    let holes = vec![
        Hole { name: "documentation_signature", tokens: signature },
        Hole { name: "parameter_types", tokens: render_parameter_types(&x.args, span, site) },
        Hole { name: "return_type_arg", tokens: tokens::copy(&x.return_type_arg) },
        Hole { name: "docs", tokens: render_docs(&x.docstring, span, site) },
    ];
    assert(template::bindings(holes@) =~= seq![
        ("documentation_signature"@, tokens::tokens_of(signature)),
        ("parameter_types"@, parameter_types(documented(x.args@), span, site)),
        ("return_type_arg"@, tokens::tokens_of(x.return_type_arg)),
        ("docs"@, docs_tokens(x.docstring, span, site)),
    ]);
    Ok(quote_at(span, DOCUMENTATION, holes))
}

} // verus!
