//! What code is rendered for the arguments of a function, and what it tells when it is
//! read.

use proc_macro2::Span;
use vstd::prelude::*;

use crate::binding;
use crate::render_laws;
use crate::signature;
use crate::template::{self, Binding};
use crate::template_laws;
use crate::tokens::{self, Delim, Token};
use crate::typ::{StarArg, StarArgPassStyle, StarArgSource, StarFun, StarFunSource};

verus! {

/// The statement that calls a method of `__signature`.
pub open spec fn call_of(method: Seq<char>, arguments: Seq<Token>, span: Span) -> Seq<Token> {
    seq![
        Token::Ident("__signature"@, span),
        Token::Punct('.', false, span),
        Token::Ident(method, span),
        Token::Open(Delim::Paren, span),
    ] + arguments + seq![Token::Close(Delim::Paren, span), Token::Punct(';', false, span)]
}

/// The call of a function of `starlark :: eval :: Arguments`, whose error is passed on.
pub open spec fn argument_call(
    function: Seq<char>,
    arguments: Seq<Token>,
    span: Span,
) -> Seq<Token> {
    seq![
        Token::Ident("starlark"@, span),
        Token::Punct(':', true, span),
        Token::Punct(':', false, span),
        Token::Ident("eval"@, span),
        Token::Punct(':', true, span),
        Token::Punct(':', false, span),
        Token::Ident("Arguments"@, span),
        Token::Punct(':', true, span),
        Token::Punct(':', false, span),
        Token::Ident(function, span),
        Token::Open(Delim::Paren, span),
    ] + arguments + seq![Token::Close(Delim::Paren, span), Token::Punct('?', false, span)]
}

/// A name, and a default that is put on the heap.
pub open spec fn defaulted_arguments(
    name: Seq<char>,
    default: Seq<Token>,
    span: Span,
    site: Span,
) -> Seq<Token> {
    seq![
        Token::Str(name, site),
        Token::Punct(',', false, span),
        Token::Ident("globals_builder"@, span),
        Token::Punct('.', false, span),
        Token::Ident("alloc"@, span),
        Token::Open(Delim::Paren, span),
    ] + default + seq![Token::Close(Delim::Paren, span)]
}

/// Reads `__this`.
pub proof fn lemma_read_source_this(span: Span)
    ensures
        template::template(span, "__this"@, Seq::empty()) == seq![Token::Ident("__this"@, span)],
{
    reveal_strlit("__this");
    let text = "__this"@;
    let holes: Seq<Binding> = Seq::empty();
    let none = Seq::<Delim>::empty();
    template_laws::lemma_read_ident(span, text, holes, none, 0, "__this"@);
    template_laws::lemma_read_end(span, text, holes, 7);
    assert(template::template(span, text, holes) =~= seq![Token::Ident("__this"@, span)]);
}

/// Reads `__args [ $i ] . get ( )`.
pub proof fn lemma_read_source_argument(span: Span, i: usize, site: Span)
    ensures
        template::template(
            span,
            "__args [ $i ] . get ( )"@,
            seq![("i"@, seq![Token::Usize(i, site)])],
        ) == seq![
            Token::Ident("__args"@, span),
            Token::Open(Delim::Bracket, span),
            Token::Usize(i, site),
            Token::Close(Delim::Bracket, span),
            Token::Punct('.', false, span),
            Token::Ident("get"@, span),
            Token::Open(Delim::Paren, span),
            Token::Close(Delim::Paren, span),
        ],
{
    reveal_strlit("__args [ $i ] . get ( )");
    reveal_strlit("__args");
    reveal_strlit("get");
    reveal_strlit("i");
    let text = "__args [ $i ] . get ( )"@;
    let holes: Seq<Binding> = seq![("i"@, seq![Token::Usize(i, site)])];
    let none = Seq::<Delim>::empty();
    template_laws::lemma_read_ident(span, text, holes, none, 0, "__args"@);
    template_laws::lemma_read_open(span, text, holes, none, 7, Delim::Bracket);
    template_laws::lemma_read_hole(span, text, holes, none.push(Delim::Bracket), 9, 0);
    template_laws::lemma_read_close(span, text, holes, none, 12, Delim::Bracket);
    template_laws::lemma_read_mark(span, text, holes, none, 14);
    template_laws::lemma_read_ident(span, text, holes, none, 16, "get"@);
    template_laws::lemma_read_open(span, text, holes, none, 20, Delim::Paren);
    template_laws::lemma_read_close(span, text, holes, none, 22, Delim::Paren);
    template_laws::lemma_read_end(span, text, holes, 24);
    assert(template::template(span, text, holes) =~= seq![
        Token::Ident("__args"@, span),
        Token::Open(Delim::Bracket, span),
        Token::Usize(i, site),
        Token::Close(Delim::Bracket, span),
        Token::Punct('.', false, span),
        Token::Ident("get"@, span),
        Token::Open(Delim::Paren, span),
        Token::Close(Delim::Paren, span),
    ]);
}

/// Reads `Some ( __required [ $i ] )`.
pub proof fn lemma_read_source_required(span: Span, i: usize, site: Span)
    ensures
        template::template(
            span,
            "Some ( __required [ $i ] )"@,
            seq![("i"@, seq![Token::Usize(i, site)])],
        ) == seq![
            Token::Ident("Some"@, span),
            Token::Open(Delim::Paren, span),
            Token::Ident("__required"@, span),
            Token::Open(Delim::Bracket, span),
            Token::Usize(i, site),
            Token::Close(Delim::Bracket, span),
            Token::Close(Delim::Paren, span),
        ],
{
    reveal_strlit("Some ( __required [ $i ] )");
    reveal_strlit("Some");
    reveal_strlit("__required");
    reveal_strlit("i");
    let text = "Some ( __required [ $i ] )"@;
    let holes: Seq<Binding> = seq![("i"@, seq![Token::Usize(i, site)])];
    let none = Seq::<Delim>::empty();
    template_laws::lemma_read_ident(span, text, holes, none, 0, "Some"@);
    template_laws::lemma_read_open(span, text, holes, none, 5, Delim::Paren);
    template_laws::lemma_read_ident(span, text, holes, none.push(Delim::Paren), 7, "__required"@);
    template_laws::lemma_read_open(span, text, holes, none.push(Delim::Paren), 18, Delim::Bracket);
    template_laws::lemma_read_hole(span, text, holes, none.push(Delim::Paren).push(Delim::Bracket), 20, 0);
    template_laws::lemma_read_close(span, text, holes, none.push(Delim::Paren), 23, Delim::Bracket);
    template_laws::lemma_read_close(span, text, holes, none, 25, Delim::Paren);
    template_laws::lemma_read_end(span, text, holes, 27);
    assert(template::template(span, text, holes) =~= seq![
        Token::Ident("Some"@, span),
        Token::Open(Delim::Paren, span),
        Token::Ident("__required"@, span),
        Token::Open(Delim::Bracket, span),
        Token::Usize(i, site),
        Token::Close(Delim::Bracket, span),
        Token::Close(Delim::Paren, span),
    ]);
}

/// Reads `__optional [ $i ]`.
pub proof fn lemma_read_source_optional(span: Span, i: usize, site: Span)
    ensures
        template::template(
            span,
            "__optional [ $i ]"@,
            seq![("i"@, seq![Token::Usize(i, site)])],
        ) == seq![
            Token::Ident("__optional"@, span),
            Token::Open(Delim::Bracket, span),
            Token::Usize(i, site),
            Token::Close(Delim::Bracket, span),
        ],
{
    reveal_strlit("__optional [ $i ]");
    reveal_strlit("__optional");
    reveal_strlit("i");
    let text = "__optional [ $i ]"@;
    let holes: Seq<Binding> = seq![("i"@, seq![Token::Usize(i, site)])];
    let none = Seq::<Delim>::empty();
    template_laws::lemma_read_ident(span, text, holes, none, 0, "__optional"@);
    template_laws::lemma_read_open(span, text, holes, none, 11, Delim::Bracket);
    template_laws::lemma_read_hole(span, text, holes, none.push(Delim::Bracket), 13, 0);
    template_laws::lemma_read_close(span, text, holes, none, 16, Delim::Bracket);
    template_laws::lemma_read_end(span, text, holes, 18);
    assert(template::template(span, text, holes) =~= seq![
        Token::Ident("__optional"@, span),
        Token::Open(Delim::Bracket, span),
        Token::Usize(i, site),
        Token::Close(Delim::Bracket, span),
    ]);
}

/// Reads `__signature . args ( ) ;`.
pub proof fn lemma_read_call_args(span: Span)
    ensures
        template::template(span, "__signature . args ( ) ;"@, Seq::empty()) == call_of("args"@, Seq::empty(), span),
{
    reveal_strlit("__signature . args ( ) ;");
    reveal_strlit("__signature");
    reveal_strlit("args");
    let text = "__signature . args ( ) ;"@;
    let holes: Seq<Binding> = Seq::empty();
    let none = Seq::<Delim>::empty();
    template_laws::lemma_read_ident(span, text, holes, none, 0, "__signature"@);
    template_laws::lemma_read_mark(span, text, holes, none, 12);
    template_laws::lemma_read_ident(span, text, holes, none, 14, "args"@);
    template_laws::lemma_read_open(span, text, holes, none, 19, Delim::Paren);
    template_laws::lemma_read_close(span, text, holes, none, 21, Delim::Paren);
    template_laws::lemma_read_mark(span, text, holes, none, 23);
    template_laws::lemma_read_end(span, text, holes, 25);
    assert(template::template(span, text, holes) =~= call_of("args"@, Seq::empty(), span));
}

/// Reads `__signature . kwargs ( ) ;`.
pub proof fn lemma_read_call_kwargs(span: Span)
    ensures
        template::template(span, "__signature . kwargs ( ) ;"@, Seq::empty()) == call_of("kwargs"@, Seq::empty(), span),
{
    reveal_strlit("__signature . kwargs ( ) ;");
    reveal_strlit("__signature");
    reveal_strlit("kwargs");
    let text = "__signature . kwargs ( ) ;"@;
    let holes: Seq<Binding> = Seq::empty();
    let none = Seq::<Delim>::empty();
    template_laws::lemma_read_ident(span, text, holes, none, 0, "__signature"@);
    template_laws::lemma_read_mark(span, text, holes, none, 12);
    template_laws::lemma_read_ident(span, text, holes, none, 14, "kwargs"@);
    template_laws::lemma_read_open(span, text, holes, none, 21, Delim::Paren);
    template_laws::lemma_read_close(span, text, holes, none, 23, Delim::Paren);
    template_laws::lemma_read_mark(span, text, holes, none, 25);
    template_laws::lemma_read_end(span, text, holes, 27);
    assert(template::template(span, text, holes) =~= call_of("kwargs"@, Seq::empty(), span));
}

/// Reads `__signature . no_more_positional_only_args ( ) ;`.
pub proof fn lemma_read_call_no_more_positional_only_args(span: Span)
    ensures
        template::template(
            span,
            "__signature . no_more_positional_only_args ( ) ;"@,
            Seq::empty(),
        ) == call_of("no_more_positional_only_args"@, Seq::empty(), span),
{
    reveal_strlit("__signature . no_more_positional_only_args ( ) ;");
    reveal_strlit("__signature");
    reveal_strlit("no_more_positional_only_args");
    let text = "__signature . no_more_positional_only_args ( ) ;"@;
    let holes: Seq<Binding> = Seq::empty();
    let none = Seq::<Delim>::empty();
    template_laws::lemma_read_ident(span, text, holes, none, 0, "__signature"@);
    template_laws::lemma_read_mark(span, text, holes, none, 12);
    template_laws::lemma_read_ident(span, text, holes, none, 14, "no_more_positional_only_args"@);
    template_laws::lemma_read_open(span, text, holes, none, 43, Delim::Paren);
    template_laws::lemma_read_close(span, text, holes, none, 45, Delim::Paren);
    template_laws::lemma_read_mark(span, text, holes, none, 47);
    template_laws::lemma_read_end(span, text, holes, 49);
    assert(template::template(span, text, holes)
        =~= call_of("no_more_positional_only_args"@, Seq::empty(), span));
}

/// Reads `__signature . no_more_positional_args ( ) ;`.
pub proof fn lemma_read_call_no_more_positional_args(span: Span)
    ensures
        template::template(
            span,
            "__signature . no_more_positional_args ( ) ;"@,
            Seq::empty(),
        ) == call_of("no_more_positional_args"@, Seq::empty(), span),
{
    reveal_strlit("__signature . no_more_positional_args ( ) ;");
    reveal_strlit("__signature");
    reveal_strlit("no_more_positional_args");
    let text = "__signature . no_more_positional_args ( ) ;"@;
    let holes: Seq<Binding> = Seq::empty();
    let none = Seq::<Delim>::empty();
    template_laws::lemma_read_ident(span, text, holes, none, 0, "__signature"@);
    template_laws::lemma_read_mark(span, text, holes, none, 12);
    template_laws::lemma_read_ident(span, text, holes, none, 14, "no_more_positional_args"@);
    template_laws::lemma_read_open(span, text, holes, none, 38, Delim::Paren);
    template_laws::lemma_read_close(span, text, holes, none, 40, Delim::Paren);
    template_laws::lemma_read_mark(span, text, holes, none, 42);
    template_laws::lemma_read_end(span, text, holes, 44);
    assert(template::template(span, text, holes)
        =~= call_of("no_more_positional_args"@, Seq::empty(), span));
}

/// Reads `__signature . optional ( $name_str ) ;`.
pub proof fn lemma_read_call_optional(span: Span, name: Seq<char>, site: Span)
    ensures
        template::template(
            span,
            "__signature . optional ( $name_str ) ;"@,
            seq![("name_str"@, seq![Token::Str(name, site)])],
        ) == call_of("optional"@, seq![Token::Str(name, site)], span),
{
    reveal_strlit("__signature . optional ( $name_str ) ;");
    reveal_strlit("__signature");
    reveal_strlit("name_str");
    reveal_strlit("optional");
    let text = "__signature . optional ( $name_str ) ;"@;
    let holes: Seq<Binding> = seq![("name_str"@, seq![Token::Str(name, site)])];
    let none = Seq::<Delim>::empty();
    template_laws::lemma_read_ident(span, text, holes, none, 0, "__signature"@);
    template_laws::lemma_read_mark(span, text, holes, none, 12);
    template_laws::lemma_read_ident(span, text, holes, none, 14, "optional"@);
    template_laws::lemma_read_open(span, text, holes, none, 23, Delim::Paren);
    template_laws::lemma_read_hole(span, text, holes, none.push(Delim::Paren), 25, 0);
    template_laws::lemma_read_close(span, text, holes, none, 35, Delim::Paren);
    template_laws::lemma_read_mark(span, text, holes, none, 37);
    template_laws::lemma_read_end(span, text, holes, 39);
    assert(template::template(span, text, holes)
        =~= call_of("optional"@, seq![Token::Str(name, site)], span));
}

/// Reads `__signature . required ( $name_str ) ;`.
pub proof fn lemma_read_call_required(span: Span, name: Seq<char>, site: Span)
    ensures
        template::template(
            span,
            "__signature . required ( $name_str ) ;"@,
            seq![("name_str"@, seq![Token::Str(name, site)])],
        ) == call_of("required"@, seq![Token::Str(name, site)], span),
{
    reveal_strlit("__signature . required ( $name_str ) ;");
    reveal_strlit("__signature");
    reveal_strlit("name_str");
    reveal_strlit("required");
    let text = "__signature . required ( $name_str ) ;"@;
    let holes: Seq<Binding> = seq![("name_str"@, seq![Token::Str(name, site)])];
    let none = Seq::<Delim>::empty();
    template_laws::lemma_read_ident(span, text, holes, none, 0, "__signature"@);
    template_laws::lemma_read_mark(span, text, holes, none, 12);
    template_laws::lemma_read_ident(span, text, holes, none, 14, "required"@);
    template_laws::lemma_read_open(span, text, holes, none, 23, Delim::Paren);
    template_laws::lemma_read_hole(span, text, holes, none.push(Delim::Paren), 25, 0);
    template_laws::lemma_read_close(span, text, holes, none, 35, Delim::Paren);
    template_laws::lemma_read_mark(span, text, holes, none, 37);
    template_laws::lemma_read_end(span, text, holes, 39);
    assert(template::template(span, text, holes)
        =~= call_of("required"@, seq![Token::Str(name, site)], span));
}

/// Reads `__signature . defaulted ( $name_str , globals_builder . alloc ( $default ) ) ;`.
pub proof fn lemma_read_call_defaulted(span: Span, name: Seq<char>, default: Seq<Token>, site: Span)
    ensures
        template::template(
            span,
            "__signature . defaulted ( $name_str , globals_builder . alloc ( $default ) ) ;"@,
            seq![
                ("name_str"@, seq![Token::Str(name, site)]),
                ("default"@, default),
            ],
        ) == call_of("defaulted"@, defaulted_arguments(name, default, span, site), span),
{
    reveal_strlit("__signature . defaulted ( $name_str , globals_builder . alloc ( $default ) ) ;");
    reveal_strlit("__signature");
    reveal_strlit("alloc");
    reveal_strlit("default");
    reveal_strlit("defaulted");
    reveal_strlit("globals_builder");
    reveal_strlit("name_str");
    let text = "__signature . defaulted ( $name_str , globals_builder . alloc ( $default ) ) ;"@;
    let holes: Seq<Binding> = seq![
        ("name_str"@, seq![Token::Str(name, site)]),
        ("default"@, default),
    ];
    let none = Seq::<Delim>::empty();
    template_laws::lemma_read_ident(span, text, holes, none, 0, "__signature"@);
    template_laws::lemma_read_mark(span, text, holes, none, 12);
    template_laws::lemma_read_ident(span, text, holes, none, 14, "defaulted"@);
    template_laws::lemma_read_open(span, text, holes, none, 24, Delim::Paren);
    template_laws::lemma_read_hole(span, text, holes, none.push(Delim::Paren), 26, 0);
    template_laws::lemma_read_mark(span, text, holes, none.push(Delim::Paren), 36);
    template_laws::lemma_read_ident(span, text, holes, none.push(Delim::Paren), 38, "globals_builder"@);
    template_laws::lemma_read_mark(span, text, holes, none.push(Delim::Paren), 54);
    template_laws::lemma_read_ident(span, text, holes, none.push(Delim::Paren), 56, "alloc"@);
    template_laws::lemma_read_open(span, text, holes, none.push(Delim::Paren), 62, Delim::Paren);
    template_laws::lemma_read_hole(span, text, holes, none.push(Delim::Paren).push(Delim::Paren), 64, 1);
    template_laws::lemma_read_close(span, text, holes, none.push(Delim::Paren), 73, Delim::Paren);
    template_laws::lemma_read_close(span, text, holes, none, 75, Delim::Paren);
    template_laws::lemma_read_mark(span, text, holes, none, 77);
    template_laws::lemma_read_end(span, text, holes, 79);
    assert(template::template(span, text, holes)
        =~= call_of("defaulted"@, defaulted_arguments(name, default, span, site), span));
}

/// Reads `Some ( $d )`.
pub proof fn lemma_read_docs_some(span: Span, d: Seq<char>, site: Span)
    ensures
        template::template(
            span,
            "Some ( $d )"@,
            seq![("d"@, seq![Token::Str(d, site)])],
        ) == seq![
            Token::Ident("Some"@, span),
            Token::Open(Delim::Paren, span),
            Token::Str(d, site),
            Token::Close(Delim::Paren, span),
        ],
{
    reveal_strlit("Some ( $d )");
    reveal_strlit("Some");
    reveal_strlit("d");
    let text = "Some ( $d )"@;
    let holes: Seq<Binding> = seq![("d"@, seq![Token::Str(d, site)])];
    let none = Seq::<Delim>::empty();
    template_laws::lemma_read_ident(span, text, holes, none, 0, "Some"@);
    template_laws::lemma_read_open(span, text, holes, none, 5, Delim::Paren);
    template_laws::lemma_read_hole(span, text, holes, none.push(Delim::Paren), 7, 0);
    template_laws::lemma_read_close(span, text, holes, none, 10, Delim::Paren);
    template_laws::lemma_read_end(span, text, holes, 12);
    assert(template::template(span, text, holes) =~= seq![
        Token::Ident("Some"@, span),
        Token::Open(Delim::Paren, span),
        Token::Str(d, site),
        Token::Close(Delim::Paren, span),
    ]);
}

/// Reads `None`.
pub proof fn lemma_read_docs_none(span: Span)
    ensures
        template::template(span, "None"@, Seq::empty()) == seq![Token::Ident("None"@, span)],
{
    reveal_strlit("None");
    let text = "None"@;
    let holes: Seq<Binding> = Seq::empty();
    let none = Seq::<Delim>::empty();
    template_laws::lemma_read_ident(span, text, holes, none, 0, "None"@);
    template_laws::lemma_read_end(span, text, holes, 5);
    assert(template::template(span, text, holes) =~= seq![Token::Ident("None"@, span)]);
}

/// Reads `__signature`.
pub proof fn lemma_read_signature_val(span: Span)
    ensures
        template::template(span, "__signature"@, Seq::empty()) == seq![Token::Ident("__signature"@, span)],
{
    reveal_strlit("__signature");
    let text = "__signature"@;
    let holes: Seq<Binding> = Seq::empty();
    let none = Seq::<Delim>::empty();
    template_laws::lemma_read_ident(span, text, holes, none, 0, "__signature"@);
    template_laws::lemma_read_end(span, text, holes, 12);
    assert(template::template(span, text, holes) =~= seq![Token::Ident("__signature"@, span)]);
}

/// Reads `& __signature`.
pub proof fn lemma_read_signature_val_ref(span: Span)
    ensures
        template::template(span, "& __signature"@, Seq::empty()) == seq![
            Token::Punct('&', false, span),
            Token::Ident("__signature"@, span),
        ],
{
    reveal_strlit("& __signature");
    reveal_strlit("__signature");
    let text = "& __signature"@;
    let holes: Seq<Binding> = Seq::empty();
    let none = Seq::<Delim>::empty();
    template_laws::lemma_read_mark(span, text, holes, none, 0);
    template_laws::lemma_read_ident(span, text, holes, none, 2, "__signature"@);
    template_laws::lemma_read_end(span, text, holes, 14);
    assert(template::template(span, text, holes) =~= seq![
        Token::Punct('&', false, span),
        Token::Ident("__signature"@, span),
    ]);
}

/// Reads `__this ,`.
pub proof fn lemma_read_this_arg(span: Span)
    ensures
        template::template(span, "__this ,"@, Seq::empty()) == seq![
            Token::Ident("__this"@, span),
            Token::Punct(',', false, span),
        ],
{
    reveal_strlit("__this ,");
    reveal_strlit("__this");
    let text = "__this ,"@;
    let holes: Seq<Binding> = Seq::empty();
    let none = Seq::<Delim>::empty();
    template_laws::lemma_read_ident(span, text, holes, none, 0, "__this"@);
    template_laws::lemma_read_mark(span, text, holes, none, 7);
    template_laws::lemma_read_end(span, text, holes, 9);
    assert(template::template(span, text, holes) =~= seq![
        Token::Ident("__this"@, span),
        Token::Punct(',', false, span),
    ]);
}

/// Reads `starlark :: eval :: Arguments :: check_this ( $source ) ?`.
pub proof fn lemma_read_check_this(span: Span, source: Seq<Token>)
    ensures
        template::template(
            span,
            "starlark :: eval :: Arguments :: check_this ( $source ) ?"@,
            seq![("source"@, source)],
        ) == argument_call("check_this"@, source, span),
{
    reveal_strlit("starlark :: eval :: Arguments :: check_this ( $source ) ?");
    reveal_strlit("Arguments");
    reveal_strlit("check_this");
    reveal_strlit("eval");
    reveal_strlit("source");
    reveal_strlit("starlark");
    let text = "starlark :: eval :: Arguments :: check_this ( $source ) ?"@;
    let holes: Seq<Binding> = seq![("source"@, source)];
    let none = Seq::<Delim>::empty();
    template_laws::lemma_read_ident(span, text, holes, none, 0, "starlark"@);
    template_laws::lemma_read_operator(span, text, holes, none, 9);
    template_laws::lemma_read_ident(span, text, holes, none, 12, "eval"@);
    template_laws::lemma_read_operator(span, text, holes, none, 17);
    template_laws::lemma_read_ident(span, text, holes, none, 20, "Arguments"@);
    template_laws::lemma_read_operator(span, text, holes, none, 30);
    template_laws::lemma_read_ident(span, text, holes, none, 33, "check_this"@);
    template_laws::lemma_read_open(span, text, holes, none, 44, Delim::Paren);
    template_laws::lemma_read_hole(span, text, holes, none.push(Delim::Paren), 46, 0);
    template_laws::lemma_read_close(span, text, holes, none, 54, Delim::Paren);
    template_laws::lemma_read_mark(span, text, holes, none, 56);
    template_laws::lemma_read_end(span, text, holes, 58);
    assert(template::template(span, text, holes) =~= argument_call("check_this"@, source, span));
}

/// Reads `starlark :: eval :: Arguments :: check_optional ( $name_str , $source ) ?`.
pub proof fn lemma_read_check_optional(span: Span, name: Seq<char>, source: Seq<Token>, site: Span)
    ensures
        template::template(
            span,
            "starlark :: eval :: Arguments :: check_optional ( $name_str , $source ) ?"@,
            seq![
                ("name_str"@, seq![Token::Str(name, site)]),
                ("source"@, source),
            ],
        ) == argument_call(
            "check_optional"@,
            seq![Token::Str(name, site), Token::Punct(',', false, span)] + source,
            span,
        ),
{
    reveal_strlit("starlark :: eval :: Arguments :: check_optional ( $name_str , $source ) ?");
    reveal_strlit("Arguments");
    reveal_strlit("check_optional");
    reveal_strlit("eval");
    reveal_strlit("name_str");
    reveal_strlit("source");
    reveal_strlit("starlark");
    let text = "starlark :: eval :: Arguments :: check_optional ( $name_str , $source ) ?"@;
    let holes: Seq<Binding> = seq![
        ("name_str"@, seq![Token::Str(name, site)]),
        ("source"@, source),
    ];
    let none = Seq::<Delim>::empty();
    template_laws::lemma_read_ident(span, text, holes, none, 0, "starlark"@);
    template_laws::lemma_read_operator(span, text, holes, none, 9);
    template_laws::lemma_read_ident(span, text, holes, none, 12, "eval"@);
    template_laws::lemma_read_operator(span, text, holes, none, 17);
    template_laws::lemma_read_ident(span, text, holes, none, 20, "Arguments"@);
    template_laws::lemma_read_operator(span, text, holes, none, 30);
    template_laws::lemma_read_ident(span, text, holes, none, 33, "check_optional"@);
    template_laws::lemma_read_open(span, text, holes, none, 48, Delim::Paren);
    template_laws::lemma_read_hole(span, text, holes, none.push(Delim::Paren), 50, 0);
    template_laws::lemma_read_mark(span, text, holes, none.push(Delim::Paren), 60);
    template_laws::lemma_read_hole(span, text, holes, none.push(Delim::Paren), 62, 1);
    template_laws::lemma_read_close(span, text, holes, none, 70, Delim::Paren);
    template_laws::lemma_read_mark(span, text, holes, none, 72);
    template_laws::lemma_read_end(span, text, holes, 74);
    assert(template::template(span, text, holes) =~= argument_call(
        "check_optional"@,
        seq![Token::Str(name, site), Token::Punct(',', false, span)] + source,
        span,
    ));
}

/// Reads `starlark :: eval :: Arguments :: check_required ( $name_str , $source ) ?`.
pub proof fn lemma_read_check_required(span: Span, name: Seq<char>, source: Seq<Token>, site: Span)
    ensures
        template::template(
            span,
            "starlark :: eval :: Arguments :: check_required ( $name_str , $source ) ?"@,
            seq![
                ("name_str"@, seq![Token::Str(name, site)]),
                ("source"@, source),
            ],
        ) == argument_call(
            "check_required"@,
            seq![Token::Str(name, site), Token::Punct(',', false, span)] + source,
            span,
        ),
{
    reveal_strlit("starlark :: eval :: Arguments :: check_required ( $name_str , $source ) ?");
    reveal_strlit("Arguments");
    reveal_strlit("check_required");
    reveal_strlit("eval");
    reveal_strlit("name_str");
    reveal_strlit("source");
    reveal_strlit("starlark");
    let text = "starlark :: eval :: Arguments :: check_required ( $name_str , $source ) ?"@;
    let holes: Seq<Binding> = seq![
        ("name_str"@, seq![Token::Str(name, site)]),
        ("source"@, source),
    ];
    let none = Seq::<Delim>::empty();
    template_laws::lemma_read_ident(span, text, holes, none, 0, "starlark"@);
    template_laws::lemma_read_operator(span, text, holes, none, 9);
    template_laws::lemma_read_ident(span, text, holes, none, 12, "eval"@);
    template_laws::lemma_read_operator(span, text, holes, none, 17);
    template_laws::lemma_read_ident(span, text, holes, none, 20, "Arguments"@);
    template_laws::lemma_read_operator(span, text, holes, none, 30);
    template_laws::lemma_read_ident(span, text, holes, none, 33, "check_required"@);
    template_laws::lemma_read_open(span, text, holes, none, 48, Delim::Paren);
    template_laws::lemma_read_hole(span, text, holes, none.push(Delim::Paren), 50, 0);
    template_laws::lemma_read_mark(span, text, holes, none.push(Delim::Paren), 60);
    template_laws::lemma_read_hole(span, text, holes, none.push(Delim::Paren), 62, 1);
    template_laws::lemma_read_close(span, text, holes, none, 70, Delim::Paren);
    template_laws::lemma_read_mark(span, text, holes, none, 72);
    template_laws::lemma_read_end(span, text, holes, 74);
    assert(template::template(span, text, holes) =~= argument_call(
        "check_required"@,
        seq![Token::Str(name, site), Token::Punct(',', false, span)] + source,
        span,
    ));
}

/// Reads `$attrs let $mutability $name : $ty = $next ;`.
pub proof fn lemma_read_bind_arg(
    span: Span,
    attrs: Seq<Token>,
    mutability: Seq<Token>,
    name: Seq<Token>,
    ty: Seq<Token>,
    next: Seq<Token>,
)
    ensures
        template::template(
            span,
            "$attrs let $mutability $name : $ty = $next ;"@,
            seq![
                ("attrs"@, attrs),
                ("mutability"@, mutability),
                ("name"@, name),
                ("ty"@, ty),
                ("next"@, next),
            ],
        ) == attrs + seq![Token::Ident("let"@, span)] + mutability + name + seq![
            Token::Punct(':', false, span),
        ] + ty + seq![Token::Punct('=', false, span)] + next + seq![Token::Punct(';', false, span)],
{
    reveal_strlit("$attrs let $mutability $name : $ty = $next ;");
    reveal_strlit("attrs");
    reveal_strlit("let");
    reveal_strlit("mutability");
    reveal_strlit("name");
    reveal_strlit("next");
    reveal_strlit("ty");
    let text = "$attrs let $mutability $name : $ty = $next ;"@;
    let holes: Seq<Binding> = seq![
        ("attrs"@, attrs),
        ("mutability"@, mutability),
        ("name"@, name),
        ("ty"@, ty),
        ("next"@, next),
    ];
    assert("name"@[1] != "next"@[1]);
    let none = Seq::<Delim>::empty();
    template_laws::lemma_read_hole(span, text, holes, none, 0, 0);
    template_laws::lemma_read_ident(span, text, holes, none, 7, "let"@);
    template_laws::lemma_read_hole(span, text, holes, none, 11, 1);
    template_laws::lemma_read_hole(span, text, holes, none, 23, 2);
    template_laws::lemma_read_mark(span, text, holes, none, 29);
    template_laws::lemma_read_hole(span, text, holes, none, 31, 3);
    template_laws::lemma_read_mark(span, text, holes, none, 35);
    template_laws::lemma_read_hole(span, text, holes, none, 37, 4);
    template_laws::lemma_read_mark(span, text, holes, none, 43);
    template_laws::lemma_read_end(span, text, holes, 45);
    assert(template::template(span, text, holes) =~= attrs + seq![Token::Ident("let"@, span)] + mutability + name + seq![
        Token::Punct(':', false, span),
    ] + ty + seq![Token::Punct('=', false, span)] + next + seq![Token::Punct(';', false, span)]);
}

/// Reads `$attrs let $name : $ty = __args ;`.
pub proof fn lemma_read_bind_parameters(
    span: Span,
    attrs: Seq<Token>,
    name: Seq<Token>,
    ty: Seq<Token>,
)
    ensures
        template::template(
            span,
            "$attrs let $name : $ty = __args ;"@,
            seq![("attrs"@, attrs), ("name"@, name), ("ty"@, ty)],
        ) == attrs + seq![Token::Ident("let"@, span)] + name + seq![
            Token::Punct(':', false, span),
        ] + ty + seq![
            Token::Punct('=', false, span),
            Token::Ident("__args"@, span),
            Token::Punct(';', false, span),
        ],
{
    reveal_strlit("$attrs let $name : $ty = __args ;");
    reveal_strlit("__args");
    reveal_strlit("attrs");
    reveal_strlit("let");
    reveal_strlit("name");
    reveal_strlit("ty");
    let text = "$attrs let $name : $ty = __args ;"@;
    let holes: Seq<Binding> = seq![("attrs"@, attrs), ("name"@, name), ("ty"@, ty)];
    let none = Seq::<Delim>::empty();
    template_laws::lemma_read_hole(span, text, holes, none, 0, 0);
    template_laws::lemma_read_ident(span, text, holes, none, 7, "let"@);
    template_laws::lemma_read_hole(span, text, holes, none, 11, 1);
    template_laws::lemma_read_mark(span, text, holes, none, 17);
    template_laws::lemma_read_hole(span, text, holes, none, 19, 2);
    template_laws::lemma_read_mark(span, text, holes, none, 23);
    template_laws::lemma_read_ident(span, text, holes, none, 25, "__args"@);
    template_laws::lemma_read_mark(span, text, holes, none, 32);
    template_laws::lemma_read_end(span, text, holes, 34);
    assert(template::template(span, text, holes) =~= attrs + seq![Token::Ident("let"@, span)] + name + seq![
        Token::Punct(':', false, span),
    ] + ty + seq![
        Token::Punct('=', false, span),
        Token::Ident("__args"@, span),
        Token::Punct(';', false, span),
    ]);
}

/// Reads `$this $attrs let $name : $ty = __args ;`.
pub proof fn lemma_read_bind_this_parameters(
    span: Span,
    this: Seq<Token>,
    attrs: Seq<Token>,
    name: Seq<Token>,
    ty: Seq<Token>,
)
    ensures
        template::template(
            span,
            "$this $attrs let $name : $ty = __args ;"@,
            seq![
                ("this"@, this),
                ("attrs"@, attrs),
                ("name"@, name),
                ("ty"@, ty),
            ],
        ) == this + attrs + seq![Token::Ident("let"@, span)] + name + seq![
            Token::Punct(':', false, span),
        ] + ty + seq![
            Token::Punct('=', false, span),
            Token::Ident("__args"@, span),
            Token::Punct(';', false, span),
        ],
{
    reveal_strlit("$this $attrs let $name : $ty = __args ;");
    reveal_strlit("__args");
    reveal_strlit("attrs");
    reveal_strlit("let");
    reveal_strlit("name");
    reveal_strlit("this");
    reveal_strlit("ty");
    let text = "$this $attrs let $name : $ty = __args ;"@;
    let holes: Seq<Binding> = seq![
        ("this"@, this),
        ("attrs"@, attrs),
        ("name"@, name),
        ("ty"@, ty),
    ];
    let none = Seq::<Delim>::empty();
    template_laws::lemma_read_hole(span, text, holes, none, 0, 0);
    template_laws::lemma_read_hole(span, text, holes, none, 6, 1);
    template_laws::lemma_read_ident(span, text, holes, none, 13, "let"@);
    template_laws::lemma_read_hole(span, text, holes, none, 17, 2);
    template_laws::lemma_read_mark(span, text, holes, none, 23);
    template_laws::lemma_read_hole(span, text, holes, none, 25, 3);
    template_laws::lemma_read_mark(span, text, holes, none, 29);
    template_laws::lemma_read_ident(span, text, holes, none, 31, "__args"@);
    template_laws::lemma_read_mark(span, text, holes, none, 38);
    template_laws::lemma_read_end(span, text, holes, 40);
    assert(template::template(span, text, holes) =~= this + attrs + seq![Token::Ident("let"@, span)] + name + seq![
        Token::Punct(':', false, span),
    ] + ty + seq![
        Token::Punct('=', false, span),
        Token::Ident("__args"@, span),
        Token::Punct(';', false, span),
    ]);
}

/// An argument is taken from its own slot: the receiver from `__this`, any other from the
/// slot of its kind whose index it has, which is the one number in the code.
pub proof fn law_argument_is_taken_from_its_own_slot(arg: StarArg, site: Span)
    ensures
        arg.source == StarArgSource::This ==> binding::source_tokens(arg, site) == seq![
            Token::Ident("__this"@, arg.span),
        ],
        arg.source matches StarArgSource::Argument(i) ==> binding::source_tokens(arg, site)
            == seq![
            Token::Ident("__args"@, arg.span),
            Token::Open(Delim::Bracket, arg.span),
            Token::Usize(i, site),
            Token::Close(Delim::Bracket, arg.span),
            Token::Punct('.', false, arg.span),
            Token::Ident("get"@, arg.span),
            Token::Open(Delim::Paren, arg.span),
            Token::Close(Delim::Paren, arg.span),
        ],
        arg.source matches StarArgSource::Required(i) ==> binding::source_tokens(arg, site)
            == seq![
            Token::Ident("Some"@, arg.span),
            Token::Open(Delim::Paren, arg.span),
            Token::Ident("__required"@, arg.span),
            Token::Open(Delim::Bracket, arg.span),
            Token::Usize(i, site),
            Token::Close(Delim::Bracket, arg.span),
            Token::Close(Delim::Paren, arg.span),
        ],
        arg.source matches StarArgSource::Optional(i) ==> binding::source_tokens(arg, site)
            == seq![
            Token::Ident("__optional"@, arg.span),
            Token::Open(Delim::Bracket, arg.span),
            Token::Usize(i, site),
            Token::Close(Delim::Bracket, arg.span),
        ],
{
    match arg.source {
        StarArgSource::Unknown => {},
        StarArgSource::This => {
            lemma_read_source_this(arg.span);
        },
        StarArgSource::Argument(i) => {
            lemma_read_source_argument(arg.span, i, site);
        },
        StarArgSource::Required(i) => {
            lemma_read_source_required(arg.span, i, site);
        },
        StarArgSource::Optional(i) => {
            lemma_read_source_optional(arg.span, i, site);
        },
    }
}

/// Two arguments are taken by the same code only if they have the same slot.
pub proof fn law_different_slots_are_told_apart(a: StarArg, b: StarArg, site: Span)
    requires
        a.source != StarArgSource::Unknown,
        b.source != StarArgSource::Unknown,
        binding::source_tokens(a, site) == binding::source_tokens(b, site),
    ensures
        a.source == b.source,
{
    law_argument_is_taken_from_its_own_slot(a, site);
    law_argument_is_taken_from_its_own_slot(b, site);
    let first = binding::source_tokens(a, site);
    let second = binding::source_tokens(b, site);
    assert(a.source is This ==> first.len() == 1);
    assert(a.source is Argument ==> first.len() == 8);
    assert(a.source is Required ==> first.len() == 7);
    assert(a.source is Optional ==> first.len() == 4);
    assert(b.source is This ==> second.len() == 1);
    assert(b.source is Argument ==> second.len() == 8);
    assert(b.source is Required ==> second.len() == 7);
    assert(b.source is Optional ==> second.len() == 4);
    match (a.source, b.source) {
        (StarArgSource::Argument(i), StarArgSource::Argument(j)) => {
            assert(first[2] == Token::Usize(i, site) && second[2] == Token::Usize(j, site));
        },
        (StarArgSource::Required(i), StarArgSource::Required(j)) => {
            assert(first[4] == Token::Usize(i, site) && second[4] == Token::Usize(j, site));
        },
        (StarArgSource::Optional(i), StarArgSource::Optional(j)) => {
            assert(first[2] == Token::Usize(i, site) && second[2] == Token::Usize(j, site));
        },
        _ => {},
    }
}

/// The value of an argument is checked by what the argument is: as a receiver, as a value
/// that may be missing, as one for which its default is made where it is missing, or as one
/// that has to be there. It is always the value of the argument's own source, and the name
/// that is told in an error is the argument's own.
pub proof fn law_argument_is_checked_by_what_it_is(arg: StarArg, site: Span)
    ensures
        arg.this ==> binding::checked_tokens(arg, site) == argument_call(
            "check_this"@,
            binding::source_tokens(arg, site),
            arg.span,
        ),
        !arg.this && arg.is_option ==> binding::checked_tokens(arg, site) == argument_call(
            "check_optional"@,
            seq![Token::Str(arg.name_str@, site), Token::Punct(',', false, arg.span)]
                + binding::source_tokens(arg, site),
            arg.span,
        ),
        !arg.this && !arg.is_option && (arg.is_value || arg.default is None)
            ==> binding::checked_tokens(arg, site) == argument_call(
            "check_required"@,
            seq![Token::Str(arg.name_str@, site), Token::Punct(',', false, arg.span)]
                + binding::source_tokens(arg, site),
            arg.span,
        ),
        !arg.this && !arg.is_option && !arg.is_value ==> (arg.default matches Some(default)
            ==> binding::checked_tokens(arg, site) == template::template(
            arg.span,
            "{ \
            # [ allow ( clippy :: manual_unwrap_or ) ] \
            # [ allow ( clippy :: unnecessary_lazy_evaluations ) ] \
            # [ allow ( clippy :: redundant_closure ) ] \
            let x = starlark :: eval :: Arguments :: check_optional ( $name_str , $source ) ? \
            . unwrap_or_else ( || $default ) ; \
            x }"@,
            seq![
                ("name_str"@, seq![Token::Str(arg.name_str@, site)]),
                ("source"@, binding::source_tokens(arg, site)),
                ("default"@, tokens::tokens_of(default)),
            ],
        )),
{
    let source = binding::source_tokens(arg, site);
    lemma_read_check_this(arg.span, source);
    lemma_read_check_optional(arg.span, arg.name_str@, source, site);
    lemma_read_check_required(arg.span, arg.name_str@, source, site);
}

/// An argument is bound to its own name and type, under its own attributes, and mutably if
/// and only if it is declared so.
pub proof fn law_argument_is_bound_as_declared(arg: StarArg, site: Span)
    ensures
        binding::binding_arg_tokens(arg, site) == tokens::all_tokens(arg.attrs@) + seq![
            Token::Ident("let"@, arg.span),
        ] + (if arg.mutable {
            seq![Token::Ident("mut"@, site)]
        } else {
            Seq::empty()
        }) + tokens::tokens_of(arg.name) + seq![Token::Punct(':', false, arg.span)]
            + tokens::tokens_of(arg.ty) + seq![Token::Punct('=', false, arg.span)]
            + binding::checked_tokens(arg, site) + seq![Token::Punct(';', false, arg.span)],
{
    lemma_read_bind_arg(
        arg.span,
        tokens::all_tokens(arg.attrs@),
        tokens::mut_tokens(arg.mutable, site),
        tokens::tokens_of(arg.name),
        tokens::tokens_of(arg.ty),
        binding::checked_tokens(arg, site),
    );
}

/// Arguments are bound one after the other, each of them once.
pub proof fn law_arguments_are_bound_in_order(a: Seq<StarArg>, b: Seq<StarArg>, site: Span)
    ensures
        binding::binding_args_tokens(a + b, site) == binding::binding_args_tokens(a, site)
            + binding::binding_args_tokens(b, site),
        a.len() == 1 ==> binding::binding_args_tokens(a, site) == binding::binding_arg_tokens(
            a[0],
            site,
        ),
        a.len() == 0 ==> binding::binding_args_tokens(a, site) == Seq::<Token>::empty(),
    decreases b.len(),
{
    if a.len() == 1 {
        reveal_with_fuel(binding::binding_args_tokens, 2);
        assert(binding::binding_args_tokens(a, site) =~= binding::binding_arg_tokens(a[0], site));
    }
    if b.len() == 0 {
        assert(a + b =~= a);
        assert(binding::binding_args_tokens(a, site) + binding::binding_args_tokens(b, site)
            =~= binding::binding_args_tokens(a, site));
    } else {
        law_arguments_are_bound_in_order(a, b.drop_last(), site);
        assert((a + b).drop_last() =~= a + b.drop_last());
        assert((a + b).last() == b.last());
        assert(binding::binding_args_tokens(a + b, site) =~= binding::binding_args_tokens(a, site)
            + binding::binding_args_tokens(b, site));
    }
}

/// Raw arguments are bound as they are, to the name and type of the parameter that takes
/// them, behind the receiver if there is one.
pub proof fn law_raw_arguments_are_bound_as_they_are(x: StarFun, site: Span)
    ensures
        x.source == StarFunSource::Parameters ==> binding::binding_tokens(x, site)
            == tokens::all_tokens(x.args@[0].attrs@) + seq![
            Token::Ident("let"@, x.args@[0].span),
        ] + tokens::tokens_of(x.args@[0].name) + seq![Token::Punct(':', false, x.args@[0].span)]
            + tokens::tokens_of(x.args@[0].ty) + seq![
            Token::Punct('=', false, x.args@[0].span),
            Token::Ident("__args"@, x.args@[0].span),
            Token::Punct(';', false, x.args@[0].span),
        ],
        x.source == StarFunSource::ThisParameters ==> binding::binding_tokens(x, site)
            == binding::binding_arg_tokens(x.args@[0], site) + tokens::all_tokens(
            x.args@[1].attrs@,
        ) + seq![Token::Ident("let"@, x.args@[1].span)] + tokens::tokens_of(x.args@[1].name)
            + seq![Token::Punct(':', false, x.args@[1].span)] + tokens::tokens_of(x.args@[1].ty)
            + seq![
            Token::Punct('=', false, x.args@[1].span),
            Token::Ident("__args"@, x.args@[1].span),
            Token::Punct(';', false, x.args@[1].span),
        ],
{
    if x.source == StarFunSource::Parameters {
        let arg = x.args@[0];
        lemma_read_bind_parameters(
            arg.span,
            tokens::all_tokens(arg.attrs@),
            tokens::tokens_of(arg.name),
            tokens::tokens_of(arg.ty),
        );
    }
    if x.source == StarFunSource::ThisParameters {
        let arg = x.args@[1];
        lemma_read_bind_this_parameters(
            arg.span,
            binding::binding_arg_tokens(x.args@[0], site),
            tokens::all_tokens(arg.attrs@),
            tokens::tokens_of(arg.name),
            tokens::tokens_of(arg.ty),
        );
    }
}

/// Before the arguments are bound they are collected into as many slots as the function
/// says: by the signature, or by position, and then without named ones.
pub proof fn law_arguments_are_collected_into_their_slots(x: StarFun, site: Span)
    ensures
        x.source matches StarFunSource::Argument(count) ==> binding::binding_tokens(x, site)
            == template::template(
            x.args_span,
            "let __args : [ _ ; $arg_count ] = __signature . collect_into ( __args , eval . heap ( ) ) ? ; \
            $bind_args"@,
            seq![
                ("arg_count"@, seq![Token::Usize(count, site)]),
                ("bind_args"@, binding::binding_args_tokens(x.args@, site)),
            ],
        ),
        x.source matches StarFunSource::Positional(required, optional) ==> (if optional == 0 {
            binding::binding_tokens(x, site) == template::template(
                x.args_span,
                "__args . no_named_args ( ) ? ; \
                let __required : [ _ ; $required ] = __args . positional ( eval . heap ( ) ) ? ; \
                $bind_args"@,
                seq![
                    ("required"@, seq![Token::Usize(required, site)]),
                    ("bind_args"@, binding::binding_args_tokens(x.args@, site)),
                ],
            )
        } else {
            binding::binding_tokens(x, site) == template::template(
                x.args_span,
                "__args . no_named_args ( ) ? ; \
                let ( __required , __optional ) : ( [ _ ; $required ] , [ _ ; $optional ] ) = \
                __args . optional ( eval . heap ( ) ) ? ; \
                $bind_args"@,
                seq![
                    ("required"@, seq![Token::Usize(required, site)]),
                    ("optional"@, seq![Token::Usize(optional, site)]),
                    ("bind_args"@, binding::binding_args_tokens(x.args@, site)),
                ],
            )
        }),
{
}

/// What an argument is added to a signature as. A receiver is not added. Every other one
/// is added under its name without outer underscores; it has to be given if and only if it
/// is no option and has no default, and a default of type `Value` is held ready.
pub proof fn law_argument_is_added_by_what_it_is(arg: StarArg, site: Span)
    ensures
        arg.is_args ==> signature::signature_arg_tokens(arg, site) == call_of(
            "args"@,
            Seq::empty(),
            arg.span,
        ),
        !arg.is_args && arg.is_kwargs ==> signature::signature_arg_tokens(arg, site) == call_of(
            "kwargs"@,
            Seq::empty(),
            arg.span,
        ),
        !arg.is_args && !arg.is_kwargs && arg.this ==> signature::signature_arg_tokens(arg, site)
            == Seq::<Token>::empty(),
        !arg.is_args && !arg.is_kwargs && !arg.this && (arg.is_option || arg.default is Some
            && !arg.is_value) ==> signature::signature_arg_tokens(arg, site) == call_of(
            "optional"@,
            seq![Token::Str(signature::trimmed(arg.name_str@), site)],
            arg.span,
        ),
        !arg.is_args && !arg.is_kwargs && !arg.this && !arg.is_option && arg.is_value ==> (
        arg.default matches Some(default) ==> signature::signature_arg_tokens(arg, site)
            == call_of(
            "defaulted"@,
            defaulted_arguments(
                signature::trimmed(arg.name_str@),
                tokens::tokens_of(default),
                arg.span,
                site,
            ),
            arg.span,
        )),
        !arg.is_args && !arg.is_kwargs && !arg.this && !arg.is_option && arg.default is None
            ==> signature::signature_arg_tokens(arg, site) == call_of(
            "required"@,
            seq![Token::Str(signature::trimmed(arg.name_str@), site)],
            arg.span,
        ),
{
    let name = signature::trimmed(arg.name_str@);
    lemma_read_call_args(arg.span);
    lemma_read_call_kwargs(arg.span);
    lemma_read_call_optional(arg.span, name, site);
    lemma_read_call_required(arg.span, name, site);
    if let Some(default) = arg.default {
        lemma_read_call_defaulted(arg.span, name, tokens::tokens_of(default), site);
    }
}

/// The signature of no arguments is empty, and one more argument adds its own statement to
/// that of the others, behind the statement that ends the parameters of another pass style
/// where its own is a new one. The style is positional-only at the start, and named-only
/// behind `*args`.
pub proof fn law_signature_adds_its_last_argument(args: Seq<StarArg>, arg: StarArg, site: Span)
    requires
        signature::signature_args_outcome(args.push(arg), site) is Ok,
    ensures
        signature::signature_args_outcome(Seq::empty(), site) == Ok::<Seq<Token>, syn::Error>(
            Seq::empty(),
        ),
        ({
            let style = if args.len() == 0 {
                StarArgPassStyle::PosOnly
            } else if args.last().is_args {
                StarArgPassStyle::NamedOnly
            } else {
                args.last().pass_style
            };
            let ended = if arg.is_args || arg.pass_style == style {
                Seq::empty()
            } else if arg.pass_style == StarArgPassStyle::NamedOnly {
                call_of("no_more_positional_args"@, Seq::empty(), arg.span)
            } else {
                call_of("no_more_positional_only_args"@, Seq::empty(), arg.span)
            };
            signature::signature_args_outcome(args, site) matches Ok(before)
                && signature::signature_args_outcome(args.push(arg), site) == Ok::<
                Seq<Token>,
                syn::Error,
            >(before + ended + signature::signature_arg_tokens(arg, site))
        }),
{
    let all = args.push(arg);
    let n = args.len() as int;
    assert(all.take(n) =~= args);
    render_laws::law_signature_grows_with_its_arguments(all, n, site);
    render_laws::lemma_statements_of_prefix(all, n, n, site);
    signature::lemma_misplaced_from(all, 0);
    signature::lemma_misplaced_from(args, 0);
    assert(all[n] == arg);
    assert(n > 0 ==> all[n - 1] == args.last());
    assert(!signature::misplaced(all, n));
    lemma_read_call_no_more_positional_args(arg.span);
    lemma_read_call_no_more_positional_only_args(arg.span);
}

/// A positional-only argument that follows one that is not is refused: the error says so,
/// and is at the first such argument.
pub proof fn law_refusal_is_at_the_first_argument_out_of_place(
    args: Seq<StarArg>,
    k: int,
    site: Span,
)
    requires
        0 < k < args.len(),
        !args[k].is_args && args[k].pass_style == StarArgPassStyle::PosOnly,
        args[k - 1].is_args || args[k - 1].pass_style != StarArgPassStyle::PosOnly,
        forall|j: int|
            0 < j < k ==> ((#[trigger] args[j]).is_args || args[j].pass_style
                != StarArgPassStyle::PosOnly || !args[j - 1].is_args && args[j - 1].pass_style
                == StarArgPassStyle::PosOnly),
    ensures
        signature::signature_args_outcome(args, site) == Err::<Seq<Token>, syn::Error>(
            signature::error_at(
                args[k].span,
                "Positional-only parameter after non-positional-only"@,
            ),
        ),
{
    signature::lemma_misplaced_from(args, 0);
    let first = signature::misplaced_from(args, 0);
    assert(signature::misplaced(args, k));
    if first < k {
        assert(signature::misplaced(args, first));
        assert(args[first].is_args || args[first].pass_style != StarArgPassStyle::PosOnly
            || !args[first - 1].is_args && args[first - 1].pass_style
            == StarArgPassStyle::PosOnly);
    }
}

/// A call of a `ParametersSpec` that is being built.
pub enum Call {
    Args,
    Kwargs,
    Optional(Seq<char>),
    Defaulted(Seq<char>, Seq<Token>),
    Required(Seq<char>),
    EndPositionalOnly,
    EndPositional,
}

/// The statement that makes a call.
pub open spec fn statement(call: Call, span: Span, site: Span) -> Seq<Token> {
    match call {
        Call::Args => call_of("args"@, Seq::empty(), span),
        Call::Kwargs => call_of("kwargs"@, Seq::empty(), span),
        Call::Optional(name) => call_of("optional"@, seq![Token::Str(name, site)], span),
        Call::Defaulted(name, default) => call_of(
            "defaulted"@,
            defaulted_arguments(name, default, span, site),
            span,
        ),
        Call::Required(name) => call_of("required"@, seq![Token::Str(name, site)], span),
        Call::EndPositionalOnly => call_of("no_more_positional_only_args"@, Seq::empty(), span),
        Call::EndPositional => call_of("no_more_positional_args"@, Seq::empty(), span),
    }
}

/// The statements that make some calls, in order, each at its span.
pub open spec fn statements(calls: Seq<(Call, Span)>, site: Span) -> Seq<Token>
    decreases calls.len(),
{
    if calls.len() == 0 {
        Seq::empty()
    } else {
        statements(calls.drop_last(), site) + statement(calls.last().0, calls.last().1, site)
    }
}

/// How the parameters that are declared next may be passed: by position only, until that is
/// ended, and by name only once the positional ones are ended or `*args` is declared.
pub open spec fn style_after(calls: Seq<(Call, Span)>) -> StarArgPassStyle
    decreases calls.len(),
{
    if calls.len() == 0 {
        StarArgPassStyle::PosOnly
    } else {
        match calls.last().0 {
            Call::EndPositionalOnly => StarArgPassStyle::PosOrNamed,
            Call::EndPositional | Call::Args => StarArgPassStyle::NamedOnly,
            _ => style_after(calls.drop_last()),
        }
    }
}

/// The parameters that some calls declare, in order, and how each may be passed.
pub open spec fn declared(calls: Seq<(Call, Span)>) -> Seq<(Call, StarArgPassStyle)>
    decreases calls.len(),
{
    if calls.len() == 0 {
        Seq::empty()
    } else {
        let before = declared(calls.drop_last());
        match calls.last().0 {
            Call::EndPositionalOnly | Call::EndPositional => before,
            call => before.push((call, style_after(calls.drop_last()))),
        }
    }
}

/// No call ends what has been ended already.
pub open spec fn ends_once(calls: Seq<(Call, Span)>) -> bool {
    forall|i: int|
        0 <= i < calls.len() ==> match (#[trigger] calls[i]).0 {
            Call::EndPositionalOnly => style_after(calls.take(i)) != StarArgPassStyle::PosOrNamed,
            Call::EndPositional => style_after(calls.take(i)) != StarArgPassStyle::NamedOnly,
            _ => true,
        }
}

/// The arguments that are parameters for a caller: all but a receiver, unless that is named
/// like `*args` or `**kwargs`.
pub open spec fn listed(args: Seq<StarArg>) -> Seq<StarArg> {
    args.filter(|arg: StarArg| !arg.this || arg.is_args || arg.is_kwargs)
}

/// What an argument has to be for a caller to be declared by `call`.
pub open spec fn fits(arg: StarArg, call: Call) -> bool {
    let name = signature::trimmed(arg.name_str@);
    let may_be_missing = arg.is_option || arg.default is Some;
    match call {
        Call::Args => arg.is_args,
        Call::Kwargs => !arg.is_args && arg.is_kwargs,
        Call::Required(n) => !arg.is_args && !arg.is_kwargs && !may_be_missing && n == name,
        Call::Optional(n) => !arg.is_args && !arg.is_kwargs && may_be_missing && n == name && (
        arg.is_option || !arg.is_value),
        Call::Defaulted(n, default) => !arg.is_args && !arg.is_kwargs && !arg.is_option
            && arg.is_value && n == name && arg.default is Some && default == tokens::tokens_of(
            arg.default->Some_0,
        ),
        Call::EndPositionalOnly | Call::EndPositional => false,
    }
}

/// The calls declare just the parameters that the arguments are, in order, each with its
/// pass style.
pub open spec fn declares(calls: Seq<(Call, Span)>, args: Seq<StarArg>) -> bool {
    &&& declared(calls).len() == listed(args).len()
    &&& forall|i: int|
        0 <= i < listed(args).len() ==> fits(listed(args)[i], (#[trigger] declared(calls)[i]).0)
            && (!listed(args)[i].is_args ==> declared(calls)[i].1 == listed(args)[i].pass_style)
}

proof fn lemma_add_call(calls: Seq<(Call, Span)>, call: Call, span: Span, site: Span)
    requires
        ends_once(calls),
        call is EndPositionalOnly ==> style_after(calls) != StarArgPassStyle::PosOrNamed,
        call is EndPositional ==> style_after(calls) != StarArgPassStyle::NamedOnly,
    ensures
        ends_once(calls.push((call, span))),
        statements(calls.push((call, span)), site) == statements(calls, site) + statement(
            call,
            span,
            site,
        ),
        style_after(calls.push((call, span))) == (match call {
            Call::EndPositionalOnly => StarArgPassStyle::PosOrNamed,
            Call::EndPositional | Call::Args => StarArgPassStyle::NamedOnly,
            _ => style_after(calls),
        }),
        declared(calls.push((call, span))) == (match call {
            Call::EndPositionalOnly | Call::EndPositional => declared(calls),
            _ => declared(calls).push((call, style_after(calls))),
        }),
{
    let all = calls.push((call, span));
    assert(all.drop_last() =~= calls);
    assert forall|i: int| 0 <= i < all.len() implies match (#[trigger] all[i]).0 {
        Call::EndPositionalOnly => style_after(all.take(i)) != StarArgPassStyle::PosOrNamed,
        Call::EndPositional => style_after(all.take(i)) != StarArgPassStyle::NamedOnly,
        _ => true,
    } by {
        if i < calls.len() {
            assert(all[i] == calls[i]);
            assert(all.take(i) =~= calls.take(i));
        } else {
            assert(all.take(i) =~= calls);
        }
    }
}

proof fn lemma_listed_push(args: Seq<StarArg>, arg: StarArg)
    ensures
        listed(args.push(arg)) == (if !arg.this || arg.is_args || arg.is_kwargs {
            listed(args).push(arg)
        } else {
            listed(args)
        }),
{
    reveal(Seq::filter);
    assert(args.push(arg).drop_last() =~= args);
}

proof fn lemma_signature_is_read(args: Seq<StarArg>, site: Span) -> (calls: Seq<(Call, Span)>)
    requires
        signature::signature_args_outcome(args, site) is Ok,
    ensures
        signature::signature_args_outcome(args, site)->Ok_0 == statements(calls, site),
        ends_once(calls),
        declares(calls, args),
        style_after(calls) == (if args.len() == 0 {
            StarArgPassStyle::PosOnly
        } else if args.last().is_args {
            StarArgPassStyle::NamedOnly
        } else {
            args.last().pass_style
        }),
    decreases args.len(),
{
    let none = Seq::<(Call, Span)>::empty();
    if args.len() == 0 {
        reveal(Seq::filter);
        assert(args =~= Seq::empty());
        assert(signature::signature_args_outcome(args, site)->Ok_0 =~= statements(none, site));
        none
    } else {
        let before = args.drop_last();
        let arg = args.last();
        assert(before.push(arg) =~= args);
        law_signature_adds_its_last_argument(before, arg, site);
        law_argument_is_added_by_what_it_is(arg, site);
        lemma_listed_push(before, arg);
        let start = lemma_signature_is_read(before, site);
        let style = style_after(start);
        let mid = if arg.is_args || arg.pass_style == style {
            start
        } else if arg.pass_style == StarArgPassStyle::NamedOnly {
            lemma_add_call(start, Call::EndPositional, arg.span, site);
            start.push((Call::EndPositional, arg.span))
        } else {
            signature::lemma_misplaced_from(args, 0);
            assert(!signature::misplaced(args, args.len() - 1));
            assert(args.len() > 1 ==> args[args.len() - 2] == before.last());
            lemma_add_call(start, Call::EndPositionalOnly, arg.span, site);
            start.push((Call::EndPositionalOnly, arg.span))
        };
        let name = signature::trimmed(arg.name_str@);
        if arg.this && !arg.is_args && !arg.is_kwargs {
            assert(signature::signature_args_outcome(args, site)->Ok_0 =~= statements(mid, site));
            mid
        } else {
            let call = if arg.is_args {
                Call::Args
            } else if arg.is_kwargs {
                Call::Kwargs
            } else if arg.is_option || arg.default is Some && !arg.is_value {
                Call::Optional(name)
            } else if arg.default is Some {
                Call::Defaulted(name, tokens::tokens_of(arg.default->Some_0))
            } else {
                Call::Required(name)
            };
            lemma_add_call(mid, call, arg.span, site);
            assert(signature::signature_args_outcome(args, site)->Ok_0 =~= statements(
                mid.push((call, arg.span)),
                site,
            ));
            mid.push((call, arg.span))
        }
    }
}

/// Read back, a signature declares just the parameters that the arguments are: in their
/// order, each under its name, each to be given or not as its argument says, and each to be
/// passed in the way that its argument says. The statements that change the way are made
/// only where it changes.
pub proof fn law_signature_declares_its_parameters(args: Seq<StarArg>, site: Span)
    requires
        signature::signature_args_outcome(args, site) is Ok,
    ensures
        exists|calls: Seq<(Call, Span)>|
            #![trigger declares(calls, args)]
            signature::signature_args_outcome(args, site)->Ok_0 == statements(calls, site)
                && ends_once(calls) && declares(calls, args),
{
    let calls = lemma_signature_is_read(args, site);
    assert(declares(calls, args));
}

} // verus!
