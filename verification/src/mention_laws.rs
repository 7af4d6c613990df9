//! Which rendered code mentions `__signature`.

use proc_macro2::Span;
use vstd::prelude::*;

use crate::binding;
use crate::fun;
use crate::render_laws;
use crate::signature;
use crate::template::{self, Binding};
use crate::tokens::{self, Delim, Token};
use crate::typ::{StarArg, StarArgSource, StarFun, StarFunSource};

verus! {

/// The identifier `__signature`.
pub open spec fn is_mention(token: Token) -> bool {
    token matches Token::Ident(text, _) && text == fun::SIGNATURE_VAL@
}

/// `__signature` is among the tokens.
pub open spec fn mentions(code: Seq<Token>) -> bool {
    exists|i: int| 0 <= i < code.len() && is_mention(#[trigger] code[i])
}

/// The attributes, the name or the type of an argument mention `__signature`.
pub open spec fn declaration_mentions(arg: StarArg) -> bool {
    ||| mentions(tokens::all_tokens(arg.attrs@))
    ||| mentions(tokens::tokens_of(arg.name))
    ||| mentions(tokens::tokens_of(arg.ty))
}

/// What is written of an argument into its binding mentions `__signature`. A default is
/// written there unless the argument is a receiver, an option or a `Value`.
pub open spec fn arg_mentions(arg: StarArg) -> bool {
    ||| declaration_mentions(arg)
    ||| !arg.this && !arg.is_option && !arg.is_value && (arg.default matches Some(default)
        && mentions(tokens::tokens_of(default)))
}

/// What is written of the arguments into the bindings of a function that does not collect
/// them by a signature mentions `__signature`. Only the arguments that are bound count.
pub open spec fn args_mention(x: StarFun) -> bool {
    match x.source {
        StarFunSource::Unknown | StarFunSource::Argument(_) => false,
        StarFunSource::Parameters => declaration_mentions(x.args@[0]),
        StarFunSource::ThisParameters => arg_mentions(x.args@[0]) || declaration_mentions(
            x.args@[1],
        ),
        StarFunSource::Positional(_, _) => exists|i: int|
            0 <= i < x.args@.len() && arg_mentions(#[trigger] x.args@[i]),
    }
}

proof fn lemma_mentions_concat(a: Seq<Token>, b: Seq<Token>)
    ensures
        mentions(a + b) == (mentions(a) || mentions(b)),
{
    if mentions(a + b) {
        let i = choose|i: int| 0 <= i < (a + b).len() && is_mention(#[trigger] (a + b)[i]);
        if i < a.len() {
            assert(is_mention(a[i]));
        } else {
            assert(is_mention(b[i - a.len()]));
        }
    }
    if mentions(a) {
        let i = choose|i: int| 0 <= i < a.len() && is_mention(#[trigger] a[i]);
        assert(is_mention((a + b)[i]));
    }
    if mentions(b) {
        let i = choose|i: int| 0 <= i < b.len() && is_mention(#[trigger] b[i]);
        assert(is_mention((a + b)[i + a.len()]));
    }
}

proof fn lemma_mentions_one(token: Token)
    ensures
        mentions(seq![token]) == is_mention(token),
{
    if is_mention(token) {
        assert(is_mention(seq![token][0]));
    }
}

/// None of the tokens that fill a hole is `__signature`.
pub open spec fn holes_unsigned(holes: Seq<Binding>) -> bool {
    forall|k: int| 0 <= k < holes.len() ==> !mentions((#[trigger] holes[k]).1)
}

/// A word that does not stand for `__signature`.
pub open spec fn unsigned_word(word: Seq<char>) -> bool {
    &&& word != fun::SIGNATURE_VAL@
    &&& word.len() > 0 ==> word.skip(1) != fun::SIGNATURE_VAL@
}

proof fn lemma_bound_unsigned(holes: Seq<Binding>, name: Seq<char>)
    requires
        holes_unsigned(holes),
    ensures
        !mentions(template::bound_to(holes, name)),
    decreases holes.len(),
{
    if holes.len() > 0 && holes[0].0 != name {
        let rest = holes.drop_first();
        assert forall|k: int| 0 <= k < rest.len() implies !mentions((#[trigger] rest[k]).1) by {
            assert(rest[k] == holes[k + 1]);
        }
        lemma_bound_unsigned(rest, name);
    }
}

proof fn lemma_operator_unsigned(span: Span, word: Seq<char>)
    ensures
        !mentions(template::operator_tokens(span, word)),
    decreases word.len(),
{
    if word.len() > 0 {
        render_laws::lemma_char_range(word[0]);
        let first = Token::Punct(word[0], word.len() > 1, span);
        lemma_operator_unsigned(span, word.drop_first());
        lemma_mentions_one(first);
        lemma_mentions_concat(seq![first], template::operator_tokens(span, word.drop_first()));
    }
}

proof fn lemma_word_unsigned(span: Span, word: Seq<char>, holes: Seq<Binding>)
    requires
        unsigned_word(word),
        holes_unsigned(holes),
    ensures
        !mentions(template::word_tokens(span, word, holes)),
{
    lemma_operator_unsigned(span, word);
    lemma_bound_unsigned(holes, word.skip(1));
}

proof fn lemma_closing_unsigned(span: Span, open: Seq<Delim>)
    ensures
        !mentions(template::closing_tokens(span, open)),
    decreases open.len(),
{
    if open.len() > 0 {
        let first = Token::Close(open.last(), span);
        lemma_closing_unsigned(span, open.drop_last());
        lemma_mentions_one(first);
        lemma_mentions_concat(seq![first], template::closing_tokens(span, open.drop_last()));
    }
}

proof fn lemma_fill_unsigned(
    span: Span,
    words: Seq<Seq<char>>,
    holes: Seq<Binding>,
    open: Seq<Delim>,
)
    requires
        forall|k: int| 0 <= k < words.len() ==> unsigned_word(#[trigger] words[k]),
        holes_unsigned(holes),
    ensures
        !mentions(template::fill(span, words, holes, open)),
    decreases words.len(),
{
    if words.len() == 0 {
        lemma_closing_unsigned(span, open);
    } else {
        let word = words[0];
        let rest = words.drop_first();
        assert(unsigned_word(words[0]));
        assert forall|k: int| 0 <= k < rest.len() implies unsigned_word(#[trigger] rest[k]) by {
            assert(rest[k] == words[k + 1]);
        }
        if let Some(delim) = template::opening(word) {
            lemma_fill_unsigned(span, rest, holes, open.push(delim));
            lemma_mentions_one(Token::Open(delim, span));
            lemma_mentions_concat(
                seq![Token::Open(delim, span)],
                template::fill(span, rest, holes, open.push(delim)),
            );
        } else if let Some(delim) = template::closing(word) {
            if open.len() > 0 && open.last() == delim {
                lemma_fill_unsigned(span, rest, holes, open.drop_last());
                lemma_mentions_one(Token::Close(delim, span));
                lemma_mentions_concat(
                    seq![Token::Close(delim, span)],
                    template::fill(span, rest, holes, open.drop_last()),
                );
            } else {
                lemma_fill_unsigned(span, rest, holes, open);
            }
        } else {
            lemma_fill_unsigned(span, rest, holes, open);
            lemma_word_unsigned(span, word, holes);
            lemma_mentions_concat(
                template::word_tokens(span, word, holes),
                template::fill(span, rest, holes, open),
            );
        }
    }
}

/// A word is the part of the text from `a` to `b`.
pub open spec fn part(text: Seq<char>, word: Seq<char>, a: int, b: int) -> bool {
    0 <= a < b <= text.len() && word == text.subrange(a, b)
}

proof fn lemma_word_is_part(text: Seq<char>, i: int, k: int)
    requires
        0 <= i,
        0 <= k < template::words_from(text, i).len(),
    ensures
        exists|a: int, b: int| part(text, template::words_from(text, i)[k], a, b),
    decreases text.len() - i,
{
    let words = template::words_from(text, i);
    if i < text.len() {
        if text[i] == ' ' {
            lemma_word_is_part(text, i + 1, k);
        } else {
            let end = template::word_end(text, i + 1);
            template::lemma_word_end(text, i + 1);
            if k == 0 {
                assert(part(text, words[0], i, end));
            } else {
                let rest = template::words_from(text, end);
                assert(words[k] == rest[k - 1]);
                lemma_word_is_part(text, end, k - 1);
            }
        }
    }
}

/// No `__s` stands in the text from position `i` on, so no word of it is `__signature`.
pub open spec fn unsigned_from(text: Seq<char>, i: int) -> bool
    decreases text.len() - i,
{
    i + 2 >= text.len() || (!(text[i] == '_' && text[i + 1] == '_' && text[i + 2] == 's')
        && unsigned_from(text, i + 1))
}

proof fn lemma_unsigned(text: Seq<char>, i: int, j: int)
    requires
        unsigned_from(text, i),
        i <= j,
        j + 2 < text.len(),
    ensures
        !(text[j] == '_' && text[j + 1] == '_' && text[j + 2] == 's'),
    decreases j - i,
{
    if i < j {
        lemma_unsigned(text, i + 1, j);
    }
}

proof fn lemma_words_unsigned(text: Seq<char>, k: int)
    requires
        unsigned_from(text, 0),
        0 <= k < template::words_from(text, 0).len(),
    ensures
        unsigned_word(template::words_from(text, 0)[k]),
{
    reveal_strlit("__signature");
    let name = fun::SIGNATURE_VAL@;
    let word = template::words_from(text, 0)[k];
    lemma_word_is_part(text, 0, k);
    let (a, b) = choose|a: int, b: int| part(text, word, a, b);
    assert(part(text, word, a, b));
    assert(name.len() == 11);
    if word == name {
        assert(text[a] == word[0] && text[a + 1] == word[1] && text[a + 2] == word[2]);
        lemma_unsigned(text, 0, a);
    }
    if word.len() > 0 && word.skip(1) == name {
        let tail = word.skip(1);
        assert(tail[0] == word[1] && tail[1] == word[2] && tail[2] == word[3]);
        assert(text[a + 1] == word[1] && text[a + 2] == word[2] && text[a + 3] == word[3]);
        lemma_unsigned(text, 0, a + 1);
    }
}

proof fn lemma_template_unsigned(span: Span, text: Seq<char>, holes: Seq<Binding>)
    requires
        unsigned_from(text, 0),
        holes_unsigned(holes),
    ensures
        !mentions(template::template(span, text, holes)),
{
    let words = template::words_from(text, 0);
    assert forall|k: int| 0 <= k < words.len() implies unsigned_word(#[trigger] words[k]) by {
        lemma_words_unsigned(text, k);
    }
    lemma_fill_unsigned(span, words, holes, Seq::empty());
}

proof fn lemma_source_this()
    ensures
        unsigned_from(binding::SOURCE_THIS@, 0),
{
    reveal_strlit(
        "__this",
    );
    reveal_with_fuel(unsigned_from, 60);
}

proof fn lemma_source_argument()
    ensures
        unsigned_from(binding::SOURCE_ARGUMENT@, 0),
{
    reveal_strlit(
        "__args [ $i ] . get ( )",
    );
    reveal_with_fuel(unsigned_from, 60);
}

proof fn lemma_source_required()
    ensures
        unsigned_from(binding::SOURCE_REQUIRED@, 0),
{
    reveal_strlit(
        "Some ( __required [ $i ] )",
    );
    reveal_with_fuel(unsigned_from, 60);
}

proof fn lemma_source_optional()
    ensures
        unsigned_from(binding::SOURCE_OPTIONAL@, 0),
{
    reveal_strlit(
        "__optional [ $i ]",
    );
    reveal_with_fuel(unsigned_from, 60);
}

proof fn lemma_check_this()
    ensures
        unsigned_from(binding::CHECK_THIS@, 0),
{
    reveal_strlit(
        "starlark :: eval :: Arguments :: check_this ( $source ) ?",
    );
    reveal_with_fuel(unsigned_from, 60);
    assert(unsigned_from(binding::CHECK_THIS@, 50));
}

proof fn lemma_check_optional()
    ensures
        unsigned_from(binding::CHECK_OPTIONAL@, 0),
{
    reveal_strlit(
        "starlark :: eval :: Arguments :: check_optional ( $name_str , $source ) ?",
    );
    reveal_with_fuel(unsigned_from, 60);
    assert(unsigned_from(binding::CHECK_OPTIONAL@, 50));
}

proof fn lemma_check_defaulted()
    ensures
        unsigned_from(binding::CHECK_DEFAULTED@, 0),
{
    reveal_strlit(
        "{ \
        # [ allow ( clippy :: manual_unwrap_or ) ] \
        # [ allow ( clippy :: unnecessary_lazy_evaluations ) ] \
        # [ allow ( clippy :: redundant_closure ) ] \
        let x = starlark :: eval :: Arguments :: check_optional ( $name_str , $source ) ? \
        . unwrap_or_else ( || $default ) ; \
        x }",
    );
    reveal_with_fuel(unsigned_from, 60);
    assert(unsigned_from(binding::CHECK_DEFAULTED@, 250));
    assert(unsigned_from(binding::CHECK_DEFAULTED@, 200));
    assert(unsigned_from(binding::CHECK_DEFAULTED@, 150));
    assert(unsigned_from(binding::CHECK_DEFAULTED@, 100));
    assert(unsigned_from(binding::CHECK_DEFAULTED@, 50));
}

proof fn lemma_check_required()
    ensures
        unsigned_from(binding::CHECK_REQUIRED@, 0),
{
    reveal_strlit(
        "starlark :: eval :: Arguments :: check_required ( $name_str , $source ) ?",
    );
    reveal_with_fuel(unsigned_from, 60);
    assert(unsigned_from(binding::CHECK_REQUIRED@, 50));
}

proof fn lemma_bind_arg()
    ensures
        unsigned_from(binding::BIND_ARG@, 0),
{
    reveal_strlit(
        "$attrs let $mutability $name : $ty = $next ;",
    );
    reveal_with_fuel(unsigned_from, 60);
}

proof fn lemma_bind_parameters()
    ensures
        unsigned_from(binding::BIND_PARAMETERS@, 0),
{
    reveal_strlit(
        "$attrs let $name : $ty = __args ;",
    );
    reveal_with_fuel(unsigned_from, 60);
}

proof fn lemma_bind_this_parameters()
    ensures
        unsigned_from(binding::BIND_THIS_PARAMETERS@, 0),
{
    reveal_strlit(
        "$this $attrs let $name : $ty = __args ;",
    );
    reveal_with_fuel(unsigned_from, 60);
}

proof fn lemma_bind_positional()
    ensures
        unsigned_from(binding::BIND_POSITIONAL@, 0),
{
    reveal_strlit(
        "__args . no_named_args ( ) ? ; \
        let __required : [ _ ; $required ] = __args . positional ( eval . heap ( ) ) ? ; \
        $bind_args",
    );
    reveal_with_fuel(unsigned_from, 60);
    assert(unsigned_from(binding::BIND_POSITIONAL@, 100));
    assert(unsigned_from(binding::BIND_POSITIONAL@, 50));
}

proof fn lemma_bind_optional()
    ensures
        unsigned_from(binding::BIND_OPTIONAL@, 0),
{
    reveal_strlit(
        "__args . no_named_args ( ) ? ; \
        let ( __required , __optional ) : ( [ _ ; $required ] , [ _ ; $optional ] ) = \
        __args . optional ( eval . heap ( ) ) ? ; \
        $bind_args",
    );
    reveal_with_fuel(unsigned_from, 60);
    assert(unsigned_from(binding::BIND_OPTIONAL@, 150));
    assert(unsigned_from(binding::BIND_OPTIONAL@, 100));
    assert(unsigned_from(binding::BIND_OPTIONAL@, 50));
}

proof fn lemma_source_unsigned(arg: StarArg, site: Span)
    ensures
        !mentions(binding::source_tokens(arg, site)),
{
    match arg.source {
        StarArgSource::Unknown => {},
        StarArgSource::This => {
            lemma_source_this();
            lemma_template_unsigned(arg.span, binding::SOURCE_THIS@, Seq::empty());
        },
        StarArgSource::Argument(i) => {
            lemma_source_argument();
            let holes = seq![("i"@, seq![Token::Usize(i, site)])];
            lemma_template_unsigned(arg.span, binding::SOURCE_ARGUMENT@, holes);
        },
        StarArgSource::Required(i) => {
            lemma_source_required();
            let holes = seq![("i"@, seq![Token::Usize(i, site)])];
            lemma_template_unsigned(arg.span, binding::SOURCE_REQUIRED@, holes);
        },
        StarArgSource::Optional(i) => {
            lemma_source_optional();
            let holes = seq![("i"@, seq![Token::Usize(i, site)])];
            lemma_template_unsigned(arg.span, binding::SOURCE_OPTIONAL@, holes);
        },
    }
}

proof fn lemma_checked_unsigned(arg: StarArg, site: Span)
    requires
        !arg_mentions(arg),
    ensures
        !mentions(binding::checked_tokens(arg, site)),
{
    lemma_source_unsigned(arg, site);
    lemma_mentions_one(Token::Str(arg.name_str@, site));
    let source = ("source"@, binding::source_tokens(arg, site));
    let name_str = ("name_str"@, seq![Token::Str(arg.name_str@, site)]);
    if arg.this {
        lemma_check_this();
        lemma_template_unsigned(arg.span, binding::CHECK_THIS@, seq![source]);
    } else if arg.is_option {
        lemma_check_optional();
        lemma_template_unsigned(arg.span, binding::CHECK_OPTIONAL@, seq![name_str, source]);
    } else if !arg.is_value && arg.default is Some {
        lemma_check_defaulted();
        let default = ("default"@, tokens::tokens_of(arg.default->Some_0));
        let holes = seq![name_str, source, default];
        lemma_template_unsigned(arg.span, binding::CHECK_DEFAULTED@, holes);
    } else {
        lemma_check_required();
        lemma_template_unsigned(arg.span, binding::CHECK_REQUIRED@, seq![name_str, source]);
    }
}

proof fn lemma_binding_arg_unsigned(arg: StarArg, site: Span)
    requires
        !arg_mentions(arg),
    ensures
        !mentions(binding::binding_arg_tokens(arg, site)),
{
    lemma_checked_unsigned(arg, site);
    lemma_mentions_one(Token::Ident("mut"@, site));
    reveal_strlit("mut");
    reveal_strlit("__signature");
    assert("mut"@.len() != fun::SIGNATURE_VAL@.len());
    lemma_bind_arg();
    let holes = seq![
        ("attrs"@, tokens::all_tokens(arg.attrs@)),
        ("mutability"@, tokens::mut_tokens(arg.mutable, site)),
        ("name"@, tokens::tokens_of(arg.name)),
        ("ty"@, tokens::tokens_of(arg.ty)),
        ("next"@, binding::checked_tokens(arg, site)),
    ];
    lemma_template_unsigned(arg.span, binding::BIND_ARG@, holes);
}

proof fn lemma_binding_args_unsigned(args: Seq<StarArg>, site: Span)
    requires
        forall|i: int| 0 <= i < args.len() ==> !arg_mentions(#[trigger] args[i]),
    ensures
        !mentions(binding::binding_args_tokens(args, site)),
    decreases args.len(),
{
    if args.len() > 0 {
        let before = args.drop_last();
        assert forall|i: int| 0 <= i < before.len() implies !arg_mentions(#[trigger] before[i]) by {
            assert(before[i] == args[i]);
        }
        assert(!arg_mentions(args[args.len() - 1]));
        lemma_binding_args_unsigned(before, site);
        lemma_binding_arg_unsigned(args.last(), site);
        lemma_mentions_concat(
            binding::binding_args_tokens(before, site),
            binding::binding_arg_tokens(args.last(), site),
        );
    }
}

proof fn lemma_binding_unsigned(x: StarFun, site: Span)
    requires
        binding::binding_ok(x),
        x.source !is Argument,
        !args_mention(x),
    ensures
        !mentions(binding::binding_tokens(x, site)),
{
    let args = ("bind_args"@, binding::binding_args_tokens(x.args@, site));
    match x.source {
        StarFunSource::Unknown | StarFunSource::Argument(_) => {},
        StarFunSource::Parameters => {
            let arg = x.args@[0];
            lemma_bind_parameters();
            let holes = seq![
                ("attrs"@, tokens::all_tokens(arg.attrs@)),
                ("name"@, tokens::tokens_of(arg.name)),
                ("ty"@, tokens::tokens_of(arg.ty)),
            ];
            lemma_template_unsigned(arg.span, binding::BIND_PARAMETERS@, holes);
        },
        StarFunSource::ThisParameters => {
            let arg = x.args@[1];
            lemma_binding_arg_unsigned(x.args@[0], site);
            lemma_bind_this_parameters();
            let holes = seq![
                ("this"@, binding::binding_arg_tokens(x.args@[0], site)),
                ("attrs"@, tokens::all_tokens(arg.attrs@)),
                ("name"@, tokens::tokens_of(arg.name)),
                ("ty"@, tokens::tokens_of(arg.ty)),
            ];
            lemma_template_unsigned(arg.span, binding::BIND_THIS_PARAMETERS@, holes);
        },
        StarFunSource::Positional(required, optional) => {
            lemma_binding_args_unsigned(x.args@, site);
            let required = ("required"@, seq![Token::Usize(required, site)]);
            if optional == 0 {
                lemma_bind_positional();
                let holes = seq![required, args];
                lemma_template_unsigned(x.args_span, binding::BIND_POSITIONAL@, holes);
            } else {
                lemma_bind_optional();
                let optional = ("optional"@, seq![Token::Usize(optional, site)]);
                let holes = seq![required, optional, args];
                lemma_template_unsigned(x.args_span, binding::BIND_OPTIONAL@, holes);
            }
        },
    }
}

/// The words of a text hold the part from `a` to `b`, if it stands between spaces.
proof fn lemma_word_found(text: Seq<char>, i: int, a: int, b: int)
    requires
        0 <= i <= a < b <= text.len(),
        forall|k: int| a <= k < b ==> text[k] != ' ',
        b < text.len() ==> text[b] == ' ',
        i < a ==> text[a - 1] == ' ',
    ensures
        template::words_from(text, i).contains(text.subrange(a, b)),
    decreases text.len() - i,
{
    let words = template::words_from(text, i);
    let word = text.subrange(a, b);
    if i < a && text[i] == ' ' {
        lemma_word_found(text, i + 1, a, b);
    } else if i < a {
        let end = template::word_end(text, i + 1);
        lemma_word_ends(text, i + 1, a - 1);
        let rest = template::words_from(text, end);
        lemma_word_found(text, end, a, b);
        let k = choose|k: int| 0 <= k < rest.len() && rest[k] == word;
        assert(words[k + 1] == word);
    } else {
        lemma_word_goes_on(text, i + 1, b);
        assert(words[0] == word);
    }
}

proof fn lemma_word_ends(text: Seq<char>, i: int, space: int)
    requires
        0 <= i <= space < text.len(),
        text[space] == ' ',
    ensures
        i <= template::word_end(text, i) <= space,
        text[template::word_end(text, i)] == ' ',
    decreases space - i,
{
    if text[i] != ' ' {
        lemma_word_ends(text, i + 1, space);
    }
}

proof fn lemma_word_goes_on(text: Seq<char>, i: int, b: int)
    requires
        0 <= i <= b <= text.len(),
        forall|k: int| i <= k < b ==> text[k] != ' ',
        b < text.len() ==> text[b] == ' ',
    ensures
        template::word_end(text, i) == b,
    decreases b - i,
{
    if i < b {
        lemma_word_goes_on(text, i + 1, b);
    }
}

proof fn lemma_fill_signed(
    span: Span,
    words: Seq<Seq<char>>,
    holes: Seq<Binding>,
    open: Seq<Delim>,
)
    requires
        words.contains(fun::SIGNATURE_VAL@),
    ensures
        mentions(template::fill(span, words, holes, open)),
    decreases words.len(),
{
    reveal_strlit("__signature");
    let name = fun::SIGNATURE_VAL@;
    let k = choose|k: int| 0 <= k < words.len() && words[k] == name;
    let word = words[0];
    let rest = words.drop_first();
    if k > 0 {
        assert(rest[k - 1] == name);
    }
    if let Some(delim) = template::opening(word) {
        lemma_fill_signed(span, rest, holes, open.push(delim));
        lemma_mentions_concat(
            seq![Token::Open(delim, span)],
            template::fill(span, rest, holes, open.push(delim)),
        );
    } else if let Some(delim) = template::closing(word) {
        if open.len() > 0 && open.last() == delim {
            lemma_fill_signed(span, rest, holes, open.drop_last());
            lemma_mentions_concat(
                seq![Token::Close(delim, span)],
                template::fill(span, rest, holes, open.drop_last()),
            );
        } else {
            lemma_fill_signed(span, rest, holes, open);
        }
    } else {
        lemma_mentions_concat(
            template::word_tokens(span, word, holes),
            template::fill(span, rest, holes, open),
        );
        if k == 0 {
            assert(tokens::identifier(word));
            lemma_mentions_one(Token::Ident(word, span));
        } else {
            lemma_fill_signed(span, rest, holes, open);
        }
    }
}

proof fn lemma_binding_signed(x: StarFun, site: Span)
    requires
        x.source is Argument,
    ensures
        mentions(binding::binding_tokens(x, site)),
{
    reveal_strlit("__signature");
    reveal_strlit(
        "let __args : [ _ ; $arg_count ] = __signature . collect_into ( __args , eval . heap ( ) ) ? ; \
        $bind_args",
    );
    let text = binding::BIND_SIGNATURE@;
    lemma_word_found(text, 0, 34, 45);
    assert(text.subrange(34, 45) =~= fun::SIGNATURE_VAL@);
    let count = x.source->Argument_0;
    let holes = seq![
        ("arg_count"@, seq![Token::Usize(count, site)]),
        ("bind_args"@, binding::binding_args_tokens(x.args@, site)),
    ];
    lemma_fill_signed(x.args_span, template::words_from(text, 0), holes, Seq::empty());
}

/// The bindings of the arguments rely on `__signature` if and only if the signature is
/// rendered. That of a function that collects its arguments by a signature always does;
/// that of another one never does by itself, but an argument that is bound could bring the
/// name with it.
pub proof fn law_binding_relies_on_the_signature_that_is_rendered(x: StarFun, site: Span)
    requires
        binding::binding_ok(x),
        signature::signature_outcome(x, site) is Ok,
        !args_mention(x),
    ensures
        mentions(binding::binding_tokens(x, site)) <==> signature::signature_outcome(x, site)->Ok_0
            is Some,
{
    if x.source is Argument {
        lemma_binding_signed(x, site);
    } else {
        lemma_binding_unsigned(x, site);
    }
}

} // verus!
