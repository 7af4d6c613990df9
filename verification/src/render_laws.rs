//! What holds of the rendering of every native function.

use proc_macro2::Span;
use vstd::prelude::*;

use crate::binding;
use crate::documentation;
use crate::fun;
use crate::signature::{self, Parameter};
use crate::template::{self, Binding};
use crate::tokens::{self, Delim, Token};
use crate::typ::{StarArg, StarArgPassStyle, StarFun, StarFunSource};

verus! {

/// The span of a token.
pub open spec fn span_of(token: Token) -> Span {
    match token {
        Token::Ident(_, span) => span,
        Token::Punct(_, _, span) => span,
        Token::Str(_, span) => span,
        Token::Usize(_, span) => span,
        Token::Literal(_, span) => span,
        Token::Open(_, span) => span,
        Token::Close(_, span) => span,
    }
}

/// A token that one of the holes is filled with.
pub open spec fn from_hole(token: Token, holes: Seq<Binding>) -> bool {
    exists|k: int| 0 <= k < holes.len() && (#[trigger] holes[k]).1.contains(token)
}

/// A token that stands where its template was filled, or that came from a hole.
pub open spec fn placed(token: Token, span: Span, holes: Seq<Binding>) -> bool {
    span_of(token) == span || from_hole(token, holes)
}

pub open spec fn all_placed(tokens: Seq<Token>, span: Span, holes: Seq<Binding>) -> bool {
    forall|i: int| 0 <= i < tokens.len() ==> placed(#[trigger] tokens[i], span, holes)
}

proof fn lemma_placed_concat(a: Seq<Token>, b: Seq<Token>, span: Span, holes: Seq<Binding>)
    requires
        all_placed(a, span, holes),
        all_placed(b, span, holes),
    ensures
        all_placed(a + b, span, holes),
{
    assert forall|i: int| 0 <= i < (a + b).len() implies placed(
        #[trigger] (a + b)[i],
        span,
        holes,
    ) by {
        if i < a.len() {
            assert((a + b)[i] == a[i]);
        } else {
            assert((a + b)[i] == b[i - a.len()]);
        }
    }
}

proof fn lemma_bound_placed(holes: Seq<Binding>, name: Seq<char>, token: Token)
    requires
        template::bound_to(holes, name).contains(token),
    ensures
        from_hole(token, holes),
    decreases holes.len(),
{
    if holes.len() > 0 {
        if holes[0].0 == name {
            assert(holes[0].1.contains(token));
        } else {
            let rest = holes.drop_first();
            lemma_bound_placed(rest, name, token);
            let k = choose|k: int| 0 <= k < rest.len() && (#[trigger] rest[k]).1.contains(token);
            assert(holes[k + 1] == rest[k]);
        }
    }
}

/// A character has one of the values that characters have.
pub proof fn lemma_char_range(c: char)
    ensures
        0 <= (c as int) < 0xd800 || 0xe000 <= (c as int) <= 0x10ffff,
{
}

proof fn lemma_operator_placed(span: Span, word: Seq<char>, holes: Seq<Binding>)
    ensures
        all_placed(template::operator_tokens(span, word), span, holes),
    decreases word.len(),
{
    if word.len() > 0 {
        lemma_char_range(word[0]);
        lemma_operator_placed(span, word.drop_first(), holes);
        lemma_placed_concat(
            seq![Token::Punct(word[0], word.len() > 1, span)],
            template::operator_tokens(span, word.drop_first()),
            span,
            holes,
        );
    }
}

proof fn lemma_word_placed(span: Span, word: Seq<char>, holes: Seq<Binding>)
    ensures
        all_placed(template::word_tokens(span, word, holes), span, holes),
{
    lemma_operator_placed(span, word, holes);
    if word.len() > 0 && word[0] == '$' {
        let bound = template::bound_to(holes, word.skip(1));
        assert forall|i: int| 0 <= i < bound.len() implies placed(
            #[trigger] bound[i],
            span,
            holes,
        ) by {
            lemma_bound_placed(holes, word.skip(1), bound[i]);
        }
    }
}

proof fn lemma_closing_placed(span: Span, open: Seq<Delim>, holes: Seq<Binding>)
    ensures
        all_placed(template::closing_tokens(span, open), span, holes),
    decreases open.len(),
{
    if open.len() > 0 {
        lemma_closing_placed(span, open.drop_last(), holes);
        lemma_placed_concat(
            seq![Token::Close(open.last(), span)],
            template::closing_tokens(span, open.drop_last()),
            span,
            holes,
        );
    }
}

proof fn lemma_fill_placed(
    span: Span,
    words: Seq<Seq<char>>,
    holes: Seq<Binding>,
    open: Seq<Delim>,
)
    ensures
        all_placed(template::fill(span, words, holes, open), span, holes),
    decreases words.len(),
{
    if words.len() == 0 {
        lemma_closing_placed(span, open, holes);
    } else {
        let word = words[0];
        let rest = words.drop_first();
        if let Some(delim) = template::opening(word) {
            lemma_fill_placed(span, rest, holes, open.push(delim));
            lemma_placed_concat(
                seq![Token::Open(delim, span)],
                template::fill(span, rest, holes, open.push(delim)),
                span,
                holes,
            );
        } else if let Some(delim) = template::closing(word) {
            if open.len() > 0 && open.last() == delim {
                lemma_fill_placed(span, rest, holes, open.drop_last());
                lemma_placed_concat(
                    seq![Token::Close(delim, span)],
                    template::fill(span, rest, holes, open.drop_last()),
                    span,
                    holes,
                );
            } else {
                lemma_fill_placed(span, rest, holes, open);
            }
        } else {
            lemma_fill_placed(span, rest, holes, open);
            lemma_word_placed(span, word, holes);
            lemma_placed_concat(
                template::word_tokens(span, word, holes),
                template::fill(span, rest, holes, open),
                span,
                holes,
            );
        }
    }
}

/// Rendered code points to what it was rendered for: each token of a template is at the
/// span at which it was filled, or came from a hole and is where it was.
pub proof fn law_template_tokens_are_at_its_span(span: Span, text: Seq<char>, holes: Seq<Binding>)
    ensures
        forall|i: int|
            0 <= i < template::template(span, text, holes).len() ==> {
                let token = #[trigger] template::template(span, text, holes)[i];
                span_of(token) == span || from_hole(token, holes)
            },
{
    lemma_fill_placed(span, template::words_from(text, 0), holes, Seq::empty());
}

/// An argument that can be passed by position only. `*args` is none, whatever its
/// style says.
pub open spec fn positional_only(arg: StarArg) -> bool {
    !arg.is_args && arg.pass_style == StarArgPassStyle::PosOnly
}

proof fn lemma_misplaced_between(args: Seq<StarArg>, i: int, j: int)
    requires
        0 <= i < j < args.len(),
        !positional_only(args[i]),
        positional_only(args[j]),
    ensures
        exists|k: int| i < k <= j && signature::misplaced(args, k),
    decreases j - i,
{
    if positional_only(args[j - 1]) {
        lemma_misplaced_between(args, i, j - 1);
    } else {
        assert(signature::misplaced(args, j));
    }
}

/// A signature is refused if and only if some positional-only argument comes after one
/// that is not.
pub proof fn law_positional_only_come_first(args: Seq<StarArg>, site: Span)
    ensures
        signature::signature_args_outcome(args, site) is Err <==> exists|i: int, j: int|
            0 <= i < j < args.len() && !positional_only(#[trigger] args[i]) && positional_only(
                #[trigger] args[j],
            ),
{
    signature::lemma_misplaced_from(args, 0);
    let first = signature::misplaced_from(args, 0);
    if first < args.len() {
        assert(signature::misplaced(args, first));
        assert(!positional_only(args[first - 1]) && positional_only(args[first]));
    }
    if exists|i: int, j: int|
        0 <= i < j < args.len() && !positional_only(#[trigger] args[i]) && positional_only(
            #[trigger] args[j],
        ) {
        let (i, j) = choose|i: int, j: int|
            0 <= i < j < args.len() && !positional_only(#[trigger] args[i]) && positional_only(
                #[trigger] args[j],
            );
        lemma_misplaced_between(args, i, j);
    }
}

/// The error names the argument at fault: the first positional-only one that stands
/// right after one that is not.
pub proof fn law_error_is_at_the_first_misplaced(args: Seq<StarArg>, k: int, site: Span)
    requires
        0 <= k < args.len(),
        signature::misplaced(args, k),
        forall|j: int| 0 <= j < k ==> !#[trigger] signature::misplaced(args, j),
    ensures
        signature::signature_args_outcome(args, site) == Err::<Seq<Token>, syn::Error>(
            signature::error_at(args[k].span, signature::MISPLACED@),
        ),
{
    signature::lemma_misplaced_from(args, 0);
}

/// The parameters that the statements of a signature add, in order.
pub open spec fn parameters(args: Seq<StarArg>) -> Seq<Parameter>
    decreases args.len(),
{
    if args.len() == 0 {
        Seq::empty()
    } else {
        match signature::parameter(args.last()) {
            Some(parameter) => parameters(args.drop_last()).push(parameter),
            None => parameters(args.drop_last()),
        }
    }
}

/// The indices of the documented types match the parameters of the signature: the
/// receiver has a place among neither, and all other arguments have one in both, in the
/// same order. A receiver that is named like `*args` or `**kwargs` is added as one.
pub proof fn law_documented_types_match_parameters(args: Seq<StarArg>)
    requires
        forall|i: int|
            0 <= i < args.len() && (#[trigger] args[i]).this ==> !args[i].is_args
                && !args[i].is_kwargs,
    ensures
        parameters(args).len() == documentation::documented(args).len(),
        forall|i: int|
            0 <= i < parameters(args).len() ==> signature::parameter(
                documentation::documented(args)[i],
            ) == Some(#[trigger] parameters(args)[i]),
    decreases args.len(),
{
    reveal(Seq::filter);
    if args.len() > 0 {
        let before = args.drop_last();
        assert forall|i: int| 0 <= i < before.len() && (#[trigger] before[i]).this implies
            !before[i].is_args && !before[i].is_kwargs by {
            assert(before[i] == args[i]);
        }
        law_documented_types_match_parameters(before);
        assert(args.last() == args[args.len() - 1]);
    }
}

/// Each documented type stands at its own index, and is the type of the argument there.
pub proof fn law_documented_types_are_numbered(args: Seq<StarArg>, arg: StarArg, span: Span, site: Span)
    requires
        !arg.this,
    ensures
        documentation::documented(args.push(arg)) == documentation::documented(args).push(arg),
        documentation::parameter_types(documentation::documented(args.push(arg)), span, site)
            == documentation::parameter_types(documentation::documented(args), span, site) + (if
        documentation::documented(args).len() > 0 {
            template::template(span, ","@, Seq::empty())
        } else {
            Seq::empty()
        }) + template::template(
            span,
            "( $i , starlark :: values :: docs :: Type { raw_type : stringify ! ( $typ ) . to_owned ( ) } )"@,
            seq![
                (
                    "i"@,
                    seq![Token::Usize(documentation::documented(args).len() as usize, site)],
                ),
                ("typ"@, tokens::tokens_of(arg.ty)),
            ],
        ),
{
    reveal(Seq::filter);
    assert(args.push(arg).drop_last() =~= args);
    assert(documentation::documented(args).push(arg).drop_last() =~= documentation::documented(
        args,
    ));
}

proof fn lemma_filter_push<A>(items: Seq<A>, item: A, keep: spec_fn(A) -> bool)
    ensures
        items.push(item).filter(keep) == (if keep(item) {
            items.filter(keep).push(item)
        } else {
            items.filter(keep)
        }),
{
    reveal(Seq::filter);
    assert(items.push(item).drop_last() =~= items);
}

proof fn lemma_documented_concat(before: Seq<StarArg>, after: Seq<StarArg>)
    ensures
        documentation::documented(before + after) == documentation::documented(before)
            + documentation::documented(after),
    decreases after.len(),
{
    let keep = |arg: StarArg| !arg.this;
    reveal(Seq::filter);
    if after.len() == 0 {
        assert(before + after =~= before);
        assert(before.filter(keep) + after.filter(keep) =~= before.filter(keep));
    } else {
        let rest = after.drop_last();
        lemma_documented_concat(before, rest);
        assert(before + after =~= (before + rest).push(after.last()));
        assert(after =~= rest.push(after.last()));
        lemma_filter_push(before + rest, after.last(), keep);
        lemma_filter_push(rest, after.last(), keep);
        assert((before + after).filter(keep) =~= before.filter(keep) + after.filter(keep));
    }
}

/// A receiver does not show among the documented types, wherever it stands.
pub proof fn law_receiver_is_not_documented(
    before: Seq<StarArg>,
    receiver: StarArg,
    after: Seq<StarArg>,
)
    requires
        receiver.this,
    ensures
        documentation::documented(before + seq![receiver] + after) == documentation::documented(
            before + after,
        ),
{
    reveal(Seq::filter);
    let one = seq![receiver];
    lemma_documented_concat(before, one);
    lemma_documented_concat(before + one, after);
    lemma_documented_concat(before, after);
    assert(one.drop_last() =~= Seq::empty());
    lemma_filter_push(Seq::<StarArg>::empty(), receiver, |arg: StarArg| !arg.this);
    assert(Seq::<StarArg>::empty().push(receiver) =~= one);
    assert(documentation::documented(one) =~= Seq::empty());
    assert(documentation::documented(before + one) =~= documentation::documented(before));
}

proof fn lemma_misplaced_behind_receiver(args: Seq<StarArg>, i: int)
    requires
        args.len() > 0,
        positional_only(args[0]),
        0 <= i <= args.len() - 1,
    ensures
        signature::misplaced_from(args, i + 1) == signature::misplaced_from(args.drop_first(), i)
            + 1,
    decreases args.len() - i,
{
    let rest = args.drop_first();
    if i < rest.len() {
        assert(rest[i] == args[i + 1]);
        assert(i > 0 ==> rest[i - 1] == args[i]);
        lemma_misplaced_behind_receiver(args, i + 1);
    }
}

proof fn lemma_statements_behind_receiver(args: Seq<StarArg>, n: int, site: Span)
    requires
        1 <= n <= args.len(),
        positional_only(args[0]),
        signature::parameter(args[0]) is None,
    ensures
        signature::signature_statements(args, n, site) == signature::signature_statements(
            args.drop_first(),
            n - 1,
            site,
        ),
    decreases n,
{
    let rest = args.drop_first();
    if n == 1 {
        reveal_with_fuel(signature::signature_statements, 2);
        assert(signature::signature_statements(args, 1, site) =~= Seq::empty());
    } else {
        lemma_statements_behind_receiver(args, n - 1, site);
        assert(rest[n - 2] == args[n - 1]);
        assert(n > 2 ==> rest[n - 3] == args[n - 2]);
        assert(signature::transition_tokens(args, n - 1) == signature::transition_tokens(
            rest,
            n - 2,
        ));
    }
}

/// A receiver that comes first and is passed by position leaves the documentation as it
/// would be without it: its signature, its types and whether it is refused. A receiver that
/// is named like `*args` or `**kwargs` is added as one.
pub proof fn law_documentation_ignores_the_receiver(x: StarFun, y: StarFun, site: Span)
    requires
        x.args@.len() > 0,
        x.args@[0].this,
        x.args@[0].pass_style == StarArgPassStyle::PosOnly,
        !x.args@[0].is_args,
        !x.args@[0].is_kwargs,
        y == (StarFun { args: y.args, ..x }),
        y.args@ == x.args@.drop_first(),
    ensures
        documentation::documentation_outcome(x, site) == documentation::documentation_outcome(
            y,
            site,
        ),
{
    let args = x.args@;
    let rest = y.args@;
    lemma_misplaced_behind_receiver(args, 0);
    lemma_statements_behind_receiver(args, args.len() as int, site);
    signature::lemma_misplaced_from(rest, 0);
    let first = signature::misplaced_from(rest, 0);
    if first < rest.len() {
        assert(rest[first] == args[first + 1]);
    }
    law_receiver_is_not_documented(Seq::empty(), args[0], rest);
    assert(Seq::<StarArg>::empty() + seq![args[0]] + rest =~= args);
    assert(Seq::<StarArg>::empty() + rest =~= rest);
}

pub proof fn lemma_statements_of_prefix(args: Seq<StarArg>, m: int, n: int, site: Span)
    requires
        0 <= m <= n <= args.len(),
    ensures
        signature::signature_statements(args.take(n), m, site) == signature::signature_statements(
            args,
            m,
            site,
        ),
    decreases m,
{
    if m > 0 {
        lemma_statements_of_prefix(args, m - 1, n, site);
        assert(args.take(n)[m - 1] == args[m - 1]);
        assert(m > 1 ==> args.take(n)[m - 2] == args[m - 2]);
    }
}

proof fn lemma_statements_grow(args: Seq<StarArg>, m: int, n: int, site: Span)
    requires
        0 <= m <= n,
    ensures
        signature::signature_statements(args, m, site).is_prefix_of(
            signature::signature_statements(args, n, site),
        ),
    decreases n - m,
{
    if m < n {
        lemma_statements_grow(args, m, n - 1, site);
    }
}

proof fn lemma_misplaced_in_prefix(args: Seq<StarArg>, i: int, n: int)
    requires
        0 <= i <= n <= args.len(),
        signature::misplaced_from(args, i) == args.len(),
    ensures
        signature::misplaced_from(args.take(n), i) == n,
    decreases n - i,
{
    if i < n {
        signature::lemma_misplaced_from(args, i);
        assert(args.take(n)[i] == args[i]);
        assert(i > 0 ==> args.take(n)[i - 1] == args[i - 1]);
        assert(!signature::misplaced(args, i));
        lemma_misplaced_in_prefix(args, i + 1, n);
    }
}

/// A signature is built up from left to right: the statements of the first arguments are
/// the first statements of all of them, and if all are accepted, so are the first.
pub proof fn law_signature_grows_with_its_arguments(args: Seq<StarArg>, n: int, site: Span)
    requires
        0 <= n <= args.len(),
        signature::signature_args_outcome(args, site) is Ok,
    ensures
        signature::signature_args_outcome(args.take(n), site) matches Ok(first)
            && signature::signature_args_outcome(args, site) matches Ok(all)
            && first.is_prefix_of(all),
{
    signature::lemma_misplaced_from(args, 0);
    lemma_misplaced_in_prefix(args, 0, n);
    lemma_statements_of_prefix(args, n, n, site);
    lemma_statements_grow(args, n, args.len() as int, site);
}

/// A function that is called by position is documented like one with a signature of as
/// many parameters, though it needs none to be called.
pub proof fn law_positional_functions_are_documented(
    x: StarFun,
    y: StarFun,
    required: usize,
    optional: usize,
    count: usize,
    site: Span,
)
    requires
        x.source == StarFunSource::Positional(required, optional),
        count == required + optional,
        y == (StarFun { source: StarFunSource::Argument(count), ..x }),
    ensures
        documentation::documentation_outcome(x, site) == documentation::documentation_outcome(
            y,
            site,
        ),
        signature::signature_outcome(x, site) == Ok::<Option<Seq<Token>>, syn::Error>(None),
        signature::signature_outcome(y, site) is Err || signature::signature_outcome(
            y,
            site,
        )->Ok_0 is Some,
{
}

/// A default is made in one place: by the signature, which holds it ready as a frozen
/// value, if the argument is a `Value`, and else by the binding of the argument, for
/// which the parameter is then optional.
pub proof fn law_defaults_are_made_once(arg: StarArg, site: Span)
    requires
        !arg.is_args,
        !arg.is_kwargs,
        !arg.this,
        !arg.is_option,
        arg.default is Some,
    ensures
        arg.is_value ==> signature::parameter(arg) == Some(
            Parameter::Defaulted(
                signature::trimmed(arg.name_str@),
                tokens::tokens_of(arg.default->Some_0),
            ),
        ) && binding::checked_tokens(arg, site) == template::template(
            arg.span,
            binding::CHECK_REQUIRED@,
            seq![
                ("name_str"@, seq![Token::Str(arg.name_str@, site)]),
                ("source"@, binding::source_tokens(arg, site)),
            ],
        ),
        !arg.is_value ==> signature::parameter(arg) == Some(
            Parameter::Optional(signature::trimmed(arg.name_str@)),
        ) && binding::checked_tokens(arg, site) == template::template(
            arg.span,
            binding::CHECK_DEFAULTED@,
            seq![
                ("name_str"@, seq![Token::Str(arg.name_str@, site)]),
                ("source"@, binding::source_tokens(arg, site)),
                ("default"@, tokens::tokens_of(arg.default->Some_0)),
            ],
        ),
{
}

/// From `i` to `j` a name is what it is trimmed to, and all around there are
/// underscores.
pub open spec fn kept(name: Seq<char>, i: int, j: int) -> bool {
    &&& 0 <= i <= j <= name.len()
    &&& signature::trimmed(name) == name.subrange(i, j)
    &&& forall|k: int| 0 <= k < i || j <= k < name.len() ==> #[trigger] name[k] == '_'
}

proof fn lemma_kept_behind(name: Seq<char>, i: int, j: int)
    requires
        name.len() > 0,
        name[0] == '_',
        kept(name.drop_first(), i, j),
    ensures
        kept(name, i + 1, j + 1),
{
    let rest = name.drop_first();
    assert(rest.subrange(i, j) =~= name.subrange(i + 1, j + 1));
    assert forall|k: int| 0 <= k < i + 1 || j + 1 <= k < name.len() implies #[trigger] name[k]
        == '_' by {
        if k > 0 {
            assert(rest[k - 1] == '_');
        }
    }
}

proof fn lemma_kept_before(name: Seq<char>, i: int, j: int)
    requires
        name.len() > 0,
        name[0] != '_',
        name.last() == '_',
        kept(name.drop_last(), i, j),
    ensures
        kept(name, i, j),
{
    let rest = name.drop_last();
    assert(rest.subrange(i, j) =~= name.subrange(i, j));
    assert forall|k: int| 0 <= k < i || j <= k < name.len() implies #[trigger] name[k] == '_' by {
        if k < rest.len() {
            assert(rest[k] == '_');
        }
    }
}

/// A name that a caller can use does not begin or end with an underscore, and is the
/// argument's name but for underscores at its ends.
pub proof fn law_names_lose_their_outer_underscores(name: Seq<char>)
    ensures
        signature::trimmed(name).len() > 0 ==> signature::trimmed(name)[0] != '_'
            && signature::trimmed(name).last() != '_',
        exists|i: int, j: int| kept(name, i, j),
    decreases name.len(),
{
    if name.len() > 0 && name[0] == '_' {
        law_names_lose_their_outer_underscores(name.drop_first());
        let (i, j) = choose|i: int, j: int| kept(name.drop_first(), i, j);
        lemma_kept_behind(name, i, j);
    } else if name.len() > 0 && name.last() == '_' {
        law_names_lose_their_outer_underscores(name.drop_last());
        let (i, j) = choose|i: int, j: int| kept(name.drop_last(), i, j);
        lemma_kept_before(name, i, j);
    } else {
        assert(name.subrange(0, name.len() as int) =~= name);
        assert(kept(name, 0, name.len() as int));
    }
}

/// A signature is made for those functions that collect their arguments by one, and for
/// no other.
pub proof fn law_signature_is_made_where_it_is_needed(x: StarFun, site: Span)
    ensures
        x.source !is Argument ==> signature::signature_outcome(x, site) == Ok::<
            Option<Seq<Token>>,
            syn::Error,
        >(None),
        x.source is Argument && signature::signature_outcome(x, site) is Ok
            ==> signature::signature_outcome(x, site)->Ok_0 is Some,
{
}

/// A function is refused if and only if its parameters are listed, in a signature or in
/// its documentation, and a positional-only one comes after one that is not.
pub proof fn law_function_is_refused_for_its_parameters_only(x: StarFun, site: Span)
    ensures
        fun::fun_outcome(x, site) is Err <==> (x.source is Argument || x.source is Positional)
            && exists|i: int, j: int|
            0 <= i < j < x.args@.len() && !positional_only(#[trigger] x.args@[i])
                && positional_only(#[trigger] x.args@[j]),
{
    law_positional_only_come_first(x.args@, site);
}

} // verus!
