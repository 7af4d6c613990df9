//! How every template is read.

use proc_macro2::{Span, TokenStream};
use vstd::prelude::*;

use crate::render_laws;
use crate::template::{self, Binding, Hole};
use crate::tokens::{self, Delim, Token};

verus! {

proof fn lemma_words_shifted(before: Seq<char>, text: Seq<char>, i: int)
    requires
        0 <= i <= text.len(),
    ensures
        template::words_from(before + text, before.len() + i) == template::words_from(text, i),
        template::word_end(before + text, before.len() + i) == before.len() + template::word_end(
            text,
            i,
        ),
    decreases text.len() - i,
{
    let all = before + text;
    let at = before.len() + i;
    if i < text.len() {
        lemma_words_shifted(before, text, i + 1);
        assert(all[at] == text[i]);
        if text[i] != ' ' {
            let end = template::word_end(text, i + 1);
            template::lemma_word_end(text, i + 1);
            template::lemma_word_end(all, at + 1);
            lemma_words_shifted(before, text, end);
            assert(all.subrange(at, before.len() + end) =~= text.subrange(i, end));
        }
    }
}

proof fn lemma_word_end_before_space(a: Seq<char>, rest: Seq<char>, i: int)
    requires
        0 <= i <= a.len(),
        rest.len() > 0,
        rest[0] == ' ',
    ensures
        template::word_end(a + rest, i) == template::word_end(a, i),
    decreases a.len() - i,
{
    if i < a.len() {
        assert((a + rest)[i] == a[i]);
        lemma_word_end_before_space(a, rest, i + 1);
    } else {
        assert((a + rest)[i] == rest[0]);
    }
}

proof fn lemma_words_before_space(a: Seq<char>, b: Seq<char>, i: int)
    requires
        0 <= i <= a.len(),
    ensures
        template::words_from(a + seq![' '] + b, i) == template::words_from(a, i)
            + template::words_from(b, 0),
    decreases a.len() - i,
{
    let all = a + seq![' '] + b;
    let rest = seq![' '] + b;
    assert(all =~= a + rest);
    if i == a.len() {
        assert(all[i] == ' ');
        let before = a + seq![' '];
        assert(all =~= before + b);
        lemma_words_shifted(before, b, 0);
        assert(template::words_from(a, i) + template::words_from(b, 0) =~= template::words_from(
            b,
            0,
        ));
    } else {
        assert(all[i] == a[i]);
        if a[i] == ' ' {
            lemma_words_before_space(a, b, i + 1);
        } else {
            let end = template::word_end(a, i + 1);
            template::lemma_word_end(a, i + 1);
            lemma_word_end_before_space(a, rest, i + 1);
            lemma_words_before_space(a, b, end);
            assert(all.subrange(i, end) =~= a.subrange(i, end));
            assert(template::words_from(all, i) =~= template::words_from(a, i)
                + template::words_from(b, 0));
        }
    }
}

/// A space parts the words of a text: those of what stands before it come first, and then
/// those of what stands behind it.
pub proof fn law_spaces_part_the_words(a: Seq<char>, b: Seq<char>)
    ensures
        template::words_from(a + seq![' '] + b, 0) == template::words_from(a, 0)
            + template::words_from(b, 0),
{
    lemma_words_before_space(a, b, 0);
}

proof fn lemma_word_end_without_space(text: Seq<char>, i: int)
    requires
        0 <= i <= text.len(),
        forall|k: int| 0 <= k < text.len() ==> text[k] != ' ',
    ensures
        template::word_end(text, i) == text.len(),
    decreases text.len() - i,
{
    if i < text.len() {
        lemma_word_end_without_space(text, i + 1);
    }
}

/// A text without spaces is one word, and the empty text is none.
pub proof fn law_text_without_spaces_is_a_word(text: Seq<char>)
    requires
        forall|k: int| 0 <= k < text.len() ==> text[k] != ' ',
    ensures
        template::words_from(text, 0) == (if text.len() > 0 {
            seq![text]
        } else {
            Seq::empty()
        }),
{
    if text.len() > 0 {
        lemma_word_end_without_space(text, 1);
        assert(text.subrange(0, text.len() as int) =~= text);
        assert(template::words_from(text, text.len() as int) =~= Seq::empty());
        assert(template::words_from(text, 0) =~= seq![text]);
    }
}

proof fn lemma_one_word(span: Span, word: Seq<char>, holes: Seq<Binding>)
    requires
        word.len() > 0,
        forall|k: int| 0 <= k < word.len() ==> word[k] != ' ',
        template::opening(word) is None,
        template::closing(word) is None,
    ensures
        template::template(span, word, holes) == template::word_tokens(span, word, holes),
{
    law_text_without_spaces_is_a_word(word);
    reveal_with_fuel(template::fill, 2);
    assert(seq![word].drop_first() =~= Seq::empty());
    assert(template::word_tokens(span, word, holes) + Seq::<Token>::empty()
        =~= template::word_tokens(span, word, holes));
}

/// A word of letters, digits and underscores that does not begin with a digit is an
/// identifier, at the span of the template.
pub proof fn law_word_is_an_identifier(span: Span, word: Seq<char>, holes: Seq<Binding>)
    requires
        word.len() > 0,
        !('0' <= word[0] <= '9'),
        forall|k: int|
            0 <= k < word.len() ==> (#[trigger] word[k] == '_' || 'a' <= word[k] <= 'z' || 'A'
                <= word[k] <= 'Z' || '0' <= word[k] <= '9'),
    ensures
        template::template(span, word, holes) == seq![Token::Ident(word, span)],
{
    lemma_one_word(span, word, holes);
}

/// Such a word behind a quote is a lifetime: the quote, joined to the identifier.
pub proof fn law_quoted_word_is_a_lifetime(span: Span, name: Seq<char>, holes: Seq<Binding>)
    requires
        name.len() > 0,
        !('0' <= name[0] <= '9'),
        forall|k: int|
            0 <= k < name.len() ==> (#[trigger] name[k] == '_' || 'a' <= name[k] <= 'z' || 'A'
                <= name[k] <= 'Z' || '0' <= name[k] <= '9'),
    ensures
        template::template(span, seq!['\''] + name, holes) == seq![
            Token::Punct('\'', true, span),
            Token::Ident(name, span),
        ],
{
    let word = seq!['\''] + name;
    assert(word.skip(1) =~= name);
    assert forall|k: int| 0 <= k < word.len() implies word[k] != ' ' by {
        if k > 0 {
            assert(word[k] == name[k - 1]);
        }
    }
    lemma_one_word(span, word, holes);
}

proof fn lemma_operator_index(span: Span, word: Seq<char>, k: int)
    requires
        0 <= k < word.len(),
    ensures
        template::operator_tokens(span, word).len() == word.len(),
        template::operator_tokens(span, word)[k] == Token::Punct(
            word[k],
            k + 1 < word.len(),
            span,
        ),
    decreases word.len(),
{
    let rest = word.drop_first();
    render_laws::lemma_char_range(word[0]);
    if k > 0 {
        lemma_operator_index(span, rest, k - 1);
        assert(rest[k - 1] == word[k]);
    } else if word.len() > 1 {
        lemma_operator_index(span, rest, 0);
    } else {
        reveal_with_fuel(template::operator_tokens, 2);
    }
}

/// A word of punctuation characters is an operator: its characters in order, each but the
/// last joined to the next.
pub proof fn law_word_is_an_operator(span: Span, word: Seq<char>, holes: Seq<Binding>, k: int)
    requires
        word.len() > 0,
        word[0] != '$',
        forall|i: int| 0 <= i < word.len() ==> tokens::punctuation(#[trigger] word[i]),
        0 <= k < word.len(),
    ensures
        template::template(span, word, holes).len() == word.len(),
        template::template(span, word, holes)[k] == Token::Punct(
            word[k],
            k + 1 < word.len(),
            span,
        ),
{
    assert(tokens::punctuation(word[0]));
    if word.len() > 1 {
        assert(tokens::punctuation(word[1]));
        assert(word.skip(1)[0] == word[1]);
    }
    lemma_one_word(span, word, holes);
    lemma_operator_index(span, word, k);
}

proof fn lemma_bound_to(holes: Seq<Binding>, name: Seq<char>, k: int)
    requires
        0 <= k < holes.len(),
        holes[k].0 == name,
        forall|j: int| 0 <= j < k ==> (#[trigger] holes[j]).0 != name,
    ensures
        template::bound_to(holes, name) == holes[k].1,
    decreases k,
{
    if k > 0 {
        let rest = holes.drop_first();
        assert(holes[0].0 != name);
        assert forall|j: int| 0 <= j < k - 1 implies (#[trigger] rest[j]).0 != name by {
            assert(rest[j] == holes[j + 1]);
        }
        lemma_bound_to(rest, name, k - 1);
    }
}

/// A hole is filled with the tokens that are bound to its name, as they are.
pub proof fn law_hole_is_filled(span: Span, name: Seq<char>, holes: Seq<Binding>, k: int)
    requires
        forall|i: int| 0 <= i < name.len() ==> name[i] != ' ',
        0 <= k < holes.len(),
        holes[k].0 == name,
        forall|j: int| 0 <= j < k ==> (#[trigger] holes[j]).0 != name,
    ensures
        template::template(span, seq!['$'] + name, holes) == holes[k].1,
{
    let word = seq!['$'] + name;
    assert(word.skip(1) =~= name);
    assert forall|i: int| 0 <= i < word.len() implies word[i] != ' ' by {
        if i > 0 {
            assert(word[i] == name[i - 1]);
        }
    }
    lemma_one_word(span, word, holes);
    lemma_bound_to(holes, name, k);
}

/// The brackets that are open behind some words, if each that is closed was the innermost
/// open one, and none that was open before is closed.
pub open spec fn left_open(words: Seq<Seq<char>>, open: Seq<Delim>) -> Option<Seq<Delim>>
    decreases words.len(),
{
    if words.len() == 0 {
        Some(open)
    } else {
        let rest = words.drop_first();
        match (template::opening(words[0]), template::closing(words[0])) {
            (Some(delim), _) => left_open(rest, open.push(delim)),
            (None, Some(delim)) => if open.len() > 0 && open.last() == delim {
                left_open(rest, open.drop_last())
            } else {
                None
            },
            (None, None) => left_open(rest, open),
        }
    }
}

/// A text whose brackets match.
pub open spec fn balanced(text: Seq<char>) -> bool {
    left_open(template::words_from(text, 0), Seq::empty()) == Some(Seq::<Delim>::empty())
}

spec fn written(span: Span, words: Seq<Seq<char>>, holes: Seq<Binding>) -> Seq<Token>
    decreases words.len(),
{
    if words.len() == 0 {
        Seq::empty()
    } else {
        let first = match (template::opening(words[0]), template::closing(words[0])) {
            (Some(delim), _) => seq![Token::Open(delim, span)],
            (None, Some(delim)) => seq![Token::Close(delim, span)],
            (None, None) => template::word_tokens(span, words[0], holes),
        };
        first + written(span, words.drop_first(), holes)
    }
}

proof fn lemma_fill_goes_on(
    span: Span,
    a: Seq<Seq<char>>,
    b: Seq<Seq<char>>,
    holes: Seq<Binding>,
    outer: Seq<Delim>,
    open: Seq<Delim>,
)
    requires
        left_open(a, open) is Some,
    ensures
        template::fill(span, a + b, holes, outer + open) == written(span, a, holes)
            + template::fill(span, b, holes, outer + left_open(a, open)->Some_0),
    decreases a.len(),
{
    let after = left_open(a, open)->Some_0;
    if a.len() == 0 {
        assert(a + b =~= b);
        assert(written(span, a, holes) + template::fill(span, b, holes, outer + after)
            =~= template::fill(span, b, holes, outer + open));
    } else {
        let rest = a.drop_first();
        assert((a + b)[0] == a[0]);
        assert((a + b).drop_first() =~= rest + b);
        let tail = template::fill(span, b, holes, outer + after);
        match (template::opening(a[0]), template::closing(a[0])) {
            (Some(delim), _) => {
                lemma_fill_goes_on(span, rest, b, holes, outer, open.push(delim));
                assert((outer + open).push(delim) =~= outer + open.push(delim));
                assert(seq![Token::Open(delim, span)] + (written(span, rest, holes) + tail)
                    =~= written(span, a, holes) + tail);
            },
            (None, Some(delim)) => {
                lemma_fill_goes_on(span, rest, b, holes, outer, open.drop_last());
                assert((outer + open).last() == delim);
                assert((outer + open).drop_last() =~= outer + open.drop_last());
                assert(seq![Token::Close(delim, span)] + (written(span, rest, holes) + tail)
                    =~= written(span, a, holes) + tail);
            },
            (None, None) => {
                lemma_fill_goes_on(span, rest, b, holes, outer, open);
                assert(template::word_tokens(span, a[0], holes) + (written(span, rest, holes)
                    + tail) =~= written(span, a, holes) + tail);
            },
        }
    }
}

proof fn lemma_balanced_is_written(span: Span, text: Seq<char>, holes: Seq<Binding>)
    requires
        balanced(text),
    ensures
        template::template(span, text, holes) == written(
            span,
            template::words_from(text, 0),
            holes,
        ),
{
    let words = template::words_from(text, 0);
    let none = Seq::<Delim>::empty();
    lemma_fill_goes_on(span, words, Seq::empty(), holes, none, none);
    assert(words + Seq::<Seq<char>>::empty() =~= words);
    assert(none + none =~= none);
    assert(written(span, words, holes) + Seq::<Token>::empty() =~= written(span, words, holes));
}

/// A template is read from left to right: where the brackets of its first part match, its
/// tokens are those of that part, and then those of the rest.
pub proof fn law_template_is_read_in_order(
    span: Span,
    a: Seq<char>,
    b: Seq<char>,
    holes: Seq<Binding>,
)
    requires
        balanced(a),
    ensures
        template::template(span, a + seq![' '] + b, holes) == template::template(span, a, holes)
            + template::template(span, b, holes),
{
    let none = Seq::<Delim>::empty();
    law_spaces_part_the_words(a, b);
    lemma_balanced_is_written(span, a, holes);
    lemma_fill_goes_on(
        span,
        template::words_from(a, 0),
        template::words_from(b, 0),
        holes,
        none,
        none,
    );
    assert(none + none =~= none);
}

/// What stands between two brackets that match is a group: the brackets, at the span of
/// the template, around the tokens of what they enclose.
pub proof fn law_brackets_make_a_group(
    span: Span,
    open: char,
    inner: Seq<char>,
    close: char,
    delim: Delim,
    holes: Seq<Binding>,
)
    requires
        balanced(inner),
        open == '(' && close == ')' && delim == Delim::Paren || open == '{' && close == '}'
            && delim == Delim::Brace || open == '[' && close == ']' && delim == Delim::Bracket,
    ensures
        template::template(span, seq![open, ' '] + inner + seq![' ', close], holes) == seq![
            Token::Open(delim, span),
        ] + template::template(span, inner, holes) + seq![Token::Close(delim, span)],
{
    let text = seq![open, ' '] + inner + seq![' ', close];
    let head = seq![open];
    let last = seq![close];
    let words = template::words_from(inner, 0);
    assert(text =~= head + seq![' '] + (inner + seq![' '] + last));
    law_spaces_part_the_words(head, inner + seq![' '] + last);
    law_spaces_part_the_words(inner, last);
    law_text_without_spaces_is_a_word(head);
    law_text_without_spaces_is_a_word(last);
    let all = template::words_from(text, 0);
    assert(all =~= seq![head] + (words + seq![last]));
    assert(all[0] == head);
    assert(all.drop_first() =~= words + seq![last]);
    let stack = seq![delim];
    assert(Seq::<Delim>::empty().push(delim) =~= stack);
    lemma_balanced_is_written(span, inner, holes);
    let none = Seq::<Delim>::empty();
    lemma_fill_goes_on(span, words, seq![last], holes, stack, none);
    assert(stack + none =~= stack);
    reveal_with_fuel(template::fill, 3);
    assert(seq![last].drop_first() =~= Seq::empty());
    assert(stack.drop_last() =~= none);
    assert(template::fill(span, seq![last], holes, stack) =~= seq![Token::Close(delim, span)]);
    assert(template::template(span, text, holes) =~= seq![Token::Open(delim, span)]
        + template::template(span, inner, holes) + seq![Token::Close(delim, span)]);
}

/// What the holes of a template are bound to is what was given for them, in order.
pub proof fn law_holes_are_bound_as_given(holes: Seq<Hole>, k: int)
    requires
        0 <= k < holes.len(),
    ensures
        template::bindings(holes).len() == holes.len(),
        template::bindings(holes)[k] == (holes[k].name@, tokens::tokens_of(holes[k].tokens)),
{
}

/// The tokens of several streams are those of each, in their order, and none else.
pub proof fn law_streams_are_joined_in_order(a: Seq<TokenStream>, b: Seq<TokenStream>)
    ensures
        tokens::all_tokens(a + b) == tokens::all_tokens(a) + tokens::all_tokens(b),
        a.len() == 1 ==> tokens::all_tokens(a) == tokens::tokens_of(a[0]),
        a.len() == 0 ==> tokens::all_tokens(a) == Seq::<Token>::empty(),
    decreases b.len(),
{
    if a.len() == 1 {
        reveal_with_fuel(tokens::all_tokens, 2);
        assert(tokens::all_tokens(a) =~= tokens::tokens_of(a[0]));
    }
    if b.len() == 0 {
        assert(a + b =~= a);
        assert(tokens::all_tokens(a) + tokens::all_tokens(b) =~= tokens::all_tokens(a));
    } else {
        law_streams_are_joined_in_order(a, b.drop_last());
        assert((a + b).drop_last() =~= a + b.drop_last());
        assert((a + b).last() == b.last());
        assert(tokens::all_tokens(a + b) =~= tokens::all_tokens(a) + tokens::all_tokens(b));
    }
}

/// The tokens of a text from position `i` on, inside the brackets `open`.
pub open spec fn read_from(
    span: Span,
    text: Seq<char>,
    holes: Seq<Binding>,
    open: Seq<Delim>,
    i: int,
) -> Seq<Token> {
    template::fill(span, template::words_from(text, i), holes, open)
}

proof fn lemma_next_word(text: Seq<char>, i: int, j: int)
    requires
        0 <= i < j <= text.len(),
        forall|k: int| i <= k < j ==> text[k] != ' ',
        j < text.len() ==> text[j] == ' ',
    ensures
        template::words_from(text, i) == seq![text.subrange(i, j)] + template::words_from(
            text,
            j + 1,
        ),
{
    lemma_word_ends_at(text, i + 1, j);
    assert(template::words_from(text, j) == template::words_from(text, j + 1));
}

proof fn lemma_word_ends_at(text: Seq<char>, i: int, j: int)
    requires
        0 <= i <= j <= text.len(),
        forall|k: int| i <= k < j ==> text[k] != ' ',
        j < text.len() ==> text[j] == ' ',
    ensures
        template::word_end(text, i) == j,
    decreases j - i,
{
    if i < j {
        lemma_word_ends_at(text, i + 1, j);
    }
}

/// Reads the identifier `word` at position `i`.
pub proof fn lemma_read_ident(
    span: Span,
    text: Seq<char>,
    holes: Seq<Binding>,
    open: Seq<Delim>,
    i: int,
    word: Seq<char>,
)
    requires
        0 <= i,
        i + word.len() <= text.len(),
        text.subrange(i, i + word.len()) =~= word,
        tokens::identifier(word),
        i + word.len() < text.len() ==> text[i + word.len()] == ' ',
    ensures
        read_from(span, text, holes, open, i) == seq![Token::Ident(word, span)] + read_from(
            span,
            text,
            holes,
            open,
            i + word.len() + 1,
        ),
{
    let j = i + word.len();
    assert forall|k: int| i <= k < j implies text[k] != ' ' by {
        assert(text[k] == word[k - i]);
        if k > i {
            assert(tokens::ident_continue(word[k - i]));
        }
    }
    lemma_next_word(text, i, j);
    let rest = template::words_from(text, j + 1);
    assert((seq![word] + rest).drop_first() =~= rest);
}

/// Reads the punctuation character at position `i`.
pub proof fn lemma_read_mark(
    span: Span,
    text: Seq<char>,
    holes: Seq<Binding>,
    open: Seq<Delim>,
    i: int,
)
    requires
        0 <= i < text.len(),
        tokens::punctuation(text[i]),
        text[i] != '$',
        i + 1 < text.len() ==> text[i + 1] == ' ',
    ensures
        read_from(span, text, holes, open, i) == seq![Token::Punct(text[i], false, span)]
            + read_from(span, text, holes, open, i + 2),
{
    lemma_next_word(text, i, i + 1);
    let word = text.subrange(i, i + 1);
    let rest = template::words_from(text, i + 2);
    assert((seq![word] + rest).drop_first() =~= rest);
    assert(word.skip(1) =~= Seq::empty());
    render_laws::lemma_char_range(text[i]);
    reveal_with_fuel(template::operator_tokens, 2);
    assert(word.drop_first() =~= Seq::empty());
    assert(template::operator_tokens(span, word) =~= seq![Token::Punct(text[i], false, span)]);
}

/// Reads the operator of two characters at position `i`.
pub proof fn lemma_read_operator(
    span: Span,
    text: Seq<char>,
    holes: Seq<Binding>,
    open: Seq<Delim>,
    i: int,
)
    requires
        0 <= i,
        i + 2 <= text.len(),
        tokens::punctuation(text[i]),
        tokens::punctuation(text[i + 1]),
        text[i] != '$',
        i + 2 < text.len() ==> text[i + 2] == ' ',
    ensures
        read_from(span, text, holes, open, i) == seq![
            Token::Punct(text[i], true, span),
            Token::Punct(text[i + 1], false, span),
        ] + read_from(span, text, holes, open, i + 3),
{
    lemma_next_word(text, i, i + 2);
    let word = text.subrange(i, i + 2);
    let rest = template::words_from(text, i + 3);
    assert((seq![word] + rest).drop_first() =~= rest);
    assert(word.skip(1)[0] == text[i + 1]);
    render_laws::lemma_char_range(text[i]);
    render_laws::lemma_char_range(text[i + 1]);
    lemma_operator_index(span, word, 0);
    lemma_operator_index(span, word, 1);
    assert(template::operator_tokens(span, word) =~= seq![
        Token::Punct(text[i], true, span),
        Token::Punct(text[i + 1], false, span),
    ]);
}

/// Reads the opening bracket at position `i`.
pub proof fn lemma_read_open(
    span: Span,
    text: Seq<char>,
    holes: Seq<Binding>,
    open: Seq<Delim>,
    i: int,
    delim: Delim,
)
    requires
        0 <= i < text.len(),
        template::opening(seq![text[i]]) == Some(delim),
        i + 1 < text.len() ==> text[i + 1] == ' ',
    ensures
        read_from(span, text, holes, open, i) == seq![Token::Open(delim, span)] + read_from(
            span,
            text,
            holes,
            open.push(delim),
            i + 2,
        ),
{
    lemma_next_word(text, i, i + 1);
    let word = text.subrange(i, i + 1);
    let rest = template::words_from(text, i + 2);
    assert((seq![word] + rest).drop_first() =~= rest);
    assert(word =~= seq![text[i]]);
}

/// Reads the bracket at position `i`, which closes the innermost open one.
pub proof fn lemma_read_close(
    span: Span,
    text: Seq<char>,
    holes: Seq<Binding>,
    open: Seq<Delim>,
    i: int,
    delim: Delim,
)
    requires
        0 <= i < text.len(),
        template::closing(seq![text[i]]) == Some(delim),
        i + 1 < text.len() ==> text[i + 1] == ' ',
    ensures
        read_from(span, text, holes, open.push(delim), i) == seq![Token::Close(delim, span)]
            + read_from(span, text, holes, open, i + 2),
{
    lemma_next_word(text, i, i + 1);
    let word = text.subrange(i, i + 1);
    let rest = template::words_from(text, i + 2);
    assert((seq![word] + rest).drop_first() =~= rest);
    assert(word =~= seq![text[i]]);
    assert(open.push(delim).drop_last() =~= open);
}

/// Reads the hole at position `i`, which is filled with what the `k`-th name is bound to.
pub proof fn lemma_read_hole(
    span: Span,
    text: Seq<char>,
    holes: Seq<Binding>,
    open: Seq<Delim>,
    i: int,
    k: int,
)
    requires
        0 <= k < holes.len(),
        tokens::identifier(holes[k].0),
        forall|j: int| 0 <= j < k ==> (#[trigger] holes[j]).0 != holes[k].0,
        0 <= i,
        i + 1 + holes[k].0.len() <= text.len(),
        text[i] == '$',
        text.subrange(i + 1, i + 1 + holes[k].0.len()) =~= holes[k].0,
        i + 1 + holes[k].0.len() < text.len() ==> text[i + 1 + holes[k].0.len()] == ' ',
    ensures
        read_from(span, text, holes, open, i) == holes[k].1 + read_from(
            span,
            text,
            holes,
            open,
            i + holes[k].0.len() + 2,
        ),
{
    let name = holes[k].0;
    let j = i + 1 + name.len();
    assert forall|l: int| i <= l < j implies text[l] != ' ' by {
        if l > i {
            assert(text[l] == name[l - i - 1]);
            if l > i + 1 {
                assert(tokens::ident_continue(name[l - i - 1]));
            }
        }
    }
    lemma_next_word(text, i, j);
    let word = text.subrange(i, j);
    let rest = template::words_from(text, j + 1);
    assert((seq![word] + rest).drop_first() =~= rest);
    assert(word.skip(1) =~= name);
    lemma_bound_to(holes, name, k);
}

/// Behind its end a text has no more tokens.
pub proof fn lemma_read_end(span: Span, text: Seq<char>, holes: Seq<Binding>, i: int)
    requires
        0 <= i,
        i >= text.len(),
    ensures
        read_from(span, text, holes, Seq::empty(), i) == Seq::<Token>::empty(),
{
}

/// Reading a text comes to every word of it.
pub proof fn lemma_read_reaches(
    span: Span,
    text: Seq<char>,
    holes: Seq<Binding>,
    open: Seq<Delim>,
    i: int,
    at: int,
) -> (reached: (Seq<Token>, Seq<Delim>))
    requires
        0 <= i <= at <= text.len(),
        i < at ==> text[at - 1] == ' ',
    ensures
        read_from(span, text, holes, open, i) == reached.0 + read_from(
            span,
            text,
            holes,
            reached.1,
            at,
        ),
    decreases at - i,
{
    let none = Seq::<Token>::empty();
    if i == at {
        assert(none + read_from(span, text, holes, open, i) =~= read_from(
            span,
            text,
            holes,
            open,
            i,
        ));
        (none, open)
    } else if text[i] == ' ' {
        lemma_read_reaches(span, text, holes, open, i + 1, at)
    } else {
        let end = template::word_end(text, i + 1);
        lemma_word_ends_before(text, i + 1, at - 1);
        let word = text.subrange(i, end);
        let rest = template::words_from(text, end);
        assert(template::words_from(text, i) == seq![word] + rest);
        assert((seq![word] + rest).drop_first() =~= rest);
        let (first, inside) = match (template::opening(word), template::closing(word)) {
            (Some(delim), _) => (seq![Token::Open(delim, span)], open.push(delim)),
            (None, Some(delim)) => if open.len() > 0 && open.last() == delim {
                (seq![Token::Close(delim, span)], open.drop_last())
            } else {
                (none, open)
            },
            (None, None) => (template::word_tokens(span, word, holes), open),
        };
        let (tail, reached) = lemma_read_reaches(span, text, holes, inside, end, at);
        assert(read_from(span, text, holes, open, i) =~= first + read_from(
            span,
            text,
            holes,
            inside,
            end,
        ));
        assert(first + (tail + read_from(span, text, holes, reached, at)) =~= (first + tail)
            + read_from(span, text, holes, reached, at));
        (first + tail, reached)
    }
}

proof fn lemma_word_ends_before(text: Seq<char>, i: int, space: int)
    requires
        0 <= i <= space < text.len(),
        text[space] == ' ',
    ensures
        i <= template::word_end(text, i) <= space,
    decreases space - i,
{
    if text[i] != ' ' {
        lemma_word_ends_before(text, i + 1, space);
    }
}

} // verus!
