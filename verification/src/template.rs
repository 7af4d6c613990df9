//! Templates: the text of a piece of code with holes in it.
//!
//! A template is read as words, separated by spaces. A word is
//!
//! * `$name`, a hole, which stands for the tokens bound to that name;
//! * an identifier, or a lifetime such as `'v`;
//! * an operator, such as `::`, whose characters are joined to each other;
//! * an opening or a closing bracket.
//!
//! Every token that comes from the text itself is placed at one span. Tokens that
//! fill a hole keep their own. A closing bracket that does not match the innermost
//! open one is passed over, as is a word that is none of the above, and what is
//! still open at the end of the text is closed there.

use proc_macro2::{Span, TokenStream};
use vstd::prelude::*;
use vstd::string::*;

use crate::tokens::{self, Delim, Token};

verus! {

/// The tokens that fill one hole of a template.
pub struct Hole {
    pub name: &'static str,
    pub tokens: TokenStream,
}

/// A hole by what its name and its tokens are.
pub type Binding = (Seq<char>, Seq<Token>);

impl View for Hole {
    type V = Binding;

    open spec fn view(&self) -> Binding {
        (self.name@, tokens::tokens_of(self.tokens))
    }
}

/// What the holes of a template are bound to.
pub open spec fn bindings(holes: Seq<Hole>) -> Seq<Binding> {
    holes.map_values(|hole: Hole| hole@)
}

/// Where the word ends that goes on at `i`.
pub open spec fn word_end(text: Seq<char>, i: int) -> int
    decreases text.len() - i,
{
    if i >= text.len() || text[i] == ' ' {
        i
    } else {
        word_end(text, i + 1)
    }
}

pub proof fn lemma_word_end(text: Seq<char>, i: int)
    requires
        0 <= i <= text.len(),
    ensures
        i <= word_end(text, i) <= text.len(),
    decreases text.len() - i,
{
    if i < text.len() && text[i] != ' ' {
        lemma_word_end(text, i + 1);
    }
}

/// The words of a text from position `i` on.
pub open spec fn words_from(text: Seq<char>, i: int) -> Seq<Seq<char>>
    decreases text.len() - i,
    when 0 <= i
{
    if i >= text.len() {
        Seq::empty()
    } else if text[i] == ' ' {
        words_from(text, i + 1)
    } else {
        let end = word_end(text, i + 1);
        proof {
            lemma_word_end(text, i + 1);
        }
        seq![text.subrange(i, end)] + words_from(text, end)
    }
}

pub open spec fn opening(word: Seq<char>) -> Option<Delim> {
    if word.len() != 1 {
        None
    } else if word[0] == '(' {
        Some(Delim::Paren)
    } else if word[0] == '{' {
        Some(Delim::Brace)
    } else if word[0] == '[' {
        Some(Delim::Bracket)
    } else {
        None
    }
}

pub open spec fn closing(word: Seq<char>) -> Option<Delim> {
    if word.len() != 1 {
        None
    } else if word[0] == ')' {
        Some(Delim::Paren)
    } else if word[0] == '}' {
        Some(Delim::Brace)
    } else if word[0] == ']' {
        Some(Delim::Bracket)
    } else {
        None
    }
}

/// The tokens bound to `name`, none if nothing is.
pub open spec fn bound_to(holes: Seq<Binding>, name: Seq<char>) -> Seq<Token>
    decreases holes.len(),
{
    if holes.len() == 0 {
        Seq::empty()
    } else if holes[0].0 == name {
        holes[0].1
    } else {
        bound_to(holes.drop_first(), name)
    }
}

pub open spec fn operator(word: Seq<char>) -> bool {
    forall|i: int| 0 <= i < word.len() ==> tokens::punctuation(#[trigger] word[i])
}

/// The tokens of an operator: each character is joined to the next one.
pub open spec fn operator_tokens(span: Span, word: Seq<char>) -> Seq<Token>
    decreases word.len(),
{
    if word.len() == 0 {
        Seq::empty()
    } else {
        seq![Token::Punct(word[0], word.len() > 1, span)] + operator_tokens(span, word.drop_first())
    }
}

/// The tokens of a word that is no bracket.
pub open spec fn word_tokens(span: Span, word: Seq<char>, holes: Seq<Binding>) -> Seq<Token> {
    if word.len() > 0 && word[0] == '$' {
        bound_to(holes, word.skip(1))
    } else if tokens::identifier(word) {
        seq![Token::Ident(word, span)]
    } else if word.len() > 0 && word[0] == '\'' && tokens::identifier(word.skip(1)) {
        seq![Token::Punct('\'', true, span), Token::Ident(word.skip(1), span)]
    } else if operator(word) {
        operator_tokens(span, word)
    } else {
        Seq::empty()
    }
}

/// The brackets that close what is open, the innermost first.
pub open spec fn closing_tokens(span: Span, open: Seq<Delim>) -> Seq<Token>
    decreases open.len(),
{
    if open.len() == 0 {
        Seq::empty()
    } else {
        seq![Token::Close(open.last(), span)] + closing_tokens(span, open.drop_last())
    }
}

/// The tokens of a list of words that stand inside the brackets `open`.
pub open spec fn fill(
    span: Span,
    words: Seq<Seq<char>>,
    holes: Seq<Binding>,
    open: Seq<Delim>,
) -> Seq<Token>
    decreases words.len(),
{
    if words.len() == 0 {
        closing_tokens(span, open)
    } else {
        let word = words[0];
        let rest = words.drop_first();
        if let Some(delim) = opening(word) {
            seq![Token::Open(delim, span)] + fill(span, rest, holes, open.push(delim))
        } else if let Some(delim) = closing(word) {
            if open.len() > 0 && open.last() == delim {
                seq![Token::Close(delim, span)] + fill(span, rest, holes, open.drop_last())
            } else {
                fill(span, rest, holes, open)
            }
        } else {
            word_tokens(span, word, holes) + fill(span, rest, holes, open)
        }
    }
}

/// The tokens of a template.
pub open spec fn template(span: Span, text: Seq<char>, holes: Seq<Binding>) -> Seq<Token> {
    fill(span, words_from(text, 0), holes, Seq::empty())
}

fn is_ident_start(c: char) -> (yes: bool)
    ensures
        yes == tokens::ident_start(c),
{
    c == '_' || ('a' <= c && c <= 'z') || ('A' <= c && c <= 'Z')
}

fn is_identifier(text: &str) -> (yes: bool)
    ensures
        yes == tokens::identifier(text@),
{
    let len: usize = text.unicode_len();
    if len == 0 || !is_ident_start(text.get_char(0)) {
        return false;
    }
    let mut i: usize = 1;
    while i < len
        invariant
            1 <= i <= len,
            len == text@.len(),
            tokens::ident_start(text@[0]),
            forall|j: int| 0 < j < i ==> tokens::ident_continue(#[trigger] text@[j]),
        decreases len - i,
    {
        let c = text.get_char(i);
        if !is_ident_start(c) && !('0' <= c && c <= '9') {
            assert(!tokens::ident_continue(text@[i as int]));
            return false;
        }
        i = i + 1;
    }
    true
}

fn is_punctuation(c: char) -> (yes: bool)
    ensures
        yes == tokens::punctuation(c),
{
    c == '!' || c == '#' || c == '$' || c == '%' || c == '&' || c == '\'' || c == '*' || c == '+'
        || c == ',' || c == '-' || c == '.' || c == '/' || c == ':' || c == ';' || c == '<'
        || c == '=' || c == '>' || c == '?' || c == '@' || c == '^' || c == '|' || c == '~'
}

fn is_operator(text: &str) -> (yes: bool)
    ensures
        yes == operator(text@),
{
    let len: usize = text.unicode_len();
    let mut i: usize = 0;
    while i < len
        invariant
            i <= len,
            len == text@.len(),
            forall|j: int| 0 <= j < i ==> tokens::punctuation(#[trigger] text@[j]),
        decreases len - i,
    {
        if !is_punctuation(text.get_char(i)) {
            assert(!tokens::punctuation(text@[i as int]));
            return false;
        }
        i = i + 1;
    }
    true
}

fn append_operator(stream: &mut TokenStream, text: &str, span: Span)
    requires
        operator(text@),
    ensures
        tokens::tokens_of(*final(stream)) == tokens::tokens_of(*old(stream)) + operator_tokens(span, text@),
{
    let ghost all = tokens::tokens_of(*stream) + operator_tokens(span, text@);
    let len: usize = text.unicode_len();
    let mut i: usize = 0;
    assert(text@.skip(0) =~= text@);
    while i < len
        invariant
            i <= len,
            len == text@.len(),
            operator(text@),
            tokens::tokens_of(*stream) + operator_tokens(span, text@.skip(i as int)) == all,
        decreases len - i,
    {
        let ghost before = tokens::tokens_of(*stream);
        let ghost rest = text@.skip(i as int);
        tokens::append_punct(stream, text.get_char(i), i + 1 < len, span);
        i = i + 1;
        assert(rest.drop_first() =~= text@.skip(i as int));
        assert(tokens::tokens_of(*stream) + operator_tokens(span, rest.drop_first()) =~= before
            + operator_tokens(span, rest));
    }
    assert(tokens::tokens_of(*stream) + operator_tokens(span, text@.skip(len as int))
        =~= tokens::tokens_of(*stream));
}

fn append_bound(stream: &mut TokenStream, name: &str, holes: &Vec<Hole>)
    ensures
        tokens::tokens_of(*final(stream)) == tokens::tokens_of(*old(stream)) + bound_to(bindings(holes@), name@),
{
    let wanted = name.to_owned();
    let mut i: usize = 0;
    assert(bindings(holes@).skip(0) =~= bindings(holes@));
    while i < holes.len()
        invariant
            i <= holes@.len(),
            wanted@ == name@,
            *stream == *old(stream),
            bound_to(bindings(holes@), name@) == bound_to(
                bindings(holes@).skip(i as int),
                name@,
            ),
        decreases holes@.len() - i,
    {
        assert(bindings(holes@).skip(i as int)[0] == holes@[i as int]@);
        if holes[i].name.to_owned() == wanted {
            tokens::append_stream(stream, &holes[i].tokens);
            return;
        }
        assert(bindings(holes@).skip(i as int).drop_first() =~= bindings(holes@).skip(i + 1));
        i = i + 1;
    }
    assert(tokens::tokens_of(*stream) =~= tokens::tokens_of(*old(stream)) + bound_to(bindings(holes@), name@));
}

fn append_word(stream: &mut TokenStream, word: &str, holes: &Vec<Hole>, span: Span)
    ensures
        tokens::tokens_of(*final(stream)) == tokens::tokens_of(*old(stream)) + word_tokens(
            span,
            word@,
            bindings(holes@),
        ),
{
    let ghost before = tokens::tokens_of(*stream);
    let len: usize = word.unicode_len();
    if len > 0 && word.get_char(0) == '$' {
        let name = word.substring_char(1, len);
        assert(name@ =~= word@.skip(1));
        append_bound(stream, name, holes);
    } else if is_identifier(word) {
        tokens::append_ident(stream, word, span);
        assert(tokens::tokens_of(*stream) =~= before + seq![Token::Ident(word@, span)]);
    } else {
        if len > 0 && word.get_char(0) == '\'' {
            let name = word.substring_char(1, len);
            assert(name@ =~= word@.skip(1));
            if is_identifier(name) {
                tokens::append_punct(stream, '\'', true, span);
                tokens::append_ident(stream, name, span);
                assert(tokens::tokens_of(*stream) =~= before + seq![
                    Token::Punct('\'', true, span),
                    Token::Ident(name@, span),
                ]);
                return;
            }
        }
        if is_operator(word) {
            append_operator(stream, word, span);
        } else {
            assert(tokens::tokens_of(*stream) =~= before + Seq::<Token>::empty());
        }
    }
}

fn opening_delim(word: &str) -> (delim: Option<Delim>)
    ensures
        delim == opening(word@),
{
    if word.unicode_len() != 1 {
        return None;
    }
    let c = word.get_char(0);
    if c == '(' {
        Some(Delim::Paren)
    } else if c == '{' {
        Some(Delim::Brace)
    } else if c == '[' {
        Some(Delim::Bracket)
    } else {
        None
    }
}

fn closing_delim(word: &str) -> (delim: Option<Delim>)
    ensures
        delim == closing(word@),
{
    if word.unicode_len() != 1 {
        return None;
    }
    let c = word.get_char(0);
    if c == ')' {
        Some(Delim::Paren)
    } else if c == '}' {
        Some(Delim::Brace)
    } else if c == ']' {
        Some(Delim::Bracket)
    } else {
        None
    }
}

/// A group that has been opened: what stands before it, and its bracket.
struct Outer {
    before: TokenStream,
    delim: Delim,
}

spec fn open_delims(outer: Seq<Outer>) -> Seq<Delim> {
    outer.map_values(|o: Outer| o.delim)
}

/// What has been written before the innermost open group.
spec fn outer_tokens(span: Span, outer: Seq<Outer>) -> Seq<Token>
    decreases outer.len(),
{
    if outer.len() == 0 {
        Seq::empty()
    } else {
        outer_tokens(span, outer.drop_last()) + tokens::tokens_of(outer.last().before).push(
            Token::Open(outer.last().delim, span),
        )
    }
}

/// Closes the innermost open group: its tokens go behind what stands before it.
fn close_group(outer: &mut Vec<Outer>, current: TokenStream, span: Span) -> (closed: TokenStream)
    requires
        old(outer)@.len() > 0,
    ensures
        final(outer)@ == old(outer)@.drop_last(),
        open_delims(final(outer)@) == open_delims(old(outer)@).drop_last(),
        outer_tokens(span, final(outer)@) + tokens::tokens_of(closed) == outer_tokens(span, old(outer)@)
            + tokens::tokens_of(current).push(Token::Close(open_delims(old(outer)@).last(), span)),
{
    let ghost before = outer@;
    match outer.pop() {
        Some(group) => {
            let Outer { before: mut stream, delim } = group;
            let ghost start = tokens::tokens_of(stream);
            tokens::append_group(&mut stream, delim, current, span);
            assert(outer@ =~= before.drop_last());
            assert(open_delims(outer@) =~= open_delims(before).drop_last());
            assert(outer_tokens(span, outer@) + tokens::tokens_of(stream) =~= outer_tokens(span, before)
                + tokens::tokens_of(current).push(Token::Close(open_delims(before).last(), span)));
            stream
        },
        None => current,
    }
}

/// Reads a template and fills its holes.
pub fn quote_at(span: Span, text: &str, holes: Vec<Hole>) -> (stream: TokenStream)
    ensures
        tokens::tokens_of(stream) == template(span, text@, bindings(holes@)),
{
    let ghost bound = bindings(holes@);
    let ghost all = template(span, text@, bound);
    let len: usize = text.unicode_len();
    let mut outer: Vec<Outer> = Vec::new();
    let mut current = TokenStream::new();
    let mut i: usize = 0;
    assert(open_delims(outer@) =~= Seq::empty());
    assert(outer_tokens(span, outer@) + tokens::tokens_of(current) =~= Seq::empty());
    assert(Seq::<Token>::empty() + all =~= all);
    while i < len
        invariant
            i <= len,
            len == text@.len(),
            bound == bindings(holes@),
            (outer_tokens(span, outer@) + tokens::tokens_of(current)) + fill(
                span,
                words_from(text@, i as int),
                bound,
                open_delims(outer@),
            ) == all,
        decreases len - i,
    {
        if text.get_char(i) == ' ' {
            i = i + 1;
        } else {
            let ghost done = outer_tokens(span, outer@) + tokens::tokens_of(current);
            let ghost open = open_delims(outer@);
            let ghost words = words_from(text@, i as int);
            let mut end: usize = i + 1;
            proof {
                lemma_word_end(text@, i + 1);
            }
            while end < len && text.get_char(end) != ' '
                invariant
                    i < end <= len,
                    len == text@.len(),
                    word_end(text@, end as int) == word_end(text@, i + 1),
                decreases len - end,
            {
                end = end + 1;
            }
            let word = text.substring_char(i, end);
            let ghost rest = words_from(text@, end as int);
            assert(words =~= seq![word@] + rest);
            assert(words.drop_first() =~= rest);
            if let Some(delim) = opening_delim(word) {
                let ghost before = outer@;
                outer.push(Outer { before: current, delim });
                current = TokenStream::new();
                proof {
                    assert(outer@.drop_last() =~= before);
                    assert(open_delims(outer@) =~= open.push(delim));
                    assert(outer_tokens(span, outer@) + tokens::tokens_of(current) =~= done + seq![
                        Token::Open(delim, span),
                    ]);
                    assert((done + seq![Token::Open(delim, span)]) + fill(
                        span,
                        rest,
                        bound,
                        open.push(delim),
                    ) =~= done + fill(span, words, bound, open));
                }
            } else if let Some(delim) = closing_delim(word) {
                if outer.len() > 0 && outer[outer.len() - 1].delim == delim {
                    assert(open.last() == delim);
                    current = close_group(&mut outer, current, span);
                    proof {
                        assert(outer_tokens(span, outer@) + tokens::tokens_of(current) =~= done + seq![
                            Token::Close(delim, span),
                        ]);
                        assert((done + seq![Token::Close(delim, span)]) + fill(
                            span,
                            rest,
                            bound,
                            open.drop_last(),
                        ) =~= done + fill(span, words, bound, open));
                    }
                }
            } else {
                append_word(&mut current, word, &holes, span);
                proof {
                    let added = word_tokens(span, word@, bound);
                    assert(outer_tokens(span, outer@) + tokens::tokens_of(current) =~= done + added);
                    assert((done + added) + fill(span, rest, bound, open) =~= done + fill(
                        span,
                        words,
                        bound,
                        open,
                    ));
                }
            }
            i = end;
        }
    }
    while outer.len() > 0
        invariant
            (outer_tokens(span, outer@) + tokens::tokens_of(current)) + closing_tokens(
                span,
                open_delims(outer@),
            ) == all,
        decreases outer@.len(),
    {
        let ghost done = outer_tokens(span, outer@) + tokens::tokens_of(current);
        let ghost open = open_delims(outer@);
        current = close_group(&mut outer, current, span);
        assert(outer_tokens(span, outer@) + tokens::tokens_of(current) =~= done + seq![
            Token::Close(open.last(), span),
        ]);
        assert((done + seq![Token::Close(open.last(), span)]) + closing_tokens(
            span,
            open.drop_last(),
        ) =~= done + closing_tokens(span, open));
    }
    assert(outer_tokens(span, outer@) + tokens::tokens_of(current) =~= tokens::tokens_of(current));
    assert(tokens::tokens_of(current) + closing_tokens(span, open_delims(outer@)) =~= tokens::tokens_of(current));
    current
}

} // verus!
