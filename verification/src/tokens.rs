//! Token streams of `proc_macro2`, seen as flat sequences of tokens.
//!
//! The streams and spans are those that `proc_macro2` implements itself. Without its
//! feature `proc-macro`, which is left off, it has no others, so those of a running
//! compiler, which it refuses to mix with its own, do not occur.

use proc_macro2::{Delimiter, Group, Ident, Literal, Punct, Spacing, Span, TokenStream};
use quote::TokenStreamExt;
use vstd::prelude::*;

verus! {

/// `proc_macro2::Span`: a place in source code, carried along and never looked into.
#[verifier::external_type_specification]
#[verifier::external_body]
pub struct ExSpan(proc_macro2::Span);

/// `proc_macro2::TokenStream`: what it holds is named by [`tokens_of`].
#[verifier::external_type_specification]
#[verifier::external_body]
pub struct ExTokenStream(proc_macro2::TokenStream);

/// The bracket that encloses a group of tokens.
#[derive(Clone, Copy, Debug, PartialEq, Eq, Structural)]
pub enum Delim {
    /// `( ... )`
    Paren,
    /// `{ ... }`
    Brace,
    /// `[ ... ]`
    Bracket,
    /// A group without visible brackets. No template makes one.
    Invisible,
}

/// One token. A group is written as its opening token, the tokens inside it and
/// its closing token, the two of them at the span of the group.
pub enum Token {
    /// An identifier or a keyword.
    Ident(Seq<char>, Span),
    /// A punctuation character, and whether it is joined to the one that follows.
    Punct(char, bool, Span),
    /// A string literal, by the string that it stands for.
    Str(Seq<char>, Span),
    /// An integer literal with the suffix `usize`.
    Usize(usize, Span),
    /// Any other literal, by its text.
    Literal(Seq<char>, Span),
    /// The opening bracket of a group.
    Open(Delim, Span),
    /// The closing bracket of a group.
    Close(Delim, Span),
}

/// The tokens that a stream holds, in order, groups opened up.
pub uninterp spec fn tokens_of(stream: TokenStream) -> Seq<Token>;

/// The tokens of an optional stream.
pub open spec fn optional_tokens(stream: Option<TokenStream>) -> Option<Seq<Token>> {
    match stream {
        Some(tokens) => Some(tokens_of(tokens)),
        None => None,
    }
}

/// The tokens of several streams, one after the other.
pub open spec fn all_tokens(streams: Seq<TokenStream>) -> Seq<Token>
    decreases streams.len(),
{
    if streams.len() == 0 {
        Seq::empty()
    } else {
        all_tokens(streams.drop_last()) + tokens_of(streams.last())
    }
}

pub open spec fn ident_start(c: char) -> bool {
    c == '_' || 'a' <= c <= 'z' || 'A' <= c <= 'Z'
}

pub open spec fn ident_continue(c: char) -> bool {
    ident_start(c) || '0' <= c <= '9'
}

/// An ASCII identifier (keywords and `_` included).
pub open spec fn identifier(text: Seq<char>) -> bool {
    &&& text.len() > 0
    &&& ident_start(text[0])
    &&& forall|i: int| 0 < i < text.len() ==> ident_continue(#[trigger] text[i])
}

/// The characters of which Rust makes its operators and separators.
pub open spec fn punctuation(c: char) -> bool {
    ||| c == '!' || c == '#' || c == '$' || c == '%' || c == '&' || c == '\'' || c == '*'
    ||| c == '+' || c == ',' || c == '-' || c == '.' || c == '/' || c == ':' || c == ';'
    ||| c == '<' || c == '=' || c == '>' || c == '?' || c == '@' || c == '^' || c == '|'
    ||| c == '~'
}

/// `TokenStream::new`: an empty stream.
pub assume_specification[ TokenStream::new ]() -> (stream: TokenStream)
    ensures
        tokens_of(stream) == Seq::<Token>::empty(),
;

/// `Span::call_site`: the place of the macro call that is being expanded.
/// Nothing is said of it, since it depends on that call.
pub assume_specification[ Span::call_site ]() -> (span: Span)
;

/// Appends the identifier that `Ident::new` makes of `text` at `span`, by
/// `TokenStreamExt::append`, which adds one token at the end of the stream.
/// `Ident::new` panics on a text that is no identifier.
#[verifier::external_body]
pub(crate) fn append_ident(stream: &mut TokenStream, text: &str, span: Span)
    requires
        identifier(text@),
    ensures
        tokens_of(*final(stream)) == tokens_of(*old(stream)).push(Token::Ident(text@, span)),
{
    stream.append(Ident::new(text, span));
}

/// Appends the character that `Punct::new` makes a token of, placed at `span` by
/// `Punct::set_span`, by `TokenStreamExt::append`. `Punct::new` panics on a
/// character that is no punctuation.
#[verifier::external_body]
pub(crate) fn append_punct(stream: &mut TokenStream, c: char, joint: bool, span: Span)
    requires
        punctuation(c),
    ensures
        tokens_of(*final(stream)) == tokens_of(*old(stream)).push(Token::Punct(c, joint, span)),
{
    let spacing = match joint {
        true => Spacing::Joint,
        false => Spacing::Alone,
    };
    let mut punct = Punct::new(c, spacing);
    punct.set_span(span);
    stream.append(punct);
}

/// Appends the literal that `Literal::string` makes of `text`, placed at `span` by
/// `Literal::set_span`, by `TokenStreamExt::append`. The literal stands for `text`
/// whatever characters have to be escaped in it.
#[verifier::external_body]
pub(crate) fn append_str(stream: &mut TokenStream, text: &str, span: Span)
    ensures
        tokens_of(*final(stream)) == tokens_of(*old(stream)).push(Token::Str(text@, span)),
{
    let mut literal = Literal::string(text);
    literal.set_span(span);
    stream.append(literal);
}

/// Appends the literal that `Literal::usize_suffixed` makes of `n`, placed at `span`
/// by `Literal::set_span`, by `TokenStreamExt::append`.
#[verifier::external_body]
pub(crate) fn append_usize(stream: &mut TokenStream, n: usize, span: Span)
    ensures
        tokens_of(*final(stream)) == tokens_of(*old(stream)).push(Token::Usize(n, span)),
{
    let mut literal = Literal::usize_suffixed(n);
    literal.set_span(span);
    stream.append(literal);
}

/// Appends the group that `Group::new` makes of `inner`, placed at `span` by
/// `Group::set_span`, by `TokenStreamExt::append`.
#[verifier::external_body]
pub(crate) fn append_group(stream: &mut TokenStream, delim: Delim, inner: TokenStream, span: Span)
    ensures
        tokens_of(*final(stream)) == tokens_of(*old(stream)).push(Token::Open(delim, span))
            + tokens_of(inner).push(Token::Close(delim, span)),
{
    let delimiter = match delim {
        Delim::Paren => Delimiter::Parenthesis,
        Delim::Brace => Delimiter::Brace,
        Delim::Bracket => Delimiter::Bracket,
        Delim::Invisible => Delimiter::None,
    };
    let mut group = Group::new(delimiter, inner);
    group.set_span(span);
    stream.append(group);
}

/// Appends all tokens of another stream, which `TokenStream::extend` adds at the end
/// in their order.
#[verifier::external_body]
pub(crate) fn append_stream(stream: &mut TokenStream, other: &TokenStream)
    ensures
        tokens_of(*final(stream)) == tokens_of(*old(stream)) + tokens_of(*other),
{
    stream.extend(std::iter::once(other.clone()));
}

/// The stream that holds the tokens of `streams`, one after the other.
pub fn concat(streams: &Vec<TokenStream>) -> (stream: TokenStream)
    ensures
        tokens_of(stream) == all_tokens(streams@),
{
    let mut stream = TokenStream::new();
    let mut i: usize = 0;
    while i < streams.len()
        invariant
            i <= streams@.len(),
            tokens_of(stream) == all_tokens(streams@.take(i as int)),
        decreases streams@.len() - i,
    {
        append_stream(&mut stream, &streams[i]);
        i = i + 1;
        assert(streams@.take(i as int).drop_last() =~= streams@.take(i - 1));
    }
    assert(streams@.take(i as int) =~= streams@);
    stream
}

/// A copy of a stream.
pub fn copy(original: &TokenStream) -> (stream: TokenStream)
    ensures
        tokens_of(stream) == tokens_of(*original),
{
    let mut stream = TokenStream::new();
    append_stream(&mut stream, original);
    assert(tokens_of(stream) =~= tokens_of(*original));
    stream
}

/// The stream of one string literal.
pub fn str_literal(text: &str, span: Span) -> (stream: TokenStream)
    ensures
        tokens_of(stream) == seq![Token::Str(text@, span)],
{
    let mut stream = TokenStream::new();
    append_str(&mut stream, text, span);
    assert(tokens_of(stream) =~= seq![Token::Str(text@, span)]);
    stream
}

/// The stream of one `usize` literal.
pub fn usize_literal(n: usize, span: Span) -> (stream: TokenStream)
    ensures
        tokens_of(stream) == seq![Token::Usize(n, span)],
{
    let mut stream = TokenStream::new();
    append_usize(&mut stream, n, span);
    assert(tokens_of(stream) =~= seq![Token::Usize(n, span)]);
    stream
}

/// The word `true` or `false`.
pub open spec fn bool_word(b: bool) -> Seq<char> {
    if b {
        "true"@
    } else {
        "false"@
    }
}

/// The stream of the word `true` or `false`.
pub fn bool_literal(b: bool, span: Span) -> (stream: TokenStream)
    ensures
        tokens_of(stream) == seq![Token::Ident(bool_word(b), span)],
{
    proof {
        reveal_strlit("true");
        reveal_strlit("false");
    }
    let mut stream = TokenStream::new();
    append_ident(&mut stream, if b { "true" } else { "false" }, span);
    assert(tokens_of(stream) =~= seq![Token::Ident(bool_word(b), span)]);
    stream
}

/// What `mut` adds to a binding: nothing unless it is mutable.
pub open spec fn mut_tokens(mutable: bool, span: Span) -> Seq<Token> {
    if mutable {
        seq![Token::Ident("mut"@, span)]
    } else {
        Seq::empty()
    }
}

/// The word `mut`, if the binding is mutable.
pub fn mut_token(mutable: bool, span: Span) -> (stream: TokenStream)
    ensures
        tokens_of(stream) == mut_tokens(mutable, span),
{
    proof {
        reveal_strlit("mut");
    }
    let mut stream = TokenStream::new();
    if mutable {
        append_ident(&mut stream, "mut", span);
        assert(tokens_of(stream) =~= seq![Token::Ident("mut"@, span)]);
    }
    stream
}

} // verus!
