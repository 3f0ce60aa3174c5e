//! Token streams, and the few operations by which the generator fills them.
//!
//! The streams are those of `proc_macro2`. What a stream holds is modelled as
//! a flat sequence of [`Token`]s, a group being laid out between its opening
//! and its closing bracket. The functions in this module that touch a stream
//! are the only ones whose contracts are taken on trust.

use vstd::prelude::*;
use darling::FromMeta;
use proc_macro2::TokenStream;
use quote::ToTokens;
use quote::TokenStreamExt;

verus! {

/// The brackets around a group of tokens.
#[derive(Clone, Copy, Debug, PartialEq, Eq, Structural)]
pub enum Delimiter {
    /// `( ... )`
    Parenthesis,
    /// `{ ... }`
    Brace,
    /// `[ ... ]`
    Bracket,
    /// A group without written brackets.
    Invisible,
}

/// Whether a punctuation character is glued to the token after it.
#[derive(Clone, Copy, Debug, PartialEq, Eq, Structural)]
pub enum Spacing {
    /// The operator ends with this character.
    Alone,
    /// The next punctuation character belongs to the same operator.
    Joint,
}

/// One token of a stream.
pub enum Token {
    /// An identifier or keyword, by its spelling.
    Ident(Seq<char>),
    /// One punctuation character.
    Punct(char, Spacing),
    /// A literal, by its source text.
    Literal(Seq<char>),
    /// The opening bracket of a group.
    Open(Delimiter),
    /// The closing bracket of a group.
    Close(Delimiter),
}

/// `proc_macro2::TokenStream`, taken as it is: nothing inside a stream is
/// visible here but through [`stream_tokens`].
#[verifier::external_type_specification]
#[verifier::external_body]
pub struct ExTokenStream(proc_macro2::TokenStream);

/// The tokens that a stream holds, in order, groups laid out flat.
pub uninterp spec fn stream_tokens(stream: TokenStream) -> Seq<Token>;

/// What `syn` reads out of a text that is to be one identifier: the
/// identifier's spelling, or nothing where the text is refused.
pub uninterp spec fn ident_spelling(text: Seq<char>) -> Option<Seq<char>>;

/// The punctuation characters that a token may hold.
pub open spec fn is_punct_char(ch: char) -> bool {
    ch == '!' || ch == '#' || ch == '$' || ch == '%' || ch == '&' || ch == '\'' || ch == '*'
        || ch == '+' || ch == ',' || ch == '-' || ch == '.' || ch == '/' || ch == ':' || ch == ';'
        || ch == '<' || ch == '=' || ch == '>' || ch == '?' || ch == '@' || ch == '^' || ch == '|'
        || ch == '~'
}

/// An ASCII letter or the underscore.
pub open spec fn is_word_start(ch: char) -> bool {
    ('a' <= ch && ch <= 'z') || ('A' <= ch && ch <= 'Z') || ch == '_'
}

/// An ASCII letter, an ASCII digit or the underscore.
pub open spec fn is_word_continue(ch: char) -> bool {
    is_word_start(ch) || ('0' <= ch && ch <= '9')
}

/// A plain word: an ASCII letter or underscore, then ASCII letters, digits
/// and underscores. Keywords are plain words too.
pub open spec fn is_plain_word(text: Seq<char>) -> bool {
    &&& text.len() > 0
    &&& is_word_start(text[0])
    &&& forall|i: int| 0 < i < text.len() ==> is_word_continue(#[trigger] text[i])
}

/// Wraps `proc_macro2::TokenStream::new`, which returns a stream without
/// tokens.
#[verifier::external_body]
pub(crate) fn new_stream() -> (stream: TokenStream)
    ensures
        stream_tokens(stream) == Seq::<Token>::empty(),
{
    TokenStream::new()
}

/// Wraps `quote::TokenStreamExt::append`, handed a `proc_macro2::Punct`: the
/// stream gains that one punctuation token at its end. `Punct::new` panics
/// on any character outside its list, which `requires` repeats.
#[verifier::external_body]
pub(crate) fn push_punct(stream: &mut TokenStream, ch: char, spacing: Spacing)
    requires
        is_punct_char(ch),
    ensures
        stream_tokens(*final(stream)) == stream_tokens(*old(stream)).push(
            Token::Punct(ch, spacing),
        ),
{
    stream.append(proc_macro2::Punct::new(ch, match spacing {
        Spacing::Alone => proc_macro2::Spacing::Alone,
        Spacing::Joint => proc_macro2::Spacing::Joint,
    }))
}

/// Wraps `quote::TokenStreamExt::append`, handed a `proc_macro2::Ident` made
/// by `Ident::new`: the stream gains one identifier token with the word as
/// its spelling. `Ident::new` panics on a text that is empty, a number, or
/// holds a character that cannot stand in an identifier; a plain word is none
/// of these, and keywords are accepted.
#[verifier::external_body]
pub(crate) fn push_word(stream: &mut TokenStream, word: &str)
    requires
        is_plain_word(word@),
    ensures
        stream_tokens(*final(stream)) == stream_tokens(*old(stream)).push(Token::Ident(word@)),
{
    stream.append(proc_macro2::Ident::new(word, proc_macro2::Span::call_site()))
}

/// Wraps `darling::FromMeta::from_string` for `syn::Ident`, which parses the
/// text with `syn::parse_str`. Where `syn` reads one identifier out of the
/// text, the result is its spelling as `Ident::to_string` gives it, and a
/// stream that holds that identifier as its only token. Where `syn` refuses
/// the text (a keyword, more than one token, no identifier at all), there is
/// no result.
#[verifier::external_body]
pub(crate) fn parse_ident(text: &str) -> (parsed: Option<(String, TokenStream)>)
    ensures
        parsed is Some <==> ident_spelling(text@) is Some,
        parsed matches Some((spelling, token)) ==> ident_spelling(text@) == Some(spelling@)
            && stream_tokens(token) == seq![Token::Ident(spelling@)],
{
    match syn::Ident::from_string(text) {
        Ok(ident) => Some((ident.to_string(), ident.into_token_stream())),
        Err(_) => None,
    }
}

/// Wraps `Clone::clone` for `proc_macro2::TokenStream`: the copy holds the
/// same tokens.
#[verifier::external_body]
pub(crate) fn clone_stream(stream: &TokenStream) -> (copy: TokenStream)
    ensures
        stream_tokens(copy) == stream_tokens(*stream),
{
    stream.clone()
}

/// Wraps `quote::TokenStreamExt::append`, handed a `proc_macro2::Group` made
/// by `Group::new`: the stream gains the group, which in the flat model is
/// the opening bracket, the inner stream's tokens and the closing bracket.
#[verifier::external_body]
pub(crate) fn push_group(stream: &mut TokenStream, delimiter: Delimiter, inner: TokenStream)
    ensures
        stream_tokens(*final(stream)) == stream_tokens(*old(stream)) + seq![
            Token::Open(delimiter),
        ] + stream_tokens(inner) + seq![Token::Close(delimiter)],
{
    stream.append(proc_macro2::Group::new(match delimiter {
        Delimiter::Parenthesis => proc_macro2::Delimiter::Parenthesis,
        Delimiter::Brace => proc_macro2::Delimiter::Brace,
        Delimiter::Bracket => proc_macro2::Delimiter::Bracket,
        Delimiter::Invisible => proc_macro2::Delimiter::None,
    }, inner))
}

/// Wraps `quote::ToTokens::to_tokens` for `proc_macro2::TokenStream`, which
/// extends the first stream by a copy of the second: the first gains the
/// second's tokens at its end, in their order.
#[verifier::external_body]
pub(crate) fn push_stream(stream: &mut TokenStream, other: &TokenStream)
    ensures
        stream_tokens(*final(stream)) == stream_tokens(*old(stream)) + stream_tokens(*other),
{
    other.to_tokens(stream)
}

/// A punctuation token that ends its operator.
pub open spec fn alone(ch: char) -> Token {
    Token::Punct(ch, Spacing::Alone)
}

/// A punctuation token glued to the next one.
pub open spec fn joint(ch: char) -> Token {
    Token::Punct(ch, Spacing::Joint)
}

/// An identifier token with the spelling of a string.
pub open spec fn word(text: &str) -> Token {
    Token::Ident(text@)
}

/// The tokens of a group: the opening bracket, the inner tokens, the closing
/// bracket.
pub open spec fn group(delimiter: Delimiter, inner: Seq<Token>) -> Seq<Token> {
    seq![Token::Open(delimiter)] + inner + seq![Token::Close(delimiter)]
}

/// The parts one after another, with the separator between each two.
pub open spec fn joined(parts: Seq<Seq<Token>>, separator: Seq<Token>) -> Seq<Token>
    decreases parts.len(),
{
    if parts.len() == 0 {
        Seq::empty()
    } else if parts.len() == 1 {
        parts[0]
    } else {
        joined(parts.drop_last(), separator) + separator + parts.last()
    }
}

/// `::`
pub open spec fn path_separator() -> Seq<Token> {
    seq![joint(':'), alone(':')]
}

/// `->`
pub open spec fn thin_arrow() -> Seq<Token> {
    seq![joint('-'), alone('>')]
}

/// `=>`
pub open spec fn fat_arrow() -> Seq<Token> {
    seq![joint('='), alone('>')]
}

/// Appends `::`.
pub(crate) fn push_path_separator(stream: &mut TokenStream)
    ensures
        stream_tokens(*final(stream)) == stream_tokens(*old(stream)) + path_separator(),
{
    push_punct(stream, ':', Spacing::Joint);
    push_punct(stream, ':', Spacing::Alone);
}

/// Appends `->`.
pub(crate) fn push_thin_arrow(stream: &mut TokenStream)
    ensures
        stream_tokens(*final(stream)) == stream_tokens(*old(stream)) + thin_arrow(),
{
    push_punct(stream, '-', Spacing::Joint);
    push_punct(stream, '>', Spacing::Alone);
}

/// Appends `=>`.
pub(crate) fn push_fat_arrow(stream: &mut TokenStream)
    ensures
        stream_tokens(*final(stream)) == stream_tokens(*old(stream)) + fat_arrow(),
{
    push_punct(stream, '=', Spacing::Joint);
    push_punct(stream, '>', Spacing::Alone);
}

} // verus!
