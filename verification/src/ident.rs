//! Identifiers: names that can be written into a token stream.

use vstd::prelude::*;
use vstd::string::StrSliceExecFns;
use proc_macro2::TokenStream;
use crate::text::same_text;
use crate::tokens::{
    clone_stream, ident_spelling, is_plain_word, is_word_continue, new_stream, parse_ident,
    push_stream, push_word, stream_tokens, Token,
};

verus! {

/// Whether a text is an identifier as `syn` reads it, spelled exactly as
/// given: no keyword, no space around it, nothing after it.
pub open spec fn is_identifier(text: Seq<char>) -> bool {
    ident_spelling(text) == Some(text)
}

/// Whether a text is a plain word.
pub fn is_plain(text: &str) -> (plain: bool)
    ensures
        plain == is_plain_word(text@),
{
    let n = text.unicode_len();
    if n == 0 {
        return false;
    }
    let first = text.get_char(0);
    if !(('a' <= first && first <= 'z') || ('A' <= first && first <= 'Z') || first == '_') {
        return false;
    }
    let mut i: usize = 1;
    while i < n
        invariant
            1 <= i <= n,
            n == text@.len(),
            forall|k: int| 0 < k < i ==> is_word_continue(#[trigger] text@[k]),
        decreases n - i,
    {
        let c = text.get_char(i);
        if !(('a' <= c && c <= 'z') || ('A' <= c && c <= 'Z') || c == '_' || ('0' <= c && c
            <= '9')) {
            return false;
        }
        i += 1;
    }
    true
}

/// A name together with the identifier token that it spells: either an
/// identifier as `syn` reads it, or a plain word.
#[derive(Debug)]
pub struct Ident {
    text: String,
    token: TokenStream,
}

impl View for Ident {
    type V = Seq<char>;

    closed spec fn view(&self) -> Seq<char> {
        self.text@
    }
}

impl Ident {
    #[verifier::type_invariant]
    spec fn well_formed(self) -> bool {
        stream_tokens(self.token) == seq![Token::Ident(self.text@)]
    }

    /// The identifier token with this name.
    pub open spec fn token(&self) -> Token {
        Token::Ident(self@)
    }

    /// The identifier that a text spells. Succeeds exactly on the texts that
    /// are identifiers; keywords, texts with more than one token and texts
    /// with anything around the identifier are refused.
    pub fn from_string(value: &str) -> (ident: Option<Ident>)
        ensures
            ident is Some <==> is_identifier(value@),
            ident matches Some(id) ==> id@ == value@,
    {
        match parse_ident(value) {
            Some((spelling, token)) => {
                if same_text(spelling.as_str(), value) {
                    Some(Ident { text: spelling, token })
                } else {
                    None
                }
            },
            None => None,
        }
    }

    /// The identifier token that a spelling stands for, keywords included:
    /// a path may begin with `crate` or `Self`, which are no identifiers to
    /// `syn` and tokens all the same. Succeeds on the plain words and on the
    /// identifiers.
    pub fn from_token(spelling: &str) -> (ident: Option<Ident>)
        ensures
            ident is Some <==> is_plain_word(spelling@) || is_identifier(spelling@),
            ident matches Some(id) ==> id@ == spelling@,
    {
        if is_plain(spelling) {
            Some(Ident::word(spelling))
        } else {
            Ident::from_string(spelling)
        }
    }

    /// The identifier for a plain word, keywords included.
    pub(crate) fn word(text: &str) -> (ident: Ident)
        requires
            is_plain_word(text@),
        ensures
            ident@ == text@,
    {
        let mut token = new_stream();
        push_word(&mut token, text);
        Ident { text: text.to_owned(), token }
    }

    /// The name as a string.
    pub fn as_str(&self) -> (text: &str)
        ensures
            text@ == self@,
    {
        self.text.as_str()
    }

    /// Whether the name is the given text.
    pub fn is(&self, text: &str) -> (same: bool)
        ensures
            same == (self@ == text@),
    {
        same_text(self.text.as_str(), text)
    }

    /// Appends the identifier to a stream, as one token.
    pub fn to_tokens(&self, tokens: &mut TokenStream)
        ensures
            stream_tokens(*final(tokens)) == stream_tokens(*old(tokens)).push(self.token()),
    {
        proof {
            use_type_invariant(self);
        }
        push_stream(tokens, &self.token);
    }
}

impl Clone for Ident {
    fn clone(&self) -> (copy: Self)
        ensures
            copy@ == self@,
    {
        proof {
            use_type_invariant(self);
        }
        Ident { text: self.text.clone(), token: clone_stream(&self.token) }
    }
}

/// The names of a sequence of identifiers.
pub open spec fn names(idents: Seq<Ident>) -> Seq<Seq<char>> {
    Seq::new(idents.len(), |i: int| idents[i]@)
}

} // verus!
