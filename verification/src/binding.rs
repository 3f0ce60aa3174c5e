//! Bindings: the wrapper that is generated for one exposed method.

use vstd::prelude::*;
use proc_macro2::TokenStream;
use crate::classify::{ReturnShape, StructuralError};
use crate::config::{dotted_tokens, push_dotted, AccessStrategy, GeneratorConfig, Settings};
use crate::descriptor::{comma, Descriptor, FunctionData};
use crate::ident::{names, Ident};
use crate::interface::{ReturnType, Type};
use crate::tokens::{
    alone, fat_arrow, group, new_stream, path_separator, push_fat_arrow, push_group,
    push_path_separator, push_punct, push_stream, push_thin_arrow, push_word, stream_tokens,
    thin_arrow, word, Delimiter, Spacing, Token,
};

verus! {

/// What a wrapper returns.
#[derive(Clone, Copy, Debug)]
pub enum Output<'a> {
    /// Nothing: the wrapper has no return type.
    Absent,
    /// The return type of the method, as the method writes it.
    Verbatim(&'a Type),
    /// An option of the given type.
    Optional(&'a Type),
    /// An option of the unit.
    OptionalUnit,
}

/// How the body of a wrapper reaches the method.
#[derive(Clone, Copy, Debug, PartialEq, Eq, Structural)]
pub enum Body {
    /// Call the method on the target and hand its result back.
    CallThrough,
    /// Lock the target; call the method on the guard and drop its result;
    /// do nothing where the lock cannot be taken.
    LockAndDiscard,
    /// Lock the target; hand back a copy of the method's result in an
    /// option; no value where the lock cannot be taken.
    LockAndWrap,
    /// Lock the target; the method's result is an option already: hand back
    /// a copy of what it holds, still in one option; no value where the lock
    /// cannot be taken.
    LockAndForward,
}

/// The wrapper generated for one exposed method.
#[derive(Debug)]
pub struct Binding<'a> {
    /// The method's descriptor: the wrapper has the method's name, and its
    /// parameters are the descriptor's.
    pub descriptor: FunctionData<'a>,
    /// The path from the state parameter to the call target.
    pub target: &'a Vec<Ident>,
    /// What the wrapper returns.
    pub output: Output<'a>,
    /// How the body reaches the method.
    pub body: Body,
}

/// A binding as a value.
pub struct BindingView<'a> {
    /// The method's descriptor.
    pub descriptor: Descriptor<'a>,
    /// The path to the call target.
    pub target: Seq<Seq<char>>,
    /// What the wrapper returns.
    pub output: Output<'a>,
    /// How the body reaches the method.
    pub body: Body,
}

impl<'a> View for Binding<'a> {
    type V = BindingView<'a>;

    open spec fn view(&self) -> BindingView<'a> {
        BindingView {
            descriptor: self.descriptor@,
            target: names(self.target@),
            output: self.output,
            body: self.body,
        }
    }
}

/// The return type of a method as the wrapper's own.
pub open spec fn verbatim<'a>(return_type: &'a ReturnType) -> Output<'a> {
    match return_type {
        ReturnType::Absent => Output::Absent,
        ReturnType::Declared(ty) => Output::Verbatim(ty),
    }
}

/// The option that a wrapper returns for a method of the given return
/// shape: one layer of option around the value, the referent or the unit;
/// for a reference to an option, that option by value and no second layer.
pub open spec fn in_one_option<'a>(shape: ReturnShape<'a>) -> Output<'a> {
    match shape {
        ReturnShape::Unit => Output::OptionalUnit,
        ReturnShape::Value(ty) => Output::Optional(ty),
        ReturnShape::Reference(referent) => Output::Optional(referent),
        ReturnShape::Optional(inner) => Output::Optional(inner),
    }
}

/// The wrapper for a method under a configuration, or the reason why there
/// is none.
///
/// - `Direct`: the wrapper calls through and returns what the method
///   returns, under the method's own return type.
/// - `Locked`: only for a method that returns nothing; the wrapper locks,
///   calls through and returns nothing.
/// - `LockedToOptional`: the wrapper locks and returns an option; a method
///   that returns a reference to an option has that option forwarded, any
///   other result is wrapped.
pub open spec fn synthesized<'a>(
    descriptor: Descriptor<'a>,
    settings: Settings,
    shape: ReturnShape<'a>,
) -> Result<BindingView<'a>, StructuralError> {
    match settings.access_strategy {
        AccessStrategy::Direct => Ok(
            BindingView {
                descriptor: descriptor,
                target: settings.body_state_path,
                output: verbatim(descriptor.return_type),
                body: Body::CallThrough,
            },
        ),
        AccessStrategy::Locked => match shape {
            ReturnShape::Unit => Ok(
                BindingView {
                    descriptor: descriptor,
                    target: settings.body_state_path,
                    output: Output::Absent,
                    body: Body::LockAndDiscard,
                },
            ),
            _ => Err(StructuralError::LockWithReturnType),
        },
        AccessStrategy::LockedToOptional => Ok(
            BindingView {
                descriptor: descriptor,
                target: settings.body_state_path,
                output: in_one_option(shape),
                body: match shape {
                    ReturnShape::Optional(_) => Body::LockAndForward,
                    _ => Body::LockAndWrap,
                },
            },
        ),
    }
}

/// The tag that lets the dispatch table find a wrapper: `#[tauri::command]`.
pub open spec fn attribute_tokens() -> Seq<Token> {
    seq![alone('#')] + group(
        Delimiter::Bracket,
        seq![word("tauri")] + path_separator() + seq![word("command")],
    )
}

/// `()`
pub open spec fn unit_tokens() -> Seq<Token> {
    group(Delimiter::Parenthesis, Seq::empty())
}

/// A word and, in parentheses, what it is applied to.
pub open spec fn applied(name: &str, inner: Seq<Token>) -> Seq<Token> {
    seq![word(name)] + group(Delimiter::Parenthesis, inner)
}

/// A dot, a word and an empty pair of parentheses: a call without
/// arguments on what stands before.
pub open spec fn bare_call(name: &str) -> Seq<Token> {
    seq![alone('.'), word(name)] + unit_tokens()
}

/// The arms that copy what an option holds: `Some(some) => Some(some.clone()),`
/// and `None => None,`.
pub open spec fn copy_arms() -> Seq<Token> {
    applied("Some", seq![word("some")]) + fat_arrow() + applied(
        "Some",
        seq![word("some")] + bare_call("clone"),
    ) + comma() + none_arm()
}

/// The match arm that maps no value to no value: `None => None,`.
pub open spec fn none_arm() -> Seq<Token> {
    seq![word("None")] + fat_arrow() + seq![word("None")] + comma()
}

impl<'a> Output<'a> {
    /// The tokens of the return type, arrow included; none where the
    /// wrapper returns nothing.
    pub open spec fn tokens(&self) -> Seq<Token> {
        match self {
            Output::Absent => Seq::empty(),
            Output::Verbatim(ty) => thin_arrow() + stream_tokens(ty.tokens),
            Output::Optional(ty) => thin_arrow() + seq![word("Option"), alone('<')]
                + stream_tokens(ty.tokens) + seq![alone('>')],
            Output::OptionalUnit => thin_arrow() + seq![word("Option"), alone('<')]
                + unit_tokens() + seq![alone('>')],
        }
    }
}

impl<'a> BindingView<'a> {
    /// The call of the method on what stands before: a dot, the method's
    /// name and, in parentheses, the arguments handed on.
    pub open spec fn call_tokens(&self) -> Seq<Token> {
        seq![alone('.'), Token::Ident(self.descriptor.name)] + group(
            Delimiter::Parenthesis,
            self.descriptor.argument_tokens(),
        )
    }

    /// The call of the method on the guard.
    pub open spec fn guarded_call_tokens(&self) -> Seq<Token> {
        seq![word("guard")] + self.call_tokens()
    }

    /// The taking of the lock: `match`, the path to the call target and the
    /// call of `lock`; with `as_option`, the lock's result is turned into an
    /// option by a call of `ok`.
    pub open spec fn lock_tokens(&self, as_option: bool) -> Seq<Token> {
        seq![word("match")] + dotted_tokens(self.target) + bare_call("lock") + if as_option {
            bare_call("ok")
        } else {
            Seq::empty()
        }
    }

    /// The arms that call through on the guard and drop the result, and do
    /// nothing where the lock cannot be taken.
    pub open spec fn discard_arms(&self) -> Seq<Token> {
        applied("Ok", seq![word("guard")]) + fat_arrow() + self.guarded_call_tokens() + comma()
            + applied("Err", seq![word("_")]) + fat_arrow() + unit_tokens() + comma()
    }

    /// The arms that hand back a copy of the method's result in an option,
    /// and no value where the lock cannot be taken.
    pub open spec fn wrap_arms(&self) -> Seq<Token> {
        applied("Some", seq![word("guard")]) + fat_arrow() + applied(
            "Some",
            self.guarded_call_tokens() + bare_call("clone"),
        ) + comma() + none_arm()
    }

    /// The arms that look into the option that the method returns, and hand
    /// back a copy of what it holds, in one option.
    pub open spec fn forward_arms(&self) -> Seq<Token> {
        applied("Some", seq![word("guard")]) + fat_arrow() + seq![word("match")]
            + self.guarded_call_tokens() + group(Delimiter::Brace, copy_arms()) + comma()
            + none_arm()
    }

    /// The tokens of the wrapper's body, without its braces.
    pub open spec fn body_tokens(&self) -> Seq<Token> {
        match self.body {
            Body::CallThrough => dotted_tokens(self.target) + self.call_tokens(),
            Body::LockAndDiscard => self.lock_tokens(false) + group(
                Delimiter::Brace,
                self.discard_arms(),
            ),
            Body::LockAndWrap => self.lock_tokens(true) + group(
                Delimiter::Brace,
                self.wrap_arms(),
            ),
            Body::LockAndForward => self.lock_tokens(true) + group(
                Delimiter::Brace,
                self.forward_arms(),
            ),
        }
    }

    /// The tokens of the wrapper's signature: `pub fn`, the method's name,
    /// the parameter list in parentheses, the return type.
    pub open spec fn signature_tokens(&self) -> Seq<Token> {
        seq![word("pub"), word("fn"), Token::Ident(self.descriptor.name)] + group(
            Delimiter::Parenthesis,
            self.descriptor.parameter_tokens(),
        ) + self.output.tokens()
    }

    /// The tokens of the whole wrapper: the tag, the signature, the body in
    /// braces.
    pub open spec fn tokens(&self) -> Seq<Token> {
        attribute_tokens() + self.signature_tokens() + group(
            Delimiter::Brace,
            self.body_tokens(),
        )
    }
}

/// The wrapper for a method under a configuration, or the reason why there
/// is none.
pub fn synthesize<'a>(
    descriptor: FunctionData<'a>,
    config: &'a GeneratorConfig,
    shape: ReturnShape<'a>,
) -> (binding: Result<Binding<'a>, StructuralError>)
    ensures
        binding matches Ok(made) ==> synthesized(descriptor@, config@, shape) == Ok::<
            BindingView<'a>,
            StructuralError,
        >(made@),
        binding matches Err(reason) ==> synthesized(descriptor@, config@, shape) == Err::<
            BindingView<'a>,
            StructuralError,
        >(reason),
{
    match config.access_strategy {
        AccessStrategy::Direct => {
            let output = match descriptor.return_type {
                ReturnType::Absent => Output::Absent,
                ReturnType::Declared(ty) => Output::Verbatim(ty),
            };
            Ok(
                Binding {
                    descriptor,
                    target: &config.body_state_path,
                    output,
                    body: Body::CallThrough,
                },
            )
        },
        AccessStrategy::Locked => match shape {
            ReturnShape::Unit => Ok(
                Binding {
                    descriptor,
                    target: &config.body_state_path,
                    output: Output::Absent,
                    body: Body::LockAndDiscard,
                },
            ),
            _ => Err(StructuralError::LockWithReturnType),
        },
        AccessStrategy::LockedToOptional => {
            let (output, body) = match shape {
                ReturnShape::Unit => (Output::OptionalUnit, Body::LockAndWrap),
                ReturnShape::Value(ty) => (Output::Optional(ty), Body::LockAndWrap),
                ReturnShape::Reference(referent) => (Output::Optional(referent), Body::LockAndWrap),
                ReturnShape::Optional(inner) => (Output::Optional(inner), Body::LockAndForward),
            };
            Ok(Binding { descriptor, target: &config.body_state_path, output, body })
        },
    }
}

/// Appends `()`.
fn push_unit(tokens: &mut TokenStream)
    ensures
        stream_tokens(*final(tokens)) == stream_tokens(*old(tokens)) + unit_tokens(),
{
    push_group(tokens, Delimiter::Parenthesis, new_stream());
}

/// Appends a dot, a word and `()`.
fn push_bare_call(tokens: &mut TokenStream, name: &str)
    requires
        crate::tokens::is_plain_word(name@),
    ensures
        stream_tokens(*final(tokens)) == stream_tokens(*old(tokens)) + bare_call(name),
{
    push_punct(tokens, '.', Spacing::Alone);
    push_word(tokens, name);
    push_unit(tokens);
}

/// Appends a word and, in parentheses, what it is applied to.
fn push_applied(tokens: &mut TokenStream, name: &str, inner: TokenStream)
    requires
        crate::tokens::is_plain_word(name@),
    ensures
        stream_tokens(*final(tokens)) == stream_tokens(*old(tokens)) + applied(
            name,
            stream_tokens(inner),
        ),
{
    push_word(tokens, name);
    push_group(tokens, Delimiter::Parenthesis, inner);
}

/// A stream that holds one word.
fn one_word(name: &str) -> (stream: TokenStream)
    requires
        crate::tokens::is_plain_word(name@),
    ensures
        stream_tokens(stream) == seq![word(name)],
{
    let mut stream = new_stream();
    push_word(&mut stream, name);
    stream
}

/// Appends `None => None,`.
fn push_none_arm(tokens: &mut TokenStream)
    ensures
        stream_tokens(*final(tokens)) == stream_tokens(*old(tokens)) + none_arm(),
{
    proof {
        reveal_strlit("None");
    }
    push_word(tokens, "None");
    push_fat_arrow(tokens);
    push_word(tokens, "None");
    push_punct(tokens, ',', Spacing::Alone);
}

/// The arms that copy what an option holds.
fn copy_arms_stream() -> (arms: TokenStream)
    ensures
        stream_tokens(arms) == copy_arms(),
{
    proof {
        reveal_strlit("Some");
        reveal_strlit("some");
        reveal_strlit("clone");
    }
    let mut copy = one_word("some");
    push_bare_call(&mut copy, "clone");
    let mut arms = new_stream();
    push_applied(&mut arms, "Some", one_word("some"));
    push_fat_arrow(&mut arms);
    push_applied(&mut arms, "Some", copy);
    push_punct(&mut arms, ',', Spacing::Alone);
    push_none_arm(&mut arms);
    arms
}

/// Appends the tag `#[tauri::command]`.
fn push_attribute(tokens: &mut TokenStream)
    ensures
        stream_tokens(*final(tokens)) == stream_tokens(*old(tokens)) + attribute_tokens(),
{
    proof {
        reveal_strlit("tauri");
        reveal_strlit("command");
    }
    let mut path = new_stream();
    push_word(&mut path, "tauri");
    push_path_separator(&mut path);
    push_word(&mut path, "command");
    push_punct(tokens, '#', Spacing::Alone);
    push_group(tokens, Delimiter::Bracket, path);
}

impl<'a> Output<'a> {
    /// Appends the return type, arrow included.
    pub fn to_tokens(&self, tokens: &mut TokenStream)
        ensures
            stream_tokens(*final(tokens)) == stream_tokens(*old(tokens)) + self.tokens(),
    {
        proof {
            reveal_strlit("Option");
        }
        match self {
            Output::Absent => {},
            Output::Verbatim(ty) => {
                push_thin_arrow(tokens);
                push_stream(tokens, &ty.tokens);
            },
            Output::Optional(ty) => {
                push_thin_arrow(tokens);
                push_word(tokens, "Option");
                push_punct(tokens, '<', Spacing::Alone);
                push_stream(tokens, &ty.tokens);
                push_punct(tokens, '>', Spacing::Alone);
            },
            Output::OptionalUnit => {
                push_thin_arrow(tokens);
                push_word(tokens, "Option");
                push_punct(tokens, '<', Spacing::Alone);
                push_unit(tokens);
                push_punct(tokens, '>', Spacing::Alone);
            },
        }
    }
}

impl<'a> Binding<'a> {
    /// Appends the call of the method on what stands before.
    fn push_call(&self, tokens: &mut TokenStream)
        ensures
            stream_tokens(*final(tokens)) == stream_tokens(*old(tokens)) + self@.call_tokens(),
    {
        let mut arguments = new_stream();
        self.descriptor.arguments_to_tokens(&mut arguments);
        push_punct(tokens, '.', Spacing::Alone);
        self.descriptor.name.to_tokens(tokens);
        push_group(tokens, Delimiter::Parenthesis, arguments);
    }

    /// Appends the call of the method on the guard.
    fn push_guarded_call(&self, tokens: &mut TokenStream)
        ensures
            stream_tokens(*final(tokens)) == stream_tokens(*old(tokens))
                + self@.guarded_call_tokens(),
    {
        proof {
            reveal_strlit("guard");
        }
        push_word(tokens, "guard");
        self.push_call(tokens);
    }

    /// Appends the taking of the lock.
    fn push_lock(&self, tokens: &mut TokenStream, as_option: bool)
        ensures
            stream_tokens(*final(tokens)) == stream_tokens(*old(tokens)) + self@.lock_tokens(
                as_option,
            ),
    {
        proof {
            reveal_strlit("match");
            reveal_strlit("lock");
            reveal_strlit("ok");
        }
        push_word(tokens, "match");
        push_dotted(tokens, self.target);
        push_bare_call(tokens, "lock");
        if as_option {
            push_bare_call(tokens, "ok");
        }
    }

    /// The arms that call through and drop the result.
    fn discard_arms(&self) -> (arms: TokenStream)
        ensures
            stream_tokens(arms) == self@.discard_arms(),
    {
        proof {
            reveal_strlit("guard");
            reveal_strlit("Ok");
            reveal_strlit("Err");
            reveal_strlit("_");
        }
        let mut arms = new_stream();
        push_applied(&mut arms, "Ok", one_word("guard"));
        push_fat_arrow(&mut arms);
        self.push_guarded_call(&mut arms);
        push_punct(&mut arms, ',', Spacing::Alone);
        push_applied(&mut arms, "Err", one_word("_"));
        push_fat_arrow(&mut arms);
        push_unit(&mut arms);
        push_punct(&mut arms, ',', Spacing::Alone);
        arms
    }

    /// The arms that hand back a copy of the result in an option.
    fn wrap_arms(&self) -> (arms: TokenStream)
        ensures
            stream_tokens(arms) == self@.wrap_arms(),
    {
        proof {
            reveal_strlit("guard");
            reveal_strlit("Some");
            reveal_strlit("clone");
        }
        let mut copy = new_stream();
        self.push_guarded_call(&mut copy);
        push_bare_call(&mut copy, "clone");
        let mut arms = new_stream();
        push_applied(&mut arms, "Some", one_word("guard"));
        push_fat_arrow(&mut arms);
        push_applied(&mut arms, "Some", copy);
        push_punct(&mut arms, ',', Spacing::Alone);
        push_none_arm(&mut arms);
        arms
    }

    /// The arms that forward what the method's option holds.
    fn forward_arms(&self) -> (arms: TokenStream)
        ensures
            stream_tokens(arms) == self@.forward_arms(),
    {
        proof {
            reveal_strlit("guard");
            reveal_strlit("Some");
            reveal_strlit("match");
        }
        let mut arms = new_stream();
        push_applied(&mut arms, "Some", one_word("guard"));
        push_fat_arrow(&mut arms);
        push_word(&mut arms, "match");
        self.push_guarded_call(&mut arms);
        push_group(&mut arms, Delimiter::Brace, copy_arms_stream());
        push_punct(&mut arms, ',', Spacing::Alone);
        push_none_arm(&mut arms);
        arms
    }

    /// Appends the wrapper's body, without its braces.
    pub fn body_to_tokens(&self, tokens: &mut TokenStream)
        ensures
            stream_tokens(*final(tokens)) == stream_tokens(*old(tokens)) + self@.body_tokens(),
    {
        match self.body {
            Body::CallThrough => {
                push_dotted(tokens, self.target);
                self.push_call(tokens);
            },
            Body::LockAndDiscard => {
                let arms = self.discard_arms();
                self.push_lock(tokens, false);
                push_group(tokens, Delimiter::Brace, arms);
            },
            Body::LockAndWrap => {
                let arms = self.wrap_arms();
                self.push_lock(tokens, true);
                push_group(tokens, Delimiter::Brace, arms);
            },
            Body::LockAndForward => {
                let arms = self.forward_arms();
                self.push_lock(tokens, true);
                push_group(tokens, Delimiter::Brace, arms);
            },
        }
    }

    /// Appends the wrapper's signature.
    pub fn signature_to_tokens(&self, tokens: &mut TokenStream)
        ensures
            stream_tokens(*final(tokens)) == stream_tokens(*old(tokens))
                + self@.signature_tokens(),
    {
        proof {
            reveal_strlit("pub");
            reveal_strlit("fn");
        }
        let mut parameters = new_stream();
        self.descriptor.to_tokens(&mut parameters);
        push_word(tokens, "pub");
        push_word(tokens, "fn");
        self.descriptor.name.to_tokens(tokens);
        push_group(tokens, Delimiter::Parenthesis, parameters);
        self.output.to_tokens(tokens);
    }

    /// Appends the whole wrapper: the tag, the signature, the body in braces.
    pub fn to_tokens(&self, tokens: &mut TokenStream)
        ensures
            stream_tokens(*final(tokens)) == stream_tokens(*old(tokens)) + self@.tokens(),
    {
        let mut body = new_stream();
        self.body_to_tokens(&mut body);
        push_attribute(tokens);
        self.signature_to_tokens(tokens);
        push_group(tokens, Delimiter::Brace, body);
    }
}

} // verus!
