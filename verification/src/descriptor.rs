//! Function descriptors: what the generator keeps of an exposed method.

use vstd::prelude::*;
use vstd::string::StringExecFns;
use proc_macro2::TokenStream;
use crate::ident::Ident;
use crate::interface::{FnArg, Method, PathSegment, Pattern, ReturnType, TypeKind};
use crate::tokens::{
    alone, joined, path_separator, push_path_separator, push_punct, push_word, stream_tokens,
    word, Spacing, Token,
};

verus! {

/// A parameter that the wrapper takes over: its name, and the path of its
/// type.
#[derive(Clone, Copy, Debug)]
pub struct TypedParam<'a> {
    /// The name that binds the parameter.
    pub name: &'a Ident,
    /// The segments of the type's path; of each, only the name is used.
    pub type_path: &'a Vec<PathSegment>,
}

/// The state parameter of a wrapper.
#[derive(Clone, Copy, Debug)]
pub struct State<'a> {
    /// The parameter's name.
    pub name: &'a Ident,
    /// Whether the wrapper takes the parameter at all.
    pub use_state: bool,
}

/// The descriptor of one exposed method.
#[derive(Debug)]
pub struct FunctionData<'a> {
    /// The method's name.
    pub name: &'a Ident,
    /// The state parameter.
    pub state: State<'a>,
    /// The parameters taken over, in declaration order.
    pub typed_params: Vec<TypedParam<'a>>,
    /// The method's return type.
    pub return_type: &'a ReturnType,
}

/// A descriptor as a value: the names by their text, the parameters as a
/// sequence.
pub struct Descriptor<'a> {
    /// The method's name.
    pub name: Seq<char>,
    /// The name of the state parameter.
    pub state_name: Seq<char>,
    /// Whether the method has a receiver, so that the wrapper needs the state.
    pub needs_state: bool,
    /// The parameters taken over, in declaration order.
    pub typed_params: Seq<TypedParam<'a>>,
    /// The method's return type.
    pub return_type: &'a ReturnType,
}

impl<'a> View for FunctionData<'a> {
    type V = Descriptor<'a>;

    open spec fn view(&self) -> Descriptor<'a> {
        Descriptor {
            name: self.name@,
            state_name: self.state.name@,
            needs_state: self.state.use_state,
            typed_params: self.typed_params@,
            return_type: self.return_type,
        }
    }
}

/// Whether a receiver stands among the parameters.
pub open spec fn has_receiver(inputs: Seq<FnArg>) -> bool {
    exists|i: int| 0 <= i < inputs.len() && #[trigger] inputs[i] is Receiver
}

/// What the wrapper takes over of one parameter: a parameter bound by a
/// single name whose type is a path. Any other parameter is passed over.
pub open spec fn plain_param<'a>(arg: &'a FnArg) -> Option<TypedParam<'a>> {
    match arg {
        FnArg::Typed { pattern: Pattern::Ident(name), ty } => match &ty.kind {
            TypeKind::Path(segments) => Some(TypedParam { name: name, type_path: segments }),
            _ => None,
        },
        _ => None,
    }
}

/// What the wrapper takes over of a parameter list, in declaration order.
pub open spec fn plain_params<'a>(inputs: Seq<FnArg>) -> Seq<TypedParam<'a>>
    decreases inputs.len(),
{
    if inputs.len() == 0 {
        Seq::empty()
    } else {
        let before = plain_params(inputs.drop_last());
        match plain_param(&inputs.last()) {
            Some(param) => before.push(param),
            None => before,
        }
    }
}

/// The descriptor of a method, for a state parameter of the given name.
pub open spec fn describe<'a>(method: &'a Method, state_name: Seq<char>) -> Descriptor<'a> {
    Descriptor {
        name: method.name@,
        state_name: state_name,
        needs_state: has_receiver(method.inputs@),
        typed_params: plain_params(method.inputs@),
        return_type: &method.output,
    }
}

/// The tokens of a path, of each segment only its name: the names with `::`
/// between them.
pub open spec fn path_tokens(segments: Seq<PathSegment>) -> Seq<Token> {
    joined(Seq::new(segments.len(), |i: int| seq![segments[i].ident.token()]), path_separator())
}

/// The text of a path, of each segment only its name: the names with `::`
/// between them.
pub open spec fn path_text(segments: Seq<PathSegment>) -> Seq<char>
    decreases segments.len(),
{
    if segments.len() == 0 {
        Seq::empty()
    } else if segments.len() == 1 {
        segments[0].ident@
    } else {
        path_text(segments.drop_last()) + "::"@ + segments.last().ident@
    }
}

/// The tokens of the state parameter: its name, and the handle to the shared
/// application state as its type.
pub open spec fn state_handle_tokens(name: Seq<char>) -> Seq<Token> {
    seq![
        Token::Ident(name),
        alone(':'),
        word("State"),
        alone('<'),
        word("AppState"),
        alone('>'),
    ]
}

/// A single comma.
pub open spec fn comma() -> Seq<Token> {
    seq![alone(',')]
}

impl<'a> TypedParam<'a> {
    /// The tokens of the parameter in a signature: name, colon, type path.
    pub open spec fn tokens(&self) -> Seq<Token> {
        seq![self.name.token(), alone(':')] + path_tokens(self.type_path@)
    }
}

impl<'a> Descriptor<'a> {
    /// The parameters of the wrapper, each by its tokens: the state
    /// parameter first where the method needs the state, then the method's
    /// own parameters in declaration order.
    pub open spec fn parameter_parts(&self) -> Seq<Seq<Token>> {
        let own = Seq::new(self.typed_params.len(), |i: int| self.typed_params[i].tokens());
        if self.needs_state {
            seq![state_handle_tokens(self.state_name)] + own
        } else {
            own
        }
    }

    /// The tokens of the wrapper's parameter list, commas between the
    /// parameters.
    pub open spec fn parameter_tokens(&self) -> Seq<Token> {
        joined(self.parameter_parts(), comma())
    }

    /// The tokens of the arguments that the wrapper hands on: the names of
    /// the method's own parameters in declaration order, commas between them.
    pub open spec fn argument_tokens(&self) -> Seq<Token> {
        joined(
            Seq::new(self.typed_params.len(), |i: int| seq![self.typed_params[i].name.token()]),
            comma(),
        )
    }
}

/// What one more parameter adds to the search for a receiver.
proof fn lemma_receiver_step(inputs: Seq<FnArg>, index: int)
    requires
        0 <= index < inputs.len(),
    ensures
        has_receiver(inputs.take(index + 1)) <==> has_receiver(inputs.take(index))
            || inputs[index] is Receiver,
{
    let shorter = inputs.take(index);
    let grown = inputs.take(index + 1);
    if has_receiver(shorter) {
        let k = choose|k: int| 0 <= k < shorter.len() && #[trigger] shorter[k] is Receiver;
        assert(grown[k] is Receiver);
    }
    if inputs[index] is Receiver {
        assert(grown[index] is Receiver);
    }
    if has_receiver(grown) {
        let k = choose|k: int| 0 <= k < grown.len() && #[trigger] grown[k] is Receiver;
        if k < index {
            assert(shorter[k] is Receiver);
        }
    }
}

/// What one more part adds to a joined sequence.
pub proof fn lemma_joined_step(parts: Seq<Seq<Token>>, separator: Seq<Token>, k: int)
    requires
        0 <= k < parts.len(),
    ensures
        joined(parts.take(k + 1), separator) == if k == 0 {
            parts[0]
        } else {
            joined(parts.take(k), separator) + separator + parts[k]
        },
{
    assert(parts.take(k + 1).drop_last() == parts.take(k));
}

/// Appends the tokens of a path, of each segment only its name.
pub fn push_path(tokens: &mut TokenStream, segments: &Vec<PathSegment>)
    ensures
        stream_tokens(*final(tokens)) == stream_tokens(*old(tokens)) + path_tokens(segments@),
{
    let ghost parts = Seq::new(segments@.len(), |i: int| seq![segments@[i].ident.token()]);
    let mut i: usize = 0;
    while i < segments.len()
        invariant
            i <= segments@.len(),
            parts == Seq::new(segments@.len(), |i: int| seq![segments@[i].ident.token()]),
            stream_tokens(*tokens) == stream_tokens(*old(tokens)) + joined(
                parts.take(i as int),
                path_separator(),
            ),
        decreases segments@.len() - i,
    {
        proof {
            lemma_joined_step(parts, path_separator(), i as int);
        }
        if i > 0 {
            push_path_separator(tokens);
        }
        segments[i].ident.to_tokens(tokens);
        i += 1;
    }
    proof {
        assert(parts.take(segments@.len() as int) == parts);
    }
}

impl<'a> TypedParam<'a> {
    /// The path of the parameter's type as text, `::` between the names.
    pub fn type_path_text(&self) -> (text: String)
        ensures
            text@ == path_text(self.type_path@),
    {
        let mut text = String::new();
        let mut i: usize = 0;
        while i < self.type_path.len()
            invariant
                i <= self.type_path@.len(),
                text@ == path_text(self.type_path@.take(i as int)),
            decreases self.type_path@.len() - i,
        {
            proof {
                assert(self.type_path@.take(i + 1).drop_last() == self.type_path@.take(i as int));
            }
            if i > 0 {
                text.append("::");
            }
            text.append(self.type_path[i].ident.as_str());
            i += 1;
        }
        proof {
            assert(self.type_path@.take(self.type_path@.len() as int) == self.type_path@);
        }
        text
    }

    /// Appends the parameter as a signature writes it.
    pub fn to_tokens(&self, tokens: &mut TokenStream)
        ensures
            stream_tokens(*final(tokens)) == stream_tokens(*old(tokens)) + self.tokens(),
    {
        self.name.to_tokens(tokens);
        push_punct(tokens, ':', Spacing::Alone);
        push_path(tokens, self.type_path);
    }
}

impl<'a> State<'a> {
    /// The tokens that reach into the state: the parameter's name and a
    /// dot where the wrapper takes the state, nothing where it does not.
    pub open spec fn tokens(&self) -> Seq<Token> {
        if self.use_state {
            seq![self.name.token(), alone('.')]
        } else {
            Seq::empty()
        }
    }

    /// Appends the tokens that reach into the state.
    pub fn to_tokens(&self, tokens: &mut TokenStream)
        ensures
            stream_tokens(*final(tokens)) == stream_tokens(*old(tokens)) + self.tokens(),
    {
        if self.use_state {
            self.name.to_tokens(tokens);
            push_punct(tokens, '.', Spacing::Alone);
        }
    }
}

/// Appends the state parameter: the name, and the handle as its type.
fn push_state_handle(tokens: &mut TokenStream, name: &Ident)
    ensures
        stream_tokens(*final(tokens)) == stream_tokens(*old(tokens)) + state_handle_tokens(name@),
{
    proof {
        reveal_strlit("State");
        reveal_strlit("AppState");
    }
    name.to_tokens(tokens);
    push_punct(tokens, ':', Spacing::Alone);
    push_word(tokens, "State");
    push_punct(tokens, '<', Spacing::Alone);
    push_word(tokens, "AppState");
    push_punct(tokens, '>', Spacing::Alone);
}

impl<'a> FunctionData<'a> {
    /// A descriptor without parameters, for a method that is not yet known
    /// to need the state.
    pub fn new(name: &'a Ident, state: &'a Ident, return_type: &'a ReturnType) -> (data: Self)
        ensures
            data.name == name,
            data.state.name == state,
            !data.state.use_state,
            data.typed_params@ == Seq::<TypedParam<'a>>::empty(),
            data.return_type == return_type,
    {
        FunctionData {
            name,
            state: State { name: state, use_state: false },
            typed_params: Vec::new(),
            return_type,
        }
    }

    /// The descriptor of a method, for a state parameter of the given name:
    /// the method needs the state exactly where it has a receiver, and the
    /// parameters taken over are those bound by a single name whose type is
    /// a path, in declaration order.
    pub fn from_method(method: &'a Method, state: &'a Ident) -> (data: Self)
        ensures
            data@ == describe(method, state@),
    {
        let mut data = FunctionData::new(&method.name, state, &method.output);
        data.add_new(&method.inputs);
        data
    }

    /// Takes a parameter list into the descriptor. A receiver makes the
    /// wrapper need the state; a parameter bound by a single name whose type
    /// is a path is taken over, at the end and in declaration order; any
    /// other parameter is passed over.
    pub fn add_new(&mut self, inputs: &'a Vec<FnArg>)
        ensures
            final(self).name == old(self).name,
            final(self).state.name == old(self).state.name,
            final(self).return_type == old(self).return_type,
            final(self).state.use_state == (old(self).state.use_state || has_receiver(inputs@)),
            final(self).typed_params@ == old(self).typed_params@ + plain_params(inputs@),
    {
        let mut i: usize = 0;
        while i < inputs.len()
            invariant
                i <= inputs@.len(),
                self.name == old(self).name,
                self.state.name == old(self).state.name,
                self.return_type == old(self).return_type,
                self.state.use_state == (old(self).state.use_state || has_receiver(
                    inputs@.take(i as int),
                )),
                self.typed_params@ == old(self).typed_params@ + plain_params(
                    inputs@.take(i as int),
                ),
            decreases inputs@.len() - i,
        {
            proof {
                assert(inputs@.take(i + 1).drop_last() == inputs@.take(i as int));
                lemma_receiver_step(inputs@, i as int);
            }
            match &inputs[i] {
                FnArg::Receiver => {
                    self.state.use_state = true;
                },
                FnArg::Typed { pattern, ty } => match pattern {
                    Pattern::Ident(name) => match &ty.kind {
                        TypeKind::Path(segments) => {
                            self.typed_params.push(TypedParam { name: name, type_path: segments });
                        },
                        _ => {},
                    },
                    Pattern::Other => {},
                },
            }
            i += 1;
        }
        proof {
            assert(inputs@.take(inputs@.len() as int) == inputs@);
        }
    }

    /// The names of the parameters taken over, in declaration order.
    pub fn get_params(&self) -> (names: Vec<&'a Ident>)
        ensures
            names@ == Seq::new(self.typed_params@.len(), |i: int| self.typed_params@[i].name),
    {
        let mut names: Vec<&'a Ident> = Vec::new();
        let mut i: usize = 0;
        while i < self.typed_params.len()
            invariant
                i <= self.typed_params@.len(),
                names@ == Seq::new(i as nat, |k: int| self.typed_params@[k].name),
            decreases self.typed_params@.len() - i,
        {
            names.push(self.typed_params[i].name);
            i += 1;
        }
        names
    }

    /// Appends the wrapper's parameter list: the state parameter first where
    /// the method needs the state, then the method's own parameters in
    /// declaration order, commas between them.
    pub fn to_tokens(&self, tokens: &mut TokenStream)
        ensures
            stream_tokens(*final(tokens)) == stream_tokens(*old(tokens))
                + self@.parameter_tokens(),
    {
        let ghost parts = self@.parameter_parts();
        let ghost lead: int = if self.state.use_state { 1 } else { 0 };
        if self.state.use_state {
            push_state_handle(tokens, self.state.name);
            proof {
                lemma_joined_step(parts, comma(), 0);
            }
        }
        let mut i: usize = 0;
        while i < self.typed_params.len()
            invariant
                i <= self.typed_params@.len(),
                parts == self@.parameter_parts(),
                lead == if self.state.use_state { 1int } else { 0int },
                stream_tokens(*tokens) == stream_tokens(*old(tokens)) + joined(
                    parts.take(i + lead),
                    comma(),
                ),
            decreases self.typed_params@.len() - i,
        {
            proof {
                lemma_joined_step(parts, comma(), i + lead);
            }
            if self.state.use_state || i != 0 {
                push_punct(tokens, ',', Spacing::Alone);
            }
            self.typed_params[i].to_tokens(tokens);
            i += 1;
        }
        proof {
            assert(parts.take(parts.len() as int) == parts);
        }
    }

    /// Appends the arguments that the wrapper hands on to the method: the
    /// names of the parameters taken over, commas between them.
    pub fn arguments_to_tokens(&self, tokens: &mut TokenStream)
        ensures
            stream_tokens(*final(tokens)) == stream_tokens(*old(tokens))
                + self@.argument_tokens(),
    {
        let ghost parts = Seq::new(
            self.typed_params@.len(),
            |i: int| seq![self.typed_params@[i].name.token()],
        );
        let mut i: usize = 0;
        while i < self.typed_params.len()
            invariant
                i <= self.typed_params@.len(),
                parts == Seq::new(
                    self.typed_params@.len(),
                    |i: int| seq![self.typed_params@[i].name.token()],
                ),
                stream_tokens(*tokens) == stream_tokens(*old(tokens)) + joined(
                    parts.take(i as int),
                    comma(),
                ),
            decreases self.typed_params@.len() - i,
        {
            proof {
                lemma_joined_step(parts, comma(), i as int);
            }
            if i != 0 {
                push_punct(tokens, ',', Spacing::Alone);
            }
            self.typed_params[i].name.to_tokens(tokens);
            i += 1;
        }
        proof {
            assert(parts.take(parts.len() as int) == parts);
        }
    }
}

} // verus!
