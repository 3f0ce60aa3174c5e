//! The generator's own configuration: the arguments written beside the
//! interface block, and what they resolve to.

use vstd::prelude::*;
use proc_macro2::TokenStream;
use crate::ident::{is_identifier, names, Ident};
use crate::text::{ascii_lower, eq_ignore_ascii_case, same_text, split_at_dots, split_dots, texts};
use crate::tokens::{alone, joined, new_stream, push_punct, stream_tokens, Spacing, Token};

verus! {

/// How a wrapper reaches the state that it calls through to.
#[derive(Clone, Copy, Debug, PartialEq, Eq, Structural)]
pub enum AccessStrategy {
    /// Call through without any guard.
    Direct,
    /// Take the lock, call through and drop the result; do nothing where the
    /// lock cannot be taken.
    Locked,
    /// Take the lock and hand the result back as an option; no value where
    /// the lock cannot be taken.
    LockedToOptional,
}

/// The value of a named argument.
#[derive(Debug)]
pub enum MetaValue {
    /// The name stands alone.
    Word,
    /// The name is followed by a list in parentheses.
    List,
    /// `name = "text"`
    Str(String),
    /// `name = true`
    Bool,
    /// `name = 'c'`
    Char,
    /// `name =` any other literal.
    OtherLiteral,
    /// `name =` an expression that is no literal.
    Expression,
}

/// One item of the argument list.
#[derive(Debug)]
pub enum MetaItem {
    /// A bare literal.
    Literal,
    /// An argument with a name.
    Named { name: String, value: MetaValue },
}

/// What is wrong with an argument.
#[derive(Debug)]
pub enum ConfigError {
    /// A bare literal stands where a named argument is expected.
    UnexpectedLiteral,
    /// No option has this name.
    UnknownField { name: String },
    /// The option was given before.
    DuplicateField { name: String },
    /// The option's value is not a string literal.
    UnexpectedFormat { name: String },
    /// `mutex_behavior` names no access strategy.
    UnknownStrategy { value: String },
    /// `state` is not an identifier.
    InvalidState { value: String },
    /// `body_state` is not a chain of identifiers with dots between them.
    InvalidBodyState { value: String },
}

/// A faulty argument: its place in the list, and what is wrong with it.
#[derive(Debug)]
pub struct ConfigFault {
    /// The item's index in the argument list.
    pub index: usize,
    /// What is wrong with it.
    pub error: ConfigError,
}

/// The arguments as given, each absent or checked.
#[derive(Debug)]
pub struct WithTauriCommandArgs {
    /// The name of the state parameter.
    pub state: Option<Ident>,
    /// The path from the state parameter to the call target.
    pub body_state: Option<Vec<Ident>>,
    /// The access strategy; `Direct` where none is given.
    pub mutex_behavior: AccessStrategy,
}

/// The configuration of one generator run.
#[derive(Debug)]
pub struct GeneratorConfig {
    /// The name of the state parameter.
    pub state_param_name: Ident,
    /// The path to the call target; the state parameter's name alone where
    /// the arguments give no path.
    pub body_state_path: Vec<Ident>,
    /// The access strategy.
    pub access_strategy: AccessStrategy,
}

/// A configuration as a value: the names by their text.
pub struct Settings {
    /// The name of the state parameter.
    pub state_param_name: Seq<char>,
    /// The path to the call target.
    pub body_state_path: Seq<Seq<char>>,
    /// The access strategy.
    pub access_strategy: AccessStrategy,
}

impl View for GeneratorConfig {
    type V = Settings;

    open spec fn view(&self) -> Settings {
        Settings {
            state_param_name: self.state_param_name@,
            body_state_path: names(self.body_state_path@),
            access_strategy: self.access_strategy,
        }
    }
}

/// The name of the option that renames the state parameter.
pub open spec fn state_option() -> Seq<char> {
    "state"@
}

/// The name of the option that gives the path to the call target.
pub open spec fn body_state_option() -> Seq<char> {
    "body_state"@
}

/// The name of the option that selects the access strategy.
pub open spec fn strategy_option() -> Seq<char> {
    "mutex_behavior"@
}

/// The name of the state parameter where the arguments give none.
pub open spec fn default_state_name() -> Seq<char> {
    "state"@
}

/// The access strategy that a value names, upper and lower case read alike.
pub open spec fn strategy_named(value: Seq<char>) -> Option<AccessStrategy> {
    let lower = ascii_lower(value);
    if lower == "none"@ {
        Some(AccessStrategy::Direct)
    } else if lower == "lock"@ {
        Some(AccessStrategy::Locked)
    } else if lower == "match_to_option"@ {
        Some(AccessStrategy::LockedToOptional)
    } else {
        None
    }
}

/// Whether a text is a chain of identifiers with dots between them.
pub open spec fn is_dotted_path(text: Seq<char>) -> bool {
    forall|i: int|
        0 <= i < split_at_dots(text).len() ==> is_identifier(#[trigger] split_at_dots(text)[i])
}

/// Whether an option has this name.
pub open spec fn is_option_name(name: Seq<char>) -> bool {
    name == state_option() || name == body_state_option() || name == strategy_option()
}

/// Whether an item is an argument of the given name.
pub open spec fn is_named(item: MetaItem, name: Seq<char>) -> bool {
    item matches MetaItem::Named { name: own, .. } && own@ == name
}

/// Whether an argument of the given name stands before the index.
pub open spec fn named_before(items: Seq<MetaItem>, index: int, name: Seq<char>) -> bool {
    exists|j: int| 0 <= j < index && is_named(#[trigger] items[j], name)
}

/// What is wrong with the text given for an option, if anything.
pub open spec fn value_fault(name: Seq<char>, text: String) -> Option<ConfigError> {
    if name == state_option() {
        if is_identifier(text@) {
            None
        } else {
            Some(ConfigError::InvalidState { value: text })
        }
    } else if name == body_state_option() {
        if is_dotted_path(text@) {
            None
        } else {
            Some(ConfigError::InvalidBodyState { value: text })
        }
    } else {
        if strategy_named(text@) is Some {
            None
        } else {
            Some(ConfigError::UnknownStrategy { value: text })
        }
    }
}

/// What is wrong with the item at an index, if anything: a bare literal, a
/// name that no option has, a name given before, a value that is no string
/// literal, or a text that the option does not take.
pub open spec fn item_fault(items: Seq<MetaItem>, index: int) -> Option<ConfigError> {
    match items[index] {
        MetaItem::Literal => Some(ConfigError::UnexpectedLiteral),
        MetaItem::Named { name, value } => {
            if !is_option_name(name@) {
                Some(ConfigError::UnknownField { name })
            } else if named_before(items, index, name@) {
                Some(ConfigError::DuplicateField { name })
            } else {
                match value {
                    MetaValue::Str(text) => value_fault(name@, text),
                    _ => Some(ConfigError::UnexpectedFormat { name }),
                }
            }
        },
    }
}

/// Whether nothing is wrong with any item before the index.
pub open spec fn faultless_before(items: Seq<MetaItem>, index: int) -> bool {
    forall|j: int| 0 <= j < index ==> #[trigger] item_fault(items, j) is None
}

/// Whether nothing is wrong with any item of the list.
pub open spec fn faultless(items: Seq<MetaItem>) -> bool {
    faultless_before(items, items.len() as int)
}

/// Whether the fault is the first of the list: it is that of the item at its
/// index, and nothing is wrong with any item before.
pub open spec fn is_first_fault(items: Seq<MetaItem>, fault: ConfigFault) -> bool {
    &&& fault.index < items.len()
    &&& item_fault(items, fault.index as int) == Some(fault.error)
    &&& faultless_before(items, fault.index as int)
}

/// The text given for an option: that of the first argument of that name
/// whose value is a string literal.
pub open spec fn field_text(items: Seq<MetaItem>, name: Seq<char>) -> Option<Seq<char>>
    decreases items.len(),
{
    if items.len() == 0 {
        None
    } else {
        match field_text(items.drop_last(), name) {
            Some(text) => Some(text),
            None => match items.last() {
                MetaItem::Named { name: own, value: MetaValue::Str(text) } => if own@ == name {
                    Some(text@)
                } else {
                    None
                },
                _ => None,
            },
        }
    }
}

/// The configuration that a faultless argument list resolves to: each
/// option as given, the stated default where it is absent.
pub open spec fn settings_of(items: Seq<MetaItem>) -> Settings {
    let state = match field_text(items, state_option()) {
        Some(text) => text,
        None => default_state_name(),
    };
    Settings {
        state_param_name: state,
        body_state_path: match field_text(items, body_state_option()) {
            Some(text) => split_at_dots(text),
            None => seq![state],
        },
        access_strategy: match field_text(items, strategy_option()) {
            Some(text) => match strategy_named(text) {
                Some(strategy) => strategy,
                None => AccessStrategy::Direct,
            },
            None => AccessStrategy::Direct,
        },
    }
}

/// The tokens of a path to the call target: the names with dots between
/// them.
pub open spec fn dotted_tokens(path: Seq<Seq<char>>) -> Seq<Token> {
    joined(Seq::new(path.len(), |i: int| seq![Token::Ident(path[i])]), seq![alone('.')])
}

impl WithTauriCommandArgs {
    /// The name given for the state parameter, if any.
    pub open spec fn state_text(&self) -> Option<Seq<char>> {
        match self.state {
            Some(name) => Some(name@),
            None => None,
        }
    }

    /// The path given to the call target, if any.
    pub open spec fn body_state_texts(&self) -> Option<Seq<Seq<char>>> {
        match self.body_state {
            Some(path) => Some(names(path@)),
            None => None,
        }
    }

    /// The configuration that the arguments resolve to: each option as
    /// given, the stated default where it is absent.
    pub open spec fn settings(&self) -> Settings {
        let state = match self.state_text() {
            Some(text) => text,
            None => default_state_name(),
        };
        Settings {
            state_param_name: state,
            body_state_path: match self.body_state_texts() {
                Some(path) => path,
                None => seq![state],
            },
            access_strategy: self.mutex_behavior,
        }
    }
}

impl Default for AccessStrategy {
    /// The strategy where the arguments select none.
    fn default() -> (strategy: Self)
        ensures
            strategy == AccessStrategy::Direct,
    {
        AccessStrategy::Direct
    }
}

impl AccessStrategy {
    /// The access strategy that a value names: `none`, `lock` or
    /// `match_to_option`, upper and lower case read alike. Any other value is
    /// an error that holds the value.
    pub fn from_string(value: &str) -> (strategy: Result<AccessStrategy, ConfigError>)
        ensures
            strategy matches Ok(named) ==> strategy_named(value@) == Some(named),
            strategy matches Err(error) ==> strategy_named(value@) is None && (error matches ConfigError::UnknownStrategy {
                value: held,
            } && held@ == value@),
    {
        proof {
            lemma_words_are_lower();
        }
        if eq_ignore_ascii_case(value, "none") {
            Ok(AccessStrategy::Direct)
        } else if eq_ignore_ascii_case(value, "lock") {
            Ok(AccessStrategy::Locked)
        } else if eq_ignore_ascii_case(value, "match_to_option") {
            Ok(AccessStrategy::LockedToOptional)
        } else {
            Err(ConfigError::UnknownStrategy { value: value.to_owned() })
        }
    }
}

/// The three words that name a strategy are written in lower case.
proof fn lemma_words_are_lower()
    ensures
        ascii_lower("none"@) == "none"@,
        ascii_lower("lock"@) == "lock"@,
        ascii_lower("match_to_option"@) == "match_to_option"@,
{
    reveal_strlit("none");
    reveal_strlit("lock");
    reveal_strlit("match_to_option");
}

/// The three option names differ.
pub proof fn lemma_option_names_differ()
    ensures
        state_option() != body_state_option(),
        state_option() != strategy_option(),
        body_state_option() != strategy_option(),
{
    reveal_strlit("state");
    reveal_strlit("body_state");
    reveal_strlit("mutex_behavior");
    assert(state_option().len() == 5);
    assert(body_state_option().len() == 10);
    assert(strategy_option().len() == 14);
}

/// The chain of identifiers that a text spells with dots between them.
/// Succeeds exactly where every piece between the dots is an identifier.
pub fn parse_body_state(text: &str) -> (path: Option<Vec<Ident>>)
    ensures
        path is Some <==> is_dotted_path(text@),
        path matches Some(idents) ==> names(idents@) == split_at_dots(text@),
{
    let pieces = split_dots(text);
    let mut path: Vec<Ident> = Vec::new();
    let mut i: usize = 0;
    while i < pieces.len()
        invariant
            i <= pieces@.len(),
            texts(pieces@) == split_at_dots(text@),
            names(path@) == split_at_dots(text@).take(i as int),
            forall|k: int| 0 <= k < i ==> is_identifier(#[trigger] split_at_dots(text@)[k]),
        decreases pieces@.len() - i,
    {
        assert(texts(pieces@)[i as int] == pieces@[i as int]@);
        match Ident::from_string(pieces[i].as_str()) {
            Some(ident) => {
                let ghost earlier = path@;
                path.push(ident);
                assert(names(path@) == names(earlier).push(ident@));
            },
            None => {
                return None;
            },
        }
        i += 1;
    }
    Some(path)
}

/// Appends a path to the call target: the names with dots between them.
pub fn push_dotted(tokens: &mut TokenStream, path: &Vec<Ident>)
    ensures
        stream_tokens(*final(tokens)) == stream_tokens(*old(tokens)) + dotted_tokens(
            names(path@),
        ),
{
    let ghost parts = Seq::new(names(path@).len(), |i: int| seq![Token::Ident(names(path@)[i])]);
    let mut i: usize = 0;
    while i < path.len()
        invariant
            i <= path@.len(),
            parts == Seq::new(names(path@).len(), |i: int| seq![Token::Ident(names(path@)[i])]),
            stream_tokens(*tokens) == stream_tokens(*old(tokens)) + joined(
                parts.take(i as int),
                seq![alone('.')],
            ),
        decreases path@.len() - i,
    {
        proof {
            crate::descriptor::lemma_joined_step(parts, seq![alone('.')], i as int);
        }
        if i != 0 {
            push_punct(tokens, '.', Spacing::Alone);
        }
        path[i].to_tokens(tokens);
        i += 1;
    }
    proof {
        assert(parts.take(parts.len() as int) == parts);
    }
}

/// The tokens that reach the call target named by a text: the identifiers
/// between the text's dots, with dots between them. There is no result where
/// a piece of the text is not an identifier.
pub fn evaluate_body_state(body_state: &String) -> (tokens: Option<TokenStream>)
    ensures
        tokens is Some <==> is_dotted_path(body_state@),
        tokens matches Some(stream) ==> stream_tokens(stream) == dotted_tokens(
            split_at_dots(body_state@),
        ),
{
    match parse_body_state(body_state.as_str()) {
        Some(path) => {
            let mut stream = new_stream();
            push_dotted(&mut stream, &path);
            Some(stream)
        },
        None => None,
    }
}

/// What one more item adds to the text given for an option.
proof fn lemma_field_text_step(items: Seq<MetaItem>, index: int, name: Seq<char>)
    requires
        0 <= index < items.len(),
    ensures
        field_text(items.take(index + 1), name) == match field_text(items.take(index), name) {
            Some(text) => Some(text),
            None => match items[index] {
                MetaItem::Named { name: own, value: MetaValue::Str(text) } => if own@ == name {
                    Some(text@)
                } else {
                    None
                },
                _ => None,
            },
        },
{
    assert(items.take(index + 1).drop_last() == items.take(index));
}

/// Reads the argument list. Each item must be a named argument whose name is
/// that of an option not given before, and whose value is a string literal
/// that the option takes: an identifier for `state`, a chain of identifiers
/// with dots between them for `body_state`, the name of an access strategy
/// for `mutex_behavior`. The first item that is not stops the reading, and
/// is the fault returned. An option that is absent stays absent; the access
/// strategy is `Direct` where none is given.
pub fn to_arg_struct(items: &Vec<MetaItem>) -> (args: Result<WithTauriCommandArgs, ConfigFault>)
    ensures
        args matches Err(fault) ==> is_first_fault(items@, fault),
        args matches Ok(given) ==> {
            &&& faultless(items@)
            &&& given.state_text() == field_text(items@, state_option())
            &&& given.body_state_texts() == match field_text(items@, body_state_option()) {
                Some(text) => Some(split_at_dots(text)),
                None => None,
            }
            &&& given.settings() == settings_of(items@)
        },
{
    let mut state: Option<Ident> = None;
    let mut body_state: Option<Vec<Ident>> = None;
    let mut strategy: Option<AccessStrategy> = None;
    let mut i: usize = 0;
    proof {
        lemma_option_names_differ();
    }
    while i < items.len()
        invariant
            i <= items@.len(),
            state_option() != body_state_option(),
            state_option() != strategy_option(),
            body_state_option() != strategy_option(),
            faultless_before(items@, i as int),
            state is Some <==> named_before(items@, i as int, state_option()),
            body_state is Some <==> named_before(items@, i as int, body_state_option()),
            strategy is Some <==> named_before(items@, i as int, strategy_option()),
            field_text(items@.take(i as int), state_option()) == match state {
                Some(name) => Some(name@),
                None => None,
            },
            field_text(items@.take(i as int), body_state_option()) is Some <==> body_state
                is Some,
            body_state matches Some(path) ==> names(path@) == split_at_dots(
                field_text(items@.take(i as int), body_state_option()).unwrap(),
            ),
            field_text(items@.take(i as int), strategy_option()) is Some <==> strategy is Some,
            strategy matches Some(named) ==> strategy_named(
                field_text(items@.take(i as int), strategy_option()).unwrap(),
            ) == Some(named),
        decreases items@.len() - i,
    {
        proof {
            lemma_field_text_step(items@, i as int, state_option());
            lemma_field_text_step(items@, i as int, body_state_option());
            lemma_field_text_step(items@, i as int, strategy_option());
        }
        match &items[i] {
            MetaItem::Literal => {
                return Err(ConfigFault { index: i, error: ConfigError::UnexpectedLiteral });
            },
            MetaItem::Named { name, value } => {
                let is_state = same_text(name.as_str(), "state");
                let is_body_state = same_text(name.as_str(), "body_state");
                let is_strategy = same_text(name.as_str(), "mutex_behavior");
                if !is_state && !is_body_state && !is_strategy {
                    return Err(
                        ConfigFault {
                            index: i,
                            error: ConfigError::UnknownField { name: name.clone() },
                        },
                    );
                }
                let given_before = (is_state && state.is_some()) || (is_body_state
                    && body_state.is_some()) || (is_strategy && strategy.is_some());
                if given_before {
                    return Err(
                        ConfigFault {
                            index: i,
                            error: ConfigError::DuplicateField { name: name.clone() },
                        },
                    );
                }
                match value {
                    MetaValue::Str(text) => {
                        if is_state {
                            match Ident::from_string(text.as_str()) {
                                Some(ident) => {
                                    state = Some(ident);
                                },
                                None => {
                                    return Err(
                                        ConfigFault {
                                            index: i,
                                            error: ConfigError::InvalidState {
                                                value: text.clone(),
                                            },
                                        },
                                    );
                                },
                            }
                        } else if is_body_state {
                            match parse_body_state(text.as_str()) {
                                Some(path) => {
                                    body_state = Some(path);
                                },
                                None => {
                                    return Err(
                                        ConfigFault {
                                            index: i,
                                            error: ConfigError::InvalidBodyState {
                                                value: text.clone(),
                                            },
                                        },
                                    );
                                },
                            }
                        } else {
                            match AccessStrategy::from_string(text.as_str()) {
                                Ok(named) => {
                                    strategy = Some(named);
                                },
                                Err(_) => {
                                    return Err(
                                        ConfigFault {
                                            index: i,
                                            error: ConfigError::UnknownStrategy {
                                                value: text.clone(),
                                            },
                                        },
                                    );
                                },
                            }
                        }
                    },
                    _ => {
                        return Err(
                            ConfigFault {
                                index: i,
                                error: ConfigError::UnexpectedFormat { name: name.clone() },
                            },
                        );
                    },
                }
            },
        }
        i += 1;
    }
    proof {
        assert(items@.take(items@.len() as int) == items@);
    }
    let mutex_behavior = match strategy {
        Some(named) => named,
        None => AccessStrategy::default(),
    };
    Ok(WithTauriCommandArgs { state, body_state, mutex_behavior })
}

impl GeneratorConfig {
    /// The configuration that the arguments resolve to: each option as
    /// given; the state parameter is named `state` where no name is given,
    /// and the call target is the state parameter itself where no path is
    /// given.
    pub fn resolve(args: WithTauriCommandArgs) -> (config: GeneratorConfig)
        ensures
            config@ == args.settings(),
    {
        proof {
            reveal_strlit("state");
        }
        let WithTauriCommandArgs { state, body_state, mutex_behavior } = args;
        let state_param_name = match state {
            Some(name) => name,
            None => Ident::word("state"),
        };
        let body_state_path = match body_state {
            Some(path) => path,
            None => {
                let mut path: Vec<Ident> = Vec::new();
                path.push(state_param_name.clone());
                assert(names(path@) == seq![state_param_name@]);
                path
            },
        };
        GeneratorConfig { state_param_name, body_state_path, access_strategy: mutex_behavior }
    }

    /// The configuration that an argument list resolves to, or the first
    /// fault of the list.
    pub fn from_arguments(items: &Vec<MetaItem>) -> (config: Result<GeneratorConfig, ConfigFault>)
        ensures
            config matches Err(fault) ==> is_first_fault(items@, fault),
            config matches Ok(resolved) ==> faultless(items@) && resolved@ == settings_of(items@),
    {
        match to_arg_struct(items) {
            Ok(args) => Ok(GeneratorConfig::resolve(args)),
            Err(fault) => Err(fault),
        }
    }
}

} // verus!
