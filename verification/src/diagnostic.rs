//! Diagnostics: every failure of the generator as a message and a place.

use vstd::prelude::*;
use vstd::string::StringExecFns;
use crate::classify::StructuralError;
use crate::config::{ConfigError, ConfigFault};

verus! {

/// Where a diagnostic points.
#[derive(Clone, Copy, Debug, PartialEq, Eq, Structural)]
pub enum Location {
    /// An item of the argument list, by its index.
    Argument(usize),
    /// An item of the interface block, by its index.
    Item(usize),
}

/// A failure as it is shown: the message, and the place it points to.
#[derive(Debug)]
pub struct Diagnostic {
    /// The message.
    pub message: String,
    /// The place.
    pub location: Location,
}

/// A method that got no wrapper: its place in the block, and the reason.
#[derive(Clone, Copy, Debug, PartialEq, Eq, Structural)]
pub struct MethodFault {
    /// The method's index among the items of the block.
    pub index: usize,
    /// The reason.
    pub error: StructuralError,
}

/// A text between backquotes.
pub open spec fn quoted(text: Seq<char>) -> Seq<char> {
    "`"@ + text + "`"@
}

impl StructuralError {
    /// The message of the error.
    pub open spec fn text(&self) -> Seq<char> {
        match self {
            StructuralError::UnsupportedType =>
                "unsupported return-type nesting: the return type is neither a plain type nor a reference"@,
            StructuralError::NestedReference =>
                "unsupported return-type nesting: a reference must point to a plain type"@,
            StructuralError::OptionWithoutArguments =>
                "unsupported return-type nesting: the option is written without a type in angle brackets"@,
            StructuralError::OptionArity =>
                "unsupported return-type nesting: the option must hold exactly one type"@,
            StructuralError::OptionArgumentNotType =>
                "unsupported return-type nesting: the option can only hold a type"@,
            StructuralError::OptionArgumentNested =>
                "unsupported return-type nesting: the option can only hold one layer of plain types"@,
            StructuralError::LockWithReturnType => "lock behavior does not support a return type"@,
        }
    }

    /// The message of the error.
    pub fn message(&self) -> (message: String)
        ensures
            message@ == self.text(),
    {
        let text = match self {
            StructuralError::UnsupportedType =>
                "unsupported return-type nesting: the return type is neither a plain type nor a reference",
            StructuralError::NestedReference =>
                "unsupported return-type nesting: a reference must point to a plain type",
            StructuralError::OptionWithoutArguments =>
                "unsupported return-type nesting: the option is written without a type in angle brackets",
            StructuralError::OptionArity =>
                "unsupported return-type nesting: the option must hold exactly one type",
            StructuralError::OptionArgumentNotType =>
                "unsupported return-type nesting: the option can only hold a type",
            StructuralError::OptionArgumentNested =>
                "unsupported return-type nesting: the option can only hold one layer of plain types",
            StructuralError::LockWithReturnType => "lock behavior does not support a return type",
        };
        String::from_str(text)
    }
}

impl ConfigError {
    /// The name of the argument that the error is about; none for a bare
    /// literal, which has no name.
    pub open spec fn argument_name(&self) -> Option<Seq<char>> {
        match self {
            ConfigError::UnexpectedLiteral => None,
            ConfigError::UnknownField { name } => Some(name@),
            ConfigError::DuplicateField { name } => Some(name@),
            ConfigError::UnexpectedFormat { name } => Some(name@),
            ConfigError::UnknownStrategy { .. } => Some("mutex_behavior"@),
            ConfigError::InvalidState { .. } => Some("state"@),
            ConfigError::InvalidBodyState { .. } => Some("body_state"@),
        }
    }

    /// The message of the error. It names the argument.
    pub open spec fn text(&self) -> Seq<char> {
        match self {
            ConfigError::UnexpectedLiteral => "unexpected literal in the argument list"@,
            ConfigError::UnknownField { name } => "unknown argument "@ + quoted(name@),
            ConfigError::DuplicateField { name } => "duplicate argument "@ + quoted(name@),
            ConfigError::UnexpectedFormat { name } => "the argument "@ + quoted(name@)
                + " takes a string literal"@,
            ConfigError::UnknownStrategy { value } => "invalid value "@ + quoted(value@)
                + " for the argument "@ + quoted("mutex_behavior"@),
            ConfigError::InvalidState { value } => "invalid value "@ + quoted(value@)
                + " for the argument "@ + quoted("state"@),
            ConfigError::InvalidBodyState { value } => "invalid value "@ + quoted(value@)
                + " for the argument "@ + quoted("body_state"@),
        }
    }

    /// The name of the argument that the error is about.
    pub fn argument(&self) -> (name: Option<String>)
        ensures
            name is Some <==> self.argument_name() is Some,
            name matches Some(text) ==> self.argument_name() == Some(text@),
    {
        match self {
            ConfigError::UnexpectedLiteral => None,
            ConfigError::UnknownField { name } => Some(name.clone()),
            ConfigError::DuplicateField { name } => Some(name.clone()),
            ConfigError::UnexpectedFormat { name } => Some(name.clone()),
            ConfigError::UnknownStrategy { .. } => Some(String::from_str("mutex_behavior")),
            ConfigError::InvalidState { .. } => Some(String::from_str("state")),
            ConfigError::InvalidBodyState { .. } => Some(String::from_str("body_state")),
        }
    }

    /// The message of the error.
    pub fn message(&self) -> (message: String)
        ensures
            message@ == self.text(),
    {
        match self {
            ConfigError::UnexpectedLiteral => String::from_str(
                "unexpected literal in the argument list",
            ),
            ConfigError::UnknownField { name } => {
                let mut message = String::from_str("unknown argument ");
                append_quoted(&mut message, name.as_str());
                message
            },
            ConfigError::DuplicateField { name } => {
                let mut message = String::from_str("duplicate argument ");
                append_quoted(&mut message, name.as_str());
                message
            },
            ConfigError::UnexpectedFormat { name } => {
                let mut message = String::from_str("the argument ");
                append_quoted(&mut message, name.as_str());
                message.append(" takes a string literal");
                message
            },
            ConfigError::UnknownStrategy { value } => invalid_value(
                value.as_str(),
                "mutex_behavior",
            ),
            ConfigError::InvalidState { value } => invalid_value(value.as_str(), "state"),
            ConfigError::InvalidBodyState { value } => invalid_value(
                value.as_str(),
                "body_state",
            ),
        }
    }
}

/// Appends a text between backquotes.
fn append_quoted(message: &mut String, text: &str)
    ensures
        final(message)@ == old(message)@ + quoted(text@),
{
    message.append("`");
    message.append(text);
    message.append("`");
}

/// The message for a value that an argument does not take.
fn invalid_value(value: &str, argument: &str) -> (message: String)
    ensures
        message@ == "invalid value "@ + quoted(value@) + " for the argument "@ + quoted(
            argument@,
        ),
{
    let mut message = String::from_str("invalid value ");
    append_quoted(&mut message, value);
    message.append(" for the argument ");
    append_quoted(&mut message, argument);
    message
}

impl ConfigFault {
    /// The fault as a diagnostic: the error's message, at the faulty
    /// argument.
    pub fn report(&self) -> (diagnostic: Diagnostic)
        ensures
            diagnostic.message@ == self.error.text(),
            diagnostic.location == Location::Argument(self.index),
    {
        Diagnostic { message: self.error.message(), location: Location::Argument(self.index) }
    }
}

impl MethodFault {
    /// The fault as a diagnostic: the error's message, at the method.
    pub fn report(&self) -> (diagnostic: Diagnostic)
        ensures
            diagnostic.message@ == self.error.text(),
            diagnostic.location == Location::Item(self.index),
    {
        Diagnostic { message: self.error.message(), location: Location::Item(self.index) }
    }
}

} // verus!
