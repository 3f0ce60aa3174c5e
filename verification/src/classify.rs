//! The classifier of return types.

use vstd::prelude::*;
use crate::interface::{GenericArgument, PathArguments, PathSegment, ReturnType, Type, TypeKind};
use crate::text::{ends_with, has_suffix};

verus! {

/// Why a method gets no wrapper.
#[derive(Clone, Copy, Debug, PartialEq, Eq, Structural)]
pub enum StructuralError {
    /// The return type is neither a path nor a reference.
    UnsupportedType,
    /// The return type is a reference to something that is not a path.
    NestedReference,
    /// The referenced option is written without angle brackets.
    OptionWithoutArguments,
    /// The referenced option has no argument, or more than one.
    OptionArity,
    /// The argument of the referenced option is not a type.
    OptionArgumentNotType,
    /// The argument of the referenced option is a type, but not a path.
    OptionArgumentNested,
    /// The method returns a value, and the lock strategy would drop it.
    LockWithReturnType,
}

/// The shape of a return type, as far as the generator tells shapes apart.
#[derive(Clone, Copy, Debug)]
pub enum ReturnShape<'a> {
    /// No value.
    Unit,
    /// A value of a path type.
    Value(&'a Type),
    /// A reference to a value of a path type; the type is the referent.
    Reference(&'a Type),
    /// A reference to an option of a path type; the type is the one inside
    /// the option.
    Optional(&'a Type),
}

/// The word by which an option is recognised at the end of a name.
pub open spec fn option_word() -> Seq<char> {
    "Option"@
}

/// Whether a path names an option: its first segment's name ends in the
/// option word.
pub open spec fn names_option(segments: Seq<PathSegment>) -> bool {
    segments.len() > 0 && has_suffix(segments[0].ident@, option_word())
}

/// The type inside an option, where the option is written with exactly one
/// argument and that argument is a path type.
pub open spec fn option_inner<'a>(arguments: &'a PathArguments) -> Result<
    &'a Type,
    StructuralError,
> {
    match arguments {
        PathArguments::AngleBracketed(list) => {
            if list@.len() != 1 {
                Err(StructuralError::OptionArity)
            } else {
                match &list@[0] {
                    GenericArgument::Type(inner) => match inner.kind {
                        TypeKind::Path(_) => Ok(inner),
                        _ => Err(StructuralError::OptionArgumentNested),
                    },
                    GenericArgument::Other => Err(StructuralError::OptionArgumentNotType),
                }
            }
        },
        _ => Err(StructuralError::OptionWithoutArguments),
    }
}

/// The shape of a referenced type.
pub open spec fn referent_shape<'a>(referent: &'a Type) -> Result<
    ReturnShape<'a>,
    StructuralError,
> {
    match &referent.kind {
        TypeKind::Path(segments) => {
            if names_option(segments@) {
                match option_inner(&segments@[0].arguments) {
                    Ok(inner) => Ok(ReturnShape::Optional(inner)),
                    Err(fault) => Err(fault),
                }
            } else {
                Ok(ReturnShape::Reference(referent))
            }
        },
        _ => Err(StructuralError::NestedReference),
    }
}

/// The shape of a return type: no type is the unit; a path is a value; a
/// reference to a path is a reference, or an optional where the path names
/// an option; anything else is refused.
pub open spec fn return_shape<'a>(output: &'a ReturnType) -> Result<
    ReturnShape<'a>,
    StructuralError,
> {
    match output {
        ReturnType::Absent => Ok(ReturnShape::Unit),
        ReturnType::Declared(ty) => match &ty.kind {
            TypeKind::Path(_) => Ok(ReturnShape::Value(ty)),
            TypeKind::Reference(referent) => referent_shape(&**referent),
            TypeKind::Other => Err(StructuralError::UnsupportedType),
        },
    }
}

impl StructuralError {
    /// Whether the error says that a return type nests beyond the supported
    /// shapes.
    pub open spec fn is_nesting(&self) -> bool {
        !(self is LockWithReturnType)
    }
}

/// Finds the type inside an option.
fn classify_option<'a>(arguments: &'a PathArguments) -> (inner: Result<&'a Type, StructuralError>)
    ensures
        inner == option_inner(arguments),
{
    match arguments {
        PathArguments::AngleBracketed(list) => {
            if list.len() != 1 {
                Err(StructuralError::OptionArity)
            } else {
                match &list[0] {
                    GenericArgument::Type(inner) => match &inner.kind {
                        TypeKind::Path(_) => Ok(inner),
                        _ => Err(StructuralError::OptionArgumentNested),
                    },
                    GenericArgument::Other => Err(StructuralError::OptionArgumentNotType),
                }
            }
        },
        _ => Err(StructuralError::OptionWithoutArguments),
    }
}

/// Classifies a referenced type.
fn classify_referent<'a>(referent: &'a Type) -> (shape: Result<ReturnShape<'a>, StructuralError>)
    ensures
        shape == referent_shape(referent),
{
    match &referent.kind {
        TypeKind::Path(segments) => {
            if segments.len() > 0 && ends_with(segments[0].ident.as_str(), "Option") {
                match classify_option(&segments[0].arguments) {
                    Ok(inner) => Ok(ReturnShape::Optional(inner)),
                    Err(fault) => Err(fault),
                }
            } else {
                Ok(ReturnShape::Reference(referent))
            }
        },
        _ => Err(StructuralError::NestedReference),
    }
}

/// Classifies the return type of a method.
pub fn classify_return<'a>(output: &'a ReturnType) -> (shape: Result<
    ReturnShape<'a>,
    StructuralError,
>)
    ensures
        shape == return_shape(output),
{
    match output {
        ReturnType::Absent => Ok(ReturnShape::Unit),
        ReturnType::Declared(ty) => match &ty.kind {
            TypeKind::Path(_) => Ok(ReturnShape::Value(ty)),
            TypeKind::Reference(referent) => classify_referent(&**referent),
            TypeKind::Other => Err(StructuralError::UnsupportedType),
        },
    }
}

} // verus!
