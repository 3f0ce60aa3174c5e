//! The structural description of an interface block: what the generator
//! reads of each method, and the tokens that it carries through unchanged.
//!
//! Whoever describes a block gives each shape together with its tokens. The
//! generator decides by the shape alone and copies the tokens as they are;
//! it never reads a token of the block.

use vstd::prelude::*;
use proc_macro2::TokenStream;
use crate::ident::Ident;

verus! {

/// The name of the marker that exposes a method.
pub open spec fn marker_name() -> Seq<char> {
    "with_tauri_command"@
}

/// A type as a signature writes it: its outer shape, and its tokens.
#[derive(Debug)]
pub struct Type {
    /// The outer shape.
    pub kind: TypeKind,
    /// The type as written.
    pub tokens: TokenStream,
}

/// The outer shape of a type.
#[derive(Debug)]
pub enum TypeKind {
    /// A path, such as `String` or `std::vec::Vec<u8>`.
    Path(Vec<PathSegment>),
    /// A reference to another type.
    Reference(Box<Type>),
    /// Anything else: a tuple, an array, a function pointer.
    Other,
}

/// One segment of a path, with what stands behind its name.
#[derive(Debug)]
pub struct PathSegment {
    /// The segment's name.
    pub ident: Ident,
    /// The generic arguments behind the name.
    pub arguments: PathArguments,
}

/// What stands behind the name of a path segment.
#[derive(Debug)]
pub enum PathArguments {
    /// Nothing.
    Absent,
    /// `<A, B>`
    AngleBracketed(Vec<GenericArgument>),
    /// `(A, B) -> C`
    Parenthesized,
}

/// One generic argument between angle brackets.
#[derive(Debug)]
pub enum GenericArgument {
    /// A type.
    Type(Type),
    /// A lifetime, a constant, a binding.
    Other,
}

/// The return type of a method.
#[derive(Debug)]
pub enum ReturnType {
    /// None is written: the method returns the unit value.
    Absent,
    /// The type behind the arrow.
    Declared(Type),
}

/// The pattern that binds a parameter.
#[derive(Debug)]
pub enum Pattern {
    /// A single name.
    Ident(Ident),
    /// Anything else: a tuple, a struct, a wildcard.
    Other,
}

/// One parameter of a method.
#[derive(Debug)]
pub enum FnArg {
    /// The receiver: `self` in any of its forms.
    Receiver,
    /// A parameter with a pattern and a type.
    Typed { pattern: Pattern, ty: Type },
}

/// An attribute on a method, by the segments of its path.
#[derive(Debug)]
pub struct Attribute {
    /// The names of the path's segments, in order.
    pub path: Vec<Ident>,
}

/// A method of the interface block.
#[derive(Debug)]
pub struct Method {
    /// The attributes written on the method.
    pub attributes: Vec<Attribute>,
    /// The method's name.
    pub name: Ident,
    /// The parameters, receiver included, in declaration order.
    pub inputs: Vec<FnArg>,
    /// The return type.
    pub output: ReturnType,
}

/// One item of the interface block.
#[derive(Debug)]
pub enum Item {
    /// A method.
    Method(Method),
    /// A constant, a type, a macro call.
    Other,
}

/// An interface block: its items in declaration order, and its tokens.
#[derive(Debug)]
pub struct InterfaceBlock {
    /// The items, in declaration order.
    pub items: Vec<Item>,
    /// The block as written.
    pub tokens: TokenStream,
}

impl Attribute {
    /// Whether the attribute is the exposure marker: the last segment of its
    /// path is the marker's name.
    pub open spec fn is_marker(&self) -> bool {
        self.path@.len() > 0 && self.path@.last()@ == marker_name()
    }

    /// Whether the attribute is the exposure marker.
    pub fn marks(&self) -> (marker: bool)
        ensures
            marker == self.is_marker(),
    {
        let n = self.path.len();
        n > 0 && self.path[n - 1].is("with_tauri_command")
    }
}

impl Method {
    /// Whether the method carries the exposure marker.
    pub open spec fn is_exposed(&self) -> bool {
        exists|i: int| 0 <= i < self.attributes@.len() && (#[trigger] self.attributes@[i]).is_marker()
    }

    /// Whether the method carries the exposure marker.
    pub fn exposed(&self) -> (marked: bool)
        ensures
            marked == self.is_exposed(),
    {
        let mut i: usize = 0;
        while i < self.attributes.len()
            invariant
                i <= self.attributes@.len(),
                forall|k: int| 0 <= k < i ==> !(#[trigger] self.attributes@[k]).is_marker(),
            decreases self.attributes@.len() - i,
        {
            if self.attributes[i].marks() {
                return true;
            }
            i += 1;
        }
        false
    }
}

impl Item {
    /// Whether the item is a method that carries the exposure marker.
    pub open spec fn is_exposed(&self) -> bool {
        self matches Item::Method(method) && method.is_exposed()
    }
}

impl InterfaceBlock {
    /// Whether any method of the block carries the exposure marker.
    pub open spec fn has_exposed(&self) -> bool {
        exists|i: int| 0 <= i < self.items@.len() && (#[trigger] self.items@[i]).is_exposed()
    }
}

} // verus!
