use proc_macro2::TokenStream;
use wam_macros::classify::{classify_return, ReturnShape, StructuralError};
use wam_macros::ident::Ident;
use wam_macros::interface::{GenericArgument, PathArguments, PathSegment, ReturnType, Type, TypeKind};

fn tokens(source: &str) -> TokenStream {
    source.parse().unwrap()
}

fn segment(name: &str, arguments: PathArguments) -> PathSegment {
    PathSegment { ident: Ident::from_string(name).unwrap(), arguments }
}

fn plain(name: &str) -> Type {
    Type { kind: TypeKind::Path(vec![segment(name, PathArguments::Absent)]), tokens: tokens(name) }
}

fn generic(name: &str, arguments: Vec<GenericArgument>, source: &str) -> Type {
    Type {
        kind: TypeKind::Path(vec![segment(name, PathArguments::AngleBracketed(arguments))]),
        tokens: tokens(source),
    }
}

fn reference(to: Type, source: &str) -> Type {
    Type { kind: TypeKind::Reference(Box::new(to)), tokens: tokens(source) }
}

fn other(source: &str) -> Type {
    Type { kind: TypeKind::Other, tokens: tokens(source) }
}

fn written(shape: &ReturnShape) -> String {
    match shape {
        ReturnShape::Unit => "()".to_string(),
        ReturnShape::Value(ty) => format!("value {}", ty.tokens),
        ReturnShape::Reference(ty) => format!("reference {}", ty.tokens),
        ReturnShape::Optional(ty) => format!("optional {}", ty.tokens),
    }
}

#[test]
fn no_return_type_is_unit() {
    let shape = classify_return(&ReturnType::Absent).unwrap();
    assert!(matches!(shape, ReturnShape::Unit));
}

#[test]
fn path_is_value() {
    let output = ReturnType::Declared(plain("String"));
    let shape = classify_return(&output).unwrap();
    assert_eq!(written(&shape), "value String");
}

#[test]
fn path_with_arguments_is_value() {
    let output = ReturnType::Declared(
        generic("Vec", vec![GenericArgument::Type(plain("u8"))], "Vec<u8>"),
    );
    let shape = classify_return(&output).unwrap();
    assert_eq!(written(&shape), "value Vec < u8 >");
}

#[test]
fn option_by_value_is_value() {
    let output = ReturnType::Declared(
        generic("Option", vec![GenericArgument::Type(plain("String"))], "Option<String>"),
    );
    let shape = classify_return(&output).unwrap();
    assert_eq!(written(&shape), "value Option < String >");
}

#[test]
fn reference_to_path_is_reference() {
    let output = ReturnType::Declared(reference(plain("String"), "&String"));
    let shape = classify_return(&output).unwrap();
    assert_eq!(written(&shape), "reference String");
}

#[test]
fn reference_to_generic_path_is_reference() {
    let output = ReturnType::Declared(
        reference(generic("Vec", vec![GenericArgument::Type(plain("u8"))], "Vec<u8>"), "&Vec<u8>"),
    );
    let shape = classify_return(&output).unwrap();
    assert_eq!(written(&shape), "reference Vec < u8 >");
}

#[test]
fn reference_to_option_is_optional() {
    let output = ReturnType::Declared(
        reference(
            generic("Option", vec![GenericArgument::Type(plain("String"))], "Option<String>"),
            "&Option<String>",
        ),
    );
    let shape = classify_return(&output).unwrap();
    assert_eq!(written(&shape), "optional String");
}

#[test]
fn name_that_ends_in_option_counts_as_option() {
    let output = ReturnType::Declared(
        reference(
            generic("MyOption", vec![GenericArgument::Type(plain("u32"))], "MyOption<u32>"),
            "&MyOption<u32>",
        ),
    );
    let shape = classify_return(&output).unwrap();
    assert_eq!(written(&shape), "optional u32");
}

#[test]
fn only_the_first_segment_names_the_option() {
    let referent = Type {
        kind: TypeKind::Path(
            vec![
                segment("std", PathArguments::Absent),
                segment("option", PathArguments::Absent),
                segment(
                    "Option",
                    PathArguments::AngleBracketed(vec![GenericArgument::Type(plain("String"))]),
                ),
            ],
        ),
        tokens: tokens("std::option::Option<String>"),
    };
    let output = ReturnType::Declared(reference(referent, "&std::option::Option<String>"));
    let shape = classify_return(&output).unwrap();
    assert_eq!(written(&shape), "reference std :: option :: Option < String >");
}

#[test]
fn option_may_hold_a_generic_path() {
    let inner = generic("Vec", vec![GenericArgument::Type(plain("u8"))], "Vec<u8>");
    let output = ReturnType::Declared(
        reference(
            generic("Option", vec![GenericArgument::Type(inner)], "Option<Vec<u8>>"),
            "&Option<Vec<u8>>",
        ),
    );
    let shape = classify_return(&output).unwrap();
    assert_eq!(written(&shape), "optional Vec < u8 >");
}

#[test]
fn path_without_segments_is_no_option() {
    let referent = Type { kind: TypeKind::Path(vec![]), tokens: TokenStream::new() };
    let output = ReturnType::Declared(reference(referent, "&"));
    let shape = classify_return(&output).unwrap();
    assert!(matches!(shape, ReturnShape::Reference(_)));
}

#[test]
fn tuple_is_refused() {
    let output = ReturnType::Declared(other("(u8, u8)"));
    assert_eq!(classify_return(&output).unwrap_err(), StructuralError::UnsupportedType);
}

#[test]
fn reference_to_reference_is_refused() {
    let output = ReturnType::Declared(reference(reference(plain("String"), "&String"), "&&String"));
    assert_eq!(classify_return(&output).unwrap_err(), StructuralError::NestedReference);
}

#[test]
fn reference_to_tuple_is_refused() {
    let output = ReturnType::Declared(reference(other("(u8, u8)"), "&(u8, u8)"));
    assert_eq!(classify_return(&output).unwrap_err(), StructuralError::NestedReference);
}

#[test]
fn option_without_brackets_is_refused() {
    let output = ReturnType::Declared(reference(plain("Option"), "&Option"));
    assert_eq!(classify_return(&output).unwrap_err(), StructuralError::OptionWithoutArguments);
}

#[test]
fn option_with_parentheses_is_refused() {
    let referent = Type {
        kind: TypeKind::Path(vec![segment("Option", PathArguments::Parenthesized)]),
        tokens: tokens("Option(u8)"),
    };
    let output = ReturnType::Declared(reference(referent, "&Option(u8)"));
    assert_eq!(classify_return(&output).unwrap_err(), StructuralError::OptionWithoutArguments);
}

#[test]
fn option_without_argument_is_refused() {
    let output = ReturnType::Declared(reference(generic("Option", vec![], "Option<>"), "&Option<>"));
    assert_eq!(classify_return(&output).unwrap_err(), StructuralError::OptionArity);
}

#[test]
fn option_with_two_arguments_is_refused() {
    let output = ReturnType::Declared(
        reference(
            generic(
                "Option",
                vec![GenericArgument::Type(plain("u8")), GenericArgument::Type(plain("u16"))],
                "Option<u8, u16>",
            ),
            "&Option<u8, u16>",
        ),
    );
    assert_eq!(classify_return(&output).unwrap_err(), StructuralError::OptionArity);
}

#[test]
fn option_of_a_lifetime_is_refused() {
    let output = ReturnType::Declared(
        reference(generic("Option", vec![GenericArgument::Other], "Option<'a>"), "&Option<'a>"),
    );
    assert_eq!(classify_return(&output).unwrap_err(), StructuralError::OptionArgumentNotType);
}

#[test]
fn option_of_a_reference_is_refused() {
    let output = ReturnType::Declared(
        reference(
            generic(
                "Option",
                vec![GenericArgument::Type(reference(plain("str"), "&str"))],
                "Option<&str>",
            ),
            "&Option<&str>",
        ),
    );
    assert_eq!(classify_return(&output).unwrap_err(), StructuralError::OptionArgumentNested);
}

#[test]
fn option_of_a_tuple_is_refused() {
    let output = ReturnType::Declared(
        reference(
            generic("Option", vec![GenericArgument::Type(other("(u8, u8)"))], "Option<(u8, u8)>"),
            "&Option<(u8, u8)>",
        ),
    );
    assert_eq!(classify_return(&output).unwrap_err(), StructuralError::OptionArgumentNested);
}

#[test]
fn classification_is_repeatable() {
    let output = ReturnType::Declared(
        reference(
            generic("Option", vec![GenericArgument::Type(plain("String"))], "Option<String>"),
            "&Option<String>",
        ),
    );
    let first = classify_return(&output).unwrap();
    let second = classify_return(&output).unwrap();
    assert_eq!(written(&first), written(&second));
}
