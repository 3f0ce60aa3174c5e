use proc_macro2::TokenStream;
use wam_macros::descriptor::{push_path, FunctionData, State};
use wam_macros::generator::extract;
use wam_macros::ident::Ident;
use wam_macros::interface::{
    Attribute, FnArg, InterfaceBlock, Item, Method, PathArguments, PathSegment, Pattern,
    ReturnType, Type, TypeKind,
};

fn ident(name: &str) -> Ident {
    Ident::from_string(name).unwrap()
}

fn tokens(source: &str) -> TokenStream {
    source.parse().unwrap()
}

fn path(names: &[&str], source: &str) -> Type {
    let segments = names
        .iter()
        .map(|name| PathSegment {
            ident: Ident::from_token(name).unwrap(),
            arguments: PathArguments::Absent,
        })
        .collect();
    Type { kind: TypeKind::Path(segments), tokens: tokens(source) }
}

fn param(name: &str, ty: Type) -> FnArg {
    FnArg::Typed { pattern: Pattern::Ident(ident(name)), ty }
}

fn marker() -> Attribute {
    Attribute { path: vec![ident("with_tauri_command")] }
}

fn method(name: &str, attributes: Vec<Attribute>, inputs: Vec<FnArg>) -> Method {
    Method { attributes, name: ident(name), inputs, output: ReturnType::Absent }
}

fn written(data: &FunctionData) -> String {
    let mut stream = TokenStream::new();
    data.to_tokens(&mut stream);
    stream.to_string()
}

#[test]
fn new_descriptor_is_empty() {
    let name = ident("save");
    let state = ident("state");
    let output = ReturnType::Absent;
    let data = FunctionData::new(&name, &state, &output);
    assert_eq!(data.name.as_str(), "save");
    assert_eq!(data.state.name.as_str(), "state");
    assert!(!data.state.use_state);
    assert!(data.typed_params.is_empty());
    assert_eq!(written(&data), "");
}

#[test]
fn receiver_makes_the_method_need_the_state() {
    let name = ident("save");
    let state = ident("state");
    let output = ReturnType::Absent;
    let inputs = vec![FnArg::Receiver];
    let mut data = FunctionData::new(&name, &state, &output);
    data.add_new(&inputs);
    assert!(data.state.use_state);
    assert!(data.typed_params.is_empty());
    assert_eq!(written(&data), "state : State < AppState >");
}

#[test]
fn state_handle_is_first_whatever_the_parameters() {
    let state = ident("app");
    let name = ident("f");
    let output = ReturnType::Absent;
    for count in 0..4usize {
        let mut inputs = Vec::new();
        for k in 0..count {
            inputs.push(param(&format!("p{k}"), path(&["u8"], "u8")));
        }
        inputs.insert(count / 2, FnArg::Receiver);
        let mut data = FunctionData::new(&name, &state, &output);
        data.add_new(&inputs);
        let text = written(&data);
        assert!(text.starts_with("app : State < AppState >"), "{text}");
        assert_eq!(data.get_params().len(), count);
    }
}

#[test]
fn parameters_keep_their_order() {
    let name = ident("set_game_path");
    let state = ident("state");
    let output = ReturnType::Absent;
    let inputs = vec![
        FnArg::Receiver,
        param("release_type", path(&["ReleaseType"], "ReleaseType")),
        param("path", path(&["String"], "String")),
    ];
    let mut data = FunctionData::new(&name, &state, &output);
    data.add_new(&inputs);
    let names: Vec<&str> = data.get_params().iter().map(|ident| ident.as_str()).collect();
    assert_eq!(names, vec!["release_type", "path"]);
    assert_eq!(
        written(&data),
        "state : State < AppState > , release_type : ReleaseType , path : String"
    );
}

#[test]
fn no_receiver_no_state_parameter() {
    let name = ident("version");
    let state = ident("state");
    let output = ReturnType::Absent;
    let inputs = vec![param("a", path(&["u8"], "u8")), param("b", path(&["u16"], "u16"))];
    let mut data = FunctionData::new(&name, &state, &output);
    data.add_new(&inputs);
    assert!(!data.state.use_state);
    assert_eq!(written(&data), "a : u8 , b : u16");
}

#[test]
fn richer_parameters_are_passed_over() {
    let name = ident("f");
    let state = ident("state");
    let output = ReturnType::Absent;
    let inputs = vec![
        param("a", path(&["u8"], "u8")),
        param("b", Type { kind: TypeKind::Other, tokens: tokens("(u8, u8)") }),
        param(
            "c",
            Type {
                kind: TypeKind::Reference(Box::new(path(&["str"], "str"))),
                tokens: tokens("&str"),
            },
        ),
        FnArg::Typed { pattern: Pattern::Other, ty: path(&["u8"], "u8") },
        param("e", path(&["u32"], "u32")),
    ];
    let mut data = FunctionData::new(&name, &state, &output);
    data.add_new(&inputs);
    let names: Vec<&str> = data.get_params().iter().map(|ident| ident.as_str()).collect();
    assert_eq!(names, vec!["a", "e"]);
    assert_eq!(written(&data), "a : u8 , e : u32");
}

#[test]
fn type_path_is_joined_by_double_colons() {
    let name = ident("f");
    let state = ident("state");
    let output = ReturnType::Absent;
    let inputs = vec![param("kind", path(&["crate", "game", "ReleaseType"], "crate::game::ReleaseType"))];
    let mut data = FunctionData::new(&name, &state, &output);
    data.add_new(&inputs);
    assert_eq!(data.typed_params[0].type_path_text(), "crate::game::ReleaseType");
    assert_eq!(written(&data), "kind : crate :: game :: ReleaseType");
    let expected: syn::Type = syn::parse_str("crate::game::ReleaseType").unwrap();
    let mut stream = TokenStream::new();
    push_path(&mut stream, data.typed_params[0].type_path);
    assert_eq!(syn::parse2::<syn::Type>(stream).unwrap(), expected);
}

#[test]
fn generic_arguments_of_a_parameter_are_dropped() {
    let name = ident("f");
    let state = ident("state");
    let output = ReturnType::Absent;
    let ty = Type {
        kind: TypeKind::Path(
            vec![PathSegment { ident: ident("Vec"), arguments: PathArguments::AngleBracketed(vec![]) }],
        ),
        tokens: tokens("Vec<u8>"),
    };
    let inputs = vec![param("list", ty)];
    let mut data = FunctionData::new(&name, &state, &output);
    data.add_new(&inputs);
    assert_eq!(data.typed_params[0].type_path_text(), "Vec");
    assert_eq!(written(&data), "list : Vec");
}

#[test]
fn adding_twice_appends() {
    let name = ident("f");
    let state = ident("state");
    let output = ReturnType::Absent;
    let first = vec![param("a", path(&["u8"], "u8"))];
    let second = vec![FnArg::Receiver, param("b", path(&["u8"], "u8"))];
    let mut data = FunctionData::new(&name, &state, &output);
    data.add_new(&first);
    assert!(!data.state.use_state);
    data.add_new(&second);
    assert!(data.state.use_state);
    data.add_new(&first);
    assert!(data.state.use_state);
    let names: Vec<&str> = data.get_params().iter().map(|ident| ident.as_str()).collect();
    assert_eq!(names, vec!["a", "b", "a"]);
}

#[test]
fn arguments_are_the_names_with_commas() {
    let name = ident("f");
    let state = ident("state");
    let output = ReturnType::Absent;
    let inputs = vec![
        FnArg::Receiver,
        param("a", path(&["u8"], "u8")),
        param("b", path(&["u8"], "u8")),
        param("c", path(&["u8"], "u8")),
    ];
    let mut data = FunctionData::new(&name, &state, &output);
    data.add_new(&inputs);
    let mut stream = TokenStream::new();
    data.arguments_to_tokens(&mut stream);
    assert_eq!(stream.to_string(), "a , b , c");
}

#[test]
fn state_reaches_in_with_a_dot() {
    let name = ident("app");
    let mut stream = TokenStream::new();
    State { name: &name, use_state: true }.to_tokens(&mut stream);
    assert_eq!(stream.to_string(), "app .");
    let mut stream = TokenStream::new();
    State { name: &name, use_state: false }.to_tokens(&mut stream);
    assert!(stream.is_empty());
}

#[test]
fn marker_is_found_by_the_last_segment() {
    assert!(marker().marks());
    assert!(Attribute { path: vec![ident("wam_macros"), ident("with_tauri_command")] }.marks());
    assert!(!Attribute { path: vec![ident("with_tauri_command"), ident("other")] }.marks());
    assert!(!Attribute { path: vec![ident("inline")] }.marks());
    assert!(!Attribute { path: vec![] }.marks());
}

#[test]
fn method_is_exposed_by_any_of_its_attributes() {
    assert!(method("f", vec![marker()], vec![]).exposed());
    assert!(method("f", vec![Attribute { path: vec![ident("inline")] }, marker()], vec![]).exposed());
    assert!(!method("f", vec![Attribute { path: vec![ident("inline")] }], vec![]).exposed());
    assert!(!method("f", vec![], vec![]).exposed());
}

#[test]
fn extraction_keeps_declaration_order() {
    let block = InterfaceBlock {
        items: vec![
            Item::Method(method("first", vec![marker()], vec![FnArg::Receiver])),
            Item::Other,
            Item::Method(method("hidden", vec![], vec![])),
            Item::Method(method("second", vec![marker()], vec![param("a", path(&["u8"], "u8"))])),
            Item::Method(method("third", vec![marker(), marker()], vec![])),
        ],
        tokens: TokenStream::new(),
    };
    let state = ident("state");
    let descriptors = extract(&block, &state);
    let names: Vec<&str> = descriptors.iter().map(|data| data.name.as_str()).collect();
    assert_eq!(names, vec!["first", "second", "third"]);
    assert!(descriptors[0].state.use_state);
    assert!(!descriptors[1].state.use_state);
    assert_eq!(descriptors[1].typed_params.len(), 1);
}

#[test]
fn extraction_of_nothing_is_empty() {
    let block = InterfaceBlock {
        items: vec![Item::Other, Item::Method(method("hidden", vec![], vec![]))],
        tokens: TokenStream::new(),
    };
    let state = ident("state");
    assert!(extract(&block, &state).is_empty());
    let block = InterfaceBlock { items: vec![], tokens: TokenStream::new() };
    assert!(extract(&block, &state).is_empty());
}
