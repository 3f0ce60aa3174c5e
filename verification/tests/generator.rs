use proc_macro2::{TokenStream, TokenTree};
use wam_macros::classify::StructuralError;
use wam_macros::config::{ConfigError, MetaItem, MetaValue};
use wam_macros::diagnostic::{Location, MethodFault};
use wam_macros::generator::{contains_tauri_commands, with_tauri_command, Generated};
use wam_macros::ident::Ident;
use wam_macros::interface::{
    Attribute, FnArg, GenericArgument, InterfaceBlock, Item, Method, PathArguments, PathSegment,
    Pattern, ReturnType, Type, TypeKind,
};

const BLOCK: &str = "impl AppConfig {
    #[wam_macros::with_tauri_command]
    pub fn get_game_path(&self, release_type: ReleaseType) -> &Option<String> {
        match release_type {
            ReleaseType::Retail => &self.game_paths.retail,
        }
    }

    pub fn set_game_path(&mut self, release_type: ReleaseType, path: String) {
        match release_type {
            ReleaseType::Retail => self.game_paths.retail = Some(path),
        }
    }
}";

fn ident(name: &str) -> Ident {
    Ident::from_token(name).unwrap()
}

fn tokens(source: &str) -> TokenStream {
    source.parse().unwrap()
}

fn plain(name: &str) -> Type {
    Type {
        kind: TypeKind::Path(
            vec![PathSegment { ident: ident(name), arguments: PathArguments::Absent }],
        ),
        tokens: tokens(name),
    }
}

fn option_reference() -> Type {
    let option = Type {
        kind: TypeKind::Path(
            vec![
                PathSegment {
                    ident: ident("Option"),
                    arguments: PathArguments::AngleBracketed(
                        vec![GenericArgument::Type(plain("String"))],
                    ),
                },
            ],
        ),
        tokens: tokens("Option<String>"),
    };
    Type { kind: TypeKind::Reference(Box::new(option)), tokens: tokens("&Option<String>") }
}

fn param(name: &str, ty: Type) -> FnArg {
    FnArg::Typed { pattern: Pattern::Ident(ident(name)), ty }
}

fn marker() -> Attribute {
    Attribute { path: vec![ident("wam_macros"), ident("with_tauri_command")] }
}

fn getter(marked: bool) -> Method {
    Method {
        attributes: if marked { vec![marker()] } else { vec![] },
        name: ident("get_game_path"),
        inputs: vec![FnArg::Receiver, param("release_type", plain("ReleaseType"))],
        output: ReturnType::Declared(option_reference()),
    }
}

fn setter(marked: bool) -> Method {
    Method {
        attributes: if marked { vec![marker()] } else { vec![] },
        name: ident("set_game_path"),
        inputs: vec![
            FnArg::Receiver,
            param("release_type", plain("ReleaseType")),
            param("path", plain("String")),
        ],
        output: ReturnType::Absent,
    }
}

fn block(items: Vec<Item>) -> InterfaceBlock {
    InterfaceBlock { items, tokens: tokens(BLOCK) }
}

fn text(name: &str, value: &str) -> MetaItem {
    MetaItem::Named { name: name.to_string(), value: MetaValue::Str(value.to_string()) }
}

fn file(generated: &Generated) -> syn::File {
    syn::parse2(generated.tokens.clone()).unwrap()
}

fn expected(source: &str) -> syn::File {
    syn::parse_str(source).unwrap()
}

fn flat(stream: TokenStream, out: &mut Vec<String>) {
    for tree in stream {
        match tree {
            TokenTree::Group(group) => {
                out.push(format!("open {:?}", group.delimiter()));
                flat(group.stream(), out);
                out.push(format!("close {:?}", group.delimiter()));
            },
            TokenTree::Ident(ident) => out.push(ident.to_string()),
            TokenTree::Punct(punct) => out.push(format!("{} {:?}", punct.as_char(), punct.spacing())),
            TokenTree::Literal(literal) => out.push(literal.to_string()),
        }
    }
}

#[test]
fn getter_under_the_option_strategy() {
    let input = block(vec![Item::Method(getter(true)), Item::Method(setter(false))]);
    let arguments = vec![text("body_state", "state.config"), text("mutex_behavior", "match_to_option")];
    let generated = contains_tauri_commands(&arguments, &input).unwrap();
    assert!(generated.faults.is_empty());
    let source = format!(
        "{BLOCK}
         #[tauri::command]
         pub fn get_game_path(state: State<AppState>, release_type: ReleaseType) -> Option<String> {{
             match state.config.lock().ok() {{
                 Some(guard) => match guard.get_game_path(release_type) {{
                     Some(some) => Some(some.clone()),
                     None => None,
                 }},
                 None => None,
             }}
         }}"
    );
    assert_eq!(file(&generated), expected(&source));
}

#[test]
fn getter_and_setter_under_the_lock_strategy() {
    let input = block(vec![Item::Method(getter(true)), Item::Method(setter(true))]);
    let arguments = vec![text("body_state", "state.config"), text("mutex_behavior", "lock")];
    let generated = contains_tauri_commands(&arguments, &input).unwrap();
    assert_eq!(
        generated.faults,
        vec![MethodFault { index: 0, error: StructuralError::LockWithReturnType }]
    );
    let source = format!(
        "{BLOCK}
         #[tauri::command]
         pub fn set_game_path(state: State<AppState>, release_type: ReleaseType, path: String) {{
             match state.config.lock() {{
                 Ok(guard) => guard.set_game_path(release_type, path),
                 Err(_) => (),
             }}
         }}"
    );
    assert_eq!(file(&generated), expected(&source));
    let diagnostics = generated.diagnostics();
    assert_eq!(diagnostics.len(), 1);
    assert_eq!(diagnostics[0].message, "lock behavior does not support a return type");
    assert_eq!(diagnostics[0].location, Location::Item(0));
}

#[test]
fn the_interface_comes_first_and_unchanged() {
    let input = block(vec![Item::Method(getter(true))]);
    let generated = contains_tauri_commands(&vec![], &input).unwrap();
    let mut written = Vec::new();
    flat(generated.tokens.clone(), &mut written);
    let mut original = Vec::new();
    flat(tokens(BLOCK), &mut original);
    assert!(written.len() > original.len());
    assert_eq!(written[..original.len()], original[..]);
}

#[test]
fn wrappers_come_in_declaration_order() {
    let mut first = setter(true);
    first.name = ident("first");
    let mut second = setter(true);
    second.name = ident("second");
    let mut third = setter(true);
    third.name = ident("third");
    let input = block(
        vec![
            Item::Method(first),
            Item::Other,
            Item::Method(setter(false)),
            Item::Method(second),
            Item::Method(third),
        ],
    );
    let generated = contains_tauri_commands(&vec![], &input).unwrap();
    let names: Vec<String> = file(&generated)
        .items
        .iter()
        .filter_map(|item| match item {
            syn::Item::Fn(function) => Some(function.sig.ident.to_string()),
            _ => None,
        })
        .collect();
    assert_eq!(names, vec!["first", "second", "third"]);
}

#[test]
fn a_method_marked_twice_gets_one_wrapper() {
    let mut method = setter(true);
    method.attributes.push(marker());
    let input = block(vec![Item::Method(method)]);
    let generated = contains_tauri_commands(&vec![], &input).unwrap();
    assert_eq!(file(&generated).items.len(), 2);
}

#[test]
fn one_faulty_method_does_not_block_the_others() {
    let mut nested = getter(true);
    nested.name = ident("nested");
    nested.output = ReturnType::Declared(
        Type {
            kind: TypeKind::Reference(
                Box::new(
                    Type {
                        kind: TypeKind::Reference(Box::new(plain("String"))),
                        tokens: tokens("&String"),
                    },
                ),
            ),
            tokens: tokens("&&String"),
        },
    );
    let mut tuple = getter(true);
    tuple.name = ident("tuple");
    tuple.output = ReturnType::Declared(Type { kind: TypeKind::Other, tokens: tokens("(u8, u8)") });
    let input = block(
        vec![
            Item::Method(setter(true)),
            Item::Method(nested),
            Item::Other,
            Item::Method(tuple),
            Item::Method(getter(true)),
        ],
    );
    let arguments = vec![text("mutex_behavior", "match_to_option")];
    let generated = contains_tauri_commands(&arguments, &input).unwrap();
    assert_eq!(
        generated.faults,
        vec![
            MethodFault { index: 1, error: StructuralError::NestedReference },
            MethodFault { index: 3, error: StructuralError::UnsupportedType },
        ]
    );
    let names: Vec<String> = file(&generated)
        .items
        .iter()
        .filter_map(|item| match item {
            syn::Item::Fn(function) => Some(function.sig.ident.to_string()),
            _ => None,
        })
        .collect();
    assert_eq!(names, vec!["set_game_path", "get_game_path"]);
}

#[test]
fn all_methods_faulty_leaves_the_interface() {
    let input = block(vec![Item::Method(getter(true))]);
    let arguments = vec![text("mutex_behavior", "lock")];
    let generated = contains_tauri_commands(&arguments, &input).unwrap();
    assert_eq!(generated.faults.len(), 1);
    assert_eq!(file(&generated), expected(BLOCK));
}

#[test]
fn no_exposed_method_gives_the_empty_fragment() {
    let input = block(vec![Item::Method(getter(false)), Item::Other, Item::Method(setter(false))]);
    for arguments in [vec![], vec![text("mutex_behavior", "lock")], vec![text("state", "app")]] {
        let generated = contains_tauri_commands(&arguments, &input).unwrap();
        assert!(generated.tokens.is_empty());
        assert!(generated.faults.is_empty());
        assert!(generated.diagnostics().is_empty());
        assert!(syn::parse2::<syn::File>(generated.tokens).unwrap().items.is_empty());
    }
}

#[test]
fn empty_block_gives_the_empty_fragment() {
    let input = InterfaceBlock { items: vec![], tokens: tokens("impl Empty {}") };
    let generated = contains_tauri_commands(&vec![], &input).unwrap();
    assert!(generated.tokens.is_empty());
    assert!(generated.faults.is_empty());
}

#[test]
fn bogus_strategy_ends_the_run_before_anything_is_generated() {
    let input = block(vec![Item::Method(getter(true)), Item::Method(setter(true))]);
    let arguments = vec![text("body_state", "state.config"), text("mutex_behavior", "bogus")];
    let fault = contains_tauri_commands(&arguments, &input).unwrap_err();
    assert_eq!(fault.index, 1);
    assert!(matches!(&fault.error, ConfigError::UnknownStrategy { value } if value == "bogus"));
    let diagnostic = fault.report();
    assert!(diagnostic.message.contains("mutex_behavior"));
    assert_eq!(diagnostic.location, Location::Argument(1));
}

#[test]
fn configuration_fault_comes_before_an_empty_block() {
    let input = InterfaceBlock { items: vec![], tokens: TokenStream::new() };
    let fault = contains_tauri_commands(&vec![text("colour", "red")], &input).unwrap_err();
    assert!(matches!(&fault.error, ConfigError::UnknownField { name } if name == "colour"));
}

#[test]
fn state_can_be_renamed() {
    let input = block(vec![Item::Method(setter(true))]);
    let arguments = vec![text("state", "app"), text("mutex_behavior", "LOCK")];
    let generated = contains_tauri_commands(&arguments, &input).unwrap();
    let source = format!(
        "{BLOCK}
         #[tauri::command]
         pub fn set_game_path(app: State<AppState>, release_type: ReleaseType, path: String) {{
             match app.lock() {{
                 Ok(guard) => guard.set_game_path(release_type, path),
                 Err(_) => (),
             }}
         }}"
    );
    assert_eq!(file(&generated), expected(&source));
}

#[test]
fn running_twice_gives_the_same_bytes() {
    let input = block(vec![Item::Method(getter(true)), Item::Method(setter(true))]);
    for strategy in ["none", "lock", "match_to_option"] {
        let arguments = vec![text("body_state", "state.config"), text("mutex_behavior", strategy)];
        let first = contains_tauri_commands(&arguments, &input).unwrap();
        let second = contains_tauri_commands(&arguments, &input).unwrap();
        assert_eq!(first.tokens.to_string().into_bytes(), second.tokens.to_string().into_bytes());
        assert_eq!(first.faults, second.faults);
        let mut left = Vec::new();
        flat(first.tokens, &mut left);
        let mut right = Vec::new();
        flat(second.tokens, &mut right);
        assert_eq!(left, right);
    }
}

#[test]
fn operators_are_glued_and_separators_stand_alone() {
    let input = InterfaceBlock { items: vec![Item::Method(getter(true))], tokens: TokenStream::new() };
    let arguments = vec![text("mutex_behavior", "match_to_option")];
    let generated = contains_tauri_commands(&arguments, &input).unwrap();
    let mut written = Vec::new();
    flat(generated.tokens, &mut written);
    let head: Vec<&str> = written.iter().take(14).map(|token| token.as_str()).collect();
    assert_eq!(
        head,
        vec![
            "# Alone",
            "open Bracket",
            "tauri",
            ": Joint",
            ": Alone",
            "command",
            "close Bracket",
            "pub",
            "fn",
            "get_game_path",
            "open Parenthesis",
            "state",
            ": Alone",
            "State",
        ]
    );
    assert!(written.windows(2).any(|pair| pair[0] == "- Joint" && pair[1] == "> Alone"));
    assert!(written.windows(2).any(|pair| pair[0] == "= Joint" && pair[1] == "> Alone"));
    assert!(written.contains(&", Alone".to_string()));
    assert!(written.contains(&". Alone".to_string()));
}

#[test]
fn the_marker_changes_nothing() {
    let input = tokens("pub fn get(&self) -> u8 { 1 }");
    let output = with_tauri_command(TokenStream::new(), input.clone());
    assert_eq!(output.to_string(), input.to_string());
    let output = with_tauri_command(tokens("anything"), TokenStream::new());
    assert!(output.is_empty());
}
