use clipsync::command::{command_source, CommandError, CommandOutcome};
use clipsync::invoke::{invoke_source, InvokeArgError, InvokeError, InvokeOutcome};
use clipsync::model::{FnArgModel, ItemModel};
use clipsync::syntax::{impl_model, read_attr, read_impl, read_item, read_signature, read_trait, Grammar};

const HELLO_IMPL: &str = "impl Commands for CommandsImpl { async fn hello(name: String) -> String { format!(\"Hello, {}!\", name) } }";
const HELLO_TRAIT: &str = "pub trait Commands { async fn hello(name: String) -> String; }";

fn command_code(src: &str) -> String {
    command_source(src).code_or_message().unwrap()
}

fn invoke_read(attr: &str, item: &str) -> (String, Result<String, InvokeError>) {
    match invoke_source(attr, item) {
        InvokeOutcome::Read { impl_ident, result, .. } => (impl_ident, result),
        other => panic!("unexpected {:?}", other),
    }
}

#[test]
fn command_source_expands_hello() {
    assert_eq!(
        command_code(HELLO_IMPL),
        "impl  CommandsImpl  { pub fn invoke_handler<R: ::tauri::Runtime>(invoke: ::tauri::ipc::Invoke<R>) -> bool { mod inner { use super::Commands; use super::CommandsImpl; #[::tauri::command] async fn hello(name : String) -> String { <CommandsImpl as Commands  >::hello(name).await } pub fn invoke_handler<R: ::tauri::Runtime>() -> impl Fn(::tauri::ipc::Invoke<R>) -> bool + Send + Sync + 'static { ::tauri::generate_handler![hello] } } inner::invoke_handler()(invoke) } }"
    );
}

#[test]
fn command_source_hands_back_the_block_it_read() {
    match command_source(HELLO_IMPL) {
        CommandOutcome::Read { read, result } => {
            assert_eq!(read.syntax.source, HELLO_IMPL);
            let item = impl_model(&read);
            assert_eq!(item.trait_path.as_deref(), Some("Commands"));
            assert_eq!(item.self_ty, "CommandsImpl");
            assert_eq!(item.items.len(), 1);
            match &item.items[0] {
                ItemModel::Fn(sig) => {
                    assert_eq!(sig.ident, "hello");
                    assert!(sig.is_async);
                    assert_eq!(sig.args.len(), 1);
                }
                ItemModel::Other => panic!("expected a function"),
            }
            assert!(result.is_ok());
        }
        other => panic!("unexpected {:?}", other),
    }
}

#[test]
fn command_source_reads_generics_receivers_and_other_items() {
    let src = "impl<T: Clone> Api for Backend<T> where T: Send { const N: u8 = 1; fn a(x: u8, y: T) {} fn b(&self) {} }";
    assert_eq!(
        command_source(src).code_or_message().unwrap_err(),
        "Expected typed function argument"
    );
    match command_source(src) {
        CommandOutcome::Read { result, .. } => {
            assert_eq!(result.unwrap_err(), CommandError::UntypedArgument { item: 2, arg: 0 })
        }
        other => panic!("unexpected {:?}", other),
    }
}

#[test]
fn command_source_keeps_generics() {
    let src = "impl<T: Clone> Api for Backend<T> where T: Send { fn a(x: u8, y: T) -> u8 { x } }";
    let code = command_code(src);
    assert!(code.starts_with("impl < T : Clone > Backend < T > where T : Send { "));
    assert!(code.contains("fn a(x : u8 , y : T) -> u8 { <Backend < T > as Api < T : Clone > >::a(x, y) }"));
}

#[test]
fn command_source_refuses_inherent_impl() {
    match command_source("impl CommandsImpl { fn a() {} }") {
        CommandOutcome::Read { result, .. } => assert_eq!(result.unwrap_err(), CommandError::NotTraitImpl),
        other => panic!("unexpected {:?}", other),
    }
}

#[test]
fn command_source_reports_syntax_errors() {
    let outcome = command_source("struct NotAnImpl;");
    assert!(matches!(outcome, CommandOutcome::Syntax(_)));
    assert!(!outcome.code_or_message().unwrap_err().is_empty());
}

#[test]
fn invoke_source_expands_hello() {
    let (ident, result) = invoke_read("", HELLO_TRAIT);
    let code = result.unwrap();
    assert_eq!(ident, "CommandsInvoke");
    assert!(code.starts_with("pub struct CommandsInvoke; impl CommandsInvoke { async fn __invoke("));
    assert!(code.ends_with("impl Commands for CommandsInvoke { async fn hello(name : String) -> String { #[derive(::serde::Serialize)] #[serde(rename_all = \"camelCase\")] struct Args { name: String } let __args = Args { name }; let __args = ::serde_wasm_bindgen::to_value(&__args).unwrap(); let __result = CommandsInvoke::__invoke(stringify!(hello), __args).await; ::serde_wasm_bindgen::from_value(__result).unwrap() } } "));
    syn::parse_str::<syn::File>(&code).unwrap();
}

#[test]
fn invoke_source_uses_given_ident() {
    let (ident, result) = invoke_read("ident = \"Ipc\"", HELLO_TRAIT);
    let code = result.unwrap();
    assert_eq!(ident, "Ipc");
    assert!(code.starts_with("pub struct Ipc; impl Ipc "));
    assert!(code.contains("Ipc::__invoke(stringify!(hello), __args)"));
}

#[test]
fn invoke_source_last_ident_wins() {
    let (ident, _) = invoke_read("ident = \"A\", ident = \"B\"", HELLO_TRAIT);
    assert_eq!(ident, "B");
}

#[test]
fn invoke_source_without_arguments_uses_invoke0() {
    let (_, result) = invoke_read("", "trait Api { async fn version() -> String; type T; }");
    assert!(result.unwrap().ends_with("impl Api for ApiInvoke { async fn version() -> String { let __result = ApiInvoke::__invoke0(stringify!(version)).await; ::serde_wasm_bindgen::from_value(__result).unwrap() } } "));
}

#[test]
fn invoke_source_refuses_unknown_argument() {
    match invoke_source("name = \"X\"", HELLO_TRAIT) {
        InvokeOutcome::ArgsRefused { error, attr } => {
            assert_eq!(error, InvokeArgError::UnknownArgument(0));
            assert_eq!(attr.args.len(), 1);
            assert_eq!(attr.syntax.source, "name = \"X\"");
        }
        other => panic!("unexpected {:?}", other),
    }
}

#[test]
fn invoke_source_refuses_non_string_ident() {
    let outcome = invoke_source("ident = 1", HELLO_TRAIT);
    assert_eq!(
        outcome.code_or_message().unwrap_err(),
        "Expected string literal for 'ident' argument"
    );
}

#[test]
fn invoke_source_checks_arguments_before_item() {
    match invoke_source("foo", "struct NotATrait;") {
        InvokeOutcome::ArgsRefused { error, .. } => assert_eq!(error, InvokeArgError::UnknownArgument(0)),
        other => panic!("unexpected {:?}", other),
    }
}

#[test]
fn invoke_source_attr_syntax_error_comes_first() {
    assert!(matches!(invoke_source("ident = ", "struct NotATrait;"), InvokeOutcome::AttrSyntax(_)));
}

#[test]
fn invoke_source_item_syntax_error() {
    assert!(matches!(invoke_source("", "struct NotATrait;"), InvokeOutcome::ItemSyntax { .. }));
}

#[test]
fn invoke_source_refuses_receiver() {
    let (_, result) = invoke_read("", "trait Api { fn a(x: u8); fn b(&self, y: u8); }");
    assert_eq!(result.unwrap_err(), InvokeError::UntypedArgument { item: 1, arg: 0 });
}

#[test]
fn client_command_names_match_registered_handlers() {
    let handler = command_code(
        "impl Api for Backend { async fn add(left: i32, right: i32) -> i32 { left + right } fn ping() {} }",
    );
    let (_, client) = invoke_read("", "trait Api { async fn add(left: i32, right: i32) -> i32; fn ping(); }");
    let client = client.unwrap();
    assert!(handler.contains("::tauri::generate_handler![add ping]"));
    assert!(handler.contains("<Backend as Api  >::add(left, right).await"));
    assert!(client.contains("ApiInvoke::__invoke(stringify!(add), __args)"));
    assert!(client.contains("let __args = Args { left, right };"));
    assert!(client.contains("ApiInvoke::__invoke0(stringify!(ping))"));
}

#[test]
fn read_impl_keeps_each_text_it_parsed() {
    let src = "impl Api for Backend { fn a(&self, x: u8) {} type T = u8; }";
    let read = read_impl(src).unwrap();
    assert_eq!(read.syntax.source, src);
    assert_eq!(read.items.len(), read.syntax.items.len());
    assert_eq!(read.items.len(), 2);
    for (item, text) in read.items.iter().zip(read.syntax.items.iter()) {
        assert_eq!(&item.syntax.source, text);
        assert_eq!(item.syntax.grammar, Grammar::ImplItem);
    }
    let sig = read.items[0].sig.as_ref().unwrap();
    assert_eq!(Some(&sig.syntax.source), read.items[0].syntax.signature.as_ref());
    assert_eq!(sig.args.len(), 2);
    assert_eq!(sig.args[1].source, sig.syntax.args[1]);
    assert!(matches!(sig.args[0].arg, FnArgModel::Receiver));
    assert!(read.items[1].sig.is_none());
}

#[test]
fn read_trait_uses_the_trait_item_grammar() {
    let read = read_trait("trait Api { fn a(x: u8); const N: u8; }").unwrap();
    assert_eq!(read.syntax.ident, "Api");
    assert_eq!(read.items.len(), 2);
    assert!(read.items.iter().all(|i| i.syntax.grammar == Grammar::TraitItem));
    assert!(read.items[0].sig.is_some());
    assert!(read.items[1].sig.is_none());
}

#[test]
fn read_item_grammar_decides_what_parses() {
    let text = "fn a(x: u8);".to_string();
    assert!(read_item(&text, Grammar::TraitItem).unwrap().sig.is_some());
    assert_eq!(read_item(&text, Grammar::TraitItem).unwrap().syntax.grammar, Grammar::TraitItem);
}

#[test]
fn read_signature_keeps_inputs_and_output_apart() {
    let read = read_signature(&"async fn f(a: u8, b: String) -> bool".to_string()).unwrap();
    assert_eq!(read.syntax.ident, "f");
    assert!(read.syntax.is_async);
    assert_eq!(read.syntax.inputs, "a : u8 , b : String");
    assert_eq!(read.syntax.output, "-> bool");
    assert_eq!(read.args.len(), 2);
    match &read.args[1].arg {
        FnArgModel::Typed { pat, ty } => {
            assert_eq!(pat, "b");
            assert_eq!(ty, "String");
        }
        FnArgModel::Receiver => panic!("expected a typed argument"),
    }
}

#[test]
fn read_attr_reads_each_argument_from_its_text() {
    let read = read_attr("ident = \"Ipc\", other").unwrap();
    assert_eq!(read.syntax.source, "ident = \"Ipc\", other");
    assert_eq!(read.args.len(), 2);
    assert_eq!(read.args[0].source, read.syntax.args[0]);
    assert_eq!(read.args[1].source, read.syntax.args[1]);
}

#[test]
fn read_functions_report_syntax_errors() {
    assert!(read_impl("fn not_an_impl() {}").is_err());
    assert!(read_trait("impl X for Y {}").is_err());
    assert!(read_attr("= =").is_err());
    assert!(read_signature(&"struct S;".to_string()).is_err());
}
