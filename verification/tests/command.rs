use clipsync::command::{command_impl, CommandError, ImplModel};
use clipsync::model::{FnArgModel, FnSigModel, ItemModel};

fn typed(pat: &str, ty: &str) -> FnArgModel {
    FnArgModel::Typed { pat: pat.to_string(), ty: ty.to_string() }
}

fn sig(ident: &str, is_async: bool, inputs: &str, args: Vec<FnArgModel>, output: &str) -> ItemModel {
    ItemModel::Fn(FnSigModel {
        ident: ident.to_string(),
        is_async,
        inputs: inputs.to_string(),
        args,
        output: output.to_string(),
    })
}

fn commands_impl(items: Vec<ItemModel>) -> ImplModel {
    ImplModel {
        trait_path: Some("Commands".to_string()),
        self_ty: "CommandsImpl".to_string(),
        generics: String::new(),
        where_clause: String::new(),
        items,
    }
}

#[test]
fn command_expands_hello() {
    let model = commands_impl(vec![sig(
        "hello",
        true,
        "name : String",
        vec![typed("name", "String")],
        "-> String",
    )]);
    let code = command_impl(&model).unwrap();
    assert_eq!(
        code,
        "impl  CommandsImpl  { pub fn invoke_handler<R: ::tauri::Runtime>(invoke: ::tauri::ipc::Invoke<R>) -> bool { mod inner { use super::Commands; use super::CommandsImpl; #[::tauri::command] async fn hello(name : String) -> String { <CommandsImpl as Commands  >::hello(name).await } pub fn invoke_handler<R: ::tauri::Runtime>() -> impl Fn(::tauri::ipc::Invoke<R>) -> bool + Send + Sync + 'static { ::tauri::generate_handler![hello] } } inner::invoke_handler()(invoke) } }"
    );
    syn::parse_str::<syn::File>(&code).unwrap();
}

#[test]
fn command_sync_function_is_not_awaited() {
    let model = commands_impl(vec![sig("ping", false, "", vec![], "")]);
    let code = command_impl(&model).unwrap();
    assert!(code.contains("#[::tauri::command] fn ping()  { <CommandsImpl as Commands  >::ping() } "));
    assert!(!code.contains(".await"));
    syn::parse_str::<syn::File>(&code).unwrap();
}

#[test]
fn command_keeps_generics_and_where_clause() {
    let model = ImplModel {
        trait_path: Some("crate :: Commands".to_string()),
        self_ty: "Backend < T >".to_string(),
        generics: "< T >".to_string(),
        where_clause: "where T : Clone".to_string(),
        items: vec![sig("a", false, "x : u8", vec![typed("x", "u8")], "-> u8")],
    };
    let code = command_impl(&model).unwrap();
    assert!(code.starts_with("impl < T > Backend < T > where T : Clone { "));
    assert!(code.contains("<Backend < T > as crate :: Commands < T > >::a(x)"));
    assert!(code.contains("use super::crate :: Commands; use super::Backend < T >; "));
}

#[test]
fn command_lists_every_function_and_skips_other_items() {
    let model = commands_impl(vec![
        sig("first", true, "a : u32 , b : u32", vec![typed("a", "u32"), typed("b", "u32")], "-> u32"),
        ItemModel::Other,
        sig("second", false, "", vec![], ""),
    ]);
    let code = command_impl(&model).unwrap();
    assert!(code.contains("::tauri::generate_handler![first second]"));
    assert!(code.contains("<CommandsImpl as Commands  >::first(a, b).await"));
    assert!(code.contains("<CommandsImpl as Commands  >::second()"));
    assert_eq!(code.matches("#[::tauri::command]").count(), 2);
}

#[test]
fn command_on_empty_impl() {
    let code = command_impl(&commands_impl(vec![])).unwrap();
    assert!(code.contains("use super::CommandsImpl; pub fn invoke_handler"));
    assert!(code.contains("::tauri::generate_handler![]"));
}

#[test]
fn command_refuses_inherent_impl() {
    let mut model = commands_impl(vec![sig("a", false, "", vec![], "")]);
    model.trait_path = None;
    let err = command_impl(&model).unwrap_err();
    assert_eq!(err, CommandError::NotTraitImpl);
    assert_eq!(
        err.message(),
        "The #[command] attribute can only be applied to trait implementations."
    );
}

#[test]
fn command_refuses_first_receiver() {
    let model = commands_impl(vec![
        sig("a", false, "x : u8", vec![typed("x", "u8")], ""),
        ItemModel::Other,
        sig("b", false, "y : u8 , & self", vec![typed("y", "u8"), FnArgModel::Receiver], ""),
        sig("c", false, "& self", vec![FnArgModel::Receiver], ""),
    ]);
    let err = command_impl(&model).unwrap_err();
    assert_eq!(err, CommandError::UntypedArgument { item: 2, arg: 1 });
    assert_eq!(err.message(), "Expected typed function argument");
}

#[test]
fn command_checks_trait_before_arguments() {
    let mut model = commands_impl(vec![sig("c", false, "& self", vec![FnArgModel::Receiver], "")]);
    model.trait_path = None;
    assert_eq!(command_impl(&model).unwrap_err(), CommandError::NotTraitImpl);
}
