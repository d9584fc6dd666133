//! The `#[invoke]` attribute: from a trait of commands, a type that implements
//! the trait by invoking each command through the Tauri IPC bridge.

use vstd::prelude::*;
use vstd::string::*;

use crate::model::{
    ArgView, FnArgModel, FnSigModel, ItemModel, ItemView, SigView, arg_views, item_views, arg_pat,
    arg_pats, receiver_index, untyped_argument, find_receiver, lemma_untyped_argument_prefix,
    call_args, call_args_text, async_kw, async_keyword,
};
use crate::text::{join, lemma_join_push, same_text, opt_text, ends_with, lemma_ends_with_concat};
use crate::syntax::{
    AttrRead, TraitRead, read_attr, read_trait, attr_args, trait_model, attr_read_from,
    trait_read_from, attr_view_of, trait_view_of,
};
use crate::command::{ImplView, CommandError, command_expansion, fn_names, proxy_name};

verus! {

/// A trait, as the `#[invoke]` attribute reads it.
#[derive(Debug)]
pub struct TraitModel {
    /// The trait's name.
    pub ident: String,
    /// The items of the trait, in order.
    pub items: Vec<ItemModel>,
}

/// A trait, its texts taken by their characters.
pub struct TraitView {
    pub ident: Seq<char>,
    pub items: Seq<ItemView>,
}

impl View for TraitModel {
    type V = TraitView;

    open spec fn view(&self) -> TraitView {
        TraitView { ident: self.ident@, items: item_views(self.items@) }
    }
}

/// The value of a `name = value` argument of the attribute.
#[derive(Debug)]
pub enum AttrValueModel {
    /// A string literal, with its value.
    Str(String),
    /// Any other expression.
    Other,
}

/// A `value`, its text taken by its characters.
pub enum AttrValueView {
    Str(Seq<char>),
    Other,
}

/// One argument of the attribute.
#[derive(Debug)]
pub enum AttrArgModel {
    /// `name = value`; `key` is the name where the path is one plain identifier.
    NameValue { key: Option<String>, value: AttrValueModel },
    /// A bare path or a list, such as `foo` or `foo(..)`.
    Other,
}

/// An argument of the attribute, its texts taken by their characters.
pub enum AttrArgView {
    NameValue { key: Option<Seq<char>>, value: AttrValueView },
    Other,
}

impl View for AttrArgModel {
    type V = AttrArgView;

    open spec fn view(&self) -> AttrArgView {
        match self {
            AttrArgModel::NameValue { key, value } => AttrArgView::NameValue {
                key: opt_text(*key),
                value: match value {
                    AttrValueModel::Str(s) => AttrValueView::Str(s@),
                    AttrValueModel::Other => AttrValueView::Other,
                },
            },
            AttrArgModel::Other => AttrArgView::Other,
        }
    }
}

/// The views of a list of arguments of the attribute.
pub open spec fn attr_views(v: Seq<AttrArgModel>) -> Seq<AttrArgView> {
    v.map_values(|a: AttrArgModel| a@)
}

/// The settings that the attribute's arguments give.
#[derive(Debug)]
pub struct InvokeArgs {
    /// The name of the generated type, where `ident = ".."` sets it.
    pub ident: Option<String>,
}

/// Why the attribute's arguments are refused; each carries the argument's position.
#[derive(Debug, Clone, Copy, PartialEq, Eq, Structural)]
pub enum InvokeArgError {
    /// `ident = ..` with something other than a string literal.
    ExpectedStringLiteral(usize),
    /// An argument other than `ident = ..`.
    UnknownArgument(usize),
}

/// Why `#[invoke]` refuses an item.
#[derive(Debug, PartialEq, Eq, Structural)]
pub enum InvokeError {
    /// One of the attribute's arguments is refused.
    Argument(InvokeArgError),
    /// Function `item` of the trait takes a receiver as its argument `arg`.
    UntypedArgument { item: usize, arg: usize },
}

/// The message that the compiler shows for an error.
pub open spec fn invoke_error_message(e: InvokeError) -> Seq<char> {
    match e {
        InvokeError::Argument(InvokeArgError::ExpectedStringLiteral(_)) => "Expected string literal for 'ident' argument"@,
        InvokeError::Argument(InvokeArgError::UnknownArgument(_)) => "Unknown argument"@,
        InvokeError::UntypedArgument { .. } => "Expected typed function argument"@,
    }
}

impl InvokeError {
    /// The message that the compiler shows for this error.
    pub fn message(&self) -> (s: String)
        ensures
            s@ == invoke_error_message(*self),
    {
        match self {
            InvokeError::Argument(InvokeArgError::ExpectedStringLiteral(_)) => String::from_str(
                "Expected string literal for 'ident' argument",
            ),
            InvokeError::Argument(InvokeArgError::UnknownArgument(_)) => String::from_str(
                "Unknown argument",
            ),
            InvokeError::UntypedArgument { .. } => String::from_str(
                "Expected typed function argument",
            ),
        }
    }
}

/// Whether an argument's name is `ident`.
pub open spec fn is_ident_key(key: Option<Seq<char>>) -> bool {
    key == Some("ident"@)
}

/// What argument number `i` says: the name it gives, or why it is refused.
pub open spec fn arg_check(a: AttrArgView, i: int) -> Result<Seq<char>, InvokeArgError> {
    match a {
        AttrArgView::NameValue { key, value } => if is_ident_key(key) {
            match value {
                AttrValueView::Str(s) => Ok(s),
                AttrValueView::Other => Err(InvokeArgError::ExpectedStringLiteral(i as usize)),
            }
        } else {
            Err(InvokeArgError::UnknownArgument(i as usize))
        },
        AttrArgView::Other => Err(InvokeArgError::UnknownArgument(i as usize)),
    }
}

/// What the arguments say, read from first to last: the first refused one is
/// the error; otherwise the name that the last of them gives, if any.
pub open spec fn invoke_args(args: Seq<AttrArgView>) -> Result<Option<Seq<char>>, InvokeArgError>
    decreases args.len(),
{
    if args.len() == 0 {
        Ok(None)
    } else {
        match invoke_args(args.drop_last()) {
            Err(e) => Err(e),
            Ok(_) => match arg_check(args.last(), args.len() - 1) {
                Ok(v) => Ok(Some(v)),
                Err(e) => Err(e),
            },
        }
    }
}

/// A refusal in a prefix of the arguments is the refusal of them all.
pub proof fn lemma_invoke_args_prefix(args: Seq<AttrArgView>, k: int)
    requires
        0 <= k <= args.len(),
        invoke_args(args.take(k)) is Err,
    ensures
        invoke_args(args) == invoke_args(args.take(k)),
    decreases args.len() - k,
{
    if args.len() == k {
        assert(args.take(k) =~= args);
    } else {
        assert(args.drop_last().take(k) =~= args.take(k));
        lemma_invoke_args_prefix(args.drop_last(), k);
    }
}

/// A later `ident = ".."` overrides the earlier ones: after accepted
/// arguments, one more `ident = name` makes `name` the result.
pub proof fn lemma_last_ident_wins(args: Seq<AttrArgView>, name: Seq<char>)
    requires
        invoke_args(args) is Ok,
    ensures
        invoke_args(
            args.push(AttrArgView::NameValue { key: Some("ident"@), value: AttrValueView::Str(name) }),
        ) == Ok::<Option<Seq<char>>, InvokeArgError>(Some(name)),
{
    let pushed = args.push(
        AttrArgView::NameValue { key: Some("ident"@), value: AttrValueView::Str(name) },
    );
    assert(pushed.drop_last() =~= args);
}

/// Reads the attribute's arguments.
pub fn parse_invoke_args(args: &Vec<AttrArgModel>) -> (r: Result<InvokeArgs, InvokeArgError>)
    ensures
        match r {
            Ok(a) => invoke_args(attr_views(args@)) == Ok::<Option<Seq<char>>, InvokeArgError>(
                opt_text(a.ident),
            ),
            Err(e) => invoke_args(attr_views(args@)) == Err::<Option<Seq<char>>, InvokeArgError>(e),
        },
{
    let ghost v = attr_views(args@);
    let mut ident: Option<String> = None;
    let n = args.len();
    for i in 0..n
        invariant
            n == args@.len(),
            v == attr_views(args@),
            invoke_args(v.take(i as int)) == Ok::<Option<Seq<char>>, InvokeArgError>(
                opt_text(ident),
            ),
    {
        assert(v[i as int] == args@[i as int]@);
        assert(v.take(i + 1).drop_last() =~= v.take(i as int));
        let refused = match &args[i] {
            AttrArgModel::NameValue { key, value } => {
                let is_ident = match key {
                    Some(k) => same_text(k, "ident"),
                    None => false,
                };
                if is_ident {
                    match value {
                        AttrValueModel::Str(s) => {
                            ident = Some(s.clone());
                            None
                        },
                        AttrValueModel::Other => Some(InvokeArgError::ExpectedStringLiteral(i)),
                    }
                } else {
                    Some(InvokeArgError::UnknownArgument(i))
                }
            },
            AttrArgModel::Other => Some(InvokeArgError::UnknownArgument(i)),
        };
        match refused {
            Some(e) => {
                proof {
                    lemma_invoke_args_prefix(v, i + 1);
                }
                return Err(e);
            },
            None => {},
        }
    }
    assert(v.take(n as int) =~= v);
    Ok(InvokeArgs { ident })
}

/// The name of the generated type: the one that the arguments give, else the
/// trait's name followed by `Invoke`.
pub open spec fn impl_ident_text(ident: Option<Seq<char>>, trait_ident: Seq<char>) -> Seq<char> {
    match ident {
        Some(i) => i,
        None => trait_ident + "Invoke"@,
    }
}

/// The name of the generated type.
pub fn invoke_impl_ident(args: &InvokeArgs, trait_ident: &String) -> (s: String)
    ensures
        s@ == impl_ident_text(opt_text(args.ident), trait_ident@),
{
    match &args.ident {
        Some(i) => i.clone(),
        None => {
            let mut s = trait_ident.clone();
            s.append("Invoke");
            s
        },
    }
}

/// The name of the command that the implementation of `sig` invokes.
pub open spec fn client_command(sig: SigView) -> Seq<char> {
    sig.ident
}

/// The keys under which the implementation of `sig` sends its arguments:
/// the fields of its argument struct, one per argument pattern.
pub open spec fn client_keys(sig: SigView) -> Seq<Seq<char>> {
    arg_pats(sig.args)
}

/// The names of the commands that the implementations of the functions
/// among `items` invoke, in order.
pub open spec fn invoked_commands(items: Seq<ItemView>) -> Seq<Seq<char>>
    decreases items.len(),
{
    if items.len() == 0 {
        Seq::empty()
    } else {
        match items.last() {
            ItemView::Fn(sig) => invoked_commands(items.drop_last()).push(client_command(sig)),
            ItemView::Other => invoked_commands(items.drop_last()),
        }
    }
}

/// A field of the struct that carries a command's arguments: the argument's
/// pattern, `: `, its type.
pub open spec fn field_decl(a: ArgView) -> Seq<char> {
    match a {
        ArgView::Typed { ty, .. } => arg_pat(a) + ": "@ + ty,
        ArgView::Receiver => "self"@,
    }
}

/// The fields for all arguments, in order.
pub open spec fn field_decls(args: Seq<ArgView>) -> Seq<Seq<char>> {
    args.map_values(|a: ArgView| field_decl(a))
}

/// The fields for all arguments, separated by commas.
pub open spec fn fields_text(args: Seq<ArgView>) -> Seq<char> {
    join(field_decls(args), ", "@)
}

/// Writes the fields for all arguments.
pub fn fields(args: &Vec<FnArgModel>) -> (s: String)
    ensures
        s@ == fields_text(arg_views(args@)),
{
    let ghost v = arg_views(args@);
    let mut s = String::new();
    let n = args.len();
    for i in 0..n
        invariant
            n == args@.len(),
            v == arg_views(args@),
            s@ == join(field_decls(v.take(i as int)), ", "@),
    {
        assert(v[i as int] == args@[i as int]@);
        proof {
            assert(field_decls(v.take(i + 1)) =~= field_decls(v.take(i as int)).push(
                field_decl(v[i as int]),
            ));
            lemma_join_push(field_decls(v.take(i as int)), ", "@, field_decl(v[i as int]));
        }
        if i > 0 {
            s.append(", ");
        }
        let ghost before_field = s@;
        match &args[i] {
            FnArgModel::Typed { pat, ty } => {
                s.append(pat.as_str());
                s.append(": ");
                s.append(ty.as_str());
                assert(s@ =~= before_field + field_decl(v[i as int]));
            },
            FnArgModel::Receiver => s.append("self"),
        }
        proof {
            if i == 0 {
                assert(s@ =~= field_decl(v[i as int]));
            }
        }
    }
    assert(v.take(n as int) =~= v);
    s
}

/// From the return type up to the fields of the argument struct.
pub const ARGS_STRUCT_HEAD: &'static str = " { #[derive(::serde::Serialize)] #[serde(rename_all = \"camelCase\")] struct Args { ";

/// From the argument struct's initialiser up to the invocation.
pub const ARGS_SEND: &'static str = " }; let __args = ::serde_wasm_bindgen::to_value(&__args).unwrap(); let __result = ";

/// After the name in the invocation of a command with arguments.
pub const INVOKE_WITH_ARGS_TAIL: &'static str = "), __args).await; ::serde_wasm_bindgen::from_value(__result).unwrap() } ";

/// After the name in the invocation of a command without arguments.
pub const INVOKE_NO_ARGS_TAIL: &'static str = ")).await; ::serde_wasm_bindgen::from_value(__result).unwrap() } ";

/// The implementation of trait function `sig` on type `impl_ident`: it sends
/// the arguments, as a struct with one field each, to the command of the same
/// name and hands back what the command answers.
pub open spec fn fn_impl_text(impl_ident: Seq<char>, sig: SigView) -> Seq<char> {
    if sig.args.len() == 0 {
        async_kw(sig.is_async) + "fn "@ + sig.ident + "() "@ + sig.output
            + " { let __result = "@ + impl_ident + "::__invoke0(stringify!("@ + client_command(sig)
            + INVOKE_NO_ARGS_TAIL@
    } else {
        async_kw(sig.is_async) + "fn "@ + sig.ident + "("@ + sig.inputs + ") "@ + sig.output
            + ARGS_STRUCT_HEAD@ + fields_text(sig.args) + " } let __args = Args { "@
            + join(client_keys(sig), ", "@) + ARGS_SEND@ + impl_ident + "::__invoke(stringify!("@
            + client_command(sig) + INVOKE_WITH_ARGS_TAIL@
    }
}

/// Writes the implementation of trait function `sig`, or finds the receiver
/// that it cannot send.
pub fn gen_fn_impl(impl_ident: &String, sig: &FnSigModel) -> (r: Result<String, usize>)
    ensures
        match r {
            Ok(s) => receiver_index(sig@.args) is None && s@ == fn_impl_text(impl_ident@, sig@),
            Err(j) => receiver_index(sig@.args) == Some(j as int),
        },
{
    match find_receiver(&sig.args) {
        Some(j) => return Err(j),
        None => {},
    }
    let mut s = String::new();
    s.append(async_keyword(sig.is_async));
    if sig.args.len() == 0 {
        s.append("fn ");
        s.append(sig.ident.as_str());
        s.append("() ");
        s.append(sig.output.as_str());
        s.append(" { let __result = ");
        s.append(impl_ident.as_str());
        s.append("::__invoke0(stringify!(");
        s.append(sig.ident.as_str());
        s.append(INVOKE_NO_ARGS_TAIL);
    } else {
        let field_list = fields(&sig.args);
        let names = call_args(&sig.args);
        s.append("fn ");
        s.append(sig.ident.as_str());
        s.append("(");
        s.append(sig.inputs.as_str());
        s.append(") ");
        s.append(sig.output.as_str());
        s.append(ARGS_STRUCT_HEAD);
        s.append(field_list.as_str());
        s.append(" } let __args = Args { ");
        s.append(names.as_str());
        s.append(ARGS_SEND);
        s.append(impl_ident.as_str());
        s.append("::__invoke(stringify!(");
        s.append(sig.ident.as_str());
        s.append(INVOKE_WITH_ARGS_TAIL);
    }
    assert(s@ =~= fn_impl_text(impl_ident@, sig@));
    Ok(s)
}

/// The implementations of all functions among `items`, one after the other.
pub open spec fn fn_impls_text(impl_ident: Seq<char>, items: Seq<ItemView>) -> Seq<char>
    decreases items.len(),
{
    if items.len() == 0 {
        Seq::empty()
    } else {
        fn_impls_text(impl_ident, items.drop_last()) + match items.last() {
            ItemView::Fn(sig) => fn_impl_text(impl_ident, sig),
            ItemView::Other => Seq::empty(),
        }
    }
}

/// The implementation of the whole trait on type `impl_ident`.
pub open spec fn trait_impl_text(impl_ident: Seq<char>, t: TraitView) -> Seq<char> {
    "impl "@ + t.ident + " for "@ + impl_ident + " { "@ + fn_impls_text(impl_ident, t.items)
        + "} "@
}

/// Writes the implementation of trait `t` on type `impl_ident`, or finds the
/// first function that takes a receiver.
pub fn gen_fn_impls(impl_ident: &String, t: &TraitModel) -> (r: Result<String, (usize, usize)>)
    ensures
        match r {
            Ok(s) => untyped_argument(t@.items) is None && s@ == trait_impl_text(impl_ident@, t@),
            Err((i, j)) => untyped_argument(t@.items) == Some((i as int, j as int)),
        },
{
    let ghost v = t@.items;
    let mut impls = String::new();
    let n = t.items.len();
    for i in 0..n
        invariant
            n == t.items@.len(),
            v == t@.items,
            untyped_argument(v.take(i as int)) is None,
            impls@ == fn_impls_text(impl_ident@, v.take(i as int)),
    {
        assert(v[i as int] == t.items@[i as int]@);
        assert(v.take(i + 1).drop_last() =~= v.take(i as int));
        match &t.items[i] {
            ItemModel::Fn(sig) => {
                match gen_fn_impl(impl_ident, sig) {
                    Ok(s) => {
                        impls.append(s.as_str());
                    },
                    Err(j) => {
                        proof {
                            lemma_untyped_argument_prefix(v, i + 1);
                        }
                        return Err((i, j));
                    },
                }
            },
            ItemModel::Other => {
                assert(impls@ =~= impls@ + Seq::<char>::empty());
            },
        }
    }
    assert(v.take(n as int) =~= v);
    let mut s = String::from_str("impl ");
    s.append(t.ident.as_str());
    s.append(" for ");
    s.append(impl_ident.as_str());
    s.append(" { ");
    s.append(impls.as_str());
    s.append("} ");
    Ok(s)
}

/// The two functions of the generated type that call `invoke` of the Tauri
/// bridge in the web page, with and without arguments.
pub const INVOKE_BRIDGE: &'static str = " { async fn __invoke(cmd: &str, args: ::wasm_bindgen::JsValue) -> ::wasm_bindgen::JsValue { use ::wasm_bindgen::prelude::*; #[wasm_bindgen] extern \"C\" { #[wasm_bindgen(js_namespace = [\"window\", \"__TAURI__\", \"core\"])] async fn invoke(cmd: &str, args: JsValue) -> JsValue; } invoke(cmd, args).await } async fn __invoke0(cmd: &str) -> ::wasm_bindgen::JsValue { use ::wasm_bindgen::prelude::*; #[wasm_bindgen] extern \"C\" { #[wasm_bindgen(js_namespace = [\"window\", \"__TAURI__\", \"core\"])] async fn invoke(cmd: &str) -> JsValue; } invoke(cmd).await } } ";

/// The code that `#[invoke]` adds after trait `t`: the unit struct
/// `impl_ident`, its two bridge functions, and its implementation of the trait.
pub open spec fn invoke_text(impl_ident: Seq<char>, t: TraitView) -> Seq<char> {
    "pub struct "@ + impl_ident + "; impl "@ + impl_ident + INVOKE_BRIDGE@ + trait_impl_text(
        impl_ident,
        t,
    )
}

/// What `#[invoke]` with arguments `args` makes of trait `t`: the added code,
/// or the error it reports.
pub open spec fn invoke_expansion(args: Seq<AttrArgView>, t: TraitView) -> Result<
    Seq<char>,
    InvokeError,
> {
    match invoke_args(args) {
        Err(e) => Err(InvokeError::Argument(e)),
        Ok(ident) => match untyped_argument(t.items) {
            Some((i, j)) => Err(InvokeError::UntypedArgument { item: i as usize, arg: j as usize }),
            None => Ok(invoke_text(impl_ident_text(ident, t.ident), t)),
        },
    }
}

/// Expands `#[invoke]` with arguments `args` on trait `t`: the code to add
/// after it, or why it is refused.
pub fn invoke_impl(args: &Vec<AttrArgModel>, t: &TraitModel) -> (r: Result<String, InvokeError>)
    ensures
        match r {
            Ok(s) => invoke_expansion(attr_views(args@), t@) == Ok::<Seq<char>, InvokeError>(s@),
            Err(e) => invoke_expansion(attr_views(args@), t@) == Err::<Seq<char>, InvokeError>(e),
        },
{
    let parsed = match parse_invoke_args(args) {
        Ok(a) => a,
        Err(e) => return Err(InvokeError::Argument(e)),
    };
    let impl_ident = invoke_impl_ident(&parsed, &t.ident);
    let impls = match gen_fn_impls(&impl_ident, t) {
        Ok(s) => s,
        Err((i, j)) => return Err(InvokeError::UntypedArgument { item: i, arg: j }),
    };
    let mut s = String::from_str("pub struct ");
    s.append(impl_ident.as_str());
    s.append("; impl ");
    s.append(impl_ident.as_str());
    s.append(INVOKE_BRIDGE);
    s.append(impls.as_str());
    Ok(s)
}

/// The two attributes refuse the same functions: on a trait implementation
/// and on its trait, with the same items and accepted `#[invoke]` arguments,
/// both expand, or both point at the same receiver of the same function.
pub proof fn lemma_same_refusals(imp: ImplView, args: Seq<AttrArgView>, t: TraitView)
    requires
        imp.trait_path is Some,
        imp.items == t.items,
        invoke_args(args) is Ok,
    ensures
        command_expansion(imp) is Ok <==> invoke_expansion(args, t) is Ok,
        forall|i: usize, j: usize|
            command_expansion(imp) == Err::<Seq<char>, CommandError>(
                CommandError::UntypedArgument { item: i, arg: j },
            ) <==> invoke_expansion(args, t) == Err::<Seq<char>, InvokeError>(
                InvokeError::UntypedArgument { item: i, arg: j },
            ),
{
}

/// The commands that the implementations generated by `#[invoke]` invoke are
/// the ones that the handler generated by `#[command]` lists, in order.
pub proof fn lemma_invoked_commands_are_handled(items: Seq<ItemView>)
    ensures
        invoked_commands(items) == fn_names(items),
    decreases items.len(),
{
    if items.len() > 0 {
        lemma_invoked_commands_are_handled(items.drop_last());
    }
}

/// What the web page sends matches what the backend registers: on a trait
/// implementation and on its trait with the same items, the commands invoked
/// by `#[invoke]` are those that `#[command]` registers, and each generated
/// implementation invokes the proxy of its own function by that proxy's name,
/// under keys that are the argument patterns which the proxy forwards.
pub proof fn lemma_client_matches_handlers(imp: ImplView, t: TraitView)
    requires
        imp.items == t.items,
    ensures
        invoked_commands(t.items) == fn_names(imp.items),
        forall|i: int|
            0 <= i < t.items.len() ==> match #[trigger] t.items[i] {
                ItemView::Fn(sig) => client_command(sig) == proxy_name(sig) && client_keys(sig)
                    == arg_pats(sig.args),
                ItemView::Other => true,
            },
{
    lemma_invoked_commands_are_handled(t.items);
}

/// What `#[invoke]` makes of its source texts, in the order of its checks.
#[derive(Debug)]
pub enum InvokeOutcome {
    /// The attribute's arguments do not parse; the parser's message.
    AttrSyntax(String),
    /// The arguments as read, and why they are refused.
    ArgsRefused { attr: AttrRead, error: InvokeArgError },
    /// The arguments as read, accepted; the item does not parse as a trait,
    /// with the parser's message.
    ItemSyntax { attr: AttrRead, message: String },
    /// The arguments and the trait as read, the name of the generated type,
    /// and the expansion or refusal.
    Read { attr: AttrRead, item: TraitRead, impl_ident: String, result: Result<String, InvokeError> },
}

impl InvokeOutcome {
    /// The generated code, or the message that the compiler shows instead.
    pub fn code_or_message(&self) -> (r: Result<String, String>)
        ensures
            match self {
                InvokeOutcome::AttrSyntax(m) => r matches Err(x) && x@ == m@,
                InvokeOutcome::ArgsRefused { error, .. } => r matches Err(x) && x@
                    == invoke_error_message(InvokeError::Argument(*error)),
                InvokeOutcome::ItemSyntax { message, .. } => r matches Err(x) && x@ == message@,
                InvokeOutcome::Read { result, .. } => match result {
                    Ok(code) => r matches Ok(x) && x@ == code@,
                    Err(e) => r matches Err(x) && x@ == invoke_error_message(*e),
                },
            },
    {
        match self {
            InvokeOutcome::AttrSyntax(m) => Err(m.clone()),
            InvokeOutcome::ArgsRefused { error, .. } => Err(InvokeError::Argument(*error).message()),
            InvokeOutcome::ItemSyntax { message, .. } => Err(message.clone()),
            InvokeOutcome::Read { result, .. } => match result {
                Ok(code) => Ok(code.clone()),
                Err(e) => Err(e.message()),
            },
        }
    }
}

/// Expands `#[invoke]` whose arguments have the source text `attr` on the
/// item whose source text is `item`. The checks come in this order: that the
/// arguments read from `attr` parse, that they are accepted, that the item
/// read from `item` parses as a trait, and then the expansion of exactly the
/// arguments and the trait that were read.
pub fn invoke_source(attr: &str, item: &str) -> (r: InvokeOutcome)
    ensures
        match r {
            InvokeOutcome::AttrSyntax(_) => true,
            InvokeOutcome::ArgsRefused { attr: a, error } => {
                &&& attr_read_from(a, attr@)
                &&& invoke_args(attr_view_of(a)) == Err::<Option<Seq<char>>, InvokeArgError>(error)
            },
            InvokeOutcome::ItemSyntax { attr: a, .. } => {
                &&& attr_read_from(a, attr@)
                &&& invoke_args(attr_view_of(a)) is Ok
            },
            InvokeOutcome::Read { attr: a, item: t, impl_ident, result } => {
                &&& attr_read_from(a, attr@)
                &&& trait_read_from(t, item@)
                &&& invoke_args(attr_view_of(a)) matches Ok(ident) && impl_ident@
                    == impl_ident_text(ident, trait_view_of(t).ident)
                &&& match result {
                    Ok(s) => invoke_expansion(attr_view_of(a), trait_view_of(t)) == Ok::<
                        Seq<char>,
                        InvokeError,
                    >(s@),
                    Err(e) => invoke_expansion(attr_view_of(a), trait_view_of(t)) == Err::<
                        Seq<char>,
                        InvokeError,
                    >(e),
                }
            },
        },
{
    let a = match read_attr(attr) {
        Ok(a) => a,
        Err(e) => return InvokeOutcome::AttrSyntax(e),
    };
    let args = attr_args(&a);
    let parsed = match parse_invoke_args(&args) {
        Ok(p) => p,
        Err(error) => return InvokeOutcome::ArgsRefused { attr: a, error },
    };
    let t = match read_trait(item) {
        Ok(t) => t,
        Err(message) => return InvokeOutcome::ItemSyntax { attr: a, message },
    };
    let model = trait_model(&t);
    let impl_ident = invoke_impl_ident(&parsed, &model.ident);
    let result = invoke_impl(&args, &model);
    InvokeOutcome::Read { attr: a, item: t, impl_ident, result }
}

/// A generated client function sends its arguments exactly when it has some,
/// whatever its return type. With at least one argument it builds `Args`,
/// one field per argument, initialised from the argument patterns, and ends
/// by calling `__invoke` of the generated type with the function's name and
/// those arguments. With none it ends by calling `__invoke0` with the name.
pub proof fn lemma_client_sends_arguments(impl_ident: Seq<char>, sig: SigView)
    ensures
        sig.args.len() > 0 ==> ends_with(
            fn_impl_text(impl_ident, sig),
            impl_ident + "::__invoke(stringify!("@ + sig.ident + INVOKE_WITH_ARGS_TAIL@,
        ),
        sig.args.len() > 0 ==> exists|p: Seq<char>, q: Seq<char>|
            fn_impl_text(impl_ident, sig) == p + ARGS_STRUCT_HEAD@ + join(field_decls(sig.args), ", "@)
                + " } let __args = Args { "@ + join(arg_pats(sig.args), ", "@) + ARGS_SEND@ + q,
        field_decls(sig.args).len() == sig.args.len(),
        sig.args.len() == 0 ==> ends_with(
            fn_impl_text(impl_ident, sig),
            impl_ident + "::__invoke0(stringify!("@ + sig.ident + INVOKE_NO_ARGS_TAIL@,
        ),
{
    let text = fn_impl_text(impl_ident, sig);
    if sig.args.len() > 0 {
        let p = async_kw(sig.is_async) + "fn "@ + sig.ident + "("@ + sig.inputs + ") "@ + sig.output;
        let mid = ARGS_STRUCT_HEAD@ + join(field_decls(sig.args), ", "@) + " } let __args = Args { "@
            + join(arg_pats(sig.args), ", "@) + ARGS_SEND@;
        let before = p + mid;
        let call = impl_ident + "::__invoke(stringify!("@ + sig.ident + INVOKE_WITH_ARGS_TAIL@;
        assert(text =~= before + call);
        lemma_ends_with_concat(before, call);
        assert(text =~= p + ARGS_STRUCT_HEAD@ + join(field_decls(sig.args), ", "@)
            + " } let __args = Args { "@ + join(arg_pats(sig.args), ", "@) + ARGS_SEND@ + call);
    } else {
        let before = async_kw(sig.is_async) + "fn "@ + sig.ident + "() "@ + sig.output
            + " { let __result = "@;
        let call = impl_ident + "::__invoke0(stringify!("@ + sig.ident + INVOKE_NO_ARGS_TAIL@;
        assert(text =~= before + call);
        lemma_ends_with_concat(before, call);
    }
}

} // verus!
