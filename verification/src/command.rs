//! The `#[command]` attribute: from a trait implementation, the code that
//! registers each of its functions as a Tauri command.

use vstd::prelude::*;
use vstd::string::*;

use crate::model::{
    FnSigModel, ItemModel, ItemView, SigView, item_views, untyped_argument, find_untyped_argument,
    call_args, call_args_text, async_kw, async_keyword,
};
use crate::text::{join, lemma_join_push, ends_with, lemma_ends_with_concat, lemma_ends_with_append};
use crate::syntax::{ImplRead, read_impl, impl_model, impl_read_from, impl_view_of};

verus! {

/// An `impl` block, as the `#[command]` attribute reads it.
#[derive(Debug)]
pub struct ImplModel {
    /// Source text of the implemented trait's path; `None` for an inherent `impl`.
    pub trait_path: Option<String>,
    /// Source text of the implementing type.
    pub self_ty: String,
    /// Source text of the generic parameters, with their angle brackets, or empty.
    pub generics: String,
    /// Source text of the `where` clause, or empty.
    pub where_clause: String,
    /// The items of the block, in order.
    pub items: Vec<ItemModel>,
}

/// An `impl` block, its texts taken by their characters.
pub struct ImplView {
    pub trait_path: Option<Seq<char>>,
    pub self_ty: Seq<char>,
    pub generics: Seq<char>,
    pub where_clause: Seq<char>,
    pub items: Seq<ItemView>,
}

impl View for ImplModel {
    type V = ImplView;

    open spec fn view(&self) -> ImplView {
        ImplView {
            trait_path: match self.trait_path {
                Some(p) => Some(p@),
                None => None,
            },
            self_ty: self.self_ty@,
            generics: self.generics@,
            where_clause: self.where_clause@,
            items: item_views(self.items@),
        }
    }
}

/// Why `#[command]` refuses an item.
#[derive(Debug, PartialEq, Eq, Structural)]
pub enum CommandError {
    /// The attribute stands on something other than a trait implementation.
    NotTraitImpl,
    /// Function `item` of the block takes a receiver as its argument `arg`.
    UntypedArgument { item: usize, arg: usize },
}

impl CommandError {
    /// The message that the compiler shows for this error.
    pub fn message(&self) -> (s: String)
        ensures
            s@ == command_error_message(*self),
    {
        match self {
            CommandError::NotTraitImpl => String::from_str(
                "The #[command] attribute can only be applied to trait implementations.",
            ),
            CommandError::UntypedArgument { .. } => String::from_str(
                "Expected typed function argument",
            ),
        }
    }
}

/// The message that the compiler shows for an error.
pub open spec fn command_error_message(e: CommandError) -> Seq<char> {
    match e {
        CommandError::NotTraitImpl => "The #[command] attribute can only be applied to trait implementations."@,
        CommandError::UntypedArgument { .. } => "Expected typed function argument"@,
    }
}

/// What a proxy appends to the forwarded call: `.await` for an `async` function.
pub open spec fn await_suffix(is_async: bool) -> Seq<char> {
    if is_async {
        ".await"@
    } else {
        ""@
    }
}

fn await_keyword(is_async: bool) -> (s: &'static str)
    ensures
        s@ == await_suffix(is_async),
{
    if is_async {
        ".await"
    } else {
        ""
    }
}

/// The name under which the proxy of function `sig` is registered as a command.
pub open spec fn proxy_name(sig: SigView) -> Seq<char> {
    sig.ident
}

/// The Tauri command that forwards to function `sig` of the trait implementation:
/// it has the same signature and calls the function through the trait.
pub open spec fn proxy_text(
    self_ty: Seq<char>,
    trait_path: Seq<char>,
    generics: Seq<char>,
    sig: SigView,
) -> Seq<char> {
    "#[::tauri::command] "@ + async_kw(sig.is_async) + "fn "@ + proxy_name(sig) + "("@
        + sig.inputs + ") "@ + sig.output + " { <"@ + self_ty + " as "@ + trait_path + " "@ + generics
        + " >::"@ + sig.ident + "("@ + call_args_text(sig.args) + ")"@ + await_suffix(
        sig.is_async,
    ) + " } "@
}

/// The proxies of all functions among `items`, one after the other.
pub open spec fn proxies_text(
    self_ty: Seq<char>,
    trait_path: Seq<char>,
    generics: Seq<char>,
    items: Seq<ItemView>,
) -> Seq<char>
    decreases items.len(),
{
    if items.len() == 0 {
        Seq::empty()
    } else {
        proxies_text(self_ty, trait_path, generics, items.drop_last()) + match items.last() {
            ItemView::Fn(sig) => proxy_text(self_ty, trait_path, generics, sig),
            ItemView::Other => Seq::empty(),
        }
    }
}

/// The names of the functions among `items`, in order.
pub open spec fn fn_names(items: Seq<ItemView>) -> Seq<Seq<char>>
    decreases items.len(),
{
    if items.len() == 0 {
        Seq::empty()
    } else {
        match items.last() {
            ItemView::Fn(sig) => fn_names(items.drop_last()).push(sig.ident),
            ItemView::Other => fn_names(items.drop_last()),
        }
    }
}

/// The code that `#[command]` adds after a trait implementation whose trait
/// is `trait_path`: an inherent `invoke_handler` function on the implementing
/// type, which hands the invocation to a Tauri handler that knows one proxy
/// command per function of the implementation.
pub open spec fn command_text(item: ImplView, trait_path: Seq<char>) -> Seq<char> {
    "impl "@ + item.generics + " "@ + item.self_ty + " "@ + item.where_clause + HANDLER_HEAD@
        + trait_path + "; use super::"@ + item.self_ty + "; "@ + proxies_text(
        item.self_ty,
        trait_path,
        item.generics,
        item.items,
    ) + HANDLER_FACTORY@ + join(fn_names(item.items), " "@) + HANDLER_TAIL@
}

/// What `#[command]` makes of an item: the added code, or the error it reports.
pub open spec fn command_expansion(item: ImplView) -> Result<Seq<char>, CommandError> {
    match item.trait_path {
        None => Err(CommandError::NotTraitImpl),
        Some(path) => match untyped_argument(item.items) {
            Some((i, j)) => Err(CommandError::UntypedArgument { item: i as usize, arg: j as usize }),
            None => Ok(command_text(item, path)),
        },
    }
}

/// From `where_clause` up to the `use` of the trait.
pub const HANDLER_HEAD: &'static str = " { pub fn invoke_handler<R: ::tauri::Runtime>(invoke: ::tauri::ipc::Invoke<R>) -> bool { mod inner { use super::";

/// From the proxies up to the list of handled commands.
pub const HANDLER_FACTORY: &'static str = "pub fn invoke_handler<R: ::tauri::Runtime>() -> impl Fn(::tauri::ipc::Invoke<R>) -> bool + Send + Sync + 'static { ::tauri::generate_handler![";

/// After the list of handled commands.
pub const HANDLER_TAIL: &'static str = "] } } inner::invoke_handler()(invoke) } }";

/// Writes the proxy command of function `sig`.
pub fn proxy(self_ty: &String, trait_path: &String, generics: &String, sig: &FnSigModel) -> (s:
    String)
    ensures
        s@ == proxy_text(self_ty@, trait_path@, generics@, sig@),
{
    let args = call_args(&sig.args);
    let mut s = String::from_str("#[::tauri::command] ");
    s.append(async_keyword(sig.is_async));
    s.append("fn ");
    s.append(sig.ident.as_str());
    s.append("(");
    s.append(sig.inputs.as_str());
    s.append(") ");
    s.append(sig.output.as_str());
    s.append(" { <");
    s.append(self_ty.as_str());
    s.append(" as ");
    s.append(trait_path.as_str());
    s.append(" ");
    s.append(generics.as_str());
    s.append(" >::");
    s.append(sig.ident.as_str());
    s.append("(");
    s.append(args.as_str());
    s.append(")");
    s.append(await_keyword(sig.is_async));
    s.append(" } ");
    s
}

/// Expands `#[command]` on `item`: the code to add after it, or why it is refused.
pub fn command_impl(item: &ImplModel) -> (r: Result<String, CommandError>)
    ensures
        match r {
            Ok(s) => command_expansion(item@) == Ok::<Seq<char>, CommandError>(s@),
            Err(e) => command_expansion(item@) == Err::<Seq<char>, CommandError>(e),
        },
{
    let trait_path = match &item.trait_path {
        Some(p) => p,
        None => return Err(CommandError::NotTraitImpl),
    };
    match find_untyped_argument(&item.items) {
        Some((i, j)) => return Err(CommandError::UntypedArgument { item: i, arg: j }),
        None => {},
    }
    let ghost v = item@.items;
    let mut proxies = String::new();
    let mut names = String::new();
    let mut any_fn = false;
    let n = item.items.len();
    for i in 0..n
        invariant
            n == item.items@.len(),
            v == item@.items,
            item.trait_path == Some(*trait_path),
            proxies@ == proxies_text(item.self_ty@, trait_path@, item.generics@, v.take(i as int)),
            names@ == join(fn_names(v.take(i as int)), " "@),
            any_fn == (fn_names(v.take(i as int)).len() > 0),
    {
        let ghost prev = v.take(i as int);
        assert(v[i as int] == item.items@[i as int]@);
        assert(v.take(i + 1).drop_last() =~= prev);
        match &item.items[i] {
            ItemModel::Fn(sig) => {
                let p = proxy(&item.self_ty, trait_path, &item.generics, sig);
                proxies.append(p.as_str());
                proof {
                    lemma_join_push(fn_names(prev), " "@, sig.ident@);
                }
                if any_fn {
                    names.append(" ");
                }
                names.append(sig.ident.as_str());
                proof {
                    if !any_fn {
                        assert(names@ =~= sig.ident@);
                    }
                }
                any_fn = true;
            },
            ItemModel::Other => {
                assert(proxies@ =~= proxies@ + Seq::<char>::empty());
            },
        }
    }
    assert(v.take(n as int) =~= v);
    let mut s = String::from_str("impl ");
    s.append(item.generics.as_str());
    s.append(" ");
    s.append(item.self_ty.as_str());
    s.append(" ");
    s.append(item.where_clause.as_str());
    s.append(HANDLER_HEAD);
    s.append(trait_path.as_str());
    s.append("; use super::");
    s.append(item.self_ty.as_str());
    s.append("; ");
    s.append(proxies.as_str());
    s.append(HANDLER_FACTORY);
    s.append(names.as_str());
    s.append(HANDLER_TAIL);
    Ok(s)
}

/// What `#[command]` makes of a source text.
#[derive(Debug)]
pub enum CommandOutcome {
    /// The text does not parse as an `impl` block; the parser's message.
    Syntax(String),
    /// The `impl` block as read, and its expansion or refusal.
    Read { read: ImplRead, result: Result<String, CommandError> },
}

impl CommandOutcome {
    /// The generated code, or the message that the compiler shows instead.
    pub fn code_or_message(&self) -> (r: Result<String, String>)
        ensures
            match self {
                CommandOutcome::Syntax(m) => r matches Err(x) && x@ == m@,
                CommandOutcome::Read { result, .. } => match result {
                    Ok(code) => r matches Ok(x) && x@ == code@,
                    Err(e) => r matches Err(x) && x@ == command_error_message(*e),
                },
            },
    {
        match self {
            CommandOutcome::Syntax(m) => Err(m.clone()),
            CommandOutcome::Read { result, .. } => match result {
                Ok(code) => Ok(code.clone()),
                Err(e) => Err(e.message()),
            },
        }
    }
}

/// Expands `#[command]` on the item whose source text is `item`: the item is
/// read from that text, and where it reads as an `impl` block, the result is
/// the expansion of exactly the block that was read.
pub fn command_source(item: &str) -> (r: CommandOutcome)
    ensures
        r matches CommandOutcome::Read { read, result } ==> {
            &&& impl_read_from(read, item@)
            &&& match result {
                Ok(s) => command_expansion(impl_view_of(read)) == Ok::<Seq<char>, CommandError>(s@),
                Err(e) => command_expansion(impl_view_of(read)) == Err::<Seq<char>, CommandError>(e),
            }
        },
{
    match read_impl(item) {
        Ok(read) => {
            let model = impl_model(&read);
            let result = command_impl(&model);
            CommandOutcome::Read { read, result }
        },
        Err(e) => CommandOutcome::Syntax(e),
    }
}

/// A proxy awaits the function it forwards to exactly when that function is
/// `async`, whatever its return type: the proxy ends with `.await } ` for an
/// `async` function, and with `) } ` (the call, not awaited) otherwise.
pub proof fn lemma_proxy_awaits_iff_async(
    self_ty: Seq<char>,
    trait_path: Seq<char>,
    generics: Seq<char>,
    sig: SigView,
)
    ensures
        sig.is_async ==> ends_with(proxy_text(self_ty, trait_path, generics, sig), ".await } "@),
        !sig.is_async ==> ends_with(proxy_text(self_ty, trait_path, generics, sig), ") } "@),
        !sig.is_async ==> !ends_with(proxy_text(self_ty, trait_path, generics, sig), ".await } "@),
{
    let head = "#[::tauri::command] "@ + async_kw(sig.is_async) + "fn "@ + proxy_name(sig) + "("@
        + sig.inputs + ") "@ + sig.output + " { <"@ + self_ty + " as "@ + trait_path + " "@
        + generics + " >::"@ + sig.ident + "("@ + call_args_text(sig.args);
    let call = head + ")"@;
    let text = proxy_text(self_ty, trait_path, generics, sig);
    assert(text == call + await_suffix(sig.is_async) + " } "@);
    reveal_strlit(".await");
    reveal_strlit(" } ");
    reveal_strlit(".await } ");
    reveal_strlit(")");
    reveal_strlit(") } ");
    reveal_strlit("");
    lemma_ends_with_concat(head, ")"@);
    if sig.is_async {
        lemma_ends_with_concat(call, ".await"@);
        lemma_ends_with_append(call + ".await"@, ".await"@, " } "@);
        assert(".await"@ + " } "@ =~= ".await } "@);
    } else {
        assert(call + ""@ =~= call);
        lemma_ends_with_append(call, ")"@, " } "@);
        assert(")"@ + " } "@ =~= ") } "@);
        assert(text =~= call + " } "@);
        assert(text.subrange(text.len() - 4, text.len() as int) == ") } "@);
        assert(text[text.len() - 4] == ')');
        assert(".await } "@[5] == 't');
        if ends_with(text, ".await } "@) {
            assert(text.subrange(text.len() - 9, text.len() as int)[5] == text[text.len() - 4]);
        }
    }
}

} // verus!
