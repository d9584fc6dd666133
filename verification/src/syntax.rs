//! Reading source text with `syn` into the models of `model`, `command` and
//! `invoke`. Each piece of syntax is parsed by one call of `syn`, which hands
//! back the text it parsed and its parts printed back as text; verified code
//! hands each part on to the next parse and puts the models together.
//!
//! Of what the parser hands back, only the text it was given and the grammar
//! it used are stated: `proc-macro2` lexes and prints with the compiler's own
//! implementation inside a procedural macro and with its fallback elsewhere,
//! so the printed parts depend on where the code runs. The functions that
//! take the models as arguments (`command_impl`, `invoke_impl`) are verified
//! for every value that comes back.

use vstd::prelude::*;
use vstd::string::*;

use quote::ToTokens;
use syn::parse::Parser;

use crate::command::{ImplModel, ImplView};
use crate::invoke::{AttrArgModel, AttrArgView, AttrValueModel, TraitModel, TraitView, attr_views};
use crate::model::{FnArgModel, FnSigModel, ItemModel, ItemView, SigView, item_views};
use crate::text::opt_text;

verus! {

/// Which grammar an item was parsed with.
#[derive(Debug, Clone, Copy, PartialEq, Eq, Structural)]
pub enum Grammar {
    /// An item of an `impl` block.
    ImplItem,
    /// An item of a trait.
    TraitItem,
}

/// An `impl` block: the text parsed, and its parts as source text, each item as a whole.
#[derive(Debug)]
pub struct ImplSyntax {
    pub source: String,
    pub trait_path: Option<String>,
    pub self_ty: String,
    pub generics: String,
    pub where_clause: String,
    pub items: Vec<String>,
}

/// A trait: the text parsed, its name, and each item as source text.
#[derive(Debug)]
pub struct TraitSyntax {
    pub source: String,
    pub ident: String,
    pub items: Vec<String>,
}

/// An item: the text parsed, the grammar used, and a function's signature as
/// source text, or `None` for any other kind of item.
#[derive(Debug)]
pub struct ItemSyntax {
    pub source: String,
    pub grammar: Grammar,
    pub signature: Option<String>,
}

/// A function signature: the text parsed, and its parts as source text, each
/// argument as a whole.
#[derive(Debug)]
pub struct SigSyntax {
    pub source: String,
    pub ident: String,
    pub is_async: bool,
    pub inputs: String,
    pub args: Vec<String>,
    pub output: String,
}

/// A function argument: the text parsed, and the argument.
#[derive(Debug)]
pub struct ArgSyntax {
    pub source: String,
    pub arg: FnArgModel,
}

/// The attribute's arguments: the text parsed, and each argument as source text.
#[derive(Debug)]
pub struct AttrSyntax {
    pub source: String,
    pub args: Vec<String>,
}

/// One attribute argument: the text parsed, and the argument.
#[derive(Debug)]
pub struct MetaSyntax {
    pub source: String,
    pub arg: AttrArgModel,
}

/// `syn::parse_str::<syn::ItemImpl>`: hands back `src` with the trait path,
/// the type, the generic parameters, the `where` clause and the items, each
/// printed back as text. Only that it hands back `src` is stated.
#[verifier::external_body]
fn parse_impl(src: &str) -> (r: Result<ImplSyntax, String>)
    ensures
        r matches Ok(h) ==> h.source@ == src@,
{
    match syn::parse_str::<syn::ItemImpl>(src) {
        Ok(i) => Ok(ImplSyntax {
            source: src.to_string(),
            trait_path: i.trait_.as_ref().map(|t| t.1.to_token_stream().to_string()),
            self_ty: i.self_ty.to_token_stream().to_string(),
            generics: i.generics.to_token_stream().to_string(),
            where_clause: i.generics.where_clause.to_token_stream().to_string(),
            items: i.items.iter().map(|x| x.to_token_stream().to_string()).collect(),
        }),
        Err(e) => Err(e.to_string()),
    }
}

/// `syn::parse_str::<syn::ImplItem>`: hands back `src`, the grammar, and a
/// function's signature printed back as text, `None` for any other kind of
/// item. Only the text and the grammar are stated.
#[verifier::external_body]
fn parse_impl_item(src: &str) -> (r: Result<ItemSyntax, String>)
    ensures
        r matches Ok(x) ==> x.source@ == src@ && x.grammar == Grammar::ImplItem,
{
    let signature = match syn::parse_str::<syn::ImplItem>(src) {
        Ok(syn::ImplItem::Fn(f)) => Some(f.sig.to_token_stream().to_string()),
        Ok(_) => None,
        Err(e) => return Err(e.to_string()),
    };
    Ok(ItemSyntax { source: src.to_string(), grammar: Grammar::ImplItem, signature })
}

/// `syn::parse_str::<syn::ItemTrait>`: hands back `src` with the trait's name
/// and its items, each printed back as text. Only that it hands back `src` is stated.
#[verifier::external_body]
fn parse_trait(src: &str) -> (r: Result<TraitSyntax, String>)
    ensures
        r matches Ok(t) ==> t.source@ == src@,
{
    match syn::parse_str::<syn::ItemTrait>(src) {
        Ok(t) => Ok(TraitSyntax {
            source: src.to_string(),
            ident: t.ident.to_string(),
            items: t.items.iter().map(|x| x.to_token_stream().to_string()).collect(),
        }),
        Err(e) => Err(e.to_string()),
    }
}

/// `syn::parse_str::<syn::TraitItem>`: hands back `src`, the grammar, and a
/// function's signature printed back as text, `None` for any other kind of
/// item. Only the text and the grammar are stated.
#[verifier::external_body]
fn parse_trait_item(src: &str) -> (r: Result<ItemSyntax, String>)
    ensures
        r matches Ok(x) ==> x.source@ == src@ && x.grammar == Grammar::TraitItem,
{
    let signature = match syn::parse_str::<syn::TraitItem>(src) {
        Ok(syn::TraitItem::Fn(f)) => Some(f.sig.to_token_stream().to_string()),
        Ok(_) => None,
        Err(e) => return Err(e.to_string()),
    };
    Ok(ItemSyntax { source: src.to_string(), grammar: Grammar::TraitItem, signature })
}

/// `syn::parse_str::<syn::Signature>`: hands back `src` with the name, whether
/// it is `async`, the argument list, each argument, and the return type,
/// printed back as text. Only that it hands back `src` is stated.
#[verifier::external_body]
fn parse_signature(src: &str) -> (r: Result<SigSyntax, String>)
    ensures
        r matches Ok(s) ==> s.source@ == src@,
{
    match syn::parse_str::<syn::Signature>(src) {
        Ok(s) => Ok(SigSyntax {
            source: src.to_string(),
            ident: s.ident.to_string(),
            is_async: s.asyncness.is_some(),
            inputs: s.inputs.to_token_stream().to_string(),
            args: s.inputs.iter().map(|a| a.to_token_stream().to_string()).collect(),
            output: s.output.to_token_stream().to_string(),
        }),
        Err(e) => Err(e.to_string()),
    }
}

/// `syn::parse_str::<syn::FnArg>`: hands back `src` with a receiver, or the
/// pattern and the type printed back as text. Only that it hands back `src` is stated.
#[verifier::external_body]
fn parse_fn_arg(src: &str) -> (r: Result<ArgSyntax, String>)
    ensures
        r matches Ok(a) ==> a.source@ == src@,
{
    let arg = match syn::parse_str::<syn::FnArg>(src) {
        Ok(syn::FnArg::Receiver(_)) => FnArgModel::Receiver,
        Ok(syn::FnArg::Typed(p)) => FnArgModel::Typed {
            pat: p.pat.to_token_stream().to_string(),
            ty: p.ty.to_token_stream().to_string(),
        },
        Err(e) => return Err(e.to_string()),
    };
    Ok(ArgSyntax { source: src.to_string(), arg })
}

/// `Punctuated::<syn::Meta, syn::token::Comma>::parse_terminated`: hands back
/// `src` with each argument printed back as text. Only that it hands back `src`
/// is stated.
#[verifier::external_body]
fn parse_attr_args(src: &str) -> (r: Result<AttrSyntax, String>)
    ensures
        r matches Ok(a) ==> a.source@ == src@,
{
    let parser = syn::punctuated::Punctuated::<syn::Meta, syn::token::Comma>::parse_terminated;
    match parser.parse_str(src) {
        Ok(metas) => Ok(AttrSyntax {
            source: src.to_string(),
            args: metas.iter().map(|m| m.to_token_stream().to_string()).collect(),
        }),
        Err(e) => Err(e.to_string()),
    }
}

/// `syn::parse_str::<syn::Meta>`: hands back `src` with, for `path = value`,
/// the path where it is one identifier and the value of a string literal;
/// any other argument as `Other`. Only that it hands back `src` is stated.
#[verifier::external_body]
fn parse_meta(src: &str) -> (r: Result<MetaSyntax, String>)
    ensures
        r matches Ok(m) ==> m.source@ == src@,
{
    let arg = match syn::parse_str::<syn::Meta>(src) {
        Ok(syn::Meta::NameValue(p)) => AttrArgModel::NameValue {
            key: p.path.get_ident().map(|i| i.to_string()),
            value: match p.value {
                syn::Expr::Lit(syn::ExprLit { lit: syn::Lit::Str(s), .. }) => AttrValueModel::Str(s.value()),
                _ => AttrValueModel::Other,
            },
        },
        Ok(_) => AttrArgModel::Other,
        Err(e) => return Err(e.to_string()),
    };
    Ok(MetaSyntax { source: src.to_string(), arg })
}

/// A signature as read: its parse, and the parse of each of its arguments.
#[derive(Debug)]
pub struct SigRead {
    pub syntax: SigSyntax,
    pub args: Vec<ArgSyntax>,
}

/// An item as read: its parse, and the read of its signature where it is a function.
#[derive(Debug)]
pub struct ItemRead {
    pub syntax: ItemSyntax,
    pub sig: Option<SigRead>,
}

/// An `impl` block as read: its parse, and the read of each of its items.
#[derive(Debug)]
pub struct ImplRead {
    pub syntax: ImplSyntax,
    pub items: Vec<ItemRead>,
}

/// A trait as read: its parse, and the read of each of its items.
#[derive(Debug)]
pub struct TraitRead {
    pub syntax: TraitSyntax,
    pub items: Vec<ItemRead>,
}

/// The attribute's arguments as read: their parse, and the parse of each one.
#[derive(Debug)]
pub struct AttrRead {
    pub syntax: AttrSyntax,
    pub args: Vec<MetaSyntax>,
}

/// `r` was read from `src`: the signature was parsed from `src`, and argument
/// `i` from the signature's argument text `i`, one for each.
pub open spec fn sig_read_from(r: SigRead, src: Seq<char>) -> bool {
    &&& r.syntax.source@ == src
    &&& r.args@.len() == r.syntax.args@.len()
    &&& forall|i: int| 0 <= i < r.args@.len() ==> (#[trigger] r.args@[i]).source@ == r.syntax.args@[i]@
}

/// `r` was read from `src` with grammar `g`, and, where that found a function,
/// its signature was read from the signature text found.
pub open spec fn item_read_from(r: ItemRead, src: Seq<char>, g: Grammar) -> bool {
    &&& r.syntax.source@ == src
    &&& r.syntax.grammar == g
    &&& match r.syntax.signature {
        Some(t) => r.sig matches Some(s) && sig_read_from(s, t@),
        None => r.sig is None,
    }
}

/// Item `i` of `rs` was read from text `i` of `ts` with grammar `g`, one for each.
pub open spec fn items_read_from(rs: Seq<ItemRead>, ts: Seq<String>, g: Grammar) -> bool {
    &&& rs.len() == ts.len()
    &&& forall|i: int| 0 <= i < rs.len() ==> item_read_from(#[trigger] rs[i], ts[i]@, g)
}

/// `r` was read from `src`: the block was parsed from `src`, and its items
/// from the item texts found, with the grammar of `impl` items.
pub open spec fn impl_read_from(r: ImplRead, src: Seq<char>) -> bool {
    &&& r.syntax.source@ == src
    &&& items_read_from(r.items@, r.syntax.items@, Grammar::ImplItem)
}

/// `r` was read from `src`: the trait was parsed from `src`, and its items
/// from the item texts found, with the grammar of trait items.
pub open spec fn trait_read_from(r: TraitRead, src: Seq<char>) -> bool {
    &&& r.syntax.source@ == src
    &&& items_read_from(r.items@, r.syntax.items@, Grammar::TraitItem)
}

/// `r` was read from `src`: the list was parsed from `src`, and argument `i`
/// from the argument text `i` found, one for each.
pub open spec fn attr_read_from(r: AttrRead, src: Seq<char>) -> bool {
    &&& r.syntax.source@ == src
    &&& r.args@.len() == r.syntax.args@.len()
    &&& forall|i: int| 0 <= i < r.args@.len() ==> (#[trigger] r.args@[i]).source@ == r.syntax.args@[i]@
}

/// The signature that a read gives: the parts of its parse, and its arguments.
pub open spec fn sig_view_of(r: SigRead) -> SigView {
    SigView {
        ident: r.syntax.ident@,
        is_async: r.syntax.is_async,
        inputs: r.syntax.inputs@,
        args: r.args@.map_values(|a: ArgSyntax| a.arg@),
        output: r.syntax.output@,
    }
}

/// The item that a read gives: a function where a signature was read, else another item.
pub open spec fn item_view_of(r: ItemRead) -> ItemView {
    match r.sig {
        Some(s) => ItemView::Fn(sig_view_of(s)),
        None => ItemView::Other,
    }
}

/// The items that reads give, in order.
pub open spec fn item_views_of(rs: Seq<ItemRead>) -> Seq<ItemView> {
    rs.map_values(|r: ItemRead| item_view_of(r))
}

/// The `impl` block that a read gives: the parts of its parse, and its items.
pub open spec fn impl_view_of(r: ImplRead) -> ImplView {
    ImplView {
        trait_path: opt_text(r.syntax.trait_path),
        self_ty: r.syntax.self_ty@,
        generics: r.syntax.generics@,
        where_clause: r.syntax.where_clause@,
        items: item_views_of(r.items@),
    }
}

/// The trait that a read gives: its name, and its items.
pub open spec fn trait_view_of(r: TraitRead) -> TraitView {
    TraitView { ident: r.syntax.ident@, items: item_views_of(r.items@) }
}

/// The attribute arguments that a read gives, in order.
pub open spec fn attr_view_of(r: AttrRead) -> Seq<AttrArgView> {
    r.args@.map_values(|m: MetaSyntax| m.arg@)
}

fn copy_text(s: &String) -> (r: String)
    ensures
        r@ == s@,
{
    s.clone()
}

fn copy_opt_text(s: &Option<String>) -> (r: Option<String>)
    ensures
        opt_text(r) == opt_text(*s),
{
    match s {
        Some(t) => Some(t.clone()),
        None => None,
    }
}

fn copy_arg(a: &FnArgModel) -> (r: FnArgModel)
    ensures
        r@ == a@,
{
    match a {
        FnArgModel::Receiver => FnArgModel::Receiver,
        FnArgModel::Typed { pat, ty } => FnArgModel::Typed { pat: pat.clone(), ty: ty.clone() },
    }
}

/// The signature that a read gives.
pub fn sig_model(r: &SigRead) -> (m: FnSigModel)
    ensures
        m@ == sig_view_of(*r),
{
    let mut args: Vec<FnArgModel> = Vec::new();
    let n = r.args.len();
    for i in 0..n
        invariant
            n == r.args@.len(),
            args@.len() == i,
            forall|k: int| 0 <= k < i ==> (#[trigger] args@[k])@ == r.args@[k].arg@,
    {
        args.push(copy_arg(&r.args[i].arg));
    }
    let m = FnSigModel {
        ident: copy_text(&r.syntax.ident),
        is_async: r.syntax.is_async,
        inputs: copy_text(&r.syntax.inputs),
        args,
        output: copy_text(&r.syntax.output),
    };
    assert(m@.args =~= sig_view_of(*r).args);
    m
}

/// The item that a read gives.
pub fn item_model(r: &ItemRead) -> (m: ItemModel)
    ensures
        m@ == item_view_of(*r),
{
    match &r.sig {
        Some(s) => ItemModel::Fn(sig_model(s)),
        None => ItemModel::Other,
    }
}

fn item_models(rs: &Vec<ItemRead>) -> (v: Vec<ItemModel>)
    ensures
        item_views(v@) == item_views_of(rs@),
{
    let mut v: Vec<ItemModel> = Vec::new();
    let n = rs.len();
    for i in 0..n
        invariant
            n == rs@.len(),
            v@.len() == i,
            forall|k: int| 0 <= k < i ==> (#[trigger] v@[k])@ == item_view_of(rs@[k]),
    {
        v.push(item_model(&rs[i]));
    }
    assert(item_views(v@) =~= item_views_of(rs@));
    v
}

/// The `impl` block that a read gives.
pub fn impl_model(r: &ImplRead) -> (m: ImplModel)
    ensures
        m@ == impl_view_of(*r),
{
    ImplModel {
        trait_path: copy_opt_text(&r.syntax.trait_path),
        self_ty: copy_text(&r.syntax.self_ty),
        generics: copy_text(&r.syntax.generics),
        where_clause: copy_text(&r.syntax.where_clause),
        items: item_models(&r.items),
    }
}

/// The trait that a read gives.
pub fn trait_model(r: &TraitRead) -> (m: TraitModel)
    ensures
        m@ == trait_view_of(*r),
{
    TraitModel { ident: copy_text(&r.syntax.ident), items: item_models(&r.items) }
}

fn copy_attr_arg(a: &AttrArgModel) -> (r: AttrArgModel)
    ensures
        r@ == a@,
{
    match a {
        AttrArgModel::NameValue { key, value } => AttrArgModel::NameValue {
            key: copy_opt_text(key),
            value: match value {
                AttrValueModel::Str(s) => AttrValueModel::Str(s.clone()),
                AttrValueModel::Other => AttrValueModel::Other,
            },
        },
        AttrArgModel::Other => AttrArgModel::Other,
    }
}

/// The attribute arguments that a read gives.
pub fn attr_args(r: &AttrRead) -> (v: Vec<AttrArgModel>)
    ensures
        attr_views(v@) == attr_view_of(*r),
{
    let mut v: Vec<AttrArgModel> = Vec::new();
    let n = r.args.len();
    for i in 0..n
        invariant
            n == r.args@.len(),
            v@.len() == i,
            forall|k: int| 0 <= k < i ==> (#[trigger] v@[k])@ == r.args@[k].arg@,
    {
        v.push(copy_attr_arg(&r.args[i].arg));
    }
    assert(attr_views(v@) =~= attr_view_of(*r));
    v
}

/// Reads a function signature from `src`: the signature, then each argument
/// from its text, in order; or the first error.
pub fn read_signature(src: &String) -> (r: Result<SigRead, String>)
    ensures
        r matches Ok(x) ==> sig_read_from(x, src@),
{
    let syntax = match parse_signature(src.as_str()) {
        Ok(s) => s,
        Err(e) => return Err(e),
    };
    let mut args: Vec<ArgSyntax> = Vec::new();
    let n = syntax.args.len();
    for i in 0..n
        invariant
            n == syntax.args@.len(),
            args@.len() == i,
            forall|k: int| 0 <= k < i ==> (#[trigger] args@[k]).source@ == syntax.args@[k]@,
    {
        match parse_fn_arg(syntax.args[i].as_str()) {
            Ok(a) => args.push(a),
            Err(e) => return Err(e),
        }
    }
    Ok(SigRead { syntax, args })
}

/// Reads one item from `src` with grammar `g`, and, where it is a function,
/// its signature from the signature text found; or the first error.
pub fn read_item(src: &String, g: Grammar) -> (r: Result<ItemRead, String>)
    ensures
        r matches Ok(x) ==> item_read_from(x, src@, g),
{
    let parsed = match g {
        Grammar::TraitItem => parse_trait_item(src.as_str()),
        Grammar::ImplItem => parse_impl_item(src.as_str()),
    };
    let syntax = match parsed {
        Ok(x) => x,
        Err(e) => return Err(e),
    };
    let sig = match &syntax.signature {
        Some(t) => match read_signature(t) {
            Ok(s) => Some(s),
            Err(e) => return Err(e),
        },
        None => None,
    };
    Ok(ItemRead { syntax, sig })
}

/// Reads each item from its text with grammar `g`, in order; or the first error.
pub fn read_items(ts: &Vec<String>, g: Grammar) -> (r: Result<Vec<ItemRead>, String>)
    ensures
        r matches Ok(v) ==> items_read_from(v@, ts@, g),
{
    let mut out: Vec<ItemRead> = Vec::new();
    let n = ts.len();
    for i in 0..n
        invariant
            n == ts@.len(),
            out@.len() == i,
            forall|k: int| 0 <= k < i ==> item_read_from(#[trigger] out@[k], ts@[k]@, g),
    {
        match read_item(&ts[i], g) {
            Ok(x) => out.push(x),
            Err(e) => return Err(e),
        }
    }
    Ok(out)
}

/// Reads the `impl` block that `src` holds, and its items with the grammar of
/// `impl` items; or the first error.
pub fn read_impl(src: &str) -> (r: Result<ImplRead, String>)
    ensures
        r matches Ok(x) ==> impl_read_from(x, src@),
{
    let syntax = match parse_impl(src) {
        Ok(h) => h,
        Err(e) => return Err(e),
    };
    let items = match read_items(&syntax.items, Grammar::ImplItem) {
        Ok(items) => items,
        Err(e) => return Err(e),
    };
    Ok(ImplRead { syntax, items })
}

/// Reads the trait that `src` holds, and its items with the grammar of trait
/// items; or the first error.
pub fn read_trait(src: &str) -> (r: Result<TraitRead, String>)
    ensures
        r matches Ok(x) ==> trait_read_from(x, src@),
{
    let syntax = match parse_trait(src) {
        Ok(t) => t,
        Err(e) => return Err(e),
    };
    let items = match read_items(&syntax.items, Grammar::TraitItem) {
        Ok(items) => items,
        Err(e) => return Err(e),
    };
    Ok(TraitRead { syntax, items })
}

/// Reads the attribute arguments that `src` holds, then each argument from its
/// text, in order; or the first error.
pub fn read_attr(src: &str) -> (r: Result<AttrRead, String>)
    ensures
        r matches Ok(x) ==> attr_read_from(x, src@),
{
    let syntax = match parse_attr_args(src) {
        Ok(s) => s,
        Err(e) => return Err(e),
    };
    let mut args: Vec<MetaSyntax> = Vec::new();
    let n = syntax.args.len();
    for i in 0..n
        invariant
            n == syntax.args@.len(),
            args@.len() == i,
            forall|k: int| 0 <= k < i ==> (#[trigger] args@[k]).source@ == syntax.args@[k]@,
    {
        match parse_meta(syntax.args[i].as_str()) {
            Ok(m) => args.push(m),
            Err(e) => return Err(e),
        }
    }
    Ok(AttrRead { syntax, args })
}

} // verus!
