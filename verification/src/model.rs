//! Plain-value descriptions of the Rust items that the attribute macros read:
//! every piece of syntax is held as its source text.

use vstd::prelude::*;
use vstd::string::*;

use crate::text::{join, lemma_join_push};

verus! {

/// One argument of a function signature.
#[derive(Debug)]
pub enum FnArgModel {
    /// `self`, `&self`, `&mut self` and the like.
    Receiver,
    /// `pat: ty`, with the pattern's and the type's source text.
    Typed { pat: String, ty: String },
}

/// An argument, its texts taken by their characters.
pub enum ArgView {
    Receiver,
    Typed { pat: Seq<char>, ty: Seq<char> },
}

impl View for FnArgModel {
    type V = ArgView;

    open spec fn view(&self) -> ArgView {
        match self {
            FnArgModel::Receiver => ArgView::Receiver,
            FnArgModel::Typed { pat, ty } => ArgView::Typed { pat: pat@, ty: ty@ },
        }
    }
}

/// The views of a list of arguments.
pub open spec fn arg_views(v: Seq<FnArgModel>) -> Seq<ArgView> {
    v.map_values(|a: FnArgModel| a@)
}

/// A function signature.
#[derive(Debug)]
pub struct FnSigModel {
    /// The function's name.
    pub ident: String,
    /// Whether the signature is `async`.
    pub is_async: bool,
    /// Source text of the whole argument list, as written between the parentheses.
    pub inputs: String,
    /// The arguments one by one.
    pub args: Vec<FnArgModel>,
    /// Source text of the return type, `-> T`, or empty where there is none.
    pub output: String,
}

/// A function signature, its texts taken by their characters.
pub struct SigView {
    pub ident: Seq<char>,
    pub is_async: bool,
    pub inputs: Seq<char>,
    pub args: Seq<ArgView>,
    pub output: Seq<char>,
}

impl View for FnSigModel {
    type V = SigView;

    open spec fn view(&self) -> SigView {
        SigView {
            ident: self.ident@,
            is_async: self.is_async,
            inputs: self.inputs@,
            args: arg_views(self.args@),
            output: self.output@,
        }
    }
}

/// One item of an `impl` block or of a trait.
#[derive(Debug)]
pub enum ItemModel {
    /// A function (a method or an associated function).
    Fn(FnSigModel),
    /// A constant, a type, a macro call or anything else.
    Other,
}

/// An item, its texts taken by their characters.
pub enum ItemView {
    Fn(SigView),
    Other,
}

impl View for ItemModel {
    type V = ItemView;

    open spec fn view(&self) -> ItemView {
        match self {
            ItemModel::Fn(sig) => ItemView::Fn(sig@),
            ItemModel::Other => ItemView::Other,
        }
    }
}

/// The views of a list of items.
pub open spec fn item_views(v: Seq<ItemModel>) -> Seq<ItemView> {
    v.map_values(|i: ItemModel| i@)
}

/// The position of the first receiver among `args`, if there is one.
pub open spec fn receiver_index(args: Seq<ArgView>) -> Option<int>
    decreases args.len(),
{
    if args.len() == 0 {
        None
    } else {
        match receiver_index(args.drop_last()) {
            Some(j) => Some(j),
            None => if args.last() is Receiver {
                Some(args.len() - 1)
            } else {
                None
            },
        }
    }
}

/// The first function among `items` that takes a receiver: its position, and
/// the position of that receiver among its arguments.
pub open spec fn untyped_argument(items: Seq<ItemView>) -> Option<(int, int)>
    decreases items.len(),
{
    if items.len() == 0 {
        None
    } else {
        match untyped_argument(items.drop_last()) {
            Some(p) => Some(p),
            None => match items.last() {
                ItemView::Fn(sig) => match receiver_index(sig.args) {
                    Some(j) => Some((items.len() - 1, j)),
                    None => None,
                },
                ItemView::Other => None,
            },
        }
    }
}

/// A receiver found in a prefix is the first one of the whole list.
pub proof fn lemma_receiver_index_prefix(args: Seq<ArgView>, k: int)
    requires
        0 <= k <= args.len(),
        receiver_index(args.take(k)) is Some,
    ensures
        receiver_index(args) == receiver_index(args.take(k)),
    decreases args.len() - k,
{
    if args.len() == k {
        assert(args.take(k) =~= args);
    } else {
        assert(args.drop_last().take(k) =~= args.take(k));
        lemma_receiver_index_prefix(args.drop_last(), k);
    }
}

/// An offending function found in a prefix is the first one of the whole list.
pub proof fn lemma_untyped_argument_prefix(items: Seq<ItemView>, k: int)
    requires
        0 <= k <= items.len(),
        untyped_argument(items.take(k)) is Some,
    ensures
        untyped_argument(items) == untyped_argument(items.take(k)),
    decreases items.len() - k,
{
    if items.len() == k {
        assert(items.take(k) =~= items);
    } else {
        assert(items.drop_last().take(k) =~= items.take(k));
        lemma_untyped_argument_prefix(items.drop_last(), k);
    }
}

/// Finds the first receiver among `args`.
pub fn find_receiver(args: &Vec<FnArgModel>) -> (r: Option<usize>)
    ensures
        match r {
            Some(j) => receiver_index(arg_views(args@)) == Some(j as int),
            None => receiver_index(arg_views(args@)) is None,
        },
{
    let ghost v = arg_views(args@);
    let n = args.len();
    for i in 0..n
        invariant
            n == args@.len(),
            v == arg_views(args@),
            receiver_index(v.take(i as int)) is None,
    {
        assert(v[i as int] == args@[i as int]@);
        assert(v.take(i + 1).drop_last() =~= v.take(i as int));
        match &args[i] {
            FnArgModel::Receiver => {
                proof {
                    lemma_receiver_index_prefix(v, i + 1);
                }
                return Some(i);
            },
            FnArgModel::Typed { .. } => {},
        }
    }
    assert(v.take(n as int) =~= v);
    None
}

/// Finds the first function among `items` that takes a receiver.
pub fn find_untyped_argument(items: &Vec<ItemModel>) -> (r: Option<(usize, usize)>)
    ensures
        match r {
            Some((i, j)) => untyped_argument(item_views(items@)) == Some((i as int, j as int)),
            None => untyped_argument(item_views(items@)) is None,
        },
{
    let ghost v = item_views(items@);
    let n = items.len();
    for i in 0..n
        invariant
            n == items@.len(),
            v == item_views(items@),
            untyped_argument(v.take(i as int)) is None,
    {
        assert(v[i as int] == items@[i as int]@);
        assert(v.take(i + 1).drop_last() =~= v.take(i as int));
        match &items[i] {
            ItemModel::Fn(sig) => {
                match find_receiver(&sig.args) {
                    Some(j) => {
                        proof {
                            lemma_untyped_argument_prefix(v, i + 1);
                        }
                        return Some((i, j));
                    },
                    None => {},
                }
            },
            ItemModel::Other => {},
        }
    }
    assert(v.take(n as int) =~= v);
    None
}

/// The pattern of an argument; `self` for a receiver.
pub open spec fn arg_pat(a: ArgView) -> Seq<char> {
    match a {
        ArgView::Typed { pat, .. } => pat,
        ArgView::Receiver => "self"@,
    }
}

/// The patterns of the arguments, in order.
pub open spec fn arg_pats(args: Seq<ArgView>) -> Seq<Seq<char>> {
    args.map_values(|a: ArgView| arg_pat(a))
}

/// The arguments that a call passes on: the patterns, separated by commas.
pub open spec fn call_args_text(args: Seq<ArgView>) -> Seq<char> {
    join(arg_pats(args), ", "@)
}

/// The keyword in front of `fn` that a signature carries.
pub open spec fn async_kw(is_async: bool) -> Seq<char> {
    if is_async {
        "async "@
    } else {
        ""@
    }
}

/// The keyword in front of `fn` that a signature carries.
pub fn async_keyword(is_async: bool) -> (s: &'static str)
    ensures
        s@ == async_kw(is_async),
{
    if is_async {
        "async "
    } else {
        ""
    }
}

/// Writes the arguments that a call passes on.
pub fn call_args(args: &Vec<FnArgModel>) -> (s: String)
    ensures
        s@ == call_args_text(arg_views(args@)),
{
    let ghost v = arg_views(args@);
    let mut s = String::new();
    let n = args.len();
    for i in 0..n
        invariant
            n == args@.len(),
            v == arg_views(args@),
            s@ == join(arg_pats(v.take(i as int)), ", "@),
    {
        assert(v[i as int] == args@[i as int]@);
        proof {
            assert(arg_pats(v.take(i + 1)) =~= arg_pats(v.take(i as int)).push(arg_pat(v[i as int])));
            lemma_join_push(arg_pats(v.take(i as int)), ", "@, arg_pat(v[i as int]));
        }
        if i > 0 {
            s.append(", ");
        }
        match &args[i] {
            FnArgModel::Typed { pat, .. } => s.append(pat.as_str()),
            FnArgModel::Receiver => s.append("self"),
        }
        proof {
            if i == 0 {
                assert(s@ =~= arg_pat(v[i as int]));
            }
        }
    }
    assert(v.take(n as int) =~= v);
    s
}

} // verus!
