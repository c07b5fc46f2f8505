//! Writing the owning finalizer as an `impl Drop` block.
//!
//! ```text
//! impl Drop for Foo {
//!     fn drop(Self { a, .. }: _) { ... }
//! }
//! ```
//!
//! is checked for exactly that shape, then rewritten into an impl of
//! `DropWithOwnedFields`, the pattern and the placeholder type both naming
//! the companion record, `DestructuredFieldsOf<Self>`.
use vstd::prelude::*;

use crate::syntax::{
    diag, tokens_view, DiagView, Diagnostic, ErrorKind, Location, Path, PathView, Token, TokenView,
};

verus! {

/// The trait of an impl block: `!` if negated, its path, and whether a
/// segment of it carries generic arguments.
pub struct TraitRef {
    pub negated: bool,
    pub path: Path,
    pub has_args: bool,
}

/// A path in a pattern or a type: as written, or the companion record of the
/// type it names (`DestructuredFieldsOf<path>`).
pub enum TypePath {
    Written(Path),
    FieldsOf(Path),
}

pub ghost enum TypePathView {
    Written(PathView),
    FieldsOf(PathView),
}

impl View for TypePath {
    type V = TypePathView;

    open spec fn view(&self) -> TypePathView {
        match self {
            TypePath::Written(p) => TypePathView::Written(p@),
            TypePath::FieldsOf(p) => TypePathView::FieldsOf(p@),
        }
    }
}

/// The pattern of a parameter. `qself` records a qualified path
/// (`<T as Trait>::..`).
pub enum Pat {
    Struct { qself: bool, path: TypePath },
    TupleStruct { qself: bool, path: TypePath },
    Other,
}

pub ghost enum PatView {
    Struct { qself: bool, path: TypePathView },
    TupleStruct { qself: bool, path: TypePathView },
    Other,
}

impl View for Pat {
    type V = PatView;

    open spec fn view(&self) -> PatView {
        match self {
            Pat::Struct { qself, path } => PatView::Struct { qself: *qself, path: path@ },
            Pat::TupleStruct { qself, path } => PatView::TupleStruct { qself: *qself, path: path@ },
            Pat::Other => PatView::Other,
        }
    }
}

/// The type of a parameter: the placeholder `_`, a path, or anything else.
pub enum Ty {
    Infer,
    Path(TypePath),
    Other,
}

pub ghost enum TyView {
    Infer,
    Path(TypePathView),
    Other,
}

impl View for Ty {
    type V = TyView;

    open spec fn view(&self) -> TyView {
        match self {
            Ty::Infer => TyView::Infer,
            Ty::Path(p) => TyView::Path(p@),
            Ty::Other => TyView::Other,
        }
    }
}

/// A parameter of a function: `self` in some form, or `pattern: type`.
pub enum FnArg {
    Receiver,
    Typed { pat: Pat, ty: Ty },
}

pub ghost enum FnArgView {
    Receiver,
    Typed { pat: PatView, ty: TyView },
}

impl View for FnArg {
    type V = FnArgView;

    open spec fn view(&self) -> FnArgView {
        match self {
            FnArg::Receiver => FnArgView::Receiver,
            FnArg::Typed { pat, ty } => FnArgView::Typed { pat: pat@, ty: ty@ },
        }
    }
}

/// An item of an impl block: a function (its name and parameters), or
/// another item.
pub enum ImplItem {
    Fn { ident: String, inputs: Vec<FnArg> },
    Other,
}

pub ghost enum ImplItemView {
    Fn { ident: Seq<char>, inputs: Seq<FnArgView> },
    Other,
}

impl View for ImplItem {
    type V = ImplItemView;

    open spec fn view(&self) -> ImplItemView {
        match self {
            ImplItem::Fn { ident, inputs } => ImplItemView::Fn {
                ident: ident@,
                inputs: inputs@.map_values(|a: FnArg| a@),
            },
            ImplItem::Other => ImplItemView::Other,
        }
    }
}

/// An impl block: its trait, if any, and its items.
pub struct ItemImpl {
    pub trait_: Option<TraitRef>,
    pub items: Vec<ImplItem>,
}

pub ghost struct ItemImplView {
    pub trait_: Option<(bool, PathView, bool)>,
    pub items: Seq<ImplItemView>,
}

impl View for ItemImpl {
    type V = ItemImplView;

    open spec fn view(&self) -> ItemImplView {
        ItemImplView {
            trait_: match self.trait_ {
                Some(t) => Some((t.negated, t.path@, t.has_args)),
                None => None,
            },
            items: self.items@.map_values(|i: ImplItem| i@),
        }
    }
}

/// The trait is `Drop`, written as a single segment without arguments.
pub open spec fn is_drop_trait(t: Option<(bool, PathView, bool)>) -> bool {
    match t {
        Some((negated, path, has_args)) => !negated && !has_args && path.segments.len() == 1
            && path.segments[0] == "Drop"@,
        None => false,
    }
}

/// The pattern destructures `Self`, as a record or as a tuple record.
pub open spec fn destructures_self(p: PatView) -> bool {
    match p {
        PatView::Struct { qself, path } => !qself && path == TypePathView::Written(
            PathView { leading_colon: false, segments: seq!["Self"@] },
        ),
        PatView::TupleStruct { qself, path } => !qself && path == TypePathView::Written(
            PathView { leading_colon: false, segments: seq!["Self"@] },
        ),
        PatView::Other => false,
    }
}

pub open spec fn not_a_destructuring_of_self() -> Seq<char> {
    "expected a `Self { fields… }` or `Self(fields…)` destructuring pattern"@
}

/// The first shape error of `i` with arguments `args`, if any: its kind and
/// its message.
pub open spec fn sugar_error(args: Seq<TokenView>, i: ItemImplView) -> Option<DiagView> {
    if args.len() > 0 {
        Some(diag(ErrorKind::UnexpectedTrailingArgument, Location::Arguments, "unexpected token"@))
    } else if !is_drop_trait(i.trait_) {
        Some(diag(ErrorKind::WrongContract, Location::ImplTarget, "expected a `Drop` impl"@))
    } else if i.items.len() == 0 {
        Some(diag(ErrorKind::WrongFunctionCount, Location::ImplEnd, "expected at least one `fn`"@))
    } else if i.items.len() > 1 {
        Some(diag(ErrorKind::WrongFunctionCount, Location::Item(1), "unexpected item"@))
    } else if !(i.items[0] is Fn) {
        Some(diag(ErrorKind::WrongFunctionCount, Location::Item(0), "unexpected item"@))
    } else if i.items[0]->Fn_ident != "drop"@ {
        Some(diag(ErrorKind::WrongFunctionCount, Location::FnName, "expected `drop`"@))
    } else {
        let inputs = i.items[0]->Fn_inputs;
        if inputs.len() >= 2 {
            Some(diag(ErrorKind::ExtraneousParameter, Location::Param(1), "extraneous `fn` arg"@))
        } else if inputs.len() == 0 {
            Some(diag(ErrorKind::IllFormedFinalizerPattern, Location::ParamsEnd, not_a_destructuring_of_self()))
        } else {
            match inputs[0] {
                FnArgView::Typed { pat, ty } => if ty != TyView::Infer {
                    Some(diag(ErrorKind::IllFormedFinalizerPattern, Location::ParamType, "expected `_`"@))
                } else if !destructures_self(pat) {
                    Some(diag(ErrorKind::IllFormedFinalizerPattern, Location::Param(0), not_a_destructuring_of_self()))
                } else {
                    None
                },
                FnArgView::Receiver => Some(
                    diag(ErrorKind::IllFormedFinalizerPattern, Location::Param(0), not_a_destructuring_of_self()),
                ),
            }
        }
    }
}

/// `::drop_with_owned_fields::DropWithOwnedFields`.
pub open spec fn owning_finalizer_path() -> PathView {
    PathView {
        leading_colon: true,
        segments: seq!["drop_with_owned_fields"@, "DropWithOwnedFields"@],
    }
}

/// The pattern `p`, destructuring the companion record in place of `Self`.
pub open spec fn on_fields(p: PatView) -> PatView {
    match p {
        PatView::Struct { qself, path } => PatView::Struct {
            qself,
            path: TypePathView::FieldsOf(path->Written_0),
        },
        PatView::TupleStruct { qself, path } => PatView::TupleStruct {
            qself,
            path: TypePathView::FieldsOf(path->Written_0),
        },
        PatView::Other => PatView::Other,
    }
}

/// The rewritten block: an impl of the owning-finalizer trait whose `drop`
/// takes the companion record.
pub open spec fn rewritten(i: ItemImplView) -> ItemImplView {
    let inputs = i.items[0]->Fn_inputs;
    ItemImplView {
        trait_: Some((false, owning_finalizer_path(), false)),
        items: seq![
            ImplItemView::Fn {
                ident: "drop"@,
                inputs: seq![
                    FnArgView::Typed {
                        pat: on_fields(inputs[0]->Typed_pat),
                        ty: TyView::Path(
                            TypePathView::FieldsOf(
                                PathView { leading_colon: false, segments: seq!["Self"@] },
                            ),
                        ),
                    },
                ],
            },
        ],
    }
}

fn self_path() -> (r: Path)
    ensures
        r@ == (PathView { leading_colon: false, segments: seq!["Self"@] }),
{
    Path::ident(String::from_str("Self"))
}

fn is_self_path(p: &TypePath) -> (r: bool)
    ensures
        r == (p@ == TypePathView::Written(PathView { leading_colon: false, segments: seq!["Self"@] })),
{
    match p {
        TypePath::Written(p) => {
            let r = p.is_ident("Self");
            assert(r ==> p@.segments =~= seq!["Self"@]);
            r
        },
        TypePath::FieldsOf(_) => false,
    }
}

/// Checks that `impl_` is an `impl Drop` block whose one function is
/// `fn drop(Self { .. }: _)` (or `Self(..)`), with no arguments given to the
/// attribute, and rewrites it into the owning-finalizer form. The first
/// deviation found is reported.
pub fn handle(args: &Vec<Token>, impl_: ItemImpl) -> (r: Result<ItemImpl, Diagnostic>)
    ensures
        match sugar_error(tokens_view(args@), impl_@) {
            None => r is Ok && r->Ok_0@ == rewritten(impl_@),
            Some(d) => r is Err && r->Err_0@ == d,
        },
{
    if args.len() > 0 {
        return Err(Diagnostic::new(ErrorKind::UnexpectedTrailingArgument, Location::Arguments, "unexpected token"));
    }
    let is_drop = match &impl_.trait_ {
        Some(t) => !t.negated && !t.has_args && t.path.segments.len() == 1
            && crate::syntax::is_word(&t.path.segments[0], "Drop"),
        None => false,
    };
    if !is_drop {
        return Err(Diagnostic::new(ErrorKind::WrongContract, Location::ImplTarget, "expected a `Drop` impl"));
    }
    if impl_.items.len() == 0 {
        return Err(Diagnostic::new(ErrorKind::WrongFunctionCount, Location::ImplEnd, "expected at least one `fn`"));
    }
    if impl_.items.len() > 1 {
        return Err(Diagnostic::new(ErrorKind::WrongFunctionCount, Location::Item(1), "unexpected item"));
    }
    let (ident, inputs) = match &impl_.items[0] {
        ImplItem::Fn { ident, inputs } => (ident, inputs),
        ImplItem::Other => return Err(Diagnostic::new(ErrorKind::WrongFunctionCount, Location::Item(0), "unexpected item")),
    };
    if !crate::syntax::is_word(ident, "drop") {
        return Err(Diagnostic::new(ErrorKind::WrongFunctionCount, Location::FnName, "expected `drop`"));
    }
    let ghost inputs_view = impl_@.items[0]->Fn_inputs;
    assert(inputs_view.len() == inputs.len());
    if inputs.len() >= 2 {
        return Err(Diagnostic::new(ErrorKind::ExtraneousParameter, Location::Param(1), "extraneous `fn` arg"));
    }
    if inputs.len() == 0 {
        return Err(
            Diagnostic::new(
                ErrorKind::IllFormedFinalizerPattern,
                Location::ParamsEnd,
                "expected a `Self { fields… }` or `Self(fields…)` destructuring pattern",
            ),
        );
    }
    assert(inputs_view[0] == inputs@[0]@);
    let pat = match &inputs[0] {
        FnArg::Typed { pat, ty } => {
            let infer = match ty {
                Ty::Infer => true,
                _ => false,
            };
            if !infer {
                return Err(Diagnostic::new(ErrorKind::IllFormedFinalizerPattern, Location::ParamType, "expected `_`"));
            }
            match pat {
                Pat::Struct { qself, path } => if !*qself && is_self_path(path) {
                    Pat::Struct { qself: false, path: TypePath::FieldsOf(self_path()) }
                } else {
                    return Err(
                        Diagnostic::new(
                            ErrorKind::IllFormedFinalizerPattern,
                            Location::Param(0),
                            "expected a `Self { fields… }` or `Self(fields…)` destructuring pattern",
                        ),
                    );
                },
                Pat::TupleStruct { qself, path } => if !*qself && is_self_path(path) {
                    Pat::TupleStruct { qself: false, path: TypePath::FieldsOf(self_path()) }
                } else {
                    return Err(
                        Diagnostic::new(
                            ErrorKind::IllFormedFinalizerPattern,
                            Location::Param(0),
                            "expected a `Self { fields… }` or `Self(fields…)` destructuring pattern",
                        ),
                    );
                },
                Pat::Other => return Err(
                    Diagnostic::new(
                        ErrorKind::IllFormedFinalizerPattern,
                        Location::Param(0),
                        "expected a `Self { fields… }` or `Self(fields…)` destructuring pattern",
                    ),
                ),
            }
        },
        FnArg::Receiver => return Err(
            Diagnostic::new(
                ErrorKind::IllFormedFinalizerPattern,
                Location::Param(0),
                "expected a `Self { fields… }` or `Self(fields…)` destructuring pattern",
            ),
        ),
    };
    let mut segments: Vec<String> = Vec::new();
    segments.push(String::from_str("drop_with_owned_fields"));
    segments.push(String::from_str("DropWithOwnedFields"));
    let trait_ = TraitRef { negated: false, path: Path { leading_colon: true, segments }, has_args: false };
    let mut new_inputs: Vec<FnArg> = Vec::new();
    new_inputs.push(FnArg::Typed { pat, ty: Ty::Path(TypePath::FieldsOf(self_path())) });
    let mut items: Vec<ImplItem> = Vec::new();
    items.push(ImplItem::Fn { ident: String::from_str("drop"), inputs: new_inputs });
    let r = ItemImpl { trait_: Some(trait_), items };
    proof {
        assert(crate::syntax::words(segments@) =~= seq!["drop_with_owned_fields"@, "DropWithOwnedFields"@]);
        assert(r@.items[0]->Fn_inputs =~= rewritten(impl_@).items[0]->Fn_inputs);
        assert(r@.items =~= rewritten(impl_@).items);
    }
    Ok(r)
}

} // verus!
