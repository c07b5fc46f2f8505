//! The expansion of an annotated record declaration.
//!
//! For a record `Foo`, the expansion defines, in a helper module nested in
//! the declaring module: the companion record (same fields, same order, same
//! types, each visibility widened by one level), and the owning wrapper
//! `Foo`, which holds the companion record in a non-finalizing holder and is
//! re-exported under the declaration's own visibility. The wrap conversion
//! carries the declaration's visibility, the bypass operation the same one
//! capped at the crate.
use vstd::prelude::*;

use crate::args::{parse_args, Args, RenameView};
use crate::drop_sugar::{handle, rewritten, sugar_error, ItemImpl};
use crate::derives::{
    best_effort_compat_with_other_derives_and_attrs, compat_attrs, out_attrs_view,
    reconstruct_of, reconstruct_view, struct_fields, Compat,
};
use crate::syntax::{
    attrs_view, diag, diags_view, fields_view, tokens_view, words, AttrView, Data, Declaration,
    copy_strings, DiagView, Diagnostic, ErrorKind, Field, FieldView, FieldsKind, Location, Token,
    VisView, Visibility,
};
use crate::visibility::{
    capped_at_crate, lemma_widened_same_scope, pub_capped_at_crate, scope_of, super_of, widened,
};

verus! {

/// What the expansion of a record declaration defines.
pub struct Expansion {
    /// The re-emitted declaration's attributes and the rebuilt capabilities.
    pub compat: Compat,
    /// The positions of the declaration's documentation attributes.
    pub docs: Vec<usize>,
    /// The declaration's visibility: that of the re-export of the wrapper
    /// and of the wrap conversion.
    pub vis: Visibility,
    pub ident: String,
    pub helper_module: String,
    pub fields_ident: String,
    /// The visibility of the re-export of a named companion record.
    pub fields_re_export: Option<Visibility>,
    /// The visibility of the companion record and of the wrapper in the
    /// helper module.
    pub companion_vis: Visibility,
    /// The positions of the declaration's attributes that the companion
    /// record carries, in order.
    pub companion_attrs: Vec<usize>,
    /// The generic parameters and the where-clause of the companion record
    /// and of the wrapper, as written.
    pub generics: String,
    pub where_clause: String,
    /// How the companion record lists its fields.
    pub companion_kind: FieldsKind,
    /// The fields of the companion record.
    pub companion_fields: Vec<Field>,
    pub bypass_vis: Visibility,
}

pub open spec fn is_doc(a: AttrView) -> bool {
    a.path.is_ident("doc"@)
}

/// The positions of the documentation attributes.
pub open spec fn doc_positions(attrs: Seq<AttrView>) -> Seq<int>
    decreases attrs.len(),
{
    if attrs.len() == 0 {
        Seq::empty()
    } else {
        let init = doc_positions(attrs.drop_last());
        if is_doc(attrs.last()) {
            init.push(attrs.len() - 1)
        } else {
            init
        }
    }
}

/// The name of the helper module of record `ident`.
pub open spec fn helper_module_of(ident: Seq<char>) -> Seq<char> {
    "_"@ + ident + "\u{d9e}drop_with_owned_fields"@
}

/// The name of the companion record of `ident`.
pub open spec fn fields_ident_of(ident: Seq<char>, rename: Option<RenameView>) -> Seq<char> {
    match rename {
        Some(r) => r.name,
        None => ident + "\u{d9e}Fields"@,
    }
}

/// A field of the companion record: the field `f` with its visibility
/// widened.
pub open spec fn companion_field(f: FieldView) -> FieldView {
    FieldView { vis: widened(f.vis), ..f }
}

/// How the record declaration `d` lists its fields.
pub open spec fn struct_kind(d: Data) -> FieldsKind {
    match d {
        Data::Struct { kind, .. } => kind,
        _ => FieldsKind::Unit,
    }
}

pub open spec fn opt_vis_view(v: Option<Visibility>) -> Option<VisView> {
    match v {
        Some(x) => Some(x@),
        None => None,
    }
}

/// The expansion of the record declaration `d`, its companion record being
/// named by `rename`.
pub open spec fn expansion_matches(e: Expansion, d: Declaration, rename: Option<RenameView>) -> bool {
    let attrs = attrs_view(d.attrs@);
    let fields = fields_view(struct_fields(d.data));
    let fields_ident = fields_ident_of(d.ident@, rename);
    &&& out_attrs_view(e.compat.attrs@) == compat_attrs(attrs, fields_ident)
    &&& reconstruct_view(e.compat.clone) == reconstruct_of(attrs, words(d.type_params@), fields, "Clone"@)
    &&& reconstruct_view(e.compat.default) == reconstruct_of(attrs, words(d.type_params@), fields, "Default"@)
    &&& e.docs@.map_values(|i: usize| i as int) == doc_positions(attrs)
    &&& e.vis@ == d.vis@
    &&& e.ident@ == d.ident@
    &&& e.helper_module@ == helper_module_of(d.ident@)
    &&& e.fields_ident@ == fields_ident
    &&& opt_vis_view(e.fields_re_export) == match rename {
        Some(r) => Some(r.vis),
        None => None::<VisView>,
    }
    &&& e.companion_vis@ == widened(d.vis@)
    &&& e.companion_attrs@.map_values(|i: usize| i as int) == Seq::new(d.attrs@.len(), |i: int| i)
    &&& e.generics@ == d.generics@
    &&& e.where_clause@ == d.where_clause@
    &&& e.companion_kind == struct_kind(d.data)
    &&& fields_view(e.companion_fields@) == fields.map_values(|f: FieldView| companion_field(f))
    &&& e.bypass_vis@ == capped_at_crate(d.vis@)
}

/// The errors of an expansion, in the order they are reported: that of the
/// arguments, then that of the shape.
pub open spec fn expansion_errors(t: Seq<crate::syntax::TokenView>, d: Declaration) -> Seq<DiagView> {
    (match parse_args(t) {
        Err(e) => seq![e],
        Ok(_) => Seq::empty(),
    }) + (if d.data is Struct {
        Seq::empty()
    } else {
        seq![diag(ErrorKind::UnsupportedShape, Location::DataKeyword, "expected a `struct`"@)]
    })
}

/// The companion record and each of its fields, standing in the helper
/// module `h` nested in the declaring module `m`, are visible exactly where
/// the declaration and the corresponding field were: never less, and never
/// more.
pub proof fn lemma_companion_visible_where_declared(
    e: Expansion,
    d: Declaration,
    rename: Option<RenameView>,
    m: Seq<Seq<char>>,
    h: Seq<char>,
)
    requires
        expansion_matches(e, d, rename),
    ensures
        scope_of(e.companion_vis@, m.push(h)) == scope_of(d.vis@, m),
        forall|i: int|
            0 <= i < e.companion_fields@.len() ==> scope_of(
                (#[trigger] e.companion_fields@[i])@.vis,
                m.push(h),
            ) == scope_of(struct_fields(d.data)[i]@.vis, m),
{
    lemma_widened_same_scope(d.vis@, m, h);
    lemma_companion_keeps_fields(e, d, rename);
    assert forall|i: int| 0 <= i < e.companion_fields@.len() implies scope_of(
        (#[trigger] e.companion_fields@[i])@.vis,
        m.push(h),
    ) == scope_of(struct_fields(d.data)[i]@.vis, m) by {
        lemma_widened_same_scope(struct_fields(d.data)[i]@.vis, m, h);
    }
}

/// The companion record is the declaration with its visibilities widened:
/// it carries all the declaration's attributes, in order, its generic
/// parameters, its where-clause and its way of listing fields; and exactly
/// its fields, as many, in the same order, with the same attributes, names
/// and types.
pub proof fn lemma_companion_keeps_fields(e: Expansion, d: Declaration, rename: Option<RenameView>)
    requires
        expansion_matches(e, d, rename),
    ensures
        e.companion_attrs@.len() == d.attrs@.len(),
        forall|i: int| 0 <= i < e.companion_attrs@.len() ==> #[trigger] e.companion_attrs@[i] == i,
        e.generics@ == d.generics@,
        e.where_clause@ == d.where_clause@,
        e.companion_kind == struct_kind(d.data),
        e.companion_fields@.len() == struct_fields(d.data).len(),
        forall|i: int|
            0 <= i < e.companion_fields@.len() ==> {
                let c = #[trigger] e.companion_fields@[i]@;
                let f = struct_fields(d.data)[i]@;
                c.attrs == f.attrs && c.ident == f.ident && c.ty == f.ty && c.vis == widened(f.vis)
            },
{
    let positions = e.companion_attrs@.map_values(|i: usize| i as int);
    assert(positions.len() == d.attrs@.len());
    assert forall|i: int| 0 <= i < e.companion_attrs@.len() implies #[trigger] e.companion_attrs@[i] == i by {
        assert(positions[i] == e.companion_attrs@[i] as int);
    }
    let fields = fields_view(struct_fields(d.data));
    assert(fields_view(e.companion_fields@).len() == fields.len());
    assert forall|i: int| 0 <= i < e.companion_fields@.len() implies {
        let c = #[trigger] e.companion_fields@[i]@;
        let f = struct_fields(d.data)[i]@;
        c.attrs == f.attrs && c.ident == f.ident && c.ty == f.ty && c.vis == widened(f.vis)
    } by {
        assert(fields_view(e.companion_fields@)[i] == e.companion_fields@[i]@);
        assert(fields[i] == struct_fields(d.data)[i]@);
        assert(fields_view(e.companion_fields@)[i] == companion_field(fields[i]));
    }
}

fn collect_docs(attrs: &Vec<crate::syntax::Attribute>) -> (r: Vec<usize>)
    ensures
        r@.map_values(|i: usize| i as int) == doc_positions(attrs_view(attrs@)),
{
    let mut r: Vec<usize> = Vec::new();
    let mut i: usize = 0;
    while i < attrs.len()
        invariant
            i <= attrs.len(),
            r@.map_values(|k: usize| k as int) == doc_positions(attrs_view(attrs@).subrange(0, i as int)),
        decreases attrs.len() - i,
    {
        let ghost prefix = attrs_view(attrs@).subrange(0, i as int + 1);
        assert(prefix.drop_last() =~= attrs_view(attrs@).subrange(0, i as int));
        assert(prefix.last() == attrs@[i as int]@);
        if attrs[i].path.is_ident("doc") {
            r.push(i);
            assert(r@.map_values(|k: usize| k as int) =~= doc_positions(prefix));
        }
        i += 1;
    }
    assert(attrs_view(attrs@).subrange(0, i as int) =~= attrs_view(attrs@));
    r
}

/// The positions `0..n`, in order.
fn all_positions(n: usize) -> (r: Vec<usize>)
    ensures
        r@.map_values(|i: usize| i as int) == Seq::new(n as nat, |i: int| i),
{
    let mut r: Vec<usize> = Vec::new();
    let mut i: usize = 0;
    while i < n
        invariant
            i <= n,
            r.len() == i,
            forall|k: int| 0 <= k < i ==> #[trigger] r@[k] == k,
        decreases n - i,
    {
        r.push(i);
        i += 1;
    }
    assert(r@.map_values(|k: usize| k as int) =~= Seq::new(n as nat, |k: int| k));
    r
}

/// The fields of the companion record: each field with its visibility
/// widened.
fn companion_fields(fields: &Vec<Field>) -> (r: Vec<Field>)
    ensures
        fields_view(r@) == fields_view(fields@).map_values(|f: FieldView| companion_field(f)),
{
    let mut r: Vec<Field> = Vec::new();
    let mut i: usize = 0;
    while i < fields.len()
        invariant
            i <= fields.len(),
            r.len() == i,
            forall|k: int| 0 <= k < i ==> #[trigger] r@[k]@ == companion_field(fields@[k]@),
        decreases fields.len() - i,
    {
        let f = &fields[i];
        let ident = match &f.ident {
            Some(n) => Some(n.clone()),
            None => None,
        };
        r.push(Field { attrs: copy_strings(&f.attrs), vis: super_of(&f.vis), ident, ty: f.ty.clone() });
        i += 1;
    }
    assert(fields_view(r@) =~= fields_view(fields@).map_values(|f: FieldView| companion_field(f)));
    r
}

/// Plans the expansion of a record declaration, with the attribute's
/// arguments `args`. All the errors found are reported together: that of
/// the arguments, then that of the declaration's shape (only records are
/// accepted); on any error nothing is planned.
pub fn expand_declaration(args: &Vec<Token>, input: &Declaration) -> (r: Result<Expansion, Vec<Diagnostic>>)
    ensures
        r is Ok <==> expansion_errors(tokens_view(args@), *input).len() == 0,
        r is Ok ==> match parse_args(tokens_view(args@)) {
            Ok(rename) => expansion_matches(r->Ok_0, *input, rename),
            Err(_) => false,
        },
        r is Err ==> diags_view(r->Err_0@) == expansion_errors(tokens_view(args@), *input),
{
    let parsed = Args::parse(args);
    let ghost tv = tokens_view(args@);
    let mut errors: Vec<Diagnostic> = Vec::new();
    let parsed = match parsed {
        Ok(a) => Some(a),
        Err(e) => {
            errors.push(e);
            None
        },
    };
    let fields = match &input.data {
        Data::Struct { fields, .. } => Some(fields),
        _ => {
            errors.push(Diagnostic::new(ErrorKind::UnsupportedShape, Location::DataKeyword, "expected a `struct`"));
            None
        },
    };
    assert(diags_view(errors@) =~= expansion_errors(tv, *input));
    let (parsed, fields) = match (parsed, fields) {
        (Some(a), Some(f)) => (a, f),
        _ => return Err(errors),
    };
    let ident = &input.ident;
    let helper_module = String::from_str("_").concat(ident.as_str()).concat("\u{d9e}drop_with_owned_fields");
    let (fields_ident, fields_re_export) = match &parsed.maybe_rename {
        Some(x) => (x.name.clone(), Some(x.pub_.copy())),
        None => (ident.clone().concat("\u{d9e}Fields"), None),
    };
    let compat = best_effort_compat_with_other_derives_and_attrs(input, &fields_ident);
    let e = Expansion {
        compat,
        docs: collect_docs(&input.attrs),
        vis: input.vis.copy(),
        ident: ident.clone(),
        helper_module,
        fields_ident,
        fields_re_export,
        companion_vis: super_of(&input.vis),
        companion_attrs: all_positions(input.attrs.len()),
        generics: input.generics.clone(),
        where_clause: input.where_clause.clone(),
        companion_kind: match &input.data {
            Data::Struct { kind, .. } => *kind,
            _ => FieldsKind::Unit,
        },
        companion_fields: companion_fields(fields),
        bypass_vis: pub_capped_at_crate(&input.vis),
    };
    Ok(e)
}

/// What the attribute is put on: a type declaration, or an `impl Drop`
/// block written with the owning-finalizer sugar.
pub enum Input {
    DeriveInput(Declaration),
    ItemImpl(ItemImpl),
}

/// What the attribute expands to.
pub enum Output {
    Expansion(Expansion),
    ItemImpl(ItemImpl),
}

/// The errors of the attribute with arguments `t` on `input`, in the order
/// they are reported.
pub open spec fn attribute_errors(t: Seq<crate::syntax::TokenView>, input: Input) -> Seq<DiagView> {
    match input {
        Input::DeriveInput(d) => expansion_errors(t, d),
        Input::ItemImpl(i) => match sugar_error(t, i@) {
            Some(e) => seq![e],
            None => Seq::empty(),
        },
    }
}

/// `r` is the expansion of the attribute with arguments `t` on `input`,
/// when no error is found.
pub open spec fn expands_to(t: Seq<crate::syntax::TokenView>, input: Input, r: Output) -> bool {
    match input {
        Input::DeriveInput(d) => r is Expansion && match parse_args(t) {
            Ok(rename) => expansion_matches(r->Expansion_0, d, rename),
            Err(_) => false,
        },
        Input::ItemImpl(i) => r is ItemImpl && r->ItemImpl_0@ == rewritten(i@),
    }
}

/// Expands the attribute with arguments `args` on `input`. It succeeds
/// exactly when no error is found; otherwise it reports every error found,
/// in order, and expands to nothing.
pub fn drop_with_owned_fields_impl(args: &Vec<Token>, input: Input) -> (r: Result<Output, Vec<Diagnostic>>)
    ensures
        r is Ok <==> attribute_errors(tokens_view(args@), input).len() == 0,
        r is Ok ==> expands_to(tokens_view(args@), input, r->Ok_0),
        r is Err ==> diags_view(r->Err_0@) == attribute_errors(tokens_view(args@), input),
{
    let ghost tv = tokens_view(args@);
    match input {
        Input::DeriveInput(d) => match expand_declaration(args, &d) {
            Ok(e) => Ok(Output::Expansion(e)),
            Err(errors) => Err(errors),
        },
        Input::ItemImpl(i) => match handle(args, i) {
            Ok(i) => Ok(Output::ItemImpl(i)),
            Err(e) => {
                let mut errors: Vec<Diagnostic> = Vec::new();
                errors.push(e);
                assert(diags_view(errors@) =~= seq![errors@[0]@]);
                Err(errors)
            },
        },
    }
}

/// The prefix of every diagnostic of the attribute.
pub open spec fn diagnostic_prefix() -> Seq<char> {
    "`#[drop_with_owned_fields::drop_with_owned_fields]`: "@
}

/// The diagnostics `v`, each message prefixed with the attribute's name.
pub open spec fn prefixed(v: Seq<DiagView>) -> Seq<DiagView> {
    v.map_values(|d: DiagView| diag(d.kind, d.at, diagnostic_prefix() + d.message))
}

/// Expands the attribute as `drop_with_owned_fields_impl` does, each
/// diagnostic's message being prefixed with the attribute's name.
pub fn drop_with_owned_fields(args: &Vec<Token>, input: Input) -> (r: Result<Output, Vec<Diagnostic>>)
    ensures
        r is Ok <==> attribute_errors(tokens_view(args@), input).len() == 0,
        r is Ok ==> expands_to(tokens_view(args@), input, r->Ok_0),
        r is Err ==> diags_view(r->Err_0@) == prefixed(attribute_errors(tokens_view(args@), input)),
{
    let ghost tv = tokens_view(args@);
    let ghost inner = attribute_errors(tv, input);
    match drop_with_owned_fields_impl(args, input) {
        Ok(o) => Ok(o),
        Err(errors) => {
            let mut out: Vec<Diagnostic> = Vec::new();
            let mut i: usize = 0;
            while i < errors.len()
                invariant
                    i <= errors.len(),
                    diags_view(errors@) == inner,
                    diags_view(out@) == prefixed(inner.subrange(0, i as int)),
                decreases errors.len() - i,
            {
                let e = &errors[i];
                let message = String::from_str("`#[drop_with_owned_fields::drop_with_owned_fields]`: ")
                    .concat(e.message.as_str());
                let d = Diagnostic { kind: e.kind, at: e.at, message };
                let ghost before = out@;
                out.push(d);
                assert(inner[i as int] == errors@[i as int]@);
                assert(diags_view(out@) =~= diags_view(before).push(d@));
                assert(prefixed(inner.subrange(0, i as int + 1)) =~= prefixed(inner.subrange(0, i as int)).push(
                    d@,
                ));
                i += 1;
            }
            assert(inner.subrange(0, i as int) =~= inner);
            Err(out)
        },
    }
}

} // verus!
