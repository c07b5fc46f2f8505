//! Reconciling the derives of a declaration with its new shape.
//!
//! Derives that only read the fields (equality, ordering, hashing, debug
//! formatting, serialization) are forwarded: the original declaration is
//! emitted once more with them attached, then annihilated, so that the
//! derived impls land on the owning wrapper and reach the fields through it.
//! `Clone` and `Default` construct a value, so they are rebuilt instead: the
//! companion record is built by applying the capability to each field in
//! field order, then wrapped. Deserialization goes through the companion
//! record, by a `serde(from = ..)` hint.
use vstd::prelude::*;

use crate::syntax::{
    attrs_view, copy_paths, copy_strings, fields_view, lemma_paths_view_push, member_of, paths_view,
    words, AttrView, Data, Declaration, Field, Member, MemberView, Path, PathView,
};

verus! {

/// An attribute of the re-emitted declaration.
pub enum OutAttr {
    /// `#[derive(..)]` with the forwarded derives.
    Derive(Vec<Path>),
    /// The attribute at this position of the declaration, unchanged.
    Kept(usize),
    /// `#[serde(from = "..")]` naming the companion record.
    SerdeFrom(String),
    /// The marker that makes the re-emitted declaration vanish.
    Annihilate,
}

pub ghost enum OutAttrView {
    Derive(Seq<PathView>),
    Kept(int),
    SerdeFrom(Seq<char>),
    Annihilate,
}

impl View for OutAttr {
    type V = OutAttrView;

    open spec fn view(&self) -> OutAttrView {
        match self {
            OutAttr::Derive(v) => OutAttrView::Derive(paths_view(v@)),
            OutAttr::Kept(i) => OutAttrView::Kept(*i as int),
            OutAttr::SerdeFrom(s) => OutAttrView::SerdeFrom(s@),
            OutAttr::Annihilate => OutAttrView::Annihilate,
        }
    }
}

pub open spec fn out_attrs_view(v: Seq<OutAttr>) -> Seq<OutAttrView> {
    v.map_values(|a: OutAttr| a@)
}

proof fn lemma_out_attrs_view_push(s: Seq<OutAttr>, a: OutAttr)
    ensures
        out_attrs_view(s.push(a)) == out_attrs_view(s).push(a@),
{
    assert(out_attrs_view(s.push(a)) =~= out_attrs_view(s).push(a@));
}

/// A capability rebuilt field by field: `trait_path` as written in the
/// derive, a bound `P: trait_path` for each type parameter `P`, and for each
/// field, in order, its member and its type.
pub struct Reconstruct {
    pub trait_path: Path,
    pub bounded_params: Vec<String>,
    pub members: Vec<Member>,
    pub field_types: Vec<String>,
}

pub ghost struct ReconstructView {
    pub trait_path: PathView,
    pub bounded_params: Seq<Seq<char>>,
    pub members: Seq<MemberView>,
    pub field_types: Seq<Seq<char>>,
}

impl View for Reconstruct {
    type V = ReconstructView;

    open spec fn view(&self) -> ReconstructView {
        ReconstructView {
            trait_path: self.trait_path@,
            bounded_params: words(self.bounded_params@),
            members: self.members@.map_values(|m: Member| m@),
            field_types: words(self.field_types@),
        }
    }
}

/// What the reconciliation emits besides the expansion proper.
pub struct Compat {
    /// The attributes of the re-emitted declaration, in order.
    pub attrs: Vec<OutAttr>,
    pub clone: Option<Reconstruct>,
    pub default: Option<Reconstruct>,
}

/// An attribute that is a derive list.
pub open spec fn is_derive_attr(a: AttrView) -> bool {
    a.path.last_is("derive"@) && a.derives.is_some()
}

/// Every derive requested, in order of appearance.
pub open spec fn derives_of(attrs: Seq<AttrView>) -> Seq<PathView>
    decreases attrs.len(),
{
    if attrs.len() == 0 {
        Seq::empty()
    } else {
        let init = derives_of(attrs.drop_last());
        if is_derive_attr(attrs.last()) {
            init + attrs.last().derives.unwrap()
        } else {
            init
        }
    }
}

/// The positions of the attributes that are not derive lists, in order.
pub open spec fn kept_attrs(attrs: Seq<AttrView>) -> Seq<int>
    decreases attrs.len(),
{
    if attrs.len() == 0 {
        Seq::empty()
    } else {
        let init = kept_attrs(attrs.drop_last());
        if is_derive_attr(attrs.last()) {
            init
        } else {
            init.push(attrs.len() - 1)
        }
    }
}

/// The position of the first path whose last segment is `w`.
pub open spec fn first_named(ps: Seq<PathView>, w: Seq<char>) -> Option<int>
    decreases ps.len(),
{
    if ps.len() == 0 {
        None
    } else {
        let f = first_named(ps.drop_last(), w);
        if f.is_some() {
            f
        } else if ps.last().last_is(w) {
            Some(ps.len() - 1)
        } else {
            None
        }
    }
}

pub proof fn lemma_first_named_in_bounds(ps: Seq<PathView>, w: Seq<char>)
    ensures
        match first_named(ps, w) {
            Some(i) => 0 <= i < ps.len() && ps[i].last_is(w),
            None => true,
        },
    decreases ps.len(),
{
    if ps.len() > 0 {
        lemma_first_named_in_bounds(ps.drop_last(), w);
    }
}

/// `ps` without the positions `a` and `b`.
pub open spec fn without(ps: Seq<PathView>, a: Option<int>, b: Option<int>) -> Seq<PathView>
    decreases ps.len(),
{
    if ps.len() == 0 {
        Seq::empty()
    } else {
        let init = without(ps.drop_last(), a, b);
        if a == Some(ps.len() - 1) || b == Some(ps.len() - 1) {
            init
        } else {
            init.push(ps.last())
        }
    }
}

/// The derives forwarded to the re-emitted declaration: all of them but the
/// first `Clone` and the first `Default`.
pub open spec fn forwarded(attrs: Seq<AttrView>) -> Seq<PathView> {
    let d = derives_of(attrs);
    without(d, first_named(d, "Clone"@), first_named(d, "Default"@))
}

/// A derive of serialization, in either direction.
pub open spec fn is_serde(p: PathView) -> bool {
    p.last_is("Serialize"@) || p.last_is("Deserialize"@)
}

/// Whether serialization is derived, in either direction.
pub open spec fn wants_serde_hint(attrs: Seq<AttrView>) -> bool {
    let d = derives_of(attrs);
    exists|k: int| 0 <= k < d.len() && is_serde(#[trigger] d[k])
}

/// The attributes of the re-emitted declaration: the forwarded derives, the
/// attributes that are not derive lists, the deserialization hint naming the
/// companion record, and the annihilation marker.
pub open spec fn compat_attrs(attrs: Seq<AttrView>, fields_name: Seq<char>) -> Seq<OutAttrView> {
    let fwd = forwarded(attrs);
    (if fwd.len() > 0 { seq![OutAttrView::Derive(fwd)] } else { Seq::empty() })
        + kept_attrs(attrs).map_values(|i: int| OutAttrView::Kept(i))
        + (if wants_serde_hint(attrs) { seq![OutAttrView::SerdeFrom(fields_name)] } else { Seq::empty() })
        + seq![OutAttrView::Annihilate]
}

/// The field-by-field rebuild of the capability whose first derive is `w`.
pub open spec fn reconstruct_of(
    attrs: Seq<AttrView>,
    type_params: Seq<Seq<char>>,
    fields: Seq<crate::syntax::FieldView>,
    w: Seq<char>,
) -> Option<ReconstructView> {
    let d = derives_of(attrs);
    match first_named(d, w) {
        Some(i) => Some(
            ReconstructView {
                trait_path: d[i],
                bounded_params: type_params,
                members: Seq::new(fields.len(), |j: int| member_of(j, fields[j])),
                field_types: Seq::new(fields.len(), |j: int| fields[j].ty),
            },
        ),
        None => None,
    }
}

pub open spec fn reconstruct_view(r: Option<Reconstruct>) -> Option<ReconstructView> {
    match r {
        Some(x) => Some(x@),
        None => None,
    }
}

pub open spec fn opt_int(o: Option<usize>) -> Option<int> {
    match o {
        Some(i) => Some(i as int),
        None => None,
    }
}

pub open spec fn struct_fields(d: Data) -> Seq<Field> {
    match d {
        Data::Struct { fields, .. } => fields@,
        _ => Seq::empty(),
    }
}

proof fn lemma_without_keeps(ps: Seq<PathView>, a: Option<int>, b: Option<int>, k: int)
    requires
        0 <= k < ps.len(),
        a != Some(k),
        b != Some(k),
    ensures
        without(ps, a, b).contains(ps[k]),
    decreases ps.len(),
{
    if k == ps.len() - 1 {
        assert(without(ps, a, b).last() == ps[k]);
    } else {
        lemma_without_keeps(ps.drop_last(), a, b, k);
        let init = without(ps.drop_last(), a, b);
        let i = choose|i: int| 0 <= i < init.len() && init[i] == ps[k];
        if !(a == Some(ps.len() - 1) || b == Some(ps.len() - 1)) {
            assert(without(ps, a, b)[i] == ps[k]);
        }
    }
}

/// Every requested derive but `Clone` and `Default` (equality, ordering,
/// hashing, debug formatting, serialization, and any other) is forwarded to
/// the re-emitted declaration, whose derived impls then read the fields
/// through the wrapper.
pub proof fn lemma_read_only_derives_forwarded(attrs: Seq<AttrView>, k: int)
    requires
        0 <= k < derives_of(attrs).len(),
        !derives_of(attrs)[k].last_is("Clone"@),
        !derives_of(attrs)[k].last_is("Default"@),
    ensures
        forwarded(attrs).contains(derives_of(attrs)[k]),
{
    let d = derives_of(attrs);
    lemma_first_named_in_bounds(d, "Clone"@);
    lemma_first_named_in_bounds(d, "Default"@);
    lemma_without_keeps(d, first_named(d, "Clone"@), first_named(d, "Default"@), k);
}

/// A rebuilt capability is applied to each field independently, in field
/// order: one entry per field, with that field's member and type, and the
/// capability's path as the derive wrote it.
pub proof fn lemma_reconstruct_field_by_field(
    attrs: Seq<AttrView>,
    type_params: Seq<Seq<char>>,
    fields: Seq<crate::syntax::FieldView>,
    w: Seq<char>,
)
    requires
        reconstruct_of(attrs, type_params, fields, w) is Some,
    ensures
        ({
            let r = reconstruct_of(attrs, type_params, fields, w).unwrap();
            &&& r.trait_path.last_is(w)
            &&& r.bounded_params == type_params
            &&& r.members.len() == fields.len()
            &&& r.field_types.len() == fields.len()
            &&& forall|i: int|
                0 <= i < fields.len() ==> r.members[i] == member_of(i, fields[i]) && r.field_types[i]
                    == fields[i].ty
        }),
{
    lemma_first_named_in_bounds(derives_of(attrs), w);
}

/// Splits the attributes: every derive requested, in order, and the
/// positions of the attributes that are not derive lists.
fn collect_derives(attrs: &Vec<crate::syntax::Attribute>) -> (r: (Vec<Path>, Vec<usize>))
    ensures
        paths_view(r.0@) == derives_of(attrs_view(attrs@)),
        r.1@.map_values(|i: usize| i as int) == kept_attrs(attrs_view(attrs@)),
{
    let mut all: Vec<Path> = Vec::new();
    let mut kept: Vec<usize> = Vec::new();
    let mut i: usize = 0;
    while i < attrs.len()
        invariant
            i <= attrs.len(),
            paths_view(all@) == derives_of(attrs_view(attrs@).subrange(0, i as int)),
            kept@.map_values(|k: usize| k as int) == kept_attrs(attrs_view(attrs@).subrange(0, i as int)),
        decreases attrs.len() - i,
    {
        let ghost prefix = attrs_view(attrs@).subrange(0, i as int + 1);
        assert(prefix.drop_last() =~= attrs_view(attrs@).subrange(0, i as int));
        assert(prefix.last() == attrs@[i as int]@);
        let a = &attrs[i];
        let is_derive = a.path.last_is("derive") && a.derives.is_some();
        if is_derive {
            let list = copy_paths(a.derives.as_ref().unwrap());
            let ghost before = all@;
            let mut j: usize = 0;
            while j < list.len()
                invariant
                    j <= list.len(),
                    paths_view(all@) == paths_view(before) + paths_view(list@).subrange(0, j as int),
                decreases list.len() - j,
            {
                let c = list[j].copy();
                proof {
                    lemma_paths_view_push(all@, c);
                }
                all.push(c);
                j += 1;
                assert(paths_view(all@) =~= paths_view(before) + paths_view(list@).subrange(0, j as int));
            }
            assert(paths_view(list@).subrange(0, j as int) =~= paths_view(list@));
        } else {
            kept.push(i);
            assert(kept@.map_values(|k: usize| k as int) =~= kept_attrs(prefix));
        }
        i += 1;
    }
    assert(attrs_view(attrs@).subrange(0, i as int) =~= attrs_view(attrs@));
    (all, kept)
}

/// The position of the first path whose last segment is `w`.
fn first_named_in(ps: &Vec<Path>, w: &str) -> (r: Option<usize>)
    ensures
        match r {
            Some(i) => first_named(paths_view(ps@), w@) == Some(i as int),
            None => first_named(paths_view(ps@), w@).is_none(),
        },
{
    let mut found: Option<usize> = None;
    let mut j: usize = 0;
    while j < ps.len()
        invariant
            j <= ps.len(),
            match found {
                Some(i) => first_named(paths_view(ps@).subrange(0, j as int), w@) == Some(i as int),
                None => first_named(paths_view(ps@).subrange(0, j as int), w@).is_none(),
            },
        decreases ps.len() - j,
    {
        let ghost prefix = paths_view(ps@).subrange(0, j as int + 1);
        assert(prefix.drop_last() =~= paths_view(ps@).subrange(0, j as int));
        if found.is_none() && ps[j].last_is(w) {
            found = Some(j);
        }
        j += 1;
    }
    assert(paths_view(ps@).subrange(0, j as int) =~= paths_view(ps@));
    found
}

/// Whether some path's last segment is `Serialize` or `Deserialize`.
fn mentions_serde(ps: &Vec<Path>) -> (r: bool)
    ensures
        r == exists|k: int| 0 <= k < ps@.len() && is_serde(#[trigger] paths_view(ps@)[k]),
{
    let mut j: usize = 0;
    while j < ps.len()
        invariant
            j <= ps.len(),
            forall|k: int| 0 <= k < j ==> !is_serde(#[trigger] paths_view(ps@)[k]),
        decreases ps.len() - j,
    {
        assert(paths_view(ps@)[j as int] == ps@[j as int]@);
        if ps[j].last_is("Serialize") || ps[j].last_is("Deserialize") {
            return true;
        }
        j += 1;
    }
    false
}

/// A copy of `ps` without the positions `a` and `b`.
fn without_positions(ps: &Vec<Path>, a: Option<usize>, b: Option<usize>) -> (r: Vec<Path>)
    ensures
        paths_view(r@) == without(paths_view(ps@), opt_int(a), opt_int(b)),
{
    let ghost ga = opt_int(a);
    let ghost gb = opt_int(b);
    let mut r: Vec<Path> = Vec::new();
    let mut j: usize = 0;
    while j < ps.len()
        invariant
            j <= ps.len(),
            ga == opt_int(a),
            gb == opt_int(b),
            paths_view(r@) == without(paths_view(ps@).subrange(0, j as int), ga, gb),
        decreases ps.len() - j,
    {
        let ghost prefix = paths_view(ps@).subrange(0, j as int + 1);
        assert(prefix.drop_last() =~= paths_view(ps@).subrange(0, j as int));
        let skip_a = match a {
            Some(i) => i == j,
            None => false,
        };
        let skip_b = match b {
            Some(i) => i == j,
            None => false,
        };
        let skip = skip_a || skip_b;
        assert(prefix.last() == ps@[j as int]@);
        assert(prefix.len() - 1 == j);
        assert(skip == (ga == Some(j as int) || gb == Some(j as int)));
        if !skip {
            let c = ps[j].copy();
            proof {
                lemma_paths_view_push(r@, c);
            }
            r.push(c);
            assert(paths_view(r@) =~= without(prefix, ga, gb));
        }
        j += 1;
    }
    assert(paths_view(ps@).subrange(0, j as int) =~= paths_view(ps@));
    r
}

/// The field-by-field rebuild of a capability.
fn rebuild(trait_path: Path, type_params: &Vec<String>, fields: &Vec<Field>) -> (r: Reconstruct)
    ensures
        r@ == (ReconstructView {
            trait_path: trait_path@,
            bounded_params: words(type_params@),
            members: Seq::new(fields@.len(), |j: int| member_of(j, fields_view(fields@)[j])),
            field_types: Seq::new(fields@.len(), |j: int| fields_view(fields@)[j].ty),
        }),
{
    let mut members: Vec<Member> = Vec::new();
    let mut field_types: Vec<String> = Vec::new();
    let mut j: usize = 0;
    while j < fields.len()
        invariant
            j <= fields.len(),
            members.len() == j,
            field_types.len() == j,
            forall|k: int|
                0 <= k < j ==> #[trigger] members@[k]@ == member_of(k, fields_view(fields@)[k]),
            forall|k: int| 0 <= k < j ==> #[trigger] field_types@[k]@ == fields@[k].ty@,
        decreases fields.len() - j,
    {
        let f = &fields[j];
        let m = match &f.ident {
            Some(n) => Member::Named(n.clone()),
            None => Member::Unnamed(j),
        };
        members.push(m);
        field_types.push(f.ty.clone());
        j += 1;
    }
    let r = Reconstruct { trait_path, bounded_params: copy_strings(type_params), members, field_types };
    assert(r@.members =~= Seq::new(fields@.len(), |j: int| member_of(j, fields_view(fields@)[j])));
    assert(r@.field_types =~= Seq::new(fields@.len(), |j: int| fields_view(fields@)[j].ty));
    r
}

/// Reconciles the derives and attributes of `input` with the owning-wrapper
/// shape, `fields_name` being the name of its companion record: which
/// attributes the re-emitted declaration carries, and the field-by-field
/// `Clone` and `Default` impls.
pub fn best_effort_compat_with_other_derives_and_attrs(input: &Declaration, fields_name: &String) -> (r:
    Compat)
    requires
        input.data is Struct,
    ensures
        out_attrs_view(r.attrs@) == compat_attrs(attrs_view(input.attrs@), fields_name@),
        reconstruct_view(r.clone) == reconstruct_of(
            attrs_view(input.attrs@),
            words(input.type_params@),
            fields_view(struct_fields(input.data)),
            "Clone"@,
        ),
        reconstruct_view(r.default) == reconstruct_of(
            attrs_view(input.attrs@),
            words(input.type_params@),
            fields_view(struct_fields(input.data)),
            "Default"@,
        ),
{
    let ghost av = attrs_view(input.attrs@);
    let (all, kept) = collect_derives(&input.attrs);
    let clone_at = first_named_in(&all, "Clone");
    let default_at = first_named_in(&all, "Default");
    let hint = mentions_serde(&all);
    let fwd = without_positions(&all, clone_at, default_at);
    proof {
        assert(paths_view(all@) == derives_of(av));
        assert(paths_view(fwd@) == forwarded(av));
        assert(hint == wants_serde_hint(av));
    }

    let mut attrs: Vec<OutAttr> = Vec::new();
    if fwd.len() > 0 {
        attrs.push(OutAttr::Derive(fwd));
    }
    let ghost head = out_attrs_view(attrs@);
    assert(head =~= (if forwarded(av).len() > 0 {
        seq![OutAttrView::Derive(forwarded(av))]
    } else {
        Seq::empty()
    }));
    let ghost kept_view = kept@.map_values(|i: usize| i as int);
    let mut k: usize = 0;
    while k < kept.len()
        invariant
            k <= kept.len(),
            kept_view == kept@.map_values(|i: usize| i as int),
            out_attrs_view(attrs@) == head + kept_view.subrange(0, k as int).map_values(
                |i: int| OutAttrView::Kept(i),
            ),
        decreases kept.len() - k,
    {
        assert(kept_view[k as int] == kept@[k as int] as int);
        let a = OutAttr::Kept(kept[k]);
        proof {
            lemma_out_attrs_view_push(attrs@, a);
            assert(kept_view.subrange(0, k as int + 1).map_values(|i: int| OutAttrView::Kept(i))
                =~= kept_view.subrange(0, k as int).map_values(|i: int| OutAttrView::Kept(i)).push(
                OutAttrView::Kept(kept_view[k as int]),
            ));
        }
        attrs.push(a);
        k += 1;
        assert(out_attrs_view(attrs@) =~= head + kept_view.subrange(0, k as int).map_values(
            |i: int| OutAttrView::Kept(i),
        ));
    }
    assert(kept_view.subrange(0, k as int) =~= kept_view);
    if hint {
        attrs.push(OutAttr::SerdeFrom(fields_name.clone()));
    }
    attrs.push(OutAttr::Annihilate);
    assert(out_attrs_view(attrs@) =~= compat_attrs(av, fields_name@));

    proof {
        lemma_first_named_in_bounds(paths_view(all@), "Clone"@);
        lemma_first_named_in_bounds(paths_view(all@), "Default"@);
    }
    let clone = match clone_at {
        Some(i) => match &input.data {
            Data::Struct { fields, .. } => Some(rebuild(all[i].copy(), &input.type_params, fields)),
            _ => None,
        },
        None => None,
    };
    let default = match default_at {
        Some(i) => match &input.data {
            Data::Struct { fields, .. } => Some(rebuild(all[i].copy(), &input.type_params, fields)),
            _ => None,
        },
        None => None,
    };
    Compat { attrs, clone, default }
}

} // verus!
