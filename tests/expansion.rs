use drop_with_owned_fields::args::Args;
use drop_with_owned_fields::derives::{best_effort_compat_with_other_derives_and_attrs, OutAttr};
use drop_with_owned_fields::drop_sugar::{handle, FnArg, ImplItem, ItemImpl, Pat, TraitRef, Ty, TypePath};
use drop_with_owned_fields::expand::{drop_with_owned_fields, expand_declaration, Input, Output};
use drop_with_owned_fields::syntax::{
    Attribute, Data, Declaration, Delimiter, ErrorKind, Field, FieldsKind, Location, Member, Path, Token, Visibility,
};
use drop_with_owned_fields::visibility::{pub_capped_at_crate, super_of};

fn id(s: &str) -> Token {
    Token::Ident(s.to_string())
}

fn path(leading_colon: bool, segs: &[&str]) -> Path {
    Path { leading_colon, segments: segs.iter().map(|s| s.to_string()).collect() }
}

fn restricted(in_token: bool, segs: &[&str]) -> Visibility {
    Visibility::Restricted { in_token, path: path(false, segs) }
}

/// Renders a visibility the way it is written.
fn show(v: &Visibility) -> String {
    match v {
        Visibility::Public => "pub".to_string(),
        Visibility::Inherited => String::new(),
        Visibility::Restricted { in_token, path } => {
            let mut p = if path.leading_colon { "::".to_string() } else { String::new() };
            p.push_str(&path.segments.join("::"));
            if *in_token {
                format!("pub(in {})", p)
            } else {
                format!("pub({})", p)
            }
        }
    }
}

fn derive(paths: Vec<Path>) -> Attribute {
    Attribute { path: path(false, &["derive"]), derives: Some(paths) }
}

fn doc() -> Attribute {
    Attribute { path: path(false, &["doc"]), derives: None }
}

fn field(vis: Visibility, name: &str, ty: &str) -> Field {
    Field { attrs: vec![], vis, ident: Some(name.to_string()), ty: ty.to_string() }
}

/// `pub(super) struct Foo { pub txn: Txn, pub(self) b: String, pub(crate) c: String,
/// pub(super) d: String, e: String }` with many derives.
fn foo() -> Declaration {
    Declaration {
        attrs: vec![
            doc(),
            derive(vec![
                path(false, &["Debug"]),
                path(false, &["Default"]),
                path(true, &["core", "clone", "Clone"]),
                path(false, &["Hash"]),
                path(false, &["PartialEq"]),
                path(false, &["Eq"]),
                path(false, &["PartialOrd"]),
                path(false, &["Ord"]),
                path(true, &["serde_derive", "Deserialize"]),
                path(false, &["Serialize"]),
            ]),
        ],
        vis: restricted(false, &["super"]),
        ident: "Foo".to_string(),
        generics: String::new(),
        type_params: vec![],
        where_clause: String::new(),
        data: Data::Struct {
            kind: FieldsKind::Named,
            fields: vec![
                field(Visibility::Public, "txn", "Txn"),
                field(restricted(false, &["self"]), "b", "String"),
                field(restricted(false, &["crate"]), "c", "String"),
                field(restricted(false, &["super"]), "d", "String"),
                field(Visibility::Inherited, "e", "String"),
            ],
        },
    }
}

fn named_args() -> Vec<Token> {
    vec![
        id("as"),
        id("pub"),
        Token::Open(Delimiter::Parenthesis),
        id("super"),
        Token::Close(Delimiter::Parenthesis),
        id("struct"),
        id("FooFields"),
        Token::Punct(','),
    ]
}

fn expansion_of(args: &Vec<Token>, d: &Declaration) -> drop_with_owned_fields::expand::Expansion {
    match expand_declaration(args, d) {
        Ok(e) => e,
        Err(_) => panic!("expected an expansion"),
    }
}

fn error_kinds(args: &Vec<Token>, d: &Declaration) -> Vec<ErrorKind> {
    match expand_declaration(args, d) {
        Ok(_) => panic!("expected errors"),
        Err(errors) => errors.iter().map(|e| e.kind).collect(),
    }
}

#[test]
fn widened_visibilities() {
    assert_eq!(show(&super_of(&Visibility::Public)), "pub");
    assert_eq!(show(&super_of(&Visibility::Inherited)), "pub(super)");
    assert_eq!(show(&super_of(&restricted(false, &["crate"]))), "pub(crate)");
    assert_eq!(show(&super_of(&restricted(true, &["crate", "a"]))), "pub(in crate::a)");
    assert_eq!(show(&super_of(&restricted(false, &["self"]))), "pub(super)");
    assert_eq!(show(&super_of(&restricted(true, &["self", "a"]))), "pub(in super::a)");
    assert_eq!(show(&super_of(&restricted(true, &["a", "b"]))), "pub(in a::b)");
    assert_eq!(show(&super_of(&restricted(false, &["super"]))), "pub(in super::super)");
    assert_eq!(show(&super_of(&restricted(true, &["super", "a"]))), "pub(in super::super::a)");
    let rooted = Visibility::Restricted { in_token: true, path: path(true, &["a", "b"]) };
    assert_eq!(show(&super_of(&rooted)), "pub(in ::a::b)");
}

#[test]
fn bypass_visibility_is_capped_at_the_crate() {
    assert_eq!(show(&pub_capped_at_crate(&Visibility::Public)), "pub(crate)");
    assert_eq!(show(&pub_capped_at_crate(&Visibility::Inherited)), "");
    assert_eq!(show(&pub_capped_at_crate(&restricted(false, &["super"]))), "pub(super)");
    assert_eq!(show(&pub_capped_at_crate(&restricted(false, &["crate"]))), "pub(crate)");
}

#[test]
fn arguments_name_the_companion_record() {
    assert!(Args::parse(&vec![]).ok().unwrap().maybe_rename.is_none());
    assert!(Args::parse(&vec![id("as"), id("_")]).ok().unwrap().maybe_rename.is_none());
    assert!(Args::parse(&vec![id("as"), id("_"), Token::Punct(',')]).ok().unwrap().maybe_rename.is_none());
    let named = Args::parse(&named_args()).ok().unwrap().maybe_rename.unwrap();
    assert_eq!(named.name, "FooFields");
    assert_eq!(show(&named.pub_), "pub(super)");
    let plain = Args::parse(&vec![id("as"), id("struct"), id("F")]).ok().unwrap().maybe_rename.unwrap();
    assert_eq!(show(&plain.pub_), "");
    let public = Args::parse(&vec![id("as"), id("pub"), id("struct"), id("F")]).ok().unwrap().maybe_rename.unwrap();
    assert_eq!(show(&public.pub_), "pub");
    let within = vec![
        id("as"),
        id("pub"),
        Token::Open(Delimiter::Parenthesis),
        id("in"),
        id("super"),
        Token::Punct(':'),
        Token::Punct(':'),
        id("a"),
        Token::Close(Delimiter::Parenthesis),
        id("struct"),
        id("F"),
    ];
    let within = Args::parse(&within).ok().unwrap().maybe_rename.unwrap();
    assert_eq!(show(&within.pub_), "pub(in super::a)");
}

#[test]
fn invisible_groups_are_looked_through() {
    let t = vec![
        id("as"),
        Token::Open(Delimiter::Invisible),
        id("pub"),
        Token::Open(Delimiter::Parenthesis),
        id("crate"),
        Token::Close(Delimiter::Parenthesis),
        Token::Close(Delimiter::Invisible),
        id("struct"),
        Token::Open(Delimiter::Invisible),
        id("F"),
        Token::Close(Delimiter::Invisible),
    ];
    let named = Args::parse(&t).ok().unwrap().maybe_rename.unwrap();
    assert_eq!(named.name, "F");
    assert_eq!(show(&named.pub_), "pub(crate)");
}

#[test]
fn argument_errors() {
    let kind = |t: Vec<Token>| Args::parse(&t).err().unwrap().kind;
    assert_eq!(kind(vec![id("foo")]), ErrorKind::SyntaxError);
    assert_eq!(kind(vec![id("as")]), ErrorKind::SyntaxError);
    assert_eq!(kind(vec![id("as"), id("struct")]), ErrorKind::SyntaxError);
    assert_eq!(kind(vec![id("as"), id("struct"), id("_")]), ErrorKind::SyntaxError);
    assert_eq!(kind(vec![id("as"), id("_"), Token::Punct(','), id("as"), id("_")]), ErrorKind::DuplicateDirective);
    assert_eq!(kind(vec![id("as"), id("_"), Token::Punct(','), id("x")]), ErrorKind::SyntaxError);
    assert_eq!(kind(vec![id("as"), id("_"), id("x")]), ErrorKind::UnexpectedTrailingArgument);
    assert_eq!(kind(vec![id("as"), id("_"), id("as"), id("_")]), ErrorKind::DuplicateDirective);
    let message = Args::parse(&vec![id("foo")]).err().unwrap().message;
    assert!(message.starts_with("expected `as`\nUsage:"));
    let message = Args::parse(&vec![id("as"), id("_"), Token::Punct(','), id("as"), id("_")]).err().unwrap().message;
    assert!(message.starts_with("duplicate arg\nUsage:"));
    let message = Args::parse(&vec![id("as"), id("_"), id("x")]).err().unwrap().message;
    assert!(message.starts_with("unexpected token\nUsage:"));
    let message = Args::parse(&vec![id("as"), id("struct")]).err().unwrap().message;
    assert!(message.starts_with("expected `_` or `struct` and a name\nUsage:"));
}

#[test]
fn derives_are_forwarded_or_rebuilt() {
    let name = "FooFields".to_string();
    let compat = best_effort_compat_with_other_derives_and_attrs(&foo(), &name);
    assert_eq!(compat.attrs.len(), 4);
    match &compat.attrs[0] {
        OutAttr::Derive(paths) => {
            let last: Vec<&str> = paths.iter().map(|p| p.segments.last().unwrap().as_str()).collect();
            assert_eq!(last, vec!["Debug", "Hash", "PartialEq", "Eq", "PartialOrd", "Ord", "Deserialize", "Serialize"]);
        }
        _ => panic!("expected the forwarded derives first"),
    }
    assert!(matches!(compat.attrs[1], OutAttr::Kept(0)));
    match &compat.attrs[2] {
        OutAttr::SerdeFrom(s) => assert_eq!(s, "FooFields"),
        _ => panic!("expected the deserialization hint"),
    }
    assert!(matches!(compat.attrs[3], OutAttr::Annihilate));
    let clone = compat.clone.unwrap();
    assert!(clone.trait_path.leading_colon);
    assert_eq!(clone.trait_path.segments, vec!["core", "clone", "Clone"]);
    let members: Vec<String> = clone
        .members
        .iter()
        .map(|m| match m {
            Member::Named(n) => n.clone(),
            Member::Unnamed(i) => i.to_string(),
        })
        .collect();
    assert_eq!(members, vec!["txn", "b", "c", "d", "e"]);
    assert_eq!(clone.field_types, vec!["Txn", "String", "String", "String", "String"]);
    assert_eq!(compat.default.unwrap().trait_path.segments, vec!["Default"]);
}

#[test]
fn only_the_first_clone_is_rebuilt() {
    let mut d = foo();
    d.attrs = vec![derive(vec![path(false, &["Clone"]), path(false, &["Clone"])])];
    d.type_params = vec!["T".to_string()];
    d.data = Data::Struct {
        kind: FieldsKind::Unnamed,
        fields: vec![Field { attrs: vec![], vis: Visibility::Inherited, ident: None, ty: "T".to_string() }],
    };
    let compat = best_effort_compat_with_other_derives_and_attrs(&d, &"X".to_string());
    assert_eq!(compat.attrs.len(), 2);
    match &compat.attrs[0] {
        OutAttr::Derive(paths) => assert_eq!(paths.len(), 1),
        _ => panic!("expected the second Clone to be forwarded"),
    }
    let clone = compat.clone.unwrap();
    assert_eq!(clone.bounded_params, vec!["T"]);
    assert!(matches!(clone.members[0], Member::Unnamed(0)));
    assert!(compat.default.is_none());
}

#[test]
fn no_derives_no_hint() {
    let mut d = foo();
    d.attrs = vec![];
    let compat = best_effort_compat_with_other_derives_and_attrs(&d, &"X".to_string());
    assert_eq!(compat.attrs.len(), 1);
    assert!(matches!(compat.attrs[0], OutAttr::Annihilate));
    assert!(compat.clone.is_none() && compat.default.is_none());
}

#[test]
fn named_companion_record() {
    let e = expansion_of(&named_args(), &foo());
    assert_eq!(e.ident, "Foo");
    assert_eq!(e.fields_ident, "FooFields");
    assert_eq!(e.helper_module, "_Foo\u{d9e}drop_with_owned_fields");
    assert_eq!(show(&e.fields_re_export.unwrap()), "pub(super)");
    assert_eq!(show(&e.vis), "pub(super)");
    assert_eq!(show(&e.companion_vis), "pub(in super::super)");
    assert_eq!(show(&e.bypass_vis), "pub(super)");
    assert_eq!(e.docs, vec![0]);
    let vis: Vec<String> = e.companion_fields.iter().map(|f| show(&f.vis)).collect();
    assert_eq!(vis, vec!["pub", "pub(super)", "pub(crate)", "pub(in super::super)", "pub(super)"]);
    let names: Vec<&str> = e.companion_fields.iter().map(|f| f.ident.as_deref().unwrap()).collect();
    assert_eq!(names, vec!["txn", "b", "c", "d", "e"]);
    let types: Vec<&str> = e.companion_fields.iter().map(|f| f.ty.as_str()).collect();
    assert_eq!(types, vec!["Txn", "String", "String", "String", "String"]);
}

#[test]
fn companion_record_keeps_the_declaration() {
    let mut d = foo();
    d.generics = "< T : Clone >".to_string();
    d.type_params = vec!["T".to_string()];
    d.where_clause = "where T : Default".to_string();
    d.data = Data::Struct {
        kind: FieldsKind::Unnamed,
        fields: vec![Field {
            attrs: vec!["# [serde (default)]".to_string()],
            vis: restricted(false, &["self"]),
            ident: None,
            ty: "T".to_string(),
        }],
    };
    let e = expansion_of(&vec![], &d);
    assert_eq!(e.companion_attrs, vec![0, 1]);
    assert_eq!(e.generics, "< T : Clone >");
    assert_eq!(e.where_clause, "where T : Default");
    assert_eq!(e.companion_kind, FieldsKind::Unnamed);
    assert_eq!(e.companion_fields.len(), 1);
    assert_eq!(e.companion_fields[0].attrs, vec!["# [serde (default)]"]);
    assert!(e.companion_fields[0].ident.is_none());
    assert_eq!(e.companion_fields[0].ty, "T");
    assert_eq!(show(&e.companion_fields[0].vis), "pub(super)");
}

#[test]
fn anonymous_companion_record() {
    let mut d = foo();
    d.vis = Visibility::Public;
    let e = expansion_of(&vec![id("as"), id("_")], &d);
    assert_eq!(e.fields_ident, "Foo\u{d9e}Fields");
    assert!(e.fields_re_export.is_none());
    assert_eq!(show(&e.companion_vis), "pub");
    assert_eq!(show(&e.bypass_vis), "pub(crate)");
    match &e.compat.attrs[2] {
        OutAttr::SerdeFrom(s) => assert_eq!(s, "Foo\u{d9e}Fields"),
        _ => panic!("expected the deserialization hint"),
    }
    let e = expansion_of(&vec![], &d);
    assert_eq!(e.fields_ident, "Foo\u{d9e}Fields");
}

#[test]
fn sum_type_is_rejected() {
    let mut d = foo();
    d.data = Data::Enum;
    assert_eq!(error_kinds(&vec![], &d), vec![ErrorKind::UnsupportedShape]);
    match expand_declaration(&vec![], &d) {
        Ok(_) => panic!("expected an error"),
        Err(errors) => {
            assert_eq!(errors[0].message, "expected a `struct`");
            assert_eq!(errors[0].at, Location::DataKeyword);
        }
    }
    d.data = Data::Union;
    assert_eq!(error_kinds(&vec![id("as"), id("_")], &d), vec![ErrorKind::UnsupportedShape]);
}

#[test]
fn errors_are_reported_together() {
    let mut d = foo();
    d.data = Data::Enum;
    assert_eq!(error_kinds(&vec![id("oops")], &d), vec![ErrorKind::SyntaxError, ErrorKind::UnsupportedShape]);
    assert_eq!(error_kinds(&vec![id("oops")], &foo()), vec![ErrorKind::SyntaxError]);
}

#[test]
fn diagnostics_name_the_attribute() {
    let mut d = foo();
    d.data = Data::Enum;
    match drop_with_owned_fields(&vec![], Input::DeriveInput(d)) {
        Ok(_) => panic!("expected an error"),
        Err(errors) => {
            assert_eq!(errors.len(), 1);
            assert_eq!(
                errors[0].message,
                "`#[drop_with_owned_fields::drop_with_owned_fields]`: expected a `struct`"
            );
        }
    }
    assert!(matches!(drop_with_owned_fields(&vec![], Input::DeriveInput(foo())), Ok(Output::Expansion(_))));
    let mut d = foo();
    d.data = Data::Union;
    match drop_with_owned_fields(&vec![id("oops")], Input::DeriveInput(d)) {
        Ok(_) => panic!("expected errors"),
        Err(errors) => {
            assert_eq!(errors.len(), 2);
            assert!(errors[0]
                .message
                .starts_with("`#[drop_with_owned_fields::drop_with_owned_fields]`: expected `as`\nUsage:"));
            assert_eq!(
                errors[1].message,
                "`#[drop_with_owned_fields::drop_with_owned_fields]`: expected a `struct`"
            );
        }
    }
}

fn drop_impl(inputs: Vec<FnArg>) -> ItemImpl {
    ItemImpl {
        trait_: Some(TraitRef { negated: false, path: path(false, &["Drop"]), has_args: false }),
        items: vec![ImplItem::Fn { ident: "drop".to_string(), inputs }],
    }
}

fn self_struct() -> Pat {
    Pat::Struct { qself: false, path: TypePath::Written(path(false, &["Self"])) }
}

fn sugar_kind(args: Vec<Token>, i: ItemImpl) -> ErrorKind {
    sugar_error(args, i).0
}

fn sugar_error(args: Vec<Token>, i: ItemImpl) -> (ErrorKind, String) {
    match handle(&args, i) {
        Ok(_) => panic!("expected an error"),
        Err(e) => (e.kind, e.message),
    }
}

const NOT_SELF: &str = "expected a `Self { fields… }` or `Self(fields…)` destructuring pattern";

#[test]
fn sugar_error_messages() {
    let ok = || vec![FnArg::Typed { pat: self_struct(), ty: Ty::Infer }];
    let two = vec![
        FnArg::Typed { pat: self_struct(), ty: Ty::Infer },
        FnArg::Typed { pat: Pat::Other, ty: Ty::Infer },
    ];
    let two_again = vec![
        FnArg::Typed { pat: self_struct(), ty: Ty::Infer },
        FnArg::Typed { pat: Pat::Other, ty: Ty::Infer },
    ];
    assert_eq!(handle(&vec![], drop_impl(two_again)).err().unwrap().at, Location::Param(1));
    assert_eq!(sugar_error(vec![], drop_impl(two)).1, "extraneous `fn` arg");
    assert_eq!(sugar_error(vec![], drop_impl(vec![FnArg::Typed { pat: Pat::Other, ty: Ty::Infer }])).1, NOT_SELF);
    assert_eq!(sugar_error(vec![], drop_impl(vec![FnArg::Receiver])).1, NOT_SELF);
    assert_eq!(sugar_error(vec![], drop_impl(vec![])).1, NOT_SELF);
    assert_eq!(sugar_error(vec![], drop_impl(vec![FnArg::Typed { pat: self_struct(), ty: Ty::Other }])).1, "expected `_`");
    let mut not_drop = drop_impl(ok());
    not_drop.trait_ = Some(TraitRef { negated: false, path: path(false, &["Clone"]), has_args: false });
    assert_eq!(sugar_error(vec![], not_drop).1, "expected a `Drop` impl");
    let empty = ItemImpl { trait_: drop_impl(ok()).trait_, items: vec![] };
    assert_eq!(sugar_error(vec![], empty).1, "expected at least one `fn`");
    let mut extra = drop_impl(ok());
    extra.items.push(ImplItem::Other);
    assert_eq!(sugar_error(vec![], extra).1, "unexpected item");
    let misnamed = ItemImpl {
        trait_: drop_impl(ok()).trait_,
        items: vec![ImplItem::Fn { ident: "finalize".to_string(), inputs: ok() }],
    };
    assert_eq!(sugar_error(vec![], misnamed).1, "expected `drop`");
    assert_eq!(sugar_error(vec![id("x")], drop_impl(ok())).1, "unexpected token");
}

#[test]
fn sugar_is_rewritten() {
    let r = handle(&vec![], drop_impl(vec![FnArg::Typed { pat: self_struct(), ty: Ty::Infer }])).ok().unwrap();
    let t = r.trait_.unwrap();
    assert!(t.path.leading_colon);
    assert_eq!(t.path.segments, vec!["drop_with_owned_fields", "DropWithOwnedFields"]);
    match &r.items[0] {
        ImplItem::Fn { ident, inputs } => {
            assert_eq!(ident, "drop");
            assert_eq!(inputs.len(), 1);
            match &inputs[0] {
                FnArg::Typed { pat: Pat::Struct { path: TypePath::FieldsOf(p), .. }, ty: Ty::Path(TypePath::FieldsOf(q)) } => {
                    assert_eq!(p.segments, vec!["Self"]);
                    assert_eq!(q.segments, vec!["Self"]);
                }
                _ => panic!("expected the companion record in pattern and type"),
            }
        }
        ImplItem::Other => panic!("expected the finalizer"),
    }
    let tuple = Pat::TupleStruct { qself: false, path: TypePath::Written(path(false, &["Self"])) };
    assert!(handle(&vec![], drop_impl(vec![FnArg::Typed { pat: tuple, ty: Ty::Infer }])).is_ok());
}

#[test]
fn sugar_rejects_two_parameters() {
    let two = vec![
        FnArg::Typed { pat: self_struct(), ty: Ty::Infer },
        FnArg::Typed { pat: Pat::Other, ty: Ty::Infer },
    ];
    assert_eq!(sugar_kind(vec![], drop_impl(two)), ErrorKind::ExtraneousParameter);
}

#[test]
fn sugar_rejects_a_plain_binding() {
    let plain = vec![FnArg::Typed { pat: Pat::Other, ty: Ty::Infer }];
    assert_eq!(sugar_kind(vec![], drop_impl(plain)), ErrorKind::IllFormedFinalizerPattern);
    assert_eq!(sugar_kind(vec![], drop_impl(vec![FnArg::Receiver])), ErrorKind::IllFormedFinalizerPattern);
    assert_eq!(sugar_kind(vec![], drop_impl(vec![])), ErrorKind::IllFormedFinalizerPattern);
    let typed = vec![FnArg::Typed { pat: self_struct(), ty: Ty::Other }];
    assert_eq!(sugar_kind(vec![], drop_impl(typed)), ErrorKind::IllFormedFinalizerPattern);
    let other = Pat::Struct { qself: false, path: TypePath::Written(path(false, &["Foo"])) };
    assert_eq!(sugar_kind(vec![], drop_impl(vec![FnArg::Typed { pat: other, ty: Ty::Infer }])), ErrorKind::IllFormedFinalizerPattern);
}

#[test]
fn sugar_shape_errors() {
    let ok = || vec![FnArg::Typed { pat: self_struct(), ty: Ty::Infer }];
    assert_eq!(sugar_kind(vec![id("x")], drop_impl(ok())), ErrorKind::UnexpectedTrailingArgument);
    let mut not_drop = drop_impl(ok());
    not_drop.trait_ = Some(TraitRef { negated: false, path: path(false, &["Clone"]), has_args: false });
    assert_eq!(sugar_kind(vec![], not_drop), ErrorKind::WrongContract);
    let mut inherent = drop_impl(ok());
    inherent.trait_ = None;
    assert_eq!(sugar_kind(vec![], inherent), ErrorKind::WrongContract);
    let empty = ItemImpl { trait_: drop_impl(ok()).trait_, items: vec![] };
    assert_eq!(sugar_kind(vec![], empty), ErrorKind::WrongFunctionCount);
    let mut extra = drop_impl(ok());
    extra.items.push(ImplItem::Other);
    assert_eq!(sugar_kind(vec![], extra), ErrorKind::WrongFunctionCount);
    let misnamed = ItemImpl {
        trait_: drop_impl(ok()).trait_,
        items: vec![ImplItem::Fn { ident: "dorp".to_string(), inputs: ok() }],
    };
    assert_eq!(sugar_kind(vec![], misnamed), ErrorKind::WrongFunctionCount);
    match drop_with_owned_fields(&vec![], Input::ItemImpl(drop_impl(vec![]))) {
        Ok(_) => panic!("expected an error"),
        Err(errors) => assert_eq!(errors[0].kind, ErrorKind::IllFormedFinalizerPattern),
    }
}
