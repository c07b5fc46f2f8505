//! The attribute's arguments: an optional directive naming the companion
//! record.
//!
//! ```text
//! args      := ( directive ','? )?      (invisible groups looked through)
//! directive := 'as' '_'
//!            | 'as' vis 'struct' IDENT
//! vis       := ( 'pub' ( '(' ( 'crate' | 'self' | 'super' | 'in' path ) ')' )? )?
//! path      := '::'? IDENT ( '::' IDENT )*
//! ```
//!
//! `as _` (or no arguments) leaves the companion record anonymous; the other
//! form names it and gives it a visibility.
use vstd::prelude::*;

use crate::syntax::{
    diag, tokens_view, words, DiagView, Delimiter, Diagnostic, ErrorKind, Path, PathView, Token,
    TokenView, VisView, Visibility, Location,
};

verus! {

pub open spec fn ident_at(t: Seq<TokenView>, i: int, w: Seq<char>) -> bool {
    0 <= i < t.len() && t[i] == TokenView::Ident(w)
}

pub open spec fn any_ident_at(t: Seq<TokenView>, i: int) -> bool {
    0 <= i < t.len() && t[i] is Ident
}

pub open spec fn word_at(t: Seq<TokenView>, i: int) -> Seq<char> {
    t[i]->Ident_0
}

pub open spec fn punct_at(t: Seq<TokenView>, i: int, c: char) -> bool {
    0 <= i < t.len() && t[i] == TokenView::Punct(c)
}

pub open spec fn colons_at(t: Seq<TokenView>, i: int) -> bool {
    punct_at(t, i, ':') && punct_at(t, i + 1, ':')
}

pub open spec fn close_paren_at(t: Seq<TokenView>, i: int) -> bool {
    0 <= i < t.len() && t[i] == TokenView::Close(Delimiter::Parenthesis)
}

/// The segments `( '::' IDENT )*` from position `i`, as many as stand
/// there, and the position after them.
pub open spec fn more_segments(t: Seq<TokenView>, i: int) -> (Seq<Seq<char>>, int)
    decreases t.len() - i,
{
    if 0 <= i && colons_at(t, i) && any_ident_at(t, i + 2) {
        let (rest, j) = more_segments(t, i + 3);
        (seq![word_at(t, i + 2)] + rest, j)
    } else {
        (Seq::empty(), i)
    }
}

/// The path at position `i`, and the position after it.
pub open spec fn path_at(t: Seq<TokenView>, i: int) -> Option<(PathView, int)> {
    let lc = colons_at(t, i);
    let k = if lc { i + 2 } else { i };
    if any_ident_at(t, k) {
        let (rest, j) = more_segments(t, k + 1);
        Some((PathView { leading_colon: lc, segments: seq![word_at(t, k)] + rest }, j))
    } else {
        None
    }
}

/// The visibility at position `i` (possibly empty), and the position after
/// it; `None` where `pub(` is not followed by a restriction.
pub open spec fn vis_at(t: Seq<TokenView>, i: int) -> Option<(VisView, int)> {
    if !ident_at(t, i, "pub"@) {
        Some((VisView::Inherited, i))
    } else if !(0 <= i + 1 < t.len() && t[i + 1] == TokenView::Open(Delimiter::Parenthesis)) {
        Some((VisView::Public, i + 1))
    } else if (ident_at(t, i + 2, "crate"@) || ident_at(t, i + 2, "self"@) || ident_at(
        t,
        i + 2,
        "super"@,
    )) && close_paren_at(t, i + 3) {
        Some(
            (
                VisView::Restricted {
                    in_token: false,
                    path: PathView { leading_colon: false, segments: seq![word_at(t, i + 2)] },
                },
                i + 4,
            ),
        )
    } else if ident_at(t, i + 2, "in"@) {
        match path_at(t, i + 3) {
            Some((p, j)) => if close_paren_at(t, j) {
                Some((VisView::Restricted { in_token: true, path: p }, j + 1))
            } else {
                None
            },
            None => None,
        }
    } else {
        None
    }
}

pub ghost struct RenameView {
    pub vis: VisView,
    pub name: Seq<char>,
}

/// The request `<vis> struct <name>` at position `i`, and the position
/// after it.
pub open spec fn rename_at(t: Seq<TokenView>, i: int) -> Option<(RenameView, int)> {
    match vis_at(t, i) {
        Some((v, j)) => if ident_at(t, j, "struct"@) && any_ident_at(t, j + 1) && word_at(t, j + 1)
            != "_"@ {
            Some((RenameView { vis: v, name: word_at(t, j + 1) }, j + 2))
        } else {
            None
        },
        None => None,
    }
}

/// The directive that starts with the `as` at position `i`: `None` inside
/// for `as _`, the companion record's visibility and name otherwise; and the
/// position after it.
pub open spec fn directive_at(t: Seq<TokenView>, i: int) -> Option<(Option<RenameView>, int)> {
    if ident_at(t, i + 1, "_"@) {
        Some((None, i + 2))
    } else {
        match rename_at(t, i + 1) {
            Some((r, j)) => Some((Some(r), j)),
            None => None,
        }
    }
}

/// The expected form of the arguments, recalled after each error.
pub open spec fn usage() -> Seq<char> {
    "\nUsage:\n    #[drop_with_owned_fields(\n        // Optional arg:\n        as _ | as $( $pub:vis )? struct $FooFields:ident,\n    )]\n    ..."@
}

/// An error about the arguments: what went wrong, then the expected form.
pub open spec fn args_error(kind: ErrorKind, what: Seq<char>) -> DiagView {
    diag(kind, Location::Arguments, what + usage())
}

/// The delimiters of a group without visible delimiters (one that a macro
/// hands over for `$vis` or `$name`): the parser looks through them.
pub open spec fn is_invisible_delimiter(t: TokenView) -> bool {
    t == TokenView::Open(Delimiter::Invisible) || t == TokenView::Close(Delimiter::Invisible)
}

/// The tokens of `t` without the invisible delimiters.
pub open spec fn visible(t: Seq<TokenView>) -> Seq<TokenView>
    decreases t.len(),
{
    if t.len() == 0 {
        Seq::empty()
    } else if is_invisible_delimiter(t.last()) {
        visible(t.drop_last())
    } else {
        visible(t.drop_last()).push(t.last())
    }
}

/// The meaning of the visible arguments `t`: the requested companion-record
/// name (`None`: anonymous), or the error.
pub open spec fn parse_visible_args(t: Seq<TokenView>) -> Result<Option<RenameView>, DiagView> {
    if t.len() == 0 {
        Ok(None)
    } else if !ident_at(t, 0, "as"@) {
        Err(args_error(ErrorKind::SyntaxError, "expected `as`"@))
    } else {
        match directive_at(t, 0) {
            None => Err(args_error(ErrorKind::SyntaxError, "expected `_` or `struct` and a name"@)),
            Some((d, j)) => if j == t.len() {
                Ok(d)
            } else if ident_at(t, j, "as"@) {
                Err(args_error(ErrorKind::DuplicateDirective, "duplicate arg"@))
            } else if punct_at(t, j, ',') {
                if j + 1 == t.len() {
                    Ok(d)
                } else if ident_at(t, j + 1, "as"@) {
                    Err(args_error(ErrorKind::DuplicateDirective, "duplicate arg"@))
                } else {
                    Err(args_error(ErrorKind::SyntaxError, "expected `as`"@))
                }
            } else {
                Err(args_error(ErrorKind::UnexpectedTrailingArgument, "unexpected token"@))
            },
        }
    }
}

/// The meaning of the arguments `t`.
pub open spec fn parse_args(t: Seq<TokenView>) -> Result<Option<RenameView>, DiagView> {
    parse_visible_args(visible(t))
}

/// The tokens of `t` without the invisible delimiters.
fn visible_tokens(t: &Vec<Token>) -> (r: Vec<Token>)
    ensures
        tokens_view(r@) == visible(tokens_view(t@)),
{
    let mut r: Vec<Token> = Vec::new();
    let mut i: usize = 0;
    while i < t.len()
        invariant
            i <= t.len(),
            tokens_view(r@) == visible(tokens_view(t@).subrange(0, i as int)),
        decreases t.len() - i,
    {
        let ghost prefix = tokens_view(t@).subrange(0, i as int + 1);
        assert(prefix.drop_last() =~= tokens_view(t@).subrange(0, i as int));
        assert(prefix.last() == t@[i as int]@);
        let invisible = match &t[i] {
            Token::Open(d) => *d == Delimiter::Invisible,
            Token::Close(d) => *d == Delimiter::Invisible,
            _ => false,
        };
        if !invisible {
            let c = t[i].copy();
            let ghost before = r@;
            r.push(c);
            assert(tokens_view(r@) =~= tokens_view(before).push(c@));
        }
        i += 1;
    }
    assert(tokens_view(t@).subrange(0, i as int) =~= tokens_view(t@));
    r
}

fn ident_is(t: &Vec<Token>, i: usize, w: &str) -> (r: bool)
    ensures
        r == ident_at(tokens_view(t@), i as int, w@),
{
    if i < t.len() {
        match &t[i] {
            Token::Ident(s) => crate::syntax::is_word(s, w),
            _ => false,
        }
    } else {
        false
    }
}

fn ident_text(t: &Vec<Token>, i: usize) -> (r: Option<String>)
    ensures
        r.is_some() == any_ident_at(tokens_view(t@), i as int),
        r.is_some() ==> r.unwrap()@ == word_at(tokens_view(t@), i as int),
{
    if i < t.len() {
        match &t[i] {
            Token::Ident(s) => Some(s.clone()),
            _ => None,
        }
    } else {
        None
    }
}

fn punct_is(t: &Vec<Token>, i: usize, c: char) -> (r: bool)
    ensures
        r == punct_at(tokens_view(t@), i as int, c),
{
    if i < t.len() {
        match &t[i] {
            Token::Punct(d) => *d == c,
            _ => false,
        }
    } else {
        false
    }
}

fn delim_is(t: &Vec<Token>, i: usize, open: bool) -> (r: bool)
    ensures
        r == (0 <= i < t@.len() && tokens_view(t@)[i as int] == if open {
            TokenView::Open(Delimiter::Parenthesis)
        } else {
            TokenView::Close(Delimiter::Parenthesis)
        }),
{
    if i < t.len() {
        match &t[i] {
            Token::Open(d) => open && *d == Delimiter::Parenthesis,
            Token::Close(d) => !open && *d == Delimiter::Parenthesis,
            _ => false,
        }
    } else {
        false
    }
}

fn colons_are(t: &Vec<Token>, i: usize) -> (r: bool)
    ensures
        r == colons_at(tokens_view(t@), i as int),
{
    i < t.len() && punct_is(t, i, ':') && punct_is(t, i + 1, ':')
}

/// Parses the path at position `i`.
fn parse_path(t: &Vec<Token>, i: usize) -> (r: Option<(Path, usize)>)
    requires
        i <= t.len(),
    ensures
        match r {
            Some((p, j)) => path_at(tokens_view(t@), i as int) == Some((p@, j as int)) && j <= t.len(),
            None => path_at(tokens_view(t@), i as int).is_none(),
        },
{
    let ghost tv = tokens_view(t@);
    let lc = colons_are(t, i);
    let k = if lc { i + 2 } else { i };
    let first = match ident_text(t, k) {
        Some(w) => w,
        None => return None,
    };
    let mut segments: Vec<String> = Vec::new();
    segments.push(first);
    let mut j: usize = k + 1;
    loop
        invariant
            k + 1 <= j <= t.len(),
            tv == tokens_view(t@),
            segments@.len() >= 1,
            words(segments@)[0] == word_at(tv, k as int),
            more_segments(tv, k as int + 1) == (
                words(segments@).drop_first() + more_segments(tv, j as int).0,
                more_segments(tv, j as int).1,
            ),
        ensures
            more_segments(tv, j as int) == (Seq::<Seq<char>>::empty(), j as int),
        decreases t.len() - j,
    {
        if colons_are(t, j) && j + 2 < t.len() {
            match ident_text(t, j + 2) {
                Some(w) => {
                    let ghost before = words(segments@);
                    segments.push(w);
                    assert(words(segments@) =~= before.push(w@));
                    assert(words(segments@).drop_first() =~= before.drop_first() + seq![w@]);
                    j = j + 3;
                },
                None => break,
            }
        } else {
            break;
        }
    }
    let p = Path { leading_colon: lc, segments };
    assert(p@.segments =~= seq![word_at(tv, k as int)] + more_segments(tv, k as int + 1).0);
    Some((p, j))
}

/// Parses the (possibly empty) visibility at position `i`.
fn parse_vis(t: &Vec<Token>, i: usize) -> (r: Option<(Visibility, usize)>)
    requires
        i <= t.len(),
    ensures
        match r {
            Some((v, j)) => vis_at(tokens_view(t@), i as int) == Some((v@, j as int)) && j <= t.len(),
            None => vis_at(tokens_view(t@), i as int).is_none(),
        },
{
    if !ident_is(t, i, "pub") {
        return Some((Visibility::Inherited, i));
    }
    if !delim_is(t, i + 1, true) {
        return Some((Visibility::Public, i + 1));
    }
    let short = ident_is(t, i + 2, "crate") || ident_is(t, i + 2, "self") || ident_is(t, i + 2, "super");
    if short && delim_is(t, i + 3, false) {
        let w = ident_text(t, i + 2).unwrap();
        return Some((Visibility::Restricted { in_token: false, path: Path::ident(w) }, i + 4));
    }
    if ident_is(t, i + 2, "in") {
        match parse_path(t, i + 3) {
            Some((p, j)) => {
                if delim_is(t, j, false) {
                    Some((Visibility::Restricted { in_token: true, path: p }, j + 1))
                } else {
                    None
                }
            },
            None => None,
        }
    } else {
        None
    }
}

/// A request to name the companion record: `as <vis> struct <name>`.
pub struct PublicRenameOfDestructuredFieldsType {
    pub pub_: Visibility,
    pub name: String,
}

impl View for PublicRenameOfDestructuredFieldsType {
    type V = RenameView;

    open spec fn view(&self) -> RenameView {
        RenameView { vis: self.pub_@, name: self.name@ }
    }
}

pub open spec fn rename_view(r: Option<PublicRenameOfDestructuredFieldsType>) -> Option<RenameView> {
    match r {
        Some(x) => Some(x@),
        None => None,
    }
}

impl PublicRenameOfDestructuredFieldsType {
    /// Parses `<vis> struct <name>` at position `i`.
    pub fn parse(t: &Vec<Token>, i: usize) -> (r: Option<(Self, usize)>)
        requires
            i <= t.len(),
        ensures
            match r {
                Some((x, j)) => rename_at(tokens_view(t@), i as int) == Some((x@, j as int)) && j
                    <= t.len(),
                None => rename_at(tokens_view(t@), i as int).is_none(),
            },
    {
        let (pub_, j) = match parse_vis(t, i) {
            Some(x) => x,
            None => return None,
        };
        if !ident_is(t, j, "struct") || j + 1 >= t.len() {
            return None;
        }
        match ident_text(t, j + 1) {
            Some(name) => {
                if crate::syntax::is_word(&name, "_") {
                    None
                } else {
                    Some((PublicRenameOfDestructuredFieldsType { pub_, name }, j + 2))
                }
            },
            None => None,
        }
    }
}

/// The parsed arguments: `None` leaves the companion record anonymous.
pub struct Args {
    pub maybe_rename: Option<PublicRenameOfDestructuredFieldsType>,
}

impl Args {
    /// Parses the attribute's arguments, looking through invisible groups.
    /// On failure the diagnostic says what went wrong and recalls the
    /// expected form.
    pub fn parse(t: &Vec<Token>) -> (r: Result<Args, Diagnostic>)
        ensures
            match parse_args(tokens_view(t@)) {
                Ok(d) => r is Ok && rename_view(r->Ok_0.maybe_rename) == d,
                Err(e) => r is Err && r->Err_0@ == e,
            },
    {
        let v = visible_tokens(t);
        Self::parse_visible(&v)
    }

    fn parse_visible(t: &Vec<Token>) -> (r: Result<Args, Diagnostic>)
        ensures
            match parse_visible_args(tokens_view(t@)) {
                Ok(d) => r is Ok && rename_view(r->Ok_0.maybe_rename) == d,
                Err(e) => r is Err && r->Err_0@ == e,
            },
    {
        let ghost tv = tokens_view(t@);
        if t.len() == 0 {
            return Ok(Args { maybe_rename: None });
        }
        if !ident_is(t, 0, "as") {
            return Err(Self::error(ErrorKind::SyntaxError, "expected `as`"));
        }
        let (maybe_rename, j) = if ident_is(t, 1, "_") {
            (None, 2)
        } else {
            match PublicRenameOfDestructuredFieldsType::parse(t, 1) {
                Some((x, j)) => (Some(x), j),
                None => return Err(
                    Self::error(ErrorKind::SyntaxError, "expected `_` or `struct` and a name"),
                ),
            }
        };
        assert(directive_at(tv, 0) == Some((rename_view(maybe_rename), j as int)));
        if j == t.len() {
            Ok(Args { maybe_rename })
        } else if ident_is(t, j, "as") {
            Err(Self::error(ErrorKind::DuplicateDirective, "duplicate arg"))
        } else if punct_is(t, j, ',') {
            if j + 1 == t.len() {
                Ok(Args { maybe_rename })
            } else if ident_is(t, j + 1, "as") {
                Err(Self::error(ErrorKind::DuplicateDirective, "duplicate arg"))
            } else {
                Err(Self::error(ErrorKind::SyntaxError, "expected `as`"))
            }
        } else {
            Err(Self::error(ErrorKind::UnexpectedTrailingArgument, "unexpected token"))
        }
    }

    /// A diagnostic about the arguments, followed by their expected form.
    fn error(kind: ErrorKind, what: &str) -> (r: Diagnostic)
        ensures
            r@ == args_error(kind, what@),
    {
        let message = String::from_str(what);
        let message = message.concat(
            "\nUsage:\n    #[drop_with_owned_fields(\n        // Optional arg:\n        as _ | as $( $pub:vis )? struct $FooFields:ident,\n    )]\n    ...",
        );
        Diagnostic { kind, at: Location::Arguments, message }
    }
}

} // verus!
