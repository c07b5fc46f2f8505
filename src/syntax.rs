//! Plain-value model of the declarations, attributes and tokens that the
//! expansion reads and produces, with their spec views.
use vstd::prelude::*;

verus! {

/// Copies a list of identifiers.
pub fn copy_strings(v: &Vec<String>) -> (r: Vec<String>)
    ensures
        r@ == v@,
{
    let mut r: Vec<String> = Vec::new();
    let mut i: usize = 0;
    while i < v.len()
        invariant
            i <= v.len(),
            r@ == v@.subrange(0, i as int),
        decreases v.len() - i,
    {
        r.push(v[i].clone());
        i += 1;
        assert(r@ =~= v@.subrange(0, i as int));
    }
    assert(r@ =~= v@);
    r
}

/// The characters of each identifier of a list.
pub open spec fn words(v: Seq<String>) -> Seq<Seq<char>> {
    v.map_values(|s: String| s@)
}

/// Whether `s` spells the word `w`.
pub fn is_word(s: &String, w: &str) -> (r: bool)
    ensures
        r == (s@ == w@),
{
    let w = String::from_str(w);
    *s == w
}

/// A path such as `::core::clone::Clone` or `super::a`.
pub struct Path {
    pub leading_colon: bool,
    pub segments: Vec<String>,
}

pub ghost struct PathView {
    pub leading_colon: bool,
    pub segments: Seq<Seq<char>>,
}

impl View for Path {
    type V = PathView;

    open spec fn view(&self) -> PathView {
        PathView { leading_colon: self.leading_colon, segments: words(self.segments@) }
    }
}

impl PathView {
    /// The path is the single identifier `w`.
    pub open spec fn is_ident(self, w: Seq<char>) -> bool {
        &&& !self.leading_colon
        &&& self.segments.len() == 1
        &&& self.segments[0] == w
    }

    /// The last segment of the path is `w`.
    pub open spec fn last_is(self, w: Seq<char>) -> bool {
        self.segments.len() > 0 && self.segments.last() == w
    }
}

impl Path {
    pub fn copy(&self) -> (r: Path)
        ensures
            r@ == self@,
    {
        Path { leading_colon: self.leading_colon, segments: copy_strings(&self.segments) }
    }

    /// A path made of one identifier.
    pub fn ident(name: String) -> (r: Path)
        ensures
            r@ == (PathView { leading_colon: false, segments: seq![name@] }),
    {
        let mut segments: Vec<String> = Vec::new();
        segments.push(name);
        proof {
            assert(words(segments@) =~= seq![name@]);
        }
        Path { leading_colon: false, segments }
    }

    pub fn is_ident(&self, w: &str) -> (r: bool)
        ensures
            r == self@.is_ident(w@),
    {
        !self.leading_colon && self.segments.len() == 1 && is_word(&self.segments[0], w)
    }

    pub fn last_is(&self, w: &str) -> (r: bool)
        ensures
            r == self@.last_is(w@),
    {
        if self.segments.len() == 0 {
            false
        } else {
            is_word(&self.segments[self.segments.len() - 1], w)
        }
    }
}

/// A visibility as written in front of an item or a field.
pub enum Visibility {
    /// `pub`
    Public,
    /// nothing written: private to the defining module
    Inherited,
    /// `pub(crate)`, `pub(self)`, `pub(super)` or `pub(in path)`; `in_token`
    /// records whether `in` was written.
    Restricted { in_token: bool, path: Path },
}

pub ghost enum VisView {
    Public,
    Inherited,
    Restricted { in_token: bool, path: PathView },
}

impl View for Visibility {
    type V = VisView;

    open spec fn view(&self) -> VisView {
        match self {
            Visibility::Public => VisView::Public,
            Visibility::Inherited => VisView::Inherited,
            Visibility::Restricted { in_token, path } => VisView::Restricted {
                in_token: *in_token,
                path: path@,
            },
        }
    }
}

impl Visibility {
    pub fn copy(&self) -> (r: Visibility)
        ensures
            r@ == self@,
    {
        match self {
            Visibility::Public => Visibility::Public,
            Visibility::Inherited => Visibility::Inherited,
            Visibility::Restricted { in_token, path } => Visibility::Restricted {
                in_token: *in_token,
                path: path.copy(),
            },
        }
    }
}

/// The views of a list of paths.
pub open spec fn paths_view(v: Seq<Path>) -> Seq<PathView> {
    v.map_values(|p: Path| p@)
}

pub proof fn lemma_paths_view_push(s: Seq<Path>, p: Path)
    ensures
        paths_view(s.push(p)) == paths_view(s).push(p@),
{
    assert(paths_view(s.push(p)) =~= paths_view(s).push(p@));
}

/// Copies a list of paths.
pub fn copy_paths(v: &Vec<Path>) -> (r: Vec<Path>)
    ensures
        paths_view(r@) == paths_view(v@),
{
    let mut r: Vec<Path> = Vec::new();
    let mut i: usize = 0;
    while i < v.len()
        invariant
            i <= v.len(),
            r.len() == i,
            forall|j: int| 0 <= j < i ==> #[trigger] r@[j]@ == v@[j]@,
        decreases v.len() - i,
    {
        let p = v[i].copy();
        r.push(p);
        i += 1;
    }
    assert(paths_view(r@) =~= paths_view(v@));
    r
}

/// An outer attribute `#[path ...]`. `derives` holds the comma-separated
/// paths between its parentheses where it has that shape, and `None`
/// otherwise.
pub struct Attribute {
    pub path: Path,
    pub derives: Option<Vec<Path>>,
}

pub ghost struct AttrView {
    pub path: PathView,
    pub derives: Option<Seq<PathView>>,
}

impl View for Attribute {
    type V = AttrView;

    open spec fn view(&self) -> AttrView {
        AttrView {
            path: self.path@,
            derives: match self.derives {
                Some(v) => Some(paths_view(v@)),
                None => None,
            },
        }
    }
}

/// The views of a list of attributes.
pub open spec fn attrs_view(v: Seq<Attribute>) -> Seq<AttrView> {
    v.map_values(|a: Attribute| a@)
}

/// A field of a record: its outer attributes as written, its visibility,
/// its name (`None` for a positional field) and its type as written.
pub struct Field {
    pub attrs: Vec<String>,
    pub vis: Visibility,
    pub ident: Option<String>,
    pub ty: String,
}

pub ghost struct FieldView {
    pub attrs: Seq<Seq<char>>,
    pub vis: VisView,
    pub ident: Option<Seq<char>>,
    pub ty: Seq<char>,
}

impl View for Field {
    type V = FieldView;

    open spec fn view(&self) -> FieldView {
        FieldView {
            attrs: words(self.attrs@),
            vis: self.vis@,
            ident: match self.ident {
                Some(s) => Some(s@),
                None => None,
            },
            ty: self.ty@,
        }
    }
}

/// The views of a list of fields.
pub open spec fn fields_view(v: Seq<Field>) -> Seq<FieldView> {
    v.map_values(|f: Field| f@)
}

/// How a field is reached: by name, or by position.
pub enum Member {
    Named(String),
    Unnamed(usize),
}

pub ghost enum MemberView {
    Named(Seq<char>),
    Unnamed(int),
}

impl View for Member {
    type V = MemberView;

    open spec fn view(&self) -> MemberView {
        match self {
            Member::Named(s) => MemberView::Named(s@),
            Member::Unnamed(i) => MemberView::Unnamed(*i as int),
        }
    }
}

/// The member of field `f`, standing at position `i`.
pub open spec fn member_of(i: int, f: FieldView) -> MemberView {
    match f.ident {
        Some(n) => MemberView::Named(n),
        None => MemberView::Unnamed(i),
    }
}

/// How a record lists its fields: `{ named }`, `(positional)`, or not at
/// all.
#[derive(PartialEq, Eq, Structural, Clone, Copy, Debug)]
pub enum FieldsKind {
    Named,
    Unnamed,
    Unit,
}

/// The kind of type that a declaration declares.
pub enum Data {
    Struct { kind: FieldsKind, fields: Vec<Field> },
    Enum,
    Union,
}

/// A type declaration: attributes, visibility, name, generic parameters
/// (`<..>` as written, empty if none), the names of its type parameters, its
/// where-clause as written (empty if none), and its data.
pub struct Declaration {
    pub attrs: Vec<Attribute>,
    pub vis: Visibility,
    pub ident: String,
    pub generics: String,
    pub type_params: Vec<String>,
    pub where_clause: String,
    pub data: Data,
}

/// The delimiter of a token group.
#[derive(PartialEq, Eq, Structural, Clone, Copy, Debug)]
pub enum Delimiter {
    Parenthesis,
    Brace,
    Bracket,
    Invisible,
}

/// A token of an attribute's arguments, groups flattened into their opening
/// delimiter, their contents and their closing delimiter.
pub enum Token {
    Ident(String),
    Punct(char),
    Literal(String),
    Open(Delimiter),
    Close(Delimiter),
}

pub ghost enum TokenView {
    Ident(Seq<char>),
    Punct(char),
    Literal(Seq<char>),
    Open(Delimiter),
    Close(Delimiter),
}

impl View for Token {
    type V = TokenView;

    open spec fn view(&self) -> TokenView {
        match self {
            Token::Ident(s) => TokenView::Ident(s@),
            Token::Punct(c) => TokenView::Punct(*c),
            Token::Literal(s) => TokenView::Literal(s@),
            Token::Open(d) => TokenView::Open(*d),
            Token::Close(d) => TokenView::Close(*d),
        }
    }
}

impl Token {
    pub fn copy(&self) -> (r: Token)
        ensures
            r@ == self@,
    {
        match self {
            Token::Ident(s) => Token::Ident(s.clone()),
            Token::Punct(c) => Token::Punct(*c),
            Token::Literal(s) => Token::Literal(s.clone()),
            Token::Open(d) => Token::Open(*d),
            Token::Close(d) => Token::Close(*d),
        }
    }
}

pub open spec fn tokens_view(v: Seq<Token>) -> Seq<TokenView> {
    v.map_values(|t: Token| t@)
}

/// The kinds of failure of an expansion.
#[derive(PartialEq, Eq, Structural, Clone, Copy, Debug)]
pub enum ErrorKind {
    /// The attribute's arguments are malformed.
    SyntaxError,
    /// The annotated type is not a plain record.
    UnsupportedShape,
    /// The naming directive is given more than once.
    DuplicateDirective,
    /// The finalizer's parameter is not a destructuring of `Self: _`.
    IllFormedFinalizerPattern,
    /// The block does not implement `Drop`.
    WrongContract,
    /// The block does not hold exactly one item, the function `drop`.
    WrongFunctionCount,
    /// The finalizer has more than one parameter.
    ExtraneousParameter,
    /// Tokens follow where the arguments should have ended.
    UnexpectedTrailingArgument,
}

/// The part of the input that a diagnostic blames.
#[derive(PartialEq, Eq, Structural, Clone, Copy, Debug)]
pub enum Location {
    /// The attribute's arguments.
    Arguments,
    /// The `enum` or `union` keyword of the declaration.
    DataKeyword,
    /// The `for` of a trait impl, or the type of an inherent impl.
    ImplTarget,
    /// The closing brace of the impl block.
    ImplEnd,
    /// The item at this position of the impl block.
    Item(usize),
    /// The name of the function.
    FnName,
    /// The parameter at this position.
    Param(usize),
    /// The type of the first parameter.
    ParamType,
    /// The closing parenthesis of the parameter list.
    ParamsEnd,
}

/// A diagnostic: its kind, what it blames, and the message shown to the
/// user.
pub struct Diagnostic {
    pub kind: ErrorKind,
    pub at: Location,
    pub message: String,
}

pub ghost struct DiagView {
    pub kind: ErrorKind,
    pub at: Location,
    pub message: Seq<char>,
}

impl View for Diagnostic {
    type V = DiagView;

    open spec fn view(&self) -> DiagView {
        DiagView { kind: self.kind, at: self.at, message: self.message@ }
    }
}

pub open spec fn diag(kind: ErrorKind, at: Location, message: Seq<char>) -> DiagView {
    DiagView { kind, at, message }
}

pub open spec fn diags_view(v: Seq<Diagnostic>) -> Seq<DiagView> {
    v.map_values(|d: Diagnostic| d@)
}

impl Diagnostic {
    pub fn new(kind: ErrorKind, at: Location, message: &str) -> (r: Diagnostic)
        ensures
            r@ == diag(kind, at, message@),
    {
        Diagnostic { kind, at, message: String::from_str(message) }
    }
}

} // verus!
