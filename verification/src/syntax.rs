//! The syntax of an annotated struct, as plain values.
//!
//! A declaration is described by what the parser reads of it: the item's
//! name, visibility and shape, its annotations, and its fields with their
//! types. Annotation bodies are kept as flat token lists in which a group is
//! written as an opening token, its contents and a closing token.

use vstd::prelude::*;
use vstd::string::StringExecFns;
use crate::text::text_eq;

verus! {

/// The bracket pair of a token group.
#[derive(Debug, Clone, Copy, PartialEq, Eq, Structural)]
pub enum Delimiter {
    /// `( ... )`
    Parenthesis,
    /// `{ ... }`
    Brace,
    /// `[ ... ]`
    Bracket,
}

/// One token of an annotation body.
#[derive(Debug, Clone)]
pub enum Token {
    /// A word: an identifier or a keyword.
    Ident(String),
    /// A punctuation character; `joint` tells that the next token follows it
    /// without space and forms one operator with it.
    Punct { ch: char, joint: bool },
    /// A literal, in the text it was written with.
    Literal(String),
    /// The opening bracket of a group.
    Open(Delimiter),
    /// The closing bracket of a group.
    Close(Delimiter),
}

/// The model of [`Token`]: the same value, with its texts as sequences of
/// characters.
pub enum TokenView {
    Ident(Seq<char>),
    Punct { ch: char, joint: bool },
    Literal(Seq<char>),
    Open(Delimiter),
    Close(Delimiter),
}

impl DeepView for Token {
    type V = TokenView;

    open spec fn deep_view(&self) -> TokenView {
        match self {
            Token::Ident(s) => TokenView::Ident(s@),
            Token::Punct { ch, joint } => TokenView::Punct { ch: *ch, joint: *joint },
            Token::Literal(s) => TokenView::Literal(s@),
            Token::Open(d) => TokenView::Open(*d),
            Token::Close(d) => TokenView::Close(*d),
        }
    }
}

impl Delimiter {
    /// The bracket that opens a group.
    pub open spec fn opening(self) -> char {
        match self {
            Delimiter::Parenthesis => '(',
            Delimiter::Brace => '{',
            Delimiter::Bracket => '[',
        }
    }

    /// The bracket that closes a group.
    pub open spec fn closing(self) -> char {
        match self {
            Delimiter::Parenthesis => ')',
            Delimiter::Brace => '}',
            Delimiter::Bracket => ']',
        }
    }

    fn opening_char(self) -> (c: char)
        ensures
            c == self.opening(),
    {
        match self {
            Delimiter::Parenthesis => '(',
            Delimiter::Brace => '{',
            Delimiter::Bracket => '[',
        }
    }

    fn closing_char(self) -> (c: char)
        ensures
            c == self.closing(),
    {
        match self {
            Delimiter::Parenthesis => ')',
            Delimiter::Brace => '}',
            Delimiter::Bracket => ']',
        }
    }
}

impl TokenView {
    /// The token as source text. A space follows every token but a joint
    /// punctuation character, so that the text reads back as the same
    /// tokens.
    pub open spec fn text(self) -> Seq<char> {
        match self {
            TokenView::Ident(s) => s.push(' '),
            TokenView::Punct { ch, joint } => if joint {
                seq![ch]
            } else {
                seq![ch, ' ']
            },
            TokenView::Literal(s) => s.push(' '),
            TokenView::Open(d) => seq![d.opening(), ' '],
            TokenView::Close(d) => seq![d.closing(), ' '],
        }
    }

    /// By how much the token changes the nesting depth.
    pub open spec fn nesting(self) -> int {
        match self {
            TokenView::Open(_) => 1,
            TokenView::Close(_) => -1,
            _ => 0,
        }
    }
}

/// A token list as source text: the texts of its tokens, in order.
pub open spec fn rendered(ts: Seq<TokenView>) -> Seq<char>
    decreases ts.len(),
{
    if ts.len() == 0 {
        Seq::empty()
    } else {
        rendered(ts.drop_last()) + ts.last().text()
    }
}

/// The nesting depth after a token list: its opening tokens minus its
/// closing tokens.
pub open spec fn depth(ts: Seq<TokenView>) -> int
    decreases ts.len(),
{
    if ts.len() == 0 {
        0
    } else {
        depth(ts.drop_last()) + ts.last().nesting()
    }
}

/// Whether a token list is exactly one parenthesised group: it opens with
/// `(`, closes with `)`, and the opening bracket is closed by the last token
/// and not before.
pub open spec fn is_parenthesized(ts: Seq<TokenView>) -> bool {
    &&& ts.len() >= 2
    &&& ts.first() == TokenView::Open(Delimiter::Parenthesis)
    &&& ts.last() == TokenView::Close(Delimiter::Parenthesis)
    &&& depth(ts) == 0
    &&& forall|k: int| 0 < k < ts.len() ==> depth(#[trigger] ts.take(k)) > 0
}

/// Appends a token's source text to `out`.
fn push_token(out: &mut String, token: &Token)
    ensures
        final(out)@ == old(out)@ + token.deep_view().text(),
{
    match token {
        Token::Ident(s) => {
            out.append(s.as_str());
            out.push(' ');
        },
        Token::Punct { ch, joint } => {
            out.push(*ch);
            if !*joint {
                out.push(' ');
            }
        },
        Token::Literal(s) => {
            out.append(s.as_str());
            out.push(' ');
        },
        Token::Open(d) => {
            out.push(d.opening_char());
            out.push(' ');
        },
        Token::Close(d) => {
            out.push(d.closing_char());
            out.push(' ');
        },
    }
    assert(out@ =~= old(out)@ + token.deep_view().text());
}

/// Writes the tokens from position `from` up to `to` as source text.
pub fn render(tokens: &Vec<Token>, from: usize, to: usize) -> (text: String)
    requires
        from <= to <= tokens.len(),
    ensures
        text@ == rendered(tokens.deep_view().subrange(from as int, to as int)),
{
    let mut out = String::new();
    let mut i: usize = from;
    while i < to
        invariant
            from <= i <= to <= tokens.len(),
            out@ == rendered(tokens.deep_view().subrange(from as int, i as int)),
        decreases to - i,
    {
        proof {
            let all = tokens.deep_view();
            assert(all.subrange(from as int, i + 1).drop_last() =~= all.subrange(
                from as int,
                i as int,
            ));
            assert(all.subrange(from as int, i + 1).last() == tokens[i as int].deep_view());
        }
        push_token(&mut out, &tokens[i]);
        i = i + 1;
    }
    out
}

/// Tells whether the tokens from position `from` up to `to` are exactly one
/// parenthesised group.
pub fn parenthesized(tokens: &Vec<Token>, from: usize, to: usize) -> (yes: bool)
    requires
        from <= to <= tokens.len(),
    ensures
        yes == is_parenthesized(tokens.deep_view().subrange(from as int, to as int)),
{
    let ghost ts = tokens.deep_view().subrange(from as int, to as int);
    if to - from < 2 {
        return false;
    }
    match &tokens[from] {
        Token::Open(Delimiter::Parenthesis) => {},
        _ => {
            return false;
        },
    }
    match &tokens[to - 1] {
        Token::Close(Delimiter::Parenthesis) => {},
        _ => {
            return false;
        },
    }
    proof {
        assert(ts.first() == tokens[from as int].deep_view());
        assert(ts.last() == tokens[to - 1].deep_view());
        assert(ts.take(1).drop_last() =~= Seq::<TokenView>::empty());
        assert(ts.take(1).last() == ts.first());
        assert(depth(Seq::<TokenView>::empty()) == 0);
        assert(depth(ts.take(1)) == 1);
    }
    // The nesting depth so far is `opened - closed`.
    let mut opened: usize = 1;
    let mut closed: usize = 0;
    let mut i: usize = from + 1;
    while i < to - 1
        invariant
            from + 1 <= i <= to - 1,
            to <= tokens.len(),
            ts == tokens.deep_view().subrange(from as int, to as int),
            opened + closed <= i - from,
            opened - closed == depth(ts.take(i - from)),
            forall|k: int| 0 < k <= i - from ==> depth(#[trigger] ts.take(k)) > 0,
        decreases to - i,
    {
        proof {
            assert(ts.take(i - from + 1).drop_last() =~= ts.take(i - from));
            assert(ts.take(i - from + 1).last() == tokens[i as int].deep_view());
        }
        match &tokens[i] {
            Token::Open(_) => {
                opened = opened + 1;
            },
            Token::Close(_) => {
                closed = closed + 1;
            },
            _ => {},
        }
        i = i + 1;
        if opened <= closed {
            assert(depth(ts.take(i - from)) <= 0);
            return false;
        }
    }
    proof {
        assert(ts.take(ts.len() as int) =~= ts);
        assert(ts.drop_last() =~= ts.take(ts.len() - 1));
        assert(depth(ts) == opened - closed - 1);
    }
    opened - closed == 1
}

/// One annotation `#[path tokens]` on an item or a field.
#[derive(Debug, Clone)]
pub struct Annotation {
    /// The annotation's name, where it is a single word, and its path as
    /// written otherwise.
    pub path: String,
    /// What follows the name.
    pub tokens: Vec<Token>,
}

/// The model of [`Annotation`]: the same value, with its texts as sequences of
/// characters.
pub struct AnnotationView {
    pub path: Seq<char>,
    pub tokens: Seq<TokenView>,
}

impl DeepView for Annotation {
    type V = AnnotationView;

    open spec fn deep_view(&self) -> AnnotationView {
        AnnotationView { path: self.path@, tokens: self.tokens.deep_view() }
    }
}

/// One argument between the angle brackets of a path segment.
#[derive(Debug, Clone)]
pub enum GenericArgument {
    /// A type, in its source text.
    Type(String),
    /// A lifetime, a constant, a binding or a constraint.
    Other,
}

/// The model of [`GenericArgument`]: the same value, with its texts as sequences of
/// characters.
pub enum GenericArgumentView {
    Type(Seq<char>),
    Other,
}

impl DeepView for GenericArgument {
    type V = GenericArgumentView;

    open spec fn deep_view(&self) -> GenericArgumentView {
        match self {
            GenericArgument::Type(t) => GenericArgumentView::Type(t@),
            GenericArgument::Other => GenericArgumentView::Other,
        }
    }
}

/// The arguments of one path segment.
#[derive(Debug, Clone)]
pub enum PathArguments {
    /// No arguments: `Name`.
    Plain,
    /// `Name<A, B>`
    AngleBracketed(Vec<GenericArgument>),
    /// `Name(A, B) -> C`
    Parenthesized,
}

/// The model of [`PathArguments`]: the same value, with its texts as sequences of
/// characters.
pub enum PathArgumentsView {
    Plain,
    AngleBracketed(Seq<GenericArgumentView>),
    Parenthesized,
}

impl DeepView for PathArguments {
    type V = PathArgumentsView;

    open spec fn deep_view(&self) -> PathArgumentsView {
        match self {
            PathArguments::Plain => PathArgumentsView::Plain,
            PathArguments::AngleBracketed(args) => PathArgumentsView::AngleBracketed(
                args.deep_view(),
            ),
            PathArguments::Parenthesized => PathArgumentsView::Parenthesized,
        }
    }
}

/// One segment of a path: a name and its arguments.
#[derive(Debug, Clone)]
pub struct PathSegment {
    pub ident: String,
    pub arguments: PathArguments,
}

/// The model of [`PathSegment`]: the same value, with its texts as sequences of
/// characters.
pub struct PathSegmentView {
    pub ident: Seq<char>,
    pub arguments: PathArgumentsView,
}

impl DeepView for PathSegment {
    type V = PathSegmentView;

    open spec fn deep_view(&self) -> PathSegmentView {
        PathSegmentView { ident: self.ident@, arguments: self.arguments.deep_view() }
    }
}

/// A path such as `a::b::Name<T>`.
#[derive(Debug, Clone)]
pub struct TypePath {
    /// Whether the path starts with `::`.
    pub leading_colon: bool,
    pub segments: Vec<PathSegment>,
}

/// The model of [`TypePath`]: the same value, with its texts as sequences of
/// characters.
pub struct TypePathView {
    pub leading_colon: bool,
    pub segments: Seq<PathSegmentView>,
}

impl DeepView for TypePath {
    type V = TypePathView;

    open spec fn deep_view(&self) -> TypePathView {
        TypePathView { leading_colon: self.leading_colon, segments: self.segments.deep_view() }
    }
}

impl TypePathView {
    /// Whether the path is the single word `name`: one segment of that name
    /// without arguments, and no leading `::`.
    pub open spec fn is_ident(self, name: Seq<char>) -> bool {
        &&& !self.leading_colon
        &&& self.segments.len() == 1
        &&& self.segments[0].arguments is Plain
        &&& self.segments[0].ident == name
    }

    /// Whether the path's last segment is named `name`.
    pub open spec fn ends_with(self, name: Seq<char>) -> bool {
        self.segments.len() > 0 && self.segments.last().ident == name
    }
}

impl TypePath {
    /// Tells whether the path is the single word `name`.
    pub fn is_ident(&self, name: &str) -> (yes: bool)
        ensures
            yes == self.deep_view().is_ident(name@),
    {
        if self.leading_colon || self.segments.len() != 1 {
            return false;
        }
        let segment = &self.segments[0];
        match &segment.arguments {
            PathArguments::Plain => text_eq(segment.ident.as_str(), name),
            _ => false,
        }
    }
}

/// Tells whether the last segment of a path is named `name`.
pub fn is_ending_ident(path: &TypePath, name: &str) -> (yes: bool)
    ensures
        yes == path.deep_view().ends_with(name@),
{
    let n = path.segments.len();
    if n == 0 {
        false
    } else {
        text_eq(path.segments[n - 1].ident.as_str(), name)
    }
}

/// The declared type of a field.
#[derive(Debug, Clone)]
pub struct TypeDecl {
    /// The type in its source text.
    pub text: String,
    /// The type's path, where the type is a path.
    pub path: Option<TypePath>,
}

/// The model of [`TypeDecl`]: the same value, with its texts as sequences of
/// characters.
pub struct TypeDeclView {
    pub text: Seq<char>,
    pub path: Option<TypePathView>,
}

impl DeepView for TypeDecl {
    type V = TypeDeclView;

    open spec fn deep_view(&self) -> TypeDeclView {
        TypeDeclView { text: self.text@, path: self.path.deep_view() }
    }
}

/// One named field of a struct.
#[derive(Debug, Clone)]
pub struct FieldDecl {
    pub name: String,
    pub ty: TypeDecl,
    /// The field's annotations, in the order written.
    pub annotations: Vec<Annotation>,
}

/// The model of [`FieldDecl`]: the same value, with its texts as sequences of
/// characters.
pub struct FieldDeclView {
    pub name: Seq<char>,
    pub ty: TypeDeclView,
    pub annotations: Seq<AnnotationView>,
}

impl DeepView for FieldDecl {
    type V = FieldDeclView;

    open spec fn deep_view(&self) -> FieldDeclView {
        FieldDeclView {
            name: self.name@,
            ty: self.ty.deep_view(),
            annotations: self.annotations.deep_view(),
        }
    }
}

/// What kind of item a declaration is.
#[derive(Debug, Clone, Copy, PartialEq, Eq, Structural)]
pub enum ItemShape {
    /// `struct Name { field: Type, .. }`
    NamedStruct,
    /// `struct Name(Type, ..);`
    TupleStruct,
    /// `struct Name;`
    UnitStruct,
    /// `enum Name { .. }`
    Enum,
    /// `union Name { .. }`
    Union,
}

/// An annotated item.
#[derive(Debug, Clone)]
pub struct StructDecl {
    pub name: String,
    /// The visibility in its source text; empty for a private item.
    pub vis: String,
    pub shape: ItemShape,
    /// The item's annotations, in the order written.
    pub annotations: Vec<Annotation>,
    /// The named fields, in the order declared; empty for any other shape.
    pub fields: Vec<FieldDecl>,
}

/// The model of [`StructDecl`]: the same value, with its texts as sequences of
/// characters.
pub struct StructDeclView {
    pub name: Seq<char>,
    pub vis: Seq<char>,
    pub shape: ItemShape,
    pub annotations: Seq<AnnotationView>,
    pub fields: Seq<FieldDeclView>,
}

impl DeepView for StructDecl {
    type V = StructDeclView;

    open spec fn deep_view(&self) -> StructDeclView {
        StructDeclView {
            name: self.name@,
            vis: self.vis@,
            shape: self.shape,
            annotations: self.annotations.deep_view(),
            fields: self.fields.deep_view(),
        }
    }
}

} // verus!
