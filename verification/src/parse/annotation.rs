//! The annotations that are addressed to this library: `#[willow(keyword)]`,
//! `#[willow(keyword = value)]` and `#[willow(keyword(type))]`.
//!
//! An annotation body is first taken apart into its keyword and its
//! argument. Whether the argument is a type, an expression or a string
//! literal is a question of Rust syntax, which is put to `syn`: one question
//! where the keyword and the form of the argument raise one, and none
//! otherwise. What the annotation asks for is then decided from the parts
//! and from the answer.

use vstd::prelude::*;
use crate::parse::error::ErrorKind;
use crate::parse::viewed;
use crate::syntax::{is_parenthesized, parenthesized, render, rendered, Token, TokenView};
use crate::text::{ask_expr, ask_string, ask_type, is_expr, is_type, string_value, text_eq};

verus! {

/// The form of what follows the keyword of an annotation.
#[derive(Debug, Clone, Copy, PartialEq, Eq, Structural)]
pub enum ArgumentKind {
    /// Nothing: `(keyword)`.
    Absent,
    /// An assignment: `(keyword = value)`.
    Assigned,
    /// One parenthesised group: `(keyword(inner))`.
    Group,
    /// Anything else.
    Other,
}

/// An annotation body taken apart: its keyword and its argument.
#[derive(Debug, Clone)]
pub struct Directive {
    pub keyword: String,
    pub kind: ArgumentKind,
    /// The assigned value or the group's contents as source text; empty for
    /// the other forms.
    pub text: String,
}

/// The model of [`Directive`]: the same value, with its texts as sequences of
/// characters.
pub struct DirectiveView {
    pub keyword: Seq<char>,
    pub kind: ArgumentKind,
    pub text: Seq<char>,
}

impl DeepView for Directive {
    type V = DirectiveView;

    open spec fn deep_view(&self) -> DirectiveView {
        DirectiveView { keyword: self.keyword@, kind: self.kind, text: self.text@ }
    }
}

/// Whether a token is the assignment sign.
pub open spec fn is_assignment(token: TokenView) -> bool {
    token matches TokenView::Punct { ch, joint } && ch == '='
}

/// An annotation body taken apart. The body has to be one parenthesised
/// group that starts with a word, the keyword; what follows the keyword
/// inside the group is the argument.
pub open spec fn directive(tokens: Seq<TokenView>) -> Option<DirectiveView> {
    if is_parenthesized(tokens) && tokens.len() >= 3 && tokens[1] is Ident {
        let keyword = tokens[1]->Ident_0;
        let rest = tokens.subrange(2, tokens.len() - 1);
        if rest.len() == 0 {
            Some(DirectiveView { keyword, kind: ArgumentKind::Absent, text: Seq::empty() })
        } else if is_assignment(rest[0]) {
            Some(
                DirectiveView {
                    keyword,
                    kind: ArgumentKind::Assigned,
                    text: rendered(rest.subrange(1, rest.len() as int)),
                },
            )
        } else if is_parenthesized(rest) {
            Some(
                DirectiveView {
                    keyword,
                    kind: ArgumentKind::Group,
                    text: rendered(rest.subrange(1, rest.len() - 1)),
                },
            )
        } else {
            Some(DirectiveView { keyword, kind: ArgumentKind::Other, text: Seq::empty() })
        }
    } else {
        None
    }
}

/// Takes an annotation body apart.
pub fn split_directive(tokens: &Vec<Token>) -> (parts: Option<Directive>)
    ensures
        parts.deep_view() == directive(tokens.deep_view()),
{
    let n = tokens.len();
    let ghost all = tokens.deep_view();
    proof {
        assert(all.subrange(0, n as int) =~= all);
    }
    if n < 3 || !parenthesized(tokens, 0, n) {
        return None;
    }
    let keyword = match &tokens[1] {
        Token::Ident(word) => word.clone(),
        _ => {
            return None;
        },
    };
    let ghost rest = all.subrange(2, n - 1);
    if n == 3 {
        return Some(Directive { keyword, kind: ArgumentKind::Absent, text: String::new() });
    }
    assert(rest[0] == tokens[2].deep_view());
    let assigned = match &tokens[2] {
        Token::Punct { ch, joint } => *ch == '=',
        _ => false,
    };
    if assigned {
        proof {
            assert(rest.subrange(1, rest.len() as int) =~= all.subrange(3, n - 1));
        }
        let text = render(tokens, 3, n - 1);
        return Some(Directive { keyword, kind: ArgumentKind::Assigned, text });
    }
    if parenthesized(tokens, 2, n - 1) {
        proof {
            assert(rest.subrange(1, rest.len() - 1) =~= all.subrange(3, n - 2));
        }
        let text = render(tokens, 3, n - 2);
        return Some(Directive { keyword, kind: ArgumentKind::Group, text });
    }
    Some(Directive { keyword, kind: ArgumentKind::Other, text: String::new() })
}

/// What is known of a piece of source text as Rust syntax.
#[derive(Debug, Clone)]
pub struct Syntax {
    /// Whether the text is one type.
    pub is_type: bool,
    /// Whether the text is one expression.
    pub is_expr: bool,
    /// The text that it denotes, where it is one string literal.
    pub literal: Option<String>,
}

/// The model of [`Syntax`]: the same value, with its texts as sequences of
/// characters.
pub struct SyntaxView {
    pub is_type: bool,
    pub is_expr: bool,
    pub literal: Option<Seq<char>>,
}

impl DeepView for Syntax {
    type V = SyntaxView;

    open spec fn deep_view(&self) -> SyntaxView {
        SyntaxView {
            is_type: self.is_type,
            is_expr: self.is_expr,
            literal: self.literal.deep_view(),
        }
    }
}

/// A question about a piece of source text.
#[derive(Debug, Clone, Copy, PartialEq, Eq, Structural)]
pub enum Question {
    /// No question.
    Nothing,
    /// Whether the text is one type.
    Type,
    /// Whether the text is one expression.
    Expression,
    /// Which text the text denotes as a string literal.
    StringLiteral,
}

/// The answer to one question about a piece of source text. What was not
/// asked counts as not so.
pub open spec fn answer(text: Seq<char>, question: Question) -> SyntaxView {
    SyntaxView {
        is_type: question is Type && is_type(text),
        is_expr: question is Expression && is_expr(text),
        literal: if question is StringLiteral {
            string_value(text)
        } else {
            None
        },
    }
}

impl Syntax {
    /// Puts one question about a piece of source text to `syn`, and none
    /// where there is nothing to ask.
    pub fn ask(text: &str, question: Question) -> (syntax: Syntax)
        ensures
            syntax.deep_view() == answer(text@, question),
    {
        match question {
            Question::Nothing => Syntax { is_type: false, is_expr: false, literal: None },
            Question::Type => Syntax { is_type: ask_type(text), is_expr: false, literal: None },
            Question::Expression => Syntax {
                is_type: false,
                is_expr: ask_expr(text),
                literal: None,
            },
            Question::StringLiteral => Syntax {
                is_type: false,
                is_expr: false,
                literal: ask_string(text),
            },
        }
    }
}

/// What one annotation of a field asks for.
#[derive(Debug, Clone)]
pub enum FieldAttr {
    /// The field is an attribute with this value type.
    Attribute(String),
    /// The field is a uniform with this value type.
    Uniform(String),
    /// The field's name in the shader.
    GlName(String),
    /// The field holds the program data.
    Data,
    /// The attribute's integer values are scaled to the unit range.
    Normalized,
}

/// The model of [`FieldAttr`]: the same value, with its texts as sequences of
/// characters.
pub enum FieldAttrView {
    Attribute(Seq<char>),
    Uniform(Seq<char>),
    GlName(Seq<char>),
    Data,
    Normalized,
}

impl DeepView for FieldAttr {
    type V = FieldAttrView;

    open spec fn deep_view(&self) -> FieldAttrView {
        match self {
            FieldAttr::Attribute(ty) => FieldAttrView::Attribute(ty@),
            FieldAttr::Uniform(ty) => FieldAttrView::Uniform(ty@),
            FieldAttr::GlName(name) => FieldAttrView::GlName(name@),
            FieldAttr::Data => FieldAttrView::Data,
            FieldAttr::Normalized => FieldAttrView::Normalized,
        }
    }
}

/// What a field annotation asks for, given its parts and what `syn` says of
/// its argument:
/// `normalized` and `data` stand alone, `attribute` and `uniform` take a
/// type in parentheses, `gl_name` is assigned a string literal.
pub open spec fn field_attr(d: DirectiveView, s: SyntaxView) -> Result<FieldAttrView, ErrorKind> {
    if d.keyword == "normalized"@ {
        if d.kind is Absent {
            Ok(FieldAttrView::Normalized)
        } else {
            Err(ErrorKind::MalformedAttribute)
        }
    } else if d.keyword == "attribute"@ {
        if d.kind is Group && s.is_type {
            Ok(FieldAttrView::Attribute(d.text))
        } else {
            Err(ErrorKind::MalformedAttribute)
        }
    } else if d.keyword == "uniform"@ {
        if d.kind is Group && s.is_type {
            Ok(FieldAttrView::Uniform(d.text))
        } else {
            Err(ErrorKind::MalformedAttribute)
        }
    } else if d.keyword == "gl_name"@ {
        if d.kind is Assigned && s.literal is Some {
            Ok(FieldAttrView::GlName(s.literal->Some_0))
        } else {
            Err(ErrorKind::MalformedAttribute)
        }
    } else if d.keyword == "data"@ {
        if d.kind is Absent {
            Ok(FieldAttrView::Data)
        } else {
            Err(ErrorKind::MalformedAttribute)
        }
    } else {
        Err(ErrorKind::UnsupportedAttribute)
    }
}

/// The question that a field annotation raises about its argument: whether
/// the group of `attribute` or `uniform` is a type, and which text the value
/// of `gl_name` denotes. Any other annotation raises none.
pub open spec fn field_question(d: DirectiveView) -> Question {
    if (d.keyword == "attribute"@ || d.keyword == "uniform"@) && d.kind is Group {
        Question::Type
    } else if d.keyword == "gl_name"@ && d.kind is Assigned {
        Question::StringLiteral
    } else {
        Question::Nothing
    }
}

/// What the body of a field annotation asks for.
pub open spec fn parsed_field_attr(tokens: Seq<TokenView>) -> Result<FieldAttrView, ErrorKind> {
    match directive(tokens) {
        None => Err(ErrorKind::MalformedAttribute),
        Some(d) => field_attr(d, answer(d.text, field_question(d))),
    }
}

/// Finds the question that a field annotation raises about its argument.
fn question_of_field(d: &Directive) -> (question: Question)
    ensures
        question == field_question(d.deep_view()),
{
    let keyword = d.keyword.as_str();
    let group = match d.kind {
        ArgumentKind::Group => true,
        _ => false,
    };
    let assigned = match d.kind {
        ArgumentKind::Assigned => true,
        _ => false,
    };
    if group && (text_eq(keyword, "attribute") || text_eq(keyword, "uniform")) {
        Question::Type
    } else if assigned && text_eq(keyword, "gl_name") {
        Question::StringLiteral
    } else {
        Question::Nothing
    }
}

impl FieldAttr {
    /// Decides what a field annotation asks for, from its parts and from
    /// what `syn` says of its argument.
    pub fn decide(d: &Directive, s: &Syntax) -> (attr: Result<FieldAttr, ErrorKind>)
        ensures
            viewed(attr) == field_attr(d.deep_view(), s.deep_view()),
    {
        let keyword = d.keyword.as_str();
        let absent = match d.kind {
            ArgumentKind::Absent => true,
            _ => false,
        };
        let assigned = match d.kind {
            ArgumentKind::Assigned => true,
            _ => false,
        };
        let group = match d.kind {
            ArgumentKind::Group => true,
            _ => false,
        };
        if text_eq(keyword, "normalized") {
            if absent {
                Ok(FieldAttr::Normalized)
            } else {
                Err(ErrorKind::MalformedAttribute)
            }
        } else if text_eq(keyword, "attribute") {
            if group && s.is_type {
                Ok(FieldAttr::Attribute(d.text.clone()))
            } else {
                Err(ErrorKind::MalformedAttribute)
            }
        } else if text_eq(keyword, "uniform") {
            if group && s.is_type {
                Ok(FieldAttr::Uniform(d.text.clone()))
            } else {
                Err(ErrorKind::MalformedAttribute)
            }
        } else if text_eq(keyword, "gl_name") {
            match &s.literal {
                Some(name) => {
                    if assigned {
                        Ok(FieldAttr::GlName(name.clone()))
                    } else {
                        Err(ErrorKind::MalformedAttribute)
                    }
                },
                None => Err(ErrorKind::MalformedAttribute),
            }
        } else if text_eq(keyword, "data") {
            if absent {
                Ok(FieldAttr::Data)
            } else {
                Err(ErrorKind::MalformedAttribute)
            }
        } else {
            Err(ErrorKind::UnsupportedAttribute)
        }
    }

    /// Reads the body of a field annotation.
    pub fn parse(tokens: &Vec<Token>) -> (attr: Result<FieldAttr, ErrorKind>)
        ensures
            viewed(attr) == parsed_field_attr(tokens.deep_view()),
    {
        match split_directive(tokens) {
            None => Err(ErrorKind::MalformedAttribute),
            Some(d) => {
                let s = Syntax::ask(d.text.as_str(), question_of_field(&d));
                FieldAttr::decide(&d, &s)
            },
        }
    }
}

/// What one annotation of the struct asks for.
#[derive(Debug, Clone)]
pub enum StructAttr {
    /// Both shaders are read from files: the path with `.vert` and with
    /// `.frag` added.
    Path(String),
    /// The vertex shader's code is the value of this expression.
    VertexCode(String),
    /// The fragment shader's code is the value of this expression.
    FragmentCode(String),
}

/// The model of [`StructAttr`]: the same value, with its texts as sequences of
/// characters.
pub enum StructAttrView {
    Path(Seq<char>),
    VertexCode(Seq<char>),
    FragmentCode(Seq<char>),
}

impl DeepView for StructAttr {
    type V = StructAttrView;

    open spec fn deep_view(&self) -> StructAttrView {
        match self {
            StructAttr::Path(path) => StructAttrView::Path(path@),
            StructAttr::VertexCode(expr) => StructAttrView::VertexCode(expr@),
            StructAttr::FragmentCode(expr) => StructAttrView::FragmentCode(expr@),
        }
    }
}

/// What a struct annotation asks for, given its parts and what `syn` says
/// of its argument: `path` is assigned a string literal, `vert` and `frag`
/// are assigned an expression.
pub open spec fn struct_attr(d: DirectiveView, s: SyntaxView) -> Result<StructAttrView, ErrorKind> {
    if d.keyword == "path"@ {
        if d.kind is Assigned && s.literal is Some {
            Ok(StructAttrView::Path(s.literal->Some_0))
        } else {
            Err(ErrorKind::MalformedAttribute)
        }
    } else if d.keyword == "vert"@ {
        if d.kind is Assigned && s.is_expr {
            Ok(StructAttrView::VertexCode(d.text))
        } else {
            Err(ErrorKind::MalformedAttribute)
        }
    } else if d.keyword == "frag"@ {
        if d.kind is Assigned && s.is_expr {
            Ok(StructAttrView::FragmentCode(d.text))
        } else {
            Err(ErrorKind::MalformedAttribute)
        }
    } else {
        Err(ErrorKind::UnsupportedAttribute)
    }
}

/// The question that a struct annotation raises about its argument: which
/// text the value of `path` denotes, and whether the value of `vert` or
/// `frag` is an expression. Any other annotation raises none.
pub open spec fn struct_question(d: DirectiveView) -> Question {
    if d.keyword == "path"@ && d.kind is Assigned {
        Question::StringLiteral
    } else if (d.keyword == "vert"@ || d.keyword == "frag"@) && d.kind is Assigned {
        Question::Expression
    } else {
        Question::Nothing
    }
}

/// What the body of a struct annotation asks for.
pub open spec fn parsed_struct_attr(tokens: Seq<TokenView>) -> Result<StructAttrView, ErrorKind> {
    match directive(tokens) {
        None => Err(ErrorKind::MalformedAttribute),
        Some(d) => struct_attr(d, answer(d.text, struct_question(d))),
    }
}

/// Finds the question that a struct annotation raises about its argument.
fn question_of_struct(d: &Directive) -> (question: Question)
    ensures
        question == struct_question(d.deep_view()),
{
    let keyword = d.keyword.as_str();
    let assigned = match d.kind {
        ArgumentKind::Assigned => true,
        _ => false,
    };
    if assigned && text_eq(keyword, "path") {
        Question::StringLiteral
    } else if assigned && (text_eq(keyword, "vert") || text_eq(keyword, "frag")) {
        Question::Expression
    } else {
        Question::Nothing
    }
}

impl StructAttr {
    /// Decides what a struct annotation asks for, from its parts and from
    /// what `syn` says of its argument.
    pub fn decide(d: &Directive, s: &Syntax) -> (attr: Result<StructAttr, ErrorKind>)
        ensures
            viewed(attr) == struct_attr(d.deep_view(), s.deep_view()),
    {
        let keyword = d.keyword.as_str();
        let assigned = match d.kind {
            ArgumentKind::Assigned => true,
            _ => false,
        };
        if text_eq(keyword, "path") {
            match &s.literal {
                Some(path) => {
                    if assigned {
                        Ok(StructAttr::Path(path.clone()))
                    } else {
                        Err(ErrorKind::MalformedAttribute)
                    }
                },
                None => Err(ErrorKind::MalformedAttribute),
            }
        } else if text_eq(keyword, "vert") {
            if assigned && s.is_expr {
                Ok(StructAttr::VertexCode(d.text.clone()))
            } else {
                Err(ErrorKind::MalformedAttribute)
            }
        } else if text_eq(keyword, "frag") {
            if assigned && s.is_expr {
                Ok(StructAttr::FragmentCode(d.text.clone()))
            } else {
                Err(ErrorKind::MalformedAttribute)
            }
        } else {
            Err(ErrorKind::UnsupportedAttribute)
        }
    }

    /// Reads the body of a struct annotation.
    pub fn parse(tokens: &Vec<Token>) -> (attr: Result<StructAttr, ErrorKind>)
        ensures
            viewed(attr) == parsed_struct_attr(tokens.deep_view()),
    {
        match split_directive(tokens) {
            None => Err(ErrorKind::MalformedAttribute),
            Some(d) => {
                let s = Syntax::ask(d.text.as_str(), question_of_struct(&d));
                StructAttr::decide(&d, &s)
            },
        }
    }
}

} // verus!
