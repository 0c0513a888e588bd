//! Why and where a struct is refused.

use vstd::prelude::*;
use vstd::string::StringExecFns;
use crate::parse::annotation::{directive, split_directive};
use crate::syntax::{Annotation, AnnotationView, StructDecl, StructDeclView};

verus! {

/// Why a struct was refused.
#[derive(Debug, Clone, Copy, PartialEq, Eq, Structural)]
pub enum ErrorKind {
    /// A `willow` annotation that is not of the form `(keyword)`,
    /// `(keyword = value)` or `(keyword(type))` that its keyword asks for.
    MalformedAttribute,
    /// A `willow` annotation with a keyword that has no meaning.
    UnsupportedAttribute,
    /// Shader code is given both by a path and by an inline expression.
    ConflictingSource,
    /// The item is an enum or a union.
    NotAStruct,
    /// The struct has no named fields.
    NotNamed,
    /// The wrapper type of an attribute or a uniform has a first argument
    /// that is not a type.
    NonTypeArgument,
    /// The wrapper type of an attribute or a uniform has no argument.
    MissingTypeParameter,
    /// A field that is neither the program data, nor an attribute, nor a
    /// uniform.
    IrrelevantField,
    /// Nothing says where the vertex shader's code comes from.
    MissingVertexCode,
    /// Nothing says where the fragment shader's code comes from.
    MissingFragmentCode,
    /// The struct does not have exactly one field for the program data.
    ProgramData,
}

/// The piece of the struct's syntax that an error points at.
#[derive(Debug, Clone, Copy, PartialEq, Eq, Structural)]
pub enum ErrorSite {
    /// The whole item.
    Item,
    /// The list of fields.
    Fields,
    /// The annotation of the struct at this position.
    Annotation(usize),
    /// An annotation of a field, both by position.
    FieldAnnotation { field: usize, annotation: usize },
    /// The type of the field at this position.
    FieldType(usize),
    /// The last segment of the type of the field at this position.
    FieldTypeSegment(usize),
    /// The first argument of the last segment of the type of the field at
    /// this position.
    FieldTypeArgument(usize),
}

/// A refusal: why, and where.
#[derive(Debug, Clone, Copy, PartialEq, Eq, Structural)]
pub struct ParseError {
    pub kind: ErrorKind,
    pub site: ErrorSite,
}

impl ErrorKind {
    /// What the error says, in general terms.
    pub open spec fn text(self) -> Seq<char> {
        match self {
            ErrorKind::MalformedAttribute => "Malformed attribute #[willow(..)]"@,
            ErrorKind::UnsupportedAttribute => "Unsupported attribute #[willow(..)]"@,
            ErrorKind::ConflictingSource =>
                "Shader code is given both by a path and by an expression"@,
            ErrorKind::NotAStruct => "willow::Program can only derive from structs"@,
            ErrorKind::NotNamed => "willow::Program can only derive from named structs"@,
            ErrorKind::NonTypeArgument => "Attribute/Uniform provided with non-type argument"@,
            ErrorKind::MissingTypeParameter => "Attribute/Uniform requires a type parameter"@,
            ErrorKind::IrrelevantField => "This field appears to be irrelevant with the GLSL"@,
            ErrorKind::MissingVertexCode => "Cannot infer vertex code"@,
            ErrorKind::MissingFragmentCode => "Cannot infer fragment code"@,
            ErrorKind::ProgramData =>
                "Program struct must have exactly one field with type ProgramData or #[willow(data)]"@,
        }
    }

    /// Writes what the error says, in general terms.
    pub fn to_text(self) -> (text: String)
        ensures
            text@ == self.text(),
    {
        match self {
            ErrorKind::MalformedAttribute => String::from_str("Malformed attribute #[willow(..)]"),
            ErrorKind::UnsupportedAttribute => String::from_str(
                "Unsupported attribute #[willow(..)]",
            ),
            ErrorKind::ConflictingSource => String::from_str(
                "Shader code is given both by a path and by an expression",
            ),
            ErrorKind::NotAStruct => String::from_str(
                "willow::Program can only derive from structs",
            ),
            ErrorKind::NotNamed => String::from_str(
                "willow::Program can only derive from named structs",
            ),
            ErrorKind::NonTypeArgument => String::from_str(
                "Attribute/Uniform provided with non-type argument",
            ),
            ErrorKind::MissingTypeParameter => String::from_str(
                "Attribute/Uniform requires a type parameter",
            ),
            ErrorKind::IrrelevantField => String::from_str(
                "This field appears to be irrelevant with the GLSL",
            ),
            ErrorKind::MissingVertexCode => String::from_str("Cannot infer vertex code"),
            ErrorKind::MissingFragmentCode => String::from_str("Cannot infer fragment code"),
            ErrorKind::ProgramData => String::from_str(
                "Program struct must have exactly one field with type ProgramData or #[willow(data)]",
            ),
        }
    }
}

/// The annotation that a site points at, where it points at one of the
/// declaration's.
pub open spec fn annotation_at(decl: StructDeclView, site: ErrorSite) -> Option<AnnotationView> {
    match site {
        ErrorSite::Annotation(k) => if k < decl.annotations.len() {
            Some(decl.annotations[k as int])
        } else {
            None
        },
        ErrorSite::FieldAnnotation { field, annotation } => if field < decl.fields.len()
            && annotation < decl.fields[field as int].annotations.len() {
            Some(decl.fields[field as int].annotations[annotation as int])
        } else {
            None
        },
        _ => None,
    }
}

/// What an error says about a declaration. An unsupported annotation is
/// named by its keyword.
pub open spec fn message_of(error: ParseError, decl: StructDeclView) -> Seq<char> {
    if error.kind is UnsupportedAttribute && annotation_at(decl, error.site) is Some && directive(
        annotation_at(decl, error.site)->Some_0.tokens,
    ) is Some {
        "Unsupported attribute #[willow("@ + directive(
            annotation_at(decl, error.site)->Some_0.tokens,
        )->Some_0.keyword + ")]"@
    } else {
        error.kind.text()
    }
}

fn find_annotation<'a>(decl: &'a StructDecl, site: ErrorSite) -> (found: Option<&'a Annotation>)
    ensures
        found.deep_view() == annotation_at(decl.deep_view(), site),
{
    match site {
        ErrorSite::Annotation(k) => {
            if k < decl.annotations.len() {
                assert(decl.deep_view().annotations[k as int] == decl.annotations[k as int].deep_view());
                Some(&decl.annotations[k])
            } else {
                None
            }
        },
        ErrorSite::FieldAnnotation { field, annotation } => {
            if field < decl.fields.len() {
                let f = &decl.fields[field];
                assert(decl.deep_view().fields[field as int] == f.deep_view());
                if annotation < f.annotations.len() {
                    assert(f.deep_view().annotations[annotation as int]
                        == f.annotations[annotation as int].deep_view());
                    Some(&f.annotations[annotation])
                } else {
                    None
                }
            } else {
                None
            }
        },
        _ => None,
    }
}

impl ParseError {
    /// Writes what the error says about the declaration that it was found
    /// in.
    pub fn message(&self, decl: &StructDecl) -> (text: String)
        ensures
            text@ == message_of(*self, decl.deep_view()),
    {
        match self.kind {
            ErrorKind::UnsupportedAttribute => {
                match find_annotation(decl, self.site) {
                    Some(annotation) => match split_directive(&annotation.tokens) {
                        Some(d) => {
                            let mut text = String::from_str("Unsupported attribute #[willow(");
                            text.append(d.keyword.as_str());
                            text.append(")]");
                            text
                        },
                        None => self.kind.to_text(),
                    },
                    None => self.kind.to_text(),
                }
            },
            _ => self.kind.to_text(),
        }
    }
}

} // verus!
