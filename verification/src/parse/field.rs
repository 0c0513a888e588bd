//! What one field of a struct is in the program: the program data, an
//! attribute or a uniform.

use vstd::prelude::*;
use crate::parse::annotation::{parsed_field_attr, FieldAttr, FieldAttrView};
use crate::parse::error::{ErrorKind, ErrorSite, ParseError};
use crate::parse::{viewed, Attribute, AttributeView, Uniform, UniformView};
use crate::syntax::{
    is_ending_ident, AnnotationView, FieldDecl, FieldDeclView, GenericArgument,
    GenericArgumentView, PathArguments, PathArgumentsView,
};
use crate::text::text_eq;

verus! {

/// What a field is in the program.
#[derive(Debug, Clone)]
pub enum FieldOutput {
    Attribute(Attribute),
    Uniform(Uniform),
    /// The field that holds the program data, by its name.
    ProgramData(String),
}

/// The model of [`FieldOutput`]: the same value, with its texts as sequences of
/// characters.
pub enum FieldOutputView {
    Attribute(AttributeView),
    Uniform(UniformView),
    ProgramData(Seq<char>),
}

impl DeepView for FieldOutput {
    type V = FieldOutputView;

    open spec fn deep_view(&self) -> FieldOutputView {
        match self {
            FieldOutput::Attribute(a) => FieldOutputView::Attribute(a.deep_view()),
            FieldOutput::Uniform(u) => FieldOutputView::Uniform(u.deep_view()),
            FieldOutput::ProgramData(name) => FieldOutputView::ProgramData(name@),
        }
    }
}

/// What the annotations of a field have settled: the role that the last
/// role annotation gave, the name in the shader, and the normalisation flag.
pub struct FieldSettings {
    pub role: Option<FieldAttrView>,
    pub gl: Seq<char>,
    pub normalized: bool,
}

impl FieldSettings {
    /// The settings after one more annotation.
    pub open spec fn with(self, attr: FieldAttrView) -> FieldSettings {
        match attr {
            FieldAttrView::GlName(name) => FieldSettings { gl: name, ..self },
            FieldAttrView::Normalized => FieldSettings { normalized: true, ..self },
            role => FieldSettings { role: Some(role), ..self },
        }
    }
}

/// Whether an annotation is addressed to this library.
pub open spec fn is_ours(annotation: AnnotationView) -> bool {
    annotation.path == "willow"@
}

/// What the first `n` annotations of a field settle, or the first of them
/// that is refused. Annotations that are not addressed to this library are
/// passed over. Without annotations a field is named in the shader as it is
/// in the struct, is not normalised, and has no role yet.
pub open spec fn field_settings(field: FieldDeclView, n: nat) -> Result<
    FieldSettings,
    (ErrorKind, nat),
>
    decreases n,
{
    if n == 0 {
        Ok(FieldSettings { role: None, gl: field.name, normalized: false })
    } else {
        let last = field.annotations[n - 1];
        match field_settings(field, (n - 1) as nat) {
            Err(refusal) => Err(refusal),
            Ok(settings) => if is_ours(last) {
                match parsed_field_attr(last.tokens) {
                    Err(kind) => Err((kind, (n - 1) as nat)),
                    Ok(attr) => Ok(settings.with(attr)),
                }
            } else {
                Ok(settings)
            },
        }
    }
}

/// The role that a field's declared type gives it: the program data for the
/// plain name `ProgramData`; an attribute or a uniform for a path that ends
/// in `Attribute<T>` or `Uniform<T>`, with `T` as the value type.
pub open spec fn declared_role(field: FieldDeclView, index: usize) -> Result<
    FieldAttrView,
    ParseError,
> {
    let irrelevant = Err(
        ParseError { kind: ErrorKind::IrrelevantField, site: ErrorSite::FieldType(index) },
    );
    match field.ty.path {
        None => irrelevant,
        Some(path) => if path.is_ident("ProgramData"@) {
            Ok(FieldAttrView::Data)
        } else if path.ends_with("Uniform"@) || path.ends_with("Attribute"@) {
            match path.segments.last().arguments {
                PathArgumentsView::AngleBracketed(args) => if args.len() == 0 {
                    Err(
                        ParseError {
                            kind: ErrorKind::MissingTypeParameter,
                            site: ErrorSite::FieldTypeSegment(index),
                        },
                    )
                } else {
                    match args[0] {
                        GenericArgumentView::Type(ty) => if path.ends_with("Attribute"@) {
                            Ok(FieldAttrView::Attribute(ty))
                        } else {
                            Ok(FieldAttrView::Uniform(ty))
                        },
                        GenericArgumentView::Other => Err(
                            ParseError {
                                kind: ErrorKind::NonTypeArgument,
                                site: ErrorSite::FieldTypeArgument(index),
                            },
                        ),
                    }
                },
                _ => Err(
                    ParseError {
                        kind: ErrorKind::MissingTypeParameter,
                        site: ErrorSite::FieldTypeSegment(index),
                    },
                ),
            }
        } else {
            irrelevant
        },
    }
}

/// What a field with a given role and given settings is in the program.
pub open spec fn field_with_role(
    field: FieldDeclView,
    role: FieldAttrView,
    settings: FieldSettings,
) -> FieldOutputView {
    match role {
        FieldAttrView::Attribute(ty) => FieldOutputView::Attribute(
            AttributeView {
                field: field.name,
                ty,
                gl: settings.gl,
                normalized: settings.normalized,
            },
        ),
        FieldAttrView::Uniform(ty) => FieldOutputView::Uniform(
            UniformView { field: field.name, gl: settings.gl, ty },
        ),
        _ => FieldOutputView::ProgramData(field.name),
    }
}

/// What the field at position `index` is in the program. Its role is the
/// one that its annotations give it and, where they give none, the one that
/// its declared type gives it.
pub open spec fn field_output(field: FieldDeclView, index: usize) -> Result<
    FieldOutputView,
    ParseError,
> {
    match field_settings(field, field.annotations.len()) {
        Err((kind, annotation)) => Err(
            ParseError {
                kind,
                site: ErrorSite::FieldAnnotation { field: index, annotation: annotation as usize },
            },
        ),
        Ok(settings) => match settings.role {
            Some(role) => Ok(field_with_role(field, role, settings)),
            None => match declared_role(field, index) {
                Err(error) => Err(error),
                Ok(role) => Ok(field_with_role(field, role, settings)),
            },
        },
    }
}

/// Reads the role that a field's declared type gives it.
fn role_from_type(field: &FieldDecl, index: usize) -> (role: Result<FieldAttr, ParseError>)
    ensures
        viewed(role) == declared_role(field.deep_view(), index),
{
    let irrelevant = ParseError {
        kind: ErrorKind::IrrelevantField,
        site: ErrorSite::FieldType(index),
    };
    let missing = ParseError {
        kind: ErrorKind::MissingTypeParameter,
        site: ErrorSite::FieldTypeSegment(index),
    };
    match &field.ty.path {
        None => Err(irrelevant),
        Some(path) => {
            if path.is_ident("ProgramData") {
                return Ok(FieldAttr::Data);
            }
            let uniform = is_ending_ident(path, "Uniform");
            let attribute = is_ending_ident(path, "Attribute");
            if !uniform && !attribute {
                return Err(irrelevant);
            }
            let segment = &path.segments[path.segments.len() - 1];
            assert(segment.deep_view() == path.deep_view().segments.last());
            match &segment.arguments {
                PathArguments::AngleBracketed(args) => {
                    if args.len() == 0 {
                        return Err(missing);
                    }
                    assert(args.deep_view()[0] == args[0].deep_view());
                    match &args[0] {
                        GenericArgument::Type(ty) => {
                            if attribute {
                                Ok(FieldAttr::Attribute(ty.clone()))
                            } else {
                                Ok(FieldAttr::Uniform(ty.clone()))
                            }
                        },
                        GenericArgument::Other => Err(
                            ParseError {
                                kind: ErrorKind::NonTypeArgument,
                                site: ErrorSite::FieldTypeArgument(index),
                            },
                        ),
                    }
                },
                _ => Err(missing),
            }
        },
    }
}

impl FieldOutput {
    /// Classifies the field at position `index` of a struct.
    pub fn from_field(field: &FieldDecl, index: usize) -> (output: Result<FieldOutput, ParseError>)
        ensures
            viewed(output) == field_output(field.deep_view(), index),
    {
        let ghost f = field.deep_view();
        let mut role: Option<FieldAttr> = None;
        let mut gl_name = field.name.clone();
        let mut normalized = false;
        let mut i: usize = 0;
        while i < field.annotations.len()
            invariant
                i <= field.annotations.len(),
                f == field.deep_view(),
                field_settings(f, i as nat) == Ok::<FieldSettings, (ErrorKind, nat)>(
                    FieldSettings { role: role.deep_view(), gl: gl_name@, normalized },
                ),
            decreases field.annotations.len() - i,
        {
            let annotation = &field.annotations[i];
            assert(f.annotations[i as int] == annotation.deep_view());
            if text_eq(annotation.path.as_str(), "willow") {
                match FieldAttr::parse(&annotation.tokens) {
                    Err(kind) => {
                        proof {
                            // every later prefix of the annotations is refused for the same reason
                            let refusal = (kind, i as nat);
                            assert(field_settings(f, (i + 1) as nat) == Err::<
                                FieldSettings,
                                (ErrorKind, nat),
                            >(refusal));
                            field_settings_stay_refused(
                                f,
                                (i + 1) as nat,
                                f.annotations.len(),
                                refusal,
                            );
                        }
                        return Err(
                            ParseError {
                                kind,
                                site: ErrorSite::FieldAnnotation { field: index, annotation: i },
                            },
                        );
                    },
                    Ok(FieldAttr::GlName(name)) => {
                        gl_name = name;
                    },
                    Ok(FieldAttr::Normalized) => {
                        normalized = true;
                    },
                    Ok(other) => {
                        role = Some(other);
                    },
                }
            }
            i = i + 1;
        }
        let role = match role {
            Some(role) => role,
            None => match role_from_type(field, index) {
                Ok(role) => role,
                Err(error) => {
                    return Err(error);
                },
            },
        };
        let name = field.name.clone();
        Ok(
            match role {
                FieldAttr::Attribute(ty) => FieldOutput::Attribute(
                    Attribute { field: name, ty, gl: gl_name, normalized },
                ),
                FieldAttr::Uniform(ty) => FieldOutput::Uniform(
                    Uniform { field: name, gl: gl_name, ty },
                ),
                _ => FieldOutput::ProgramData(name),
            },
        )
    }
}

/// Once an annotation of a field is refused, the field stays refused for
/// that reason however many annotations follow.
pub proof fn field_settings_stay_refused(
    field: FieldDeclView,
    from: nat,
    to: nat,
    refusal: (ErrorKind, nat),
)
    requires
        from <= to,
        field_settings(field, from) == Err::<FieldSettings, (ErrorKind, nat)>(refusal),
    ensures
        field_settings(field, to) == Err::<FieldSettings, (ErrorKind, nat)>(refusal),
    decreases to,
{
    if from < to {
        field_settings_stay_refused(field, from, (to - 1) as nat, refusal);
    }
}

} // verus!
