//! From a struct's syntax to the validated description of a shader program.
//!
//! [`annotation`] reads the annotations that are addressed to this library,
//! [`field`] classifies one field, and this module reads the struct as a
//! whole. [`error`] holds the refusals.

pub mod annotation;
pub mod error;
pub mod field;

pub use annotation::{
    answer, directive, field_attr, field_question, is_assignment, parsed_field_attr,
    parsed_struct_attr, split_directive, struct_attr, struct_question, ArgumentKind, Directive,
    DirectiveView, FieldAttr, FieldAttrView, Question, StructAttr, StructAttrView, Syntax,
    SyntaxView,
};
pub use error::{annotation_at, message_of, ErrorKind, ErrorSite, ParseError};
pub use field::{
    declared_role, field_output, field_settings, field_settings_stay_refused, field_with_role,
    is_ours, FieldOutput, FieldOutputView, FieldSettings,
};

use vstd::prelude::*;
use vstd::string::StringExecFns;
use crate::syntax::{Annotation, AnnotationView, FieldDeclView, ItemShape, StructDecl, StructDeclView};
use crate::text::text_eq;

verus! {

/// Where the source text of a shader comes from.
#[derive(Debug, Clone)]
pub enum CodeSource {
    /// A file beside the struct's source file, read when the program is
    /// compiled; the text is the file's path.
    File(String),
    /// An expression that evaluates to the shader's text.
    Expr(String),
}

/// The model of [`CodeSource`]: the same value, with its texts as sequences of
/// characters.
pub enum CodeSourceView {
    File(Seq<char>),
    Expr(Seq<char>),
}

impl DeepView for CodeSource {
    type V = CodeSourceView;

    open spec fn deep_view(&self) -> CodeSourceView {
        match self {
            CodeSource::File(path) => CodeSourceView::File(path@),
            CodeSource::Expr(expr) => CodeSourceView::Expr(expr@),
        }
    }
}

/// A vertex attribute of the program: one input of the vertex shader, fed
/// from a column of the vertex buffer.
#[derive(Debug, Clone)]
pub struct Attribute {
    /// The field that declares the attribute.
    pub field: String,
    /// The type of the attribute's value.
    pub ty: String,
    /// The attribute's name in the shader.
    pub gl: String,
    /// Whether integer values are scaled to the unit range on upload.
    pub normalized: bool,
}

/// The model of [`Attribute`]: the same value, with its texts as sequences of
/// characters.
pub struct AttributeView {
    pub field: Seq<char>,
    pub ty: Seq<char>,
    pub gl: Seq<char>,
    pub normalized: bool,
}

impl DeepView for Attribute {
    type V = AttributeView;

    open spec fn deep_view(&self) -> AttributeView {
        AttributeView {
            field: self.field@,
            ty: self.ty@,
            gl: self.gl@,
            normalized: self.normalized,
        }
    }
}

/// A uniform of the program: a constant of the shaders, set once per draw.
#[derive(Debug, Clone)]
pub struct Uniform {
    /// The field that declares the uniform.
    pub field: String,
    /// The uniform's name in the shader.
    pub gl: String,
    /// The type of the uniform's value.
    pub ty: String,
}

/// The model of [`Uniform`]: the same value, with its texts as sequences of
/// characters.
pub struct UniformView {
    pub field: Seq<char>,
    pub gl: Seq<char>,
    pub ty: Seq<char>,
}

impl DeepView for Uniform {
    type V = UniformView;

    open spec fn deep_view(&self) -> UniformView {
        UniformView { field: self.field@, gl: self.gl@, ty: self.ty@ }
    }
}

/// The validated description of a shader program.
#[derive(Debug, Clone)]
pub struct Input {
    pub vertex_source: CodeSource,
    pub fragment_source: CodeSource,
    /// The attributes in declaration order; an attribute's position is its
    /// binding slot.
    pub attributes: Vec<Attribute>,
    /// The uniforms in declaration order.
    pub uniforms: Vec<Uniform>,
    /// The field that holds the program's GPU handles.
    pub program_data: String,
    /// The struct's visibility, in its source text.
    pub vis: String,
    /// The struct's name.
    pub ident: String,
    /// The name of the vertex record that is generated for the struct.
    pub attr_ident: String,
    /// The name of the uniform builder that is generated for the struct.
    pub builder_ident: String,
}

/// The model of [`Input`]: the same value, with its texts as sequences of
/// characters.
pub struct InputView {
    pub vertex_source: CodeSourceView,
    pub fragment_source: CodeSourceView,
    pub attributes: Seq<AttributeView>,
    pub uniforms: Seq<UniformView>,
    pub program_data: Seq<char>,
    pub vis: Seq<char>,
    pub ident: Seq<char>,
    pub attr_ident: Seq<char>,
    pub builder_ident: Seq<char>,
}

impl DeepView for Input {
    type V = InputView;

    open spec fn deep_view(&self) -> InputView {
        InputView {
            vertex_source: self.vertex_source.deep_view(),
            fragment_source: self.fragment_source.deep_view(),
            attributes: self.attributes.deep_view(),
            uniforms: self.uniforms.deep_view(),
            program_data: self.program_data@,
            vis: self.vis@,
            ident: self.ident@,
            attr_ident: self.attr_ident@,
            builder_ident: self.builder_ident@,
        }
    }
}

/// A result whose value, where it has one, is taken by its view.
pub open spec fn viewed<T: DeepView, E>(r: Result<T, E>) -> Result<T::V, E> {
    match r {
        Ok(value) => Ok(value.deep_view()),
        Err(error) => Err(error),
    }
}

/// Where the two shaders' code comes from, as far as it is known.
pub struct Sources {
    pub vertex: Option<CodeSourceView>,
    pub fragment: Option<CodeSourceView>,
}

/// Whether a source is known and is a file.
pub open spec fn is_file(source: Option<CodeSourceView>) -> bool {
    source matches Some(s) && s is File
}

/// Whether a source is known and is an inline expression.
pub open spec fn is_inline(source: Option<CodeSourceView>) -> bool {
    source matches Some(s) && s is Expr
}

impl Sources {
    /// The sources after one more annotation, or nothing where the
    /// annotation gives code in the other form than an earlier one: a struct
    /// names its shaders either by a path or by inline code, not by both. A
    /// later annotation of the same form replaces an earlier one.
    pub open spec fn with(self, attr: StructAttrView) -> Option<Sources> {
        match attr {
            StructAttrView::Path(path) => if is_inline(self.vertex) || is_inline(self.fragment) {
                None
            } else {
                Some(
                    Sources {
                        vertex: Some(CodeSourceView::File(path + ".vert"@)),
                        fragment: Some(CodeSourceView::File(path + ".frag"@)),
                    },
                )
            },
            StructAttrView::VertexCode(expr) => if is_file(self.vertex) || is_file(
                self.fragment,
            ) {
                None
            } else {
                Some(Sources { vertex: Some(CodeSourceView::Expr(expr)), ..self })
            },
            StructAttrView::FragmentCode(expr) => if is_file(self.vertex) || is_file(
                self.fragment,
            ) {
                None
            } else {
                Some(Sources { fragment: Some(CodeSourceView::Expr(expr)), ..self })
            },
        }
    }
}

/// What the first `n` annotations of a struct say of its shaders' code, or
/// the first of them that is refused. Annotations that are not addressed to
/// this library are passed over.
pub open spec fn shader_sources(annotations: Seq<AnnotationView>, n: nat) -> Result<
    Sources,
    ParseError,
>
    decreases n,
{
    if n == 0 {
        Ok(Sources { vertex: None, fragment: None })
    } else {
        let last = annotations[n - 1];
        let site = ErrorSite::Annotation((n - 1) as usize);
        match shader_sources(annotations, (n - 1) as nat) {
            Err(error) => Err(error),
            Ok(sources) => if is_ours(last) {
                match parsed_struct_attr(last.tokens) {
                    Err(kind) => Err(ParseError { kind, site }),
                    Ok(attr) => match sources.with(attr) {
                        None => Err(ParseError { kind: ErrorKind::ConflictingSource, site }),
                        Some(next) => Ok(next),
                    },
                }
            } else {
                Ok(sources)
            },
        }
    }
}

/// What the first `n` fields of a struct are in the program, in order, or
/// the error of the first of them that is refused.
pub open spec fn field_outputs(fields: Seq<FieldDeclView>, n: nat) -> Result<
    Seq<FieldOutputView>,
    ParseError,
>
    decreases n,
{
    if n == 0 {
        Ok(Seq::empty())
    } else {
        match field_outputs(fields, (n - 1) as nat) {
            Err(error) => Err(error),
            Ok(outputs) => match field_output(fields[n - 1], (n - 1) as usize) {
                Err(error) => Err(error),
                Ok(output) => Ok(outputs.push(output)),
            },
        }
    }
}

/// The attributes among classified fields, in the fields' order.
pub open spec fn attributes_of(outputs: Seq<FieldOutputView>) -> Seq<AttributeView>
    decreases outputs.len(),
{
    if outputs.len() == 0 {
        Seq::empty()
    } else {
        match outputs.last() {
            FieldOutputView::Attribute(a) => attributes_of(outputs.drop_last()).push(a),
            _ => attributes_of(outputs.drop_last()),
        }
    }
}

/// The uniforms among classified fields, in the fields' order.
pub open spec fn uniforms_of(outputs: Seq<FieldOutputView>) -> Seq<UniformView>
    decreases outputs.len(),
{
    if outputs.len() == 0 {
        Seq::empty()
    } else {
        match outputs.last() {
            FieldOutputView::Uniform(u) => uniforms_of(outputs.drop_last()).push(u),
            _ => uniforms_of(outputs.drop_last()),
        }
    }
}

/// The names of the program data fields among classified fields, in the
/// fields' order.
pub open spec fn program_data_of(outputs: Seq<FieldOutputView>) -> Seq<Seq<char>>
    decreases outputs.len(),
{
    if outputs.len() == 0 {
        Seq::empty()
    } else {
        match outputs.last() {
            FieldOutputView::ProgramData(name) => program_data_of(outputs.drop_last()).push(name),
            _ => program_data_of(outputs.drop_last()),
        }
    }
}

/// The description of the program that a struct declares, or why and where
/// the struct is refused. The checks come in this order, and the first that
/// fails decides: the struct's annotations, one by one; the item's shape;
/// the fields, one by one; the presence of the vertex code, then of the
/// fragment code; and that exactly one field holds the program data.
pub open spec fn parsed(decl: StructDeclView) -> Result<InputView, ParseError> {
    match shader_sources(decl.annotations, decl.annotations.len()) {
        Err(error) => Err(error),
        Ok(sources) => if decl.shape is Enum || decl.shape is Union {
            Err(ParseError { kind: ErrorKind::NotAStruct, site: ErrorSite::Item })
        } else if !(decl.shape is NamedStruct) {
            Err(ParseError { kind: ErrorKind::NotNamed, site: ErrorSite::Fields })
        } else {
            match field_outputs(decl.fields, decl.fields.len()) {
                Err(error) => Err(error),
                Ok(outputs) => if sources.vertex is None {
                    Err(ParseError { kind: ErrorKind::MissingVertexCode, site: ErrorSite::Fields })
                } else if sources.fragment is None {
                    Err(
                        ParseError {
                            kind: ErrorKind::MissingFragmentCode,
                            site: ErrorSite::Fields,
                        },
                    )
                } else if program_data_of(outputs).len() != 1 {
                    Err(ParseError { kind: ErrorKind::ProgramData, site: ErrorSite::Fields })
                } else {
                    Ok(
                        InputView {
                            vertex_source: sources.vertex->Some_0,
                            fragment_source: sources.fragment->Some_0,
                            attributes: attributes_of(outputs),
                            uniforms: uniforms_of(outputs),
                            program_data: program_data_of(outputs)[0],
                            vis: decl.vis,
                            ident: decl.name,
                            attr_ident: decl.name + "Attr"@,
                            builder_ident: decl.name + "Draw"@,
                        },
                    )
                },
            }
        },
    }
}

/// Once an annotation of the struct is refused, the struct stays refused
/// for that reason however many annotations follow.
pub proof fn shader_sources_stay_refused(
    annotations: Seq<AnnotationView>,
    from: nat,
    to: nat,
    error: ParseError,
)
    requires
        from <= to,
        shader_sources(annotations, from) == Err::<Sources, ParseError>(error),
    ensures
        shader_sources(annotations, to) == Err::<Sources, ParseError>(error),
    decreases to,
{
    if from < to {
        shader_sources_stay_refused(annotations, from, (to - 1) as nat, error);
    }
}

/// Once a field is refused, the struct stays refused for that reason
/// however many fields follow.
pub proof fn field_outputs_stay_refused(
    fields: Seq<FieldDeclView>,
    from: nat,
    to: nat,
    error: ParseError,
)
    requires
        from <= to,
        field_outputs(fields, from) == Err::<Seq<FieldOutputView>, ParseError>(error),
    ensures
        field_outputs(fields, to) == Err::<Seq<FieldOutputView>, ParseError>(error),
    decreases to,
{
    if from < to {
        field_outputs_stay_refused(fields, from, (to - 1) as nat, error);
    }
}

fn holds_file(source: &Option<CodeSource>) -> (yes: bool)
    ensures
        yes == is_file(source.deep_view()),
{
    match source {
        Some(CodeSource::File(_)) => true,
        _ => false,
    }
}

fn holds_inline(source: &Option<CodeSource>) -> (yes: bool)
    ensures
        yes == is_inline(source.deep_view()),
{
    match source {
        Some(CodeSource::Expr(_)) => true,
        _ => false,
    }
}

fn with_suffix(text: &String, suffix: &str) -> (joined: String)
    ensures
        joined@ == text@ + suffix@,
{
    let mut joined = text.clone();
    joined.append(suffix);
    joined
}

/// Reads where the shaders' code comes from off the struct's annotations.
fn read_sources(annotations: &Vec<Annotation>) -> (sources: Result<
    (Option<CodeSource>, Option<CodeSource>),
    ParseError,
>)
    ensures
        match sources {
            Ok((vertex, fragment)) => shader_sources(
                annotations.deep_view(),
                annotations.len() as nat,
            ) == Ok::<Sources, ParseError>(
                Sources { vertex: vertex.deep_view(), fragment: fragment.deep_view() },
            ),
            Err(error) => shader_sources(annotations.deep_view(), annotations.len() as nat)
                == Err::<Sources, ParseError>(error),
        },
{
    let ghost all = annotations.deep_view();
    let mut vertex: Option<CodeSource> = None;
    let mut fragment: Option<CodeSource> = None;
    let mut i: usize = 0;
    while i < annotations.len()
        invariant
            i <= annotations.len(),
            all == annotations.deep_view(),
            shader_sources(all, i as nat) == Ok::<Sources, ParseError>(
                Sources { vertex: vertex.deep_view(), fragment: fragment.deep_view() },
            ),
        decreases annotations.len() - i,
    {
        let annotation = &annotations[i];
        assert(all[i as int] == annotation.deep_view());
        let site = ErrorSite::Annotation(i);
        if text_eq(annotation.path.as_str(), "willow") {
            let conflict = ParseError { kind: ErrorKind::ConflictingSource, site };
            let refused: Option<ParseError> = match StructAttr::parse(&annotation.tokens) {
                Err(kind) => Some(ParseError { kind, site }),
                Ok(StructAttr::Path(path)) => {
                    if holds_inline(&vertex) || holds_inline(&fragment) {
                        Some(conflict)
                    } else {
                        vertex = Some(CodeSource::File(with_suffix(&path, ".vert")));
                        fragment = Some(CodeSource::File(with_suffix(&path, ".frag")));
                        None
                    }
                },
                Ok(StructAttr::VertexCode(expr)) => {
                    if holds_file(&vertex) || holds_file(&fragment) {
                        Some(conflict)
                    } else {
                        vertex = Some(CodeSource::Expr(expr));
                        None
                    }
                },
                Ok(StructAttr::FragmentCode(expr)) => {
                    if holds_file(&vertex) || holds_file(&fragment) {
                        Some(conflict)
                    } else {
                        fragment = Some(CodeSource::Expr(expr));
                        None
                    }
                },
            };
            match refused {
                Some(error) => {
                    proof {
                        assert(shader_sources(all, (i + 1) as nat) == Err::<Sources, ParseError>(
                            error,
                        ));
                        shader_sources_stay_refused(all, (i + 1) as nat, all.len(), error);
                    }
                    return Err(error);
                },
                None => {},
            }
        }
        i = i + 1;
    }
    Ok((vertex, fragment))
}

/// Reads a struct's declaration into the description of the program that it
/// declares, or says why and where the struct is refused.
pub fn parse_input(decl: &StructDecl) -> (input: Result<Input, ParseError>)
    ensures
        viewed(input) == parsed(decl.deep_view()),
{
    let ghost d = decl.deep_view();
    let (vertex, fragment) = match read_sources(&decl.annotations) {
        Ok(sources) => sources,
        Err(error) => {
            return Err(error);
        },
    };
    match decl.shape {
        ItemShape::NamedStruct => {},
        ItemShape::Enum | ItemShape::Union => {
            return Err(ParseError { kind: ErrorKind::NotAStruct, site: ErrorSite::Item });
        },
        _ => {
            return Err(ParseError { kind: ErrorKind::NotNamed, site: ErrorSite::Fields });
        },
    }
    let mut attributes: Vec<Attribute> = Vec::new();
    let mut uniforms: Vec<Uniform> = Vec::new();
    let mut data: Vec<String> = Vec::new();
    let ghost mut outputs: Seq<FieldOutputView> = Seq::empty();
    let mut i: usize = 0;
    assert(attributes.deep_view() =~= attributes_of(outputs));
    assert(uniforms.deep_view() =~= uniforms_of(outputs));
    assert(data.deep_view() =~= program_data_of(outputs));
    while i < decl.fields.len()
        invariant
            i <= decl.fields.len(),
            d == decl.deep_view(),
            d.shape is NamedStruct,
            shader_sources(d.annotations, d.annotations.len()) is Ok,
            field_outputs(d.fields, i as nat) == Ok::<Seq<FieldOutputView>, ParseError>(outputs),
            attributes.deep_view() == attributes_of(outputs),
            uniforms.deep_view() == uniforms_of(outputs),
            data.deep_view() == program_data_of(outputs),
        decreases decl.fields.len() - i,
    {
        assert(d.fields[i as int] == decl.fields[i as int].deep_view());
        match FieldOutput::from_field(&decl.fields[i], i) {
            Err(error) => {
                proof {
                    assert(field_outputs(d.fields, (i + 1) as nat) == Err::<
                        Seq<FieldOutputView>,
                        ParseError,
                    >(error));
                    field_outputs_stay_refused(d.fields, (i + 1) as nat, d.fields.len(), error);
                }
                return Err(error);
            },
            Ok(output) => {
                proof {
                    let next = outputs.push(output.deep_view());
                    assert(next.drop_last() =~= outputs);
                    assert(next.last() == output.deep_view());
                    outputs = next;
                }
                match output {
                    FieldOutput::Attribute(a) => {
                        let ghost before = attributes.deep_view();
                        attributes.push(a);
                        assert(attributes.deep_view() =~= before.push(a.deep_view()));
                    },
                    FieldOutput::Uniform(u) => {
                        let ghost before = uniforms.deep_view();
                        uniforms.push(u);
                        assert(uniforms.deep_view() =~= before.push(u.deep_view()));
                    },
                    FieldOutput::ProgramData(name) => {
                        let ghost before = data.deep_view();
                        data.push(name);
                        assert(data.deep_view() =~= before.push(name@));
                    },
                }
            },
        }
        i = i + 1;
    }
    let vertex_source = match vertex {
        Some(source) => source,
        None => {
            return Err(
                ParseError { kind: ErrorKind::MissingVertexCode, site: ErrorSite::Fields },
            );
        },
    };
    let fragment_source = match fragment {
        Some(source) => source,
        None => {
            return Err(
                ParseError { kind: ErrorKind::MissingFragmentCode, site: ErrorSite::Fields },
            );
        },
    };
    if data.len() != 1 {
        return Err(ParseError { kind: ErrorKind::ProgramData, site: ErrorSite::Fields });
    }
    assert(data.deep_view()[0] == data[0]@);
    Ok(
        Input {
            vertex_source,
            fragment_source,
            attributes,
            uniforms,
            program_data: data[0].clone(),
            vis: decl.vis.clone(),
            ident: decl.name.clone(),
            attr_ident: with_suffix(&decl.name, "Attr"),
            builder_ident: with_suffix(&decl.name, "Draw"),
        },
    )
}

/// Where the first `n` fields are all classified, there is one result for
/// each of them, in order.
pub proof fn field_outputs_are_positional(fields: Seq<FieldDeclView>, n: nat, k: int)
    requires
        field_outputs(fields, n) is Ok,
        0 <= k < n,
    ensures
        field_outputs(fields, n)->Ok_0.len() == n,
        field_output(fields[k], k as usize) == Ok::<FieldOutputView, ParseError>(
            field_outputs(fields, n)->Ok_0[k],
        ),
    decreases n,
{
    if k < n - 1 {
        field_outputs_are_positional(fields, (n - 1) as nat, k);
    } else if n > 1 {
        field_outputs_are_positional(fields, (n - 1) as nat, 0);
    }
}

/// Every classified field is counted once: as an attribute, as a uniform,
/// or as the program data.
pub proof fn roles_partition_outputs(outputs: Seq<FieldOutputView>)
    ensures
        attributes_of(outputs).len() + uniforms_of(outputs).len() + program_data_of(
            outputs,
        ).len() == outputs.len(),
    decreases outputs.len(),
{
    if outputs.len() > 0 {
        roles_partition_outputs(outputs.drop_last());
    }
}

/// A struct that is accepted has exactly one field for the program data,
/// and each of its other fields is one attribute or one uniform of the
/// description.
pub proof fn roles_partition_fields(decl: StructDeclView)
    requires
        parsed(decl) is Ok,
    ensures
        parsed(decl)->Ok_0.attributes.len() + parsed(decl)->Ok_0.uniforms.len() + 1
            == decl.fields.len(),
{
    let outputs = field_outputs(decl.fields, decl.fields.len())->Ok_0;
    roles_partition_outputs(outputs);
    if decl.fields.len() > 0 {
        field_outputs_are_positional(decl.fields, decl.fields.len(), 0);
    }
}

/// The program data fields among the first `a` results are among the first
/// `b`, for `a` up to `b`.
proof fn program_data_grows(outputs: Seq<FieldOutputView>, a: int, b: int)
    requires
        0 <= a <= b <= outputs.len(),
    ensures
        program_data_of(outputs.take(a)).len() <= program_data_of(outputs.take(b)).len(),
        b > 0 && outputs[b - 1] is ProgramData && a < b ==> program_data_of(
            outputs.take(a),
        ).len() < program_data_of(outputs.take(b)).len(),
    decreases b - a,
{
    if a < b {
        assert(outputs.take(b).drop_last() =~= outputs.take(b - 1));
        program_data_grows(outputs, a, b - 1);
    }
}

/// A struct in which no annotation gives shader code is refused; where
/// its shape and its fields are in order and no annotation is addressed to
/// this library, the reason is that the vertex code cannot be inferred.
pub proof fn missing_code_is_refused(decl: StructDeclView)
    requires
        forall|k: int|
            0 <= k < decl.annotations.len() ==> !(is_ours(#[trigger] decl.annotations[k])
                && parsed_struct_attr(decl.annotations[k].tokens) is Ok),
    ensures
        parsed(decl) is Err,
        (forall|k: int| 0 <= k < decl.annotations.len() ==> !is_ours(#[trigger] decl.annotations[k]))
            && decl.shape is NamedStruct && field_outputs(decl.fields, decl.fields.len()) is Ok
            ==> parsed(decl) == Err::<InputView, ParseError>(
            ParseError { kind: ErrorKind::MissingVertexCode, site: ErrorSite::Fields },
        ),
{
    no_code_without_options(decl.annotations, decl.annotations.len());
    if forall|k: int| 0 <= k < decl.annotations.len() ==> !is_ours(#[trigger] decl.annotations[k]) {
        no_code_without_annotations(decl.annotations, decl.annotations.len());
    }
}

/// Annotations that give no shader code leave both shaders without code.
proof fn no_code_without_options(annotations: Seq<AnnotationView>, n: nat)
    requires
        n <= annotations.len(),
        forall|k: int|
            0 <= k < annotations.len() ==> !(is_ours(#[trigger] annotations[k])
                && parsed_struct_attr(annotations[k].tokens) is Ok),
    ensures
        shader_sources(annotations, n) matches Ok(sources) ==> sources.vertex is None
            && sources.fragment is None,
    decreases n,
{
    if n > 0 {
        no_code_without_options(annotations, (n - 1) as nat);
        assert(!(is_ours(annotations[n - 1]) && parsed_struct_attr(annotations[n - 1].tokens)
            is Ok));
    }
}

/// Annotations of which none is addressed to this library are all passed
/// over.
proof fn no_code_without_annotations(annotations: Seq<AnnotationView>, n: nat)
    requires
        n <= annotations.len(),
        forall|k: int| 0 <= k < annotations.len() ==> !is_ours(#[trigger] annotations[k]),
    ensures
        shader_sources(annotations, n) == Ok::<Sources, ParseError>(
            Sources { vertex: None, fragment: None },
        ),
    decreases n,
{
    if n > 0 {
        no_code_without_annotations(annotations, (n - 1) as nat);
        assert(!is_ours(annotations[n - 1]));
    }
}

/// A struct with two fields that both hold the program data is refused;
/// where no earlier check fails, the reason is the program data.
pub proof fn two_program_data_fields_are_refused(decl: StructDeclView, i: int, j: int)
    requires
        0 <= i < j < decl.fields.len(),
        field_output(decl.fields[i], i as usize) matches Ok(output) && output is ProgramData,
        field_output(decl.fields[j], j as usize) matches Ok(output) && output is ProgramData,
    ensures
        parsed(decl) is Err,
        shader_sources(decl.annotations, decl.annotations.len()) matches Ok(sources)
            && sources.vertex is Some && sources.fragment is Some && decl.shape is NamedStruct
            && field_outputs(decl.fields, decl.fields.len()) is Ok ==> parsed(decl) == Err::<
            InputView,
            ParseError,
        >(ParseError { kind: ErrorKind::ProgramData, site: ErrorSite::Fields }),
{
    let n = decl.fields.len();
    if field_outputs(decl.fields, n) is Ok {
        let outputs = field_outputs(decl.fields, n)->Ok_0;
        field_outputs_are_positional(decl.fields, n, i);
        field_outputs_are_positional(decl.fields, n, j);
        assert(outputs.take(outputs.len() as int) =~= outputs);
        program_data_grows(outputs, 0, i + 1);
        program_data_grows(outputs, i + 1, j + 1);
        program_data_grows(outputs, j + 1, outputs.len() as int);
    }
}

/// The attributes among the first `p` classified fields begin the list of
/// the attributes among the first `q`, for `p` up to `q`; so do the
/// uniforms.
proof fn roles_grow(outputs: Seq<FieldOutputView>, p: int, q: int)
    requires
        0 <= p <= q <= outputs.len(),
    ensures
        attributes_of(outputs.take(p)).is_prefix_of(attributes_of(outputs.take(q))),
        uniforms_of(outputs.take(p)).is_prefix_of(uniforms_of(outputs.take(q))),
    decreases q - p,
{
    if p < q {
        assert(outputs.take(q).drop_last() =~= outputs.take(q - 1));
        roles_grow(outputs, p, q - 1);
    }
}

/// Fields keep their order within their role. An attribute that is declared
/// by the field at position `p` stands in the list of attributes after the
/// attributes of all fields before `p`, and before those of all fields
/// after `p`; and so for uniforms.
pub proof fn roles_keep_field_order(outputs: Seq<FieldOutputView>, p: int)
    requires
        0 <= p < outputs.len(),
    ensures
        outputs[p] matches FieldOutputView::Attribute(a) ==> {
            let before = attributes_of(outputs.take(p)).len() as int;
            before < attributes_of(outputs).len() && attributes_of(outputs)[before] == a
        },
        outputs[p] matches FieldOutputView::Uniform(u) ==> {
            let before = uniforms_of(outputs.take(p)).len() as int;
            before < uniforms_of(outputs).len() && uniforms_of(outputs)[before] == u
        },
        forall|q: int|
            p < q <= outputs.len() && outputs[p] is Attribute ==> attributes_of(
                outputs.take(p),
            ).len() < attributes_of(#[trigger] outputs.take(q)).len(),
        forall|q: int|
            p < q <= outputs.len() && outputs[p] is Uniform ==> uniforms_of(outputs.take(p)).len()
                < uniforms_of(#[trigger] outputs.take(q)).len(),
{
    assert(outputs.take(p + 1).drop_last() =~= outputs.take(p));
    assert(outputs.take(p + 1).last() == outputs[p]);
    assert(outputs.take(outputs.len() as int) =~= outputs);
    roles_grow(outputs, p + 1, outputs.len() as int);
    let before_a = attributes_of(outputs.take(p)).len() as int;
    let before_u = uniforms_of(outputs.take(p)).len() as int;
    if outputs[p] is Attribute {
        let upto = attributes_of(outputs.take(p + 1));
        assert(upto.len() == before_a + 1);
        assert(upto[before_a] == attributes_of(outputs)[before_a]);
    }
    if outputs[p] is Uniform {
        let upto = uniforms_of(outputs.take(p + 1));
        assert(upto.len() == before_u + 1);
        assert(upto[before_u] == uniforms_of(outputs)[before_u]);
    }
    assert forall|q: int| p < q <= outputs.len() && outputs[p] is Attribute implies attributes_of(
        outputs.take(p),
    ).len() < attributes_of(#[trigger] outputs.take(q)).len() by {
        roles_grow(outputs, p + 1, q);
    }
    assert forall|q: int| p < q <= outputs.len() && outputs[p] is Uniform implies uniforms_of(
        outputs.take(p),
    ).len() < uniforms_of(#[trigger] outputs.take(q)).len() by {
        roles_grow(outputs, p + 1, q);
    }
}

} // verus!
