use willow::builder::Slot;
use willow::gen::{
    define_function, describe_builder, gen_attrs, gen_builder, gen_code, gen_program_impl,
    TypeArg,
};
use willow::parse::{
    parse_input, ArgumentKind, CodeSource, ErrorKind, ErrorSite, FieldAttr, FieldOutput, Input,
    ParseError, StructAttr,
};
use willow::syntax::{
    Annotation, Delimiter, FieldDecl, GenericArgument, ItemShape, PathArguments, PathSegment,
    StructDecl, Token, TypeDecl, TypePath,
};
use willow::types::{ScalarType, ValueType};

fn flatten(stream: proc_macro2::TokenStream, out: &mut Vec<Token>) {
    for tree in stream {
        match tree {
            proc_macro2::TokenTree::Ident(i) => out.push(Token::Ident(i.to_string())),
            proc_macro2::TokenTree::Punct(p) => out.push(Token::Punct {
                ch: p.as_char(),
                joint: p.spacing() == proc_macro2::Spacing::Joint,
            }),
            proc_macro2::TokenTree::Literal(l) => out.push(Token::Literal(l.to_string())),
            proc_macro2::TokenTree::Group(g) => {
                let d = match g.delimiter() {
                    proc_macro2::Delimiter::Parenthesis => Some(Delimiter::Parenthesis),
                    proc_macro2::Delimiter::Brace => Some(Delimiter::Brace),
                    proc_macro2::Delimiter::Bracket => Some(Delimiter::Bracket),
                    proc_macro2::Delimiter::None => None,
                };
                if let Some(d) = d {
                    out.push(Token::Open(d));
                }
                flatten(g.stream(), out);
                if let Some(d) = d {
                    out.push(Token::Close(d));
                }
            }
        }
    }
}

fn tokens(source: &str) -> Vec<Token> {
    let stream: proc_macro2::TokenStream = source.parse().unwrap();
    let mut out = Vec::new();
    flatten(stream, &mut out);
    out
}

fn text_of<T: quote::ToTokens>(t: &T) -> String {
    t.to_token_stream().to_string()
}

fn annotation(a: &syn::Attribute) -> Annotation {
    let mut tokens = Vec::new();
    flatten(a.tokens.clone(), &mut tokens);
    let path = match a.path.get_ident() {
        Some(i) => i.to_string(),
        None => text_of(&a.path),
    };
    Annotation { path, tokens }
}

fn generic_argument(g: &syn::GenericArgument) -> GenericArgument {
    match g {
        syn::GenericArgument::Type(t) => GenericArgument::Type(text_of(t)),
        _ => GenericArgument::Other,
    }
}

fn path_segment(s: &syn::PathSegment) -> PathSegment {
    PathSegment {
        ident: s.ident.to_string(),
        arguments: match &s.arguments {
            syn::PathArguments::None => PathArguments::Plain,
            syn::PathArguments::AngleBracketed(a) => {
                PathArguments::AngleBracketed(a.args.iter().map(generic_argument).collect())
            }
            syn::PathArguments::Parenthesized(_) => PathArguments::Parenthesized,
        },
    }
}

fn type_decl(ty: &syn::Type) -> TypeDecl {
    let path = match ty {
        syn::Type::Path(p) => Some(TypePath {
            leading_colon: p.path.leading_colon.is_some(),
            segments: p.path.segments.iter().map(path_segment).collect(),
        }),
        _ => None,
    };
    TypeDecl { text: text_of(ty), path }
}

fn field_decl(f: &syn::Field) -> FieldDecl {
    FieldDecl {
        name: f.ident.as_ref().unwrap().to_string(),
        ty: type_decl(&f.ty),
        annotations: f.attrs.iter().map(annotation).collect(),
    }
}

fn declaration(source: &str) -> StructDecl {
    let item: syn::DeriveInput = syn::parse_str(source).unwrap();
    let (shape, fields) = match &item.data {
        syn::Data::Struct(s) => match &s.fields {
            syn::Fields::Named(n) => {
                (ItemShape::NamedStruct, n.named.iter().map(field_decl).collect())
            }
            syn::Fields::Unnamed(_) => (ItemShape::TupleStruct, Vec::new()),
            syn::Fields::Unit => (ItemShape::UnitStruct, Vec::new()),
        },
        syn::Data::Enum(_) => (ItemShape::Enum, Vec::new()),
        syn::Data::Union(_) => (ItemShape::Union, Vec::new()),
    };
    StructDecl {
        name: item.ident.to_string(),
        vis: text_of(&item.vis),
        shape,
        annotations: item.attrs.iter().map(annotation).collect(),
        fields,
    }
}

fn parse(source: &str) -> Result<Input, ParseError> {
    parse_input(&declaration(source))
}

fn refusal(source: &str) -> ParseError {
    match parse(source) {
        Ok(_) => panic!("accepted: {}", source),
        Err(error) => error,
    }
}

fn compact(text: &str) -> String {
    text.chars().filter(|c| !c.is_whitespace()).collect()
}

fn file_of(source: &CodeSource) -> Option<String> {
    match source {
        CodeSource::File(path) => Some(path.clone()),
        CodeSource::Expr(_) => None,
    }
}

fn expr_of(source: &CodeSource) -> Option<String> {
    match source {
        CodeSource::File(_) => None,
        CodeSource::Expr(expr) => Some(compact(expr)),
    }
}

const SCENE: &str = "#[willow(path = \"x\")] struct Foo { data: ProgramData, a_pos: Attribute<(f32, f32, f32)>, u_color: Uniform<(f32, f32, f32, f32)> }";

const LARGE: &str = "#[derive(Clone)] #[willow(path = \"shaders/scene\")] pub struct Scene { #[willow(gl_name = \"u_alpha\")] alpha: Uniform<f32>, a_color: Attribute<Vector3<f32>>, handles: ProgramData, #[willow(normalized)] a_weight: Attribute<(u8, u8, u8, u8)>, u_transform: Uniform<Matrix4<f32>>, a_offset: willow::Attribute<Vector3<f32>> }";

#[test]
fn a_scene_is_read_into_its_description() {
    let input = parse(SCENE).unwrap();
    assert_eq!(input.ident, "Foo");
    assert_eq!(input.attr_ident, "FooAttr");
    assert_eq!(input.builder_ident, "FooDraw");
    assert_eq!(input.vis, "");
    assert_eq!(input.program_data, "data");
    assert_eq!(file_of(&input.vertex_source), Some("x.vert".to_string()));
    assert_eq!(file_of(&input.fragment_source), Some("x.frag".to_string()));
    assert_eq!(input.attributes.len(), 1);
    assert_eq!(input.attributes[0].field, "a_pos");
    assert_eq!(input.attributes[0].gl, "a_pos");
    assert_eq!(compact(&input.attributes[0].ty), "(f32,f32,f32)");
    assert!(!input.attributes[0].normalized);
    assert_eq!(input.uniforms.len(), 1);
    assert_eq!(input.uniforms[0].field, "u_color");
    assert_eq!(input.uniforms[0].gl, "u_color");
    assert_eq!(compact(&input.uniforms[0].ty), "(f32,f32,f32,f32)");
}

#[test]
fn the_reflection_of_a_scene_reports_its_attribute() {
    let input = parse(SCENE).unwrap();
    let record = gen_attrs(&input);
    assert_eq!(record.count, 1);
    assert_eq!(record.ident, "FooAttr");
    assert_eq!(record.fields.len(), 1);
    assert_eq!(record.fields[0].name, "a_pos");
    assert_eq!(record.gl_names.lookup(0), Some("\"a_pos\"".to_string()));
    assert_eq!(
        record.offsets.lookup(0),
        Some("::willow::offset_of!(Self => a_pos).get_byte_offset()".to_string())
    );
    assert_eq!(record.normalized.lookup(0), Some("false".to_string()));
    let ty = ValueType::named(&input.attributes[0].ty).unwrap();
    assert_eq!(
        record.num_comps.lookup(0),
        Some(format!("<{} as ::willow::AttributeType>::num_comps()", input.attributes[0].ty))
    );
    assert_eq!(
        record.types.lookup(0),
        Some(format!("<{} as ::willow::AttributeType>::gl_type()", input.attributes[0].ty))
    );
    assert_eq!(ty.num_comps(), 3);
    assert_eq!(ty.gl_type(), web_sys::WebGlRenderingContext::FLOAT);
    assert_eq!(ty.scalar, ScalarType::Float);
}

#[test]
fn the_builder_of_a_scene_needs_its_one_setter() {
    let input = parse(SCENE).unwrap();
    let builder = gen_builder(&input);
    assert_eq!(builder.setters.len(), 1);
    assert_eq!(builder.setters[0].field, "u_color");
    let fresh = builder.run(&vec![]).unwrap();
    assert_eq!(fresh, vec![Slot::Empty]);
    assert!(!builder.can_draw(&fresh));
    let set = builder.run(&vec![0]).unwrap();
    assert_eq!(set, vec![Slot::Filled]);
    assert!(builder.can_draw(&set));
    assert_eq!(builder.run(&vec![0, 0]), None);
    assert_eq!(builder.run(&vec![1]), None);
}

#[test]
fn a_reflection_lookup_stops_past_the_last_field() {
    let input = parse(LARGE).unwrap();
    let record = gen_attrs(&input);
    assert_eq!(record.count, 3);
    for i in 0..3 {
        assert!(record.gl_names.lookup(i).is_some());
        assert!(record.offsets.lookup(i).is_some());
        assert!(record.types.lookup(i).is_some());
        assert!(record.num_comps.lookup(i).is_some());
        assert!(record.normalized.lookup(i).is_some());
    }
    for i in [3usize, 4, 100, usize::MAX] {
        assert_eq!(record.gl_names.lookup(i), None);
        assert_eq!(record.offsets.lookup(i), None);
        assert_eq!(record.types.lookup(i), None);
        assert_eq!(record.num_comps.lookup(i), None);
        assert_eq!(record.normalized.lookup(i), None);
    }
}

#[test]
fn fields_keep_their_order_within_their_role() {
    let input = parse(LARGE).unwrap();
    let attributes: Vec<&str> = input.attributes.iter().map(|a| a.field.as_str()).collect();
    let uniforms: Vec<&str> = input.uniforms.iter().map(|u| u.field.as_str()).collect();
    assert_eq!(attributes, vec!["a_color", "a_weight", "a_offset"]);
    assert_eq!(uniforms, vec!["alpha", "u_transform"]);
    assert_eq!(input.program_data, "handles");
    assert_eq!(input.vis, "pub");
    assert_eq!(input.attributes.len() + input.uniforms.len() + 1, 6);
}

#[test]
fn a_binding_slot_is_the_position_of_its_attribute() {
    let input = parse(LARGE).unwrap();
    let program = gen_program_impl(&input);
    let record = gen_attrs(&input);
    assert_eq!(program.bindings.len(), 3);
    for (i, binding) in program.bindings.iter().enumerate() {
        assert_eq!(binding.slot, i);
        assert_eq!(binding.field, input.attributes[i].field);
        assert_eq!(binding.gl, input.attributes[i].gl);
        assert_eq!(record.fields[i].name, binding.field);
        assert_eq!(record.gl_names.arms[i].index, i);
    }
    let code = program.to_source();
    assert!(code.contains("buffer.bind_to_attr(context, location, 0usize);"));
    assert!(code.contains("buffer.bind_to_attr(context, location, 1usize);"));
    assert!(code.contains("buffer.bind_to_attr(context, location, 2usize);"));
    assert!(!code.contains("buffer.bind_to_attr(context, location, 3usize);"));
}

#[test]
fn annotations_override_the_name_and_the_normalisation() {
    let input = parse(LARGE).unwrap();
    assert_eq!(input.uniforms[0].gl, "u_alpha");
    assert_eq!(input.uniforms[1].gl, "u_transform");
    assert!(!input.attributes[0].normalized);
    assert!(input.attributes[1].normalized);
    assert_eq!(compact(&input.attributes[0].ty), "Vector3<f32>");
}

#[test]
fn an_annotation_gives_a_field_its_role() {
    let input = parse(
        "#[willow(path = \"p\")] struct P { #[willow(data)] d: Handles, #[willow(attribute(Vector2<f32>))] a: Position, #[willow(uniform(f32))] u: Alpha }",
    )
    .unwrap();
    assert_eq!(input.program_data, "d");
    assert_eq!(input.attributes.len(), 1);
    assert_eq!(compact(&input.attributes[0].ty), "Vector2<f32>");
    assert_eq!(input.uniforms.len(), 1);
    assert_eq!(compact(&input.uniforms[0].ty), "f32");
}

#[test]
fn an_annotated_role_goes_before_the_declared_type() {
    let input = parse(
        "#[willow(path = \"p\")] struct P { data: ProgramData, #[willow(uniform(i32))] a: Attribute<f32> }",
    )
    .unwrap();
    assert_eq!(input.attributes.len(), 0);
    assert_eq!(input.uniforms.len(), 1);
    assert_eq!(compact(&input.uniforms[0].ty), "i32");
}

#[test]
fn the_last_role_annotation_decides() {
    let input = parse(
        "#[willow(path = \"p\")] struct P { data: ProgramData, #[willow(uniform(i32))] #[willow(attribute(u8))] a: X }",
    )
    .unwrap();
    assert_eq!(input.attributes.len(), 1);
    assert_eq!(input.uniforms.len(), 0);
    assert_eq!(compact(&input.attributes[0].ty), "u8");
}

#[test]
fn annotations_of_other_tools_are_passed_over() {
    let input = parse(
        "/// A program.\n#[derive(Debug)] #[willow(path = \"p\")] #[allow(dead_code)] struct P { /// The handles.\n data: ProgramData, #[serde(skip)] u: Uniform<f32> }",
    )
    .unwrap();
    assert_eq!(input.uniforms.len(), 1);
    assert_eq!(input.program_data, "data");
}

#[test]
fn inline_code_is_taken_as_expressions() {
    let input = parse(
        "#[willow(vert = VERTEX_CODE)] #[willow(frag = concat!(HEADER, \"void main() {}\"))] struct P { data: ProgramData }",
    )
    .unwrap();
    assert_eq!(expr_of(&input.vertex_source), Some("VERTEX_CODE".to_string()));
    assert_eq!(
        expr_of(&input.fragment_source),
        Some("concat!(HEADER,\"voidmain(){}\")".to_string())
    );
    assert_eq!(compact(&input.vertex_source.to_source()), "VERTEX_CODE");
}

#[test]
fn a_path_names_two_files() {
    let input = parse("#[willow(path = \"dir/my \\\"scene\\\"\")] struct P { data: ProgramData }").unwrap();
    assert_eq!(file_of(&input.vertex_source), Some("dir/my \"scene\".vert".to_string()));
    assert_eq!(file_of(&input.fragment_source), Some("dir/my \"scene\".frag".to_string()));
    assert_eq!(
        input.vertex_source.to_source(),
        "include_str!(\"dir/my \\\"scene\\\".vert\")"
    );
}

#[test]
fn a_later_path_replaces_an_earlier_one() {
    let input =
        parse("#[willow(path = \"a\")] #[willow(path = \"b\")] struct P { data: ProgramData }")
            .unwrap();
    assert_eq!(file_of(&input.vertex_source), Some("b.vert".to_string()));
    assert_eq!(file_of(&input.fragment_source), Some("b.frag".to_string()));
}

#[test]
fn a_struct_without_shader_code_is_refused() {
    let error = refusal("struct P { data: ProgramData, a: Attribute<f32> }");
    assert_eq!(error, ParseError { kind: ErrorKind::MissingVertexCode, site: ErrorSite::Fields });
    assert_eq!(
        error.message(&declaration("struct P { data: ProgramData, a: Attribute<f32> }")),
        "Cannot infer vertex code"
    );
}

#[test]
fn a_struct_with_vertex_code_only_is_refused() {
    let error = refusal("#[willow(vert = V)] struct P { data: ProgramData }");
    assert_eq!(error, ParseError { kind: ErrorKind::MissingFragmentCode, site: ErrorSite::Fields });
    assert_eq!(error.kind.to_text(), "Cannot infer fragment code");
}

#[test]
fn a_struct_with_fragment_code_only_is_refused() {
    let error = refusal("#[willow(frag = F)] struct P { data: ProgramData }");
    assert_eq!(error, ParseError { kind: ErrorKind::MissingVertexCode, site: ErrorSite::Fields });
}

#[test]
fn two_program_data_fields_are_refused() {
    let error = refusal(
        "#[willow(path = \"p\")] struct P { data: ProgramData, a: Attribute<f32>, more: ProgramData }",
    );
    assert_eq!(error, ParseError { kind: ErrorKind::ProgramData, site: ErrorSite::Fields });
    let error = refusal(
        "#[willow(path = \"p\")] struct P { data: ProgramData, #[willow(data)] more: Handles }",
    );
    assert_eq!(error.kind, ErrorKind::ProgramData);
    assert_eq!(
        error.kind.to_text(),
        "Program struct must have exactly one field with type ProgramData or #[willow(data)]"
    );
}

#[test]
fn a_struct_without_program_data_is_refused() {
    let error = refusal("#[willow(path = \"p\")] struct P { a: Attribute<f32> }");
    assert_eq!(error, ParseError { kind: ErrorKind::ProgramData, site: ErrorSite::Fields });
    let error = refusal("#[willow(path = \"p\")] struct P { }");
    assert_eq!(error, ParseError { kind: ErrorKind::ProgramData, site: ErrorSite::Fields });
}

#[test]
fn a_path_together_with_inline_code_is_refused() {
    let error = refusal(
        "#[willow(path = \"p\")] #[doc = \"x\"] #[willow(vert = V)] struct P { data: ProgramData }",
    );
    assert_eq!(
        error,
        ParseError { kind: ErrorKind::ConflictingSource, site: ErrorSite::Annotation(2) }
    );
    let error = refusal(
        "#[willow(frag = F)] #[willow(path = \"p\")] struct P { data: ProgramData }",
    );
    assert_eq!(
        error,
        ParseError { kind: ErrorKind::ConflictingSource, site: ErrorSite::Annotation(1) }
    );
}

#[test]
fn an_enum_is_refused() {
    let error = refusal("#[willow(path = \"p\")] enum E { A, B }");
    assert_eq!(error, ParseError { kind: ErrorKind::NotAStruct, site: ErrorSite::Item });
    assert_eq!(error.kind.to_text(), "willow::Program can only derive from structs");
    let error = refusal("union U { a: u32, b: i32 }");
    assert_eq!(error, ParseError { kind: ErrorKind::NotAStruct, site: ErrorSite::Item });
}

#[test]
fn a_struct_without_named_fields_is_refused() {
    let error = refusal("#[willow(path = \"p\")] struct T(ProgramData, Attribute<f32>);");
    assert_eq!(error, ParseError { kind: ErrorKind::NotNamed, site: ErrorSite::Fields });
    assert_eq!(error.kind.to_text(), "willow::Program can only derive from named structs");
    let error = refusal("#[willow(path = \"p\")] struct U;");
    assert_eq!(error, ParseError { kind: ErrorKind::NotNamed, site: ErrorSite::Fields });
}

#[test]
fn a_field_of_another_type_is_refused() {
    let error = refusal("#[willow(path = \"p\")] struct P { data: ProgramData, count: u32 }");
    assert_eq!(
        error,
        ParseError { kind: ErrorKind::IrrelevantField, site: ErrorSite::FieldType(1) }
    );
    assert_eq!(error.kind.to_text(), "This field appears to be irrelevant with the GLSL");
    let error = refusal("#[willow(path = \"p\")] struct P { pair: (u8, u8), data: ProgramData }");
    assert_eq!(
        error,
        ParseError { kind: ErrorKind::IrrelevantField, site: ErrorSite::FieldType(0) }
    );
    let error = refusal("#[willow(path = \"p\")] struct P { data: willow::ProgramData }");
    assert_eq!(
        error,
        ParseError { kind: ErrorKind::IrrelevantField, site: ErrorSite::FieldType(0) }
    );
}

#[test]
fn a_wrapper_without_type_parameter_is_refused() {
    let error = refusal("#[willow(path = \"p\")] struct P { data: ProgramData, a: Attribute }");
    assert_eq!(
        error,
        ParseError { kind: ErrorKind::MissingTypeParameter, site: ErrorSite::FieldTypeSegment(1) }
    );
    assert_eq!(error.kind.to_text(), "Attribute/Uniform requires a type parameter");
    let error = refusal("#[willow(path = \"p\")] struct P { u: Uniform(f32) -> f32 }");
    assert_eq!(
        error,
        ParseError { kind: ErrorKind::MissingTypeParameter, site: ErrorSite::FieldTypeSegment(0) }
    );
    let error = refusal("#[willow(path = \"p\")] struct P { u: Uniform<> }");
    assert_eq!(
        error,
        ParseError { kind: ErrorKind::MissingTypeParameter, site: ErrorSite::FieldTypeSegment(0) }
    );
}

#[test]
fn a_wrapper_of_something_else_than_a_type_is_refused() {
    let error = refusal("#[willow(path = \"p\")] struct P { data: ProgramData, u: Uniform<'static> }");
    assert_eq!(
        error,
        ParseError { kind: ErrorKind::NonTypeArgument, site: ErrorSite::FieldTypeArgument(1) }
    );
    assert_eq!(error.kind.to_text(), "Attribute/Uniform provided with non-type argument");
}

#[test]
fn an_unknown_keyword_is_refused_by_its_name() {
    let source = "#[willow(path = \"p\")] struct P { data: ProgramData, #[doc = \"x\"] #[willow(location = 3)] a: Attribute<f32> }";
    let error = refusal(source);
    assert_eq!(
        error,
        ParseError {
            kind: ErrorKind::UnsupportedAttribute,
            site: ErrorSite::FieldAnnotation { field: 1, annotation: 1 }
        }
    );
    assert_eq!(error.message(&declaration(source)), "Unsupported attribute #[willow(location)]");
    let source = "#[willow(shader = \"p\")] struct P { data: ProgramData }";
    let error = refusal(source);
    assert_eq!(
        error,
        ParseError { kind: ErrorKind::UnsupportedAttribute, site: ErrorSite::Annotation(0) }
    );
    assert_eq!(error.message(&declaration(source)), "Unsupported attribute #[willow(shader)]");
    assert_eq!(error.kind.to_text(), "Unsupported attribute #[willow(..)]");
}

#[test]
fn a_field_keyword_on_the_struct_is_refused() {
    let error = refusal("#[willow(normalized)] struct P { data: ProgramData }");
    assert_eq!(
        error,
        ParseError { kind: ErrorKind::UnsupportedAttribute, site: ErrorSite::Annotation(0) }
    );
}

#[test]
fn a_malformed_struct_annotation_is_refused() {
    for source in [
        "#[willow] struct P { data: ProgramData }",
        "#[willow = \"p\"] struct P { data: ProgramData }",
        "#[willow()] struct P { data: ProgramData }",
        "#[willow(\"p\")] struct P { data: ProgramData }",
        "#[willow(path)] struct P { data: ProgramData }",
        "#[willow(path(\"p\"))] struct P { data: ProgramData }",
        "#[willow(path = 3)] struct P { data: ProgramData }",
        "#[willow(path = \"p\" \"q\")] struct P { data: ProgramData }",
        "#[willow(path = b\"p\")] struct P { data: ProgramData }",
        "#[willow(vert)] struct P { data: ProgramData }",
        "#[willow(vert = )] struct P { data: ProgramData }",
        "#[willow(vert = A, frag = B)] struct P { data: ProgramData }",
        "#[willow(frag = +)] struct P { data: ProgramData }",
        "#[willow(path = \"p\") extra] struct P { data: ProgramData }",
        "#[willow[path = \"p\"]] struct P { data: ProgramData }",
    ] {
        let error = refusal(source);
        assert_eq!(
            error,
            ParseError { kind: ErrorKind::MalformedAttribute, site: ErrorSite::Annotation(0) },
            "{}",
            source
        );
    }
    assert_eq!(ErrorKind::MalformedAttribute.to_text(), "Malformed attribute #[willow(..)]");
}

#[test]
fn a_malformed_field_annotation_is_refused() {
    for annotation in [
        "#[willow(normalized = true)]",
        "#[willow(normalized())]",
        "#[willow(data(x))]",
        "#[willow(attribute)]",
        "#[willow(attribute = f32)]",
        "#[willow(attribute())]",
        "#[willow(attribute(3 +))]",
        "#[willow(attribute(f32, f32))]",
        "#[willow(attribute(f32) f32)]",
        "#[willow(uniform(1))]",
        "#[willow(uniform[f32])]",
        "#[willow(gl_name)]",
        "#[willow(gl_name = name)]",
        "#[willow(gl_name(\"a\"))]",
        "#[willow(gl_name = 'a')]",
    ] {
        let source = format!(
            "#[willow(path = \"p\")] struct P {{ data: ProgramData, {} a: Attribute<f32> }}",
            annotation
        );
        let error = refusal(&source);
        assert_eq!(
            error,
            ParseError {
                kind: ErrorKind::MalformedAttribute,
                site: ErrorSite::FieldAnnotation { field: 1, annotation: 0 }
            },
            "{}",
            source
        );
    }
}

#[test]
fn the_first_refusal_decides() {
    // a struct annotation goes before the item's shape
    let error = refusal("#[willow(bogus)] enum E { A }");
    assert_eq!(error.kind, ErrorKind::UnsupportedAttribute);
    // the item's shape goes before missing code
    let error = refusal("enum E { A }");
    assert_eq!(error.kind, ErrorKind::NotAStruct);
    // a field goes before missing code, and the first refused field before later ones
    let error = refusal("struct P { data: ProgramData, x: u32, y: Attribute }");
    assert_eq!(
        error,
        ParseError { kind: ErrorKind::IrrelevantField, site: ErrorSite::FieldType(1) }
    );
    // missing code goes before the program data
    let error = refusal("struct P { a: Attribute<f32> }");
    assert_eq!(error.kind, ErrorKind::MissingVertexCode);
    // a field's annotations go before its type
    let error = refusal("#[willow(path = \"p\")] struct P { #[willow(bogus)] x: u32 }");
    assert_eq!(error.kind, ErrorKind::UnsupportedAttribute);
}

#[test]
fn a_string_literal_is_taken_by_its_value() {
    let attr = FieldAttr::parse(&tokens("(gl_name = \"a\\n\\\"b\\\"\")")).unwrap();
    match attr {
        FieldAttr::GlName(name) => assert_eq!(name, "a\n\"b\""),
        other => panic!("{:?}", other),
    }
    let attr = FieldAttr::parse(&tokens("(gl_name = r#\"raw \"text\"\"#)")).unwrap();
    match attr {
        FieldAttr::GlName(name) => assert_eq!(name, "raw \"text\""),
        other => panic!("{:?}", other),
    }
    let attr = StructAttr::parse(&tokens("(path = \"dir\\\\file\")")).unwrap();
    match attr {
        StructAttr::Path(path) => assert_eq!(path, "dir\\file"),
        other => panic!("{:?}", other),
    }
}

#[test]
fn field_annotations_are_read_by_keyword() {
    assert!(matches!(FieldAttr::parse(&tokens("(normalized)")), Ok(FieldAttr::Normalized)));
    assert!(matches!(FieldAttr::parse(&tokens("(data)")), Ok(FieldAttr::Data)));
    match FieldAttr::parse(&tokens("(attribute(Vector3<f32>))")) {
        Ok(FieldAttr::Attribute(ty)) => assert_eq!(compact(&ty), "Vector3<f32>"),
        other => panic!("{:?}", other),
    }
    match FieldAttr::parse(&tokens("(uniform(&'static [(u8, u8); 4]))")) {
        Ok(FieldAttr::Uniform(ty)) => assert_eq!(compact(&ty), "&'static[(u8,u8);4]"),
        other => panic!("{:?}", other),
    }
    assert!(matches!(
        FieldAttr::parse(&tokens("(path = \"p\")")),
        Err(ErrorKind::UnsupportedAttribute)
    ));
    assert!(matches!(FieldAttr::parse(&tokens("")), Err(ErrorKind::MalformedAttribute)));
    assert!(matches!(
        FieldAttr::parse(&tokens("(data) (data)")),
        Err(ErrorKind::MalformedAttribute)
    ));
}

#[test]
fn struct_annotations_are_read_by_keyword() {
    match StructAttr::parse(&tokens("(vert = shaders::VERTEX)")) {
        Ok(StructAttr::VertexCode(expr)) => assert_eq!(compact(&expr), "shaders::VERTEX"),
        other => panic!("{:?}", other),
    }
    match StructAttr::parse(&tokens("(frag = if DEBUG { A } else { B })")) {
        Ok(StructAttr::FragmentCode(expr)) => assert_eq!(compact(&expr), "ifDEBUG{A}else{B}"),
        other => panic!("{:?}", other),
    }
    assert!(matches!(
        StructAttr::parse(&tokens("(vert = let x)")),
        Err(ErrorKind::MalformedAttribute)
    ));
    assert!(matches!(
        StructAttr::parse(&tokens("(data)")),
        Err(ErrorKind::UnsupportedAttribute)
    ));
}

#[test]
fn an_annotation_is_taken_apart() {
    let d = willow::parse::split_directive(&tokens("(gl_name = \"a\")")).unwrap();
    assert_eq!(d.keyword, "gl_name");
    assert_eq!(d.kind, ArgumentKind::Assigned);
    assert_eq!(d.text, "\"a\" ");
    let d = willow::parse::split_directive(&tokens("(attribute((f32, f32)))")).unwrap();
    assert_eq!(d.keyword, "attribute");
    assert_eq!(d.kind, ArgumentKind::Group);
    assert_eq!(d.text, "( f32 , f32 ) ");
    let d = willow::parse::split_directive(&tokens("(data)")).unwrap();
    assert_eq!(d.kind, ArgumentKind::Absent);
    assert_eq!(d.text, "");
    let d = willow::parse::split_directive(&tokens("(data more)")).unwrap();
    assert_eq!(d.kind, ArgumentKind::Other);
    let d = willow::parse::split_directive(&tokens("(f(a)(b))")).unwrap();
    assert_eq!(d.kind, ArgumentKind::Other);
    assert!(willow::parse::split_directive(&tokens("(3)")).is_none());
    assert!(willow::parse::split_directive(&tokens("[data]")).is_none());
    assert!(willow::parse::split_directive(&tokens("(a)(b)")).is_none());
    assert!(willow::parse::split_directive(&tokens("")).is_none());
}

#[test]
fn a_field_is_classified_on_its_own() {
    let item: syn::DeriveInput =
        syn::parse_str("struct P { #[willow(gl_name = \"aPos\")] a_pos: Attribute<(f32, f32)> }")
            .unwrap();
    let decl = declaration("struct P { #[willow(gl_name = \"aPos\")] a_pos: Attribute<(f32, f32)> }");
    assert_eq!(item.ident.to_string(), "P");
    match FieldOutput::from_field(&decl.fields[0], 0) {
        Ok(FieldOutput::Attribute(a)) => {
            assert_eq!(a.field, "a_pos");
            assert_eq!(a.gl, "aPos");
            assert_eq!(compact(&a.ty), "(f32,f32)");
            assert!(!a.normalized);
        }
        other => panic!("{:?}", other),
    }
}

#[test]
fn type_parameters_are_named_in_camel_case() {
    let input = parse(LARGE).unwrap();
    let builder = gen_builder(&input);
    assert_eq!(builder.generics, vec!["HasAlpha", "HasUTransform"]);
    assert_eq!(builder.fields, vec!["alpha", "u_transform"]);
    assert_eq!(builder.ident, "SceneDraw");
    assert_eq!(builder.program, "Scene");
    assert_eq!(
        builder.doc,
        "A builder type to run a `Scene` program after resetting all uniforms."
    );
}

#[test]
fn a_setter_changes_its_own_type_argument_only() {
    let input = parse(LARGE).unwrap();
    let builder = gen_builder(&input);
    let second = &builder.setters[1];
    assert_eq!(second.field, "u_transform");
    assert_eq!(second.doc, "Sets the `u_transform` uniform");
    assert_eq!(second.params, vec!["HasAlpha"]);
    assert_eq!(second.kept, vec!["alpha"]);
    assert!(matches!(&second.receiver[0], TypeArg::Param(p) if p == "HasAlpha"));
    assert!(matches!(&second.receiver[1], TypeArg::Unit));
    assert!(matches!(&second.result[0], TypeArg::Param(p) if p == "HasAlpha"));
    assert!(matches!(&second.result[1], TypeArg::Concrete(t) if compact(t) == "Matrix4<f32>"));
    let first = &builder.setters[0];
    assert_eq!(first.doc, "Sets the `u_alpha` uniform");
    assert_eq!(first.params, vec!["HasUTransform"]);
    assert!(matches!(&first.receiver[0], TypeArg::Unit));
    assert!(matches!(&first.receiver[1], TypeArg::Param(p) if p == "HasUTransform"));
}

#[test]
fn a_draw_needs_every_setter_once() {
    let input = parse(
        "#[willow(path = \"p\")] struct P { data: ProgramData, a: Uniform<f32>, b: Uniform<i32>, c: Uniform<(f32, f32)> }",
    )
    .unwrap();
    let builder = gen_builder(&input);
    let orders: [[usize; 3]; 6] =
        [[0, 1, 2], [0, 2, 1], [1, 0, 2], [1, 2, 0], [2, 0, 1], [2, 1, 0]];
    for order in orders {
        let state = builder.run(&order.to_vec()).unwrap();
        assert_eq!(state, vec![Slot::Filled, Slot::Filled, Slot::Filled]);
        assert!(builder.can_draw(&state));
        for missing in 0..3 {
            let partial: Vec<usize> = order.iter().copied().filter(|&i| i != missing).collect();
            let state = builder.run(&partial).unwrap();
            assert_eq!(state[missing], Slot::Empty);
            assert!(!builder.can_draw(&state));
        }
    }
    assert!(!builder.can_draw(&builder.fresh()));
    assert!(!builder.can_draw(&vec![Slot::Filled, Slot::Filled]));
}

#[test]
fn a_setter_is_not_accepted_twice() {
    let input = parse(
        "#[willow(path = \"p\")] struct P { data: ProgramData, a: Uniform<f32>, b: Uniform<i32> }",
    )
    .unwrap();
    let builder = gen_builder(&input);
    assert_eq!(builder.run(&vec![0, 0]), None);
    assert_eq!(builder.run(&vec![1, 1]), None);
    assert_eq!(builder.run(&vec![0, 1, 0]), None);
    assert_eq!(builder.run(&vec![1, 0, 1, 0]), None);
    assert_eq!(builder.run(&vec![2]), None);
    let once = builder.set(&builder.fresh(), 1).unwrap();
    assert_eq!(once, vec![Slot::Empty, Slot::Filled]);
    assert_eq!(builder.set(&once, 1), None);
    assert_eq!(builder.set(&once, 0), Some(vec![Slot::Filled, Slot::Filled]));
}

#[test]
fn a_builder_with_defaults_draws_at_once() {
    let input = parse(LARGE).unwrap();
    let builder = gen_builder(&input);
    let state = builder.defaults();
    assert_eq!(state, vec![Slot::Filled, Slot::Filled]);
    assert!(builder.can_draw(&state));
    assert_eq!(builder.set(&state, 0), None);
    assert_eq!(builder.set(&state, 1), None);
}

#[test]
fn a_builder_is_described_with_given_parameter_names() {
    let input = parse(SCENE).unwrap();
    let builder = describe_builder(&input, vec!["Color".to_string()]);
    assert_eq!(builder.generics, vec!["Color"]);
    assert!(builder.to_source().contains("struct FooDraw<'program, Color, >"));
}

#[test]
fn a_lookup_takes_the_arm_of_its_index() {
    let lookup = define_function(
        "field_offset",
        "usize",
        vec!["0".to_string(), "12".to_string(), "16".to_string()],
    );
    assert_eq!(lookup.name, "field_offset");
    assert_eq!(lookup.return_type, "usize");
    assert_eq!(lookup.arms.len(), 3);
    assert_eq!(lookup.lookup(0), Some("0".to_string()));
    assert_eq!(lookup.lookup(1), Some("12".to_string()));
    assert_eq!(lookup.lookup(2), Some("16".to_string()));
    assert_eq!(lookup.lookup(3), None);
    assert_eq!(
        lookup.to_source(),
        "    fn field_offset(i: usize) -> usize {\n        match i {\n            0usize => 0,\n            1usize => 12,\n            2usize => 16,\n            _ => panic!(\"Nonexistent field\"),\n        }\n    }\n\n"
    );
}

fn check_generated(source: &str) -> (String, syn::File) {
    let input = parse(source).unwrap();
    let code = gen_code(&input);
    let file = match syn::parse_file(&code) {
        Ok(file) => file,
        Err(error) => panic!("{}\n{}", error, code),
    };
    (code, file)
}

#[test]
fn the_generated_code_is_rust() {
    let (code, file) = check_generated(SCENE);
    // the builder functions, the program, the record, its reflection, the builder,
    // one setter, the draw method
    assert_eq!(file.items.len(), 7);
    assert!(code.contains("impl ::willow::Program for Foo {"));
    assert!(code.contains("type AttrStruct = FooAttr;"));
    assert!(code.contains("impl ::willow::AttrStruct for FooAttr {"));
    assert!(code.contains("fn fields_count() -> usize {\n        1usize\n    }"));
    assert!(code.contains("0usize => \"a_pos\","));
    assert!(code.contains("include_str!(\"x.vert\")"));
    assert!(code.contains("include_str!(\"x.frag\")"));
    assert!(code.contains("struct FooDraw<'program, HasUColor, >"));
    assert!(code.contains("fn u_color(self, u_color: "));
    assert!(code.contains("fn with_uniforms<'program>(&'program self) -> FooDraw<'program, (), >"));
    assert!(code.contains("a_pos: ::willow::Attribute::create_from_macro(),"));
    assert!(code.contains("u_color: ::willow::Uniform::create_from_macro(),"));
}

#[test]
fn the_generated_code_of_a_large_scene_is_rust() {
    let (code, file) = check_generated(LARGE);
    assert_eq!(file.items.len(), 8);
    assert!(code.contains("pub struct SceneAttr {"));
    assert!(code.contains("pub fn draw("));
    assert!(code.contains("fn fields_count() -> usize {\n        3usize\n    }"));
    assert!(code.contains("1usize => true,"));
    assert!(code.contains(".get_location(context, &self.program.handles, \"u_alpha\")"));
    let alpha = code.find("self.alpha, &context.native, &location").unwrap();
    let transform = code.find("self.u_transform, &context.native, &location").unwrap();
    assert!(alpha < transform);
}

#[test]
fn the_generated_code_of_an_empty_program_is_rust() {
    let (code, file) = check_generated("#[willow(vert = V)] #[willow(frag = F)] pub(crate) struct Empty { data: ProgramData }");
    assert_eq!(file.items.len(), 6);
    assert!(code.contains("fn fields_count() -> usize {\n        0usize\n    }"));
    let input = parse("#[willow(vert = V)] #[willow(frag = F)] pub(crate) struct Empty { data: ProgramData }").unwrap();
    assert_eq!(compact(&input.vis), "pub(crate)");
    assert!(code.contains(&format!("{} struct EmptyDraw<'program, >", input.vis)));
    let builder = gen_builder(&input);
    assert!(builder.can_draw(&builder.fresh()));
    assert_eq!(gen_attrs(&input).gl_names.lookup(0), None);
}

#[test]
fn names_with_special_characters_are_quoted_in_the_code() {
    let (code, _) = check_generated(
        "#[willow(path = \"p\")] struct P { data: ProgramData, #[willow(gl_name = \"we\\\"ird\\\\\")] a: Attribute<f32>, #[willow(gl_name = \"`tick`\\n\")] u: Uniform<f32> }",
    );
    assert!(code.contains("0usize => \"we\\\"ird\\\\\","));
    assert!(code.contains("#[doc = \"Sets the ``tick`\\n` uniform\"]"));
}

#[test]
fn the_three_blocks_are_written_one_after_the_other() {
    let input = parse(LARGE).unwrap();
    let code = gen_code(&input);
    let expected = format!(
        "{}{}{}",
        gen_program_impl(&input).to_source(),
        gen_attrs(&input).to_source(),
        gen_builder(&input).to_source()
    );
    assert_eq!(code, expected);
}

#[test]
fn a_message_names_the_keyword_where_there_is_one() {
    let decl = declaration(
        "#[willow(path = \"p\")] struct P { #[willow] data: ProgramData, #[willow(gl_name = \"a\")] a: Attribute<f32> }",
    );
    let unsupported = ErrorKind::UnsupportedAttribute;
    let error = ParseError { kind: unsupported, site: ErrorSite::Annotation(0) };
    assert_eq!(error.message(&decl), "Unsupported attribute #[willow(path)]");
    let error =
        ParseError { kind: unsupported, site: ErrorSite::FieldAnnotation { field: 1, annotation: 0 } };
    assert_eq!(error.message(&decl), "Unsupported attribute #[willow(gl_name)]");
    // an annotation without keyword, a site that is no annotation, a site outside the struct
    let error =
        ParseError { kind: unsupported, site: ErrorSite::FieldAnnotation { field: 0, annotation: 0 } };
    assert_eq!(error.message(&decl), "Unsupported attribute #[willow(..)]");
    let error = ParseError { kind: unsupported, site: ErrorSite::Fields };
    assert_eq!(error.message(&decl), "Unsupported attribute #[willow(..)]");
    let error = ParseError { kind: unsupported, site: ErrorSite::Annotation(5) };
    assert_eq!(error.message(&decl), "Unsupported attribute #[willow(..)]");
    let error =
        ParseError { kind: unsupported, site: ErrorSite::FieldAnnotation { field: 1, annotation: 3 } };
    assert_eq!(error.message(&decl), "Unsupported attribute #[willow(..)]");
    let error = ParseError { kind: ErrorKind::ConflictingSource, site: ErrorSite::Annotation(0) };
    assert_eq!(
        error.message(&decl),
        "Shader code is given both by a path and by an expression"
    );
}

#[test]
fn a_c_string_is_refused_where_a_type_or_an_expression_is_asked_for() {
    for source in [
        "#[willow(vert = c\"x\")] struct P { data: ProgramData }",
        "#[willow(frag = cr#\"x\"#)] struct P { data: ProgramData }",
        "#[willow(vert = f(1, c\"x\"))] struct P { data: ProgramData }",
        "#[willow(path = c\"x\")] struct P { data: ProgramData }",
    ] {
        assert_eq!(
            refusal(source),
            ParseError { kind: ErrorKind::MalformedAttribute, site: ErrorSite::Annotation(0) },
            "{}",
            source
        );
    }
    for annotation in [
        "#[willow(attribute(Foo<c\"x\">))]",
        "#[willow(uniform([u8; c\"x\"]))]",
        "#[willow(gl_name = c\"x\")]",
        "#[willow(gl_name = Foo<c\"x\">)]",
    ] {
        let source = format!(
            "#[willow(path = \"p\")] struct P {{ data: ProgramData, {} a: Attribute<f32> }}",
            annotation
        );
        assert_eq!(
            refusal(&source),
            ParseError {
                kind: ErrorKind::MalformedAttribute,
                site: ErrorSite::FieldAnnotation { field: 1, annotation: 0 }
            },
            "{}",
            source
        );
    }
}

#[test]
fn a_c_string_behind_an_unknown_keyword_is_not_looked_at() {
    let error = refusal("#[willow(foo = c\"x\")] struct P { data: ProgramData }");
    assert_eq!(
        error,
        ParseError { kind: ErrorKind::UnsupportedAttribute, site: ErrorSite::Annotation(0) }
    );
    let error = refusal(
        "#[willow(path = \"p\")] struct P { #[willow(normalized(c\"x\"))] data: ProgramData }",
    );
    assert_eq!(error.kind, ErrorKind::MalformedAttribute);
    let error = refusal(
        "#[willow(path = \"p\")] struct P { #[willow(bar(c\"x\"))] data: ProgramData }",
    );
    assert_eq!(error.kind, ErrorKind::UnsupportedAttribute);
}

#[test]
fn the_mark_of_a_failed_expansion_is_refused() {
    let error = refusal("#[willow(vert = (/*ERROR*/))] struct P { data: ProgramData }");
    assert_eq!(
        error,
        ParseError { kind: ErrorKind::MalformedAttribute, site: ErrorSite::Annotation(0) }
    );
    assert!(matches!(
        FieldAttr::parse(&tokens("(attribute((/*ERROR*/)))")),
        Err(ErrorKind::MalformedAttribute)
    ));
}

#[test]
fn a_word_that_ends_in_c_before_a_quotation_mark_is_read() {
    let input = parse(
        "#[willow(vert = \"abc\")] #[willow(frag = concat!(\"a.c\", basic\"x\"))] struct P { data: ProgramData, #[willow(gl_name = \"a c\")] a: Attribute<f32> }",
    )
    .unwrap();
    assert_eq!(expr_of(&input.vertex_source), Some("\"abc\"".to_string()));
    assert_eq!(input.attributes[0].gl, "a c");
}

#[test]
fn a_string_that_ends_in_a_lone_c_is_read() {
    let input = parse(
        "#[willow(vert = \"a, b, c\")] #[willow(frag = concat!(\"x\\\" c\", \"main.c\"))] struct P { data: ProgramData }",
    )
    .unwrap();
    assert_eq!(expr_of(&input.vertex_source), Some("\"a,b,c\"".to_string()));
}

#[test]
fn a_lone_c_before_a_quotation_mark_is_refused_beside_other_quoting() {
    // the text holds no C string, but with the apostrophes in it the reading that
    // knows string literals only does not apply
    let error = refusal("#[willow(vert = f('x', \"a, b, c\"))] struct P { data: ProgramData }");
    assert_eq!(
        error,
        ParseError { kind: ErrorKind::MalformedAttribute, site: ErrorSite::Annotation(0) }
    );
}
