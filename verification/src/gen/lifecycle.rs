//! The program's own methods: the two functions that start a uniform
//! builder, and the lifecycle of allocating, compiling, linking, binding a
//! vertex buffer and selecting the program.

use vstd::prelude::*;
use vstd::string::StringExecFns;
use crate::gen::record::attr_struct;
use crate::gen::{
    append_repeated, append_wrapped, attribute_fields, list_attribute_fields,
    list_uniform_fields, list_uniform_types, repeated, uniform_fields, uniform_types, wrapped,
};
use crate::gen::record::reflection_is_consistent;
use crate::parse::{Attribute, AttributeView, Input, InputView};
use crate::text::{decimal, decimal_text, quote_text, quoted};

verus! {

/// One step of binding a vertex buffer: the attribute declared by `field` and
/// named `gl` in the shader reads the buffer column with index `slot`.
#[derive(Debug, Clone)]
pub struct Binding {
    pub field: String,
    pub gl: String,
    pub slot: usize,
}

/// The model of [`Binding`]: the same value, with its texts as sequences of
/// characters.
pub struct BindingView {
    pub field: Seq<char>,
    pub gl: Seq<char>,
    pub slot: nat,
}

impl DeepView for Binding {
    type V = BindingView;

    open spec fn deep_view(&self) -> BindingView {
        BindingView { field: self.field@, gl: self.gl@, slot: self.slot as nat }
    }
}

/// What the program's own methods are generated from.
#[derive(Debug, Clone)]
pub struct ProgramImpl {
    pub vis: String,
    pub ident: String,
    pub attr_ident: String,
    pub builder_ident: String,
    pub data_field: String,
    /// The expression that evaluates to the vertex shader's text.
    pub vertex_code: String,
    /// The expression that evaluates to the fragment shader's text.
    pub fragment_code: String,
    /// The attribute fields; each starts with an unresolved location.
    pub attribute_fields: Vec<String>,
    /// The uniform fields; each starts with an unresolved location.
    pub uniform_fields: Vec<String>,
    /// The uniforms' value types.
    pub uniform_types: Vec<String>,
    /// The steps of binding a vertex buffer, in the order performed.
    pub bindings: Vec<Binding>,
}

/// The model of [`ProgramImpl`]: the same value, with its texts as sequences of
/// characters.
pub struct ProgramImplView {
    pub vis: Seq<char>,
    pub ident: Seq<char>,
    pub attr_ident: Seq<char>,
    pub builder_ident: Seq<char>,
    pub data_field: Seq<char>,
    pub vertex_code: Seq<char>,
    pub fragment_code: Seq<char>,
    pub attribute_fields: Seq<Seq<char>>,
    pub uniform_fields: Seq<Seq<char>>,
    pub uniform_types: Seq<Seq<char>>,
    pub bindings: Seq<BindingView>,
}

impl DeepView for ProgramImpl {
    type V = ProgramImplView;

    open spec fn deep_view(&self) -> ProgramImplView {
        ProgramImplView {
            vis: self.vis@,
            ident: self.ident@,
            attr_ident: self.attr_ident@,
            builder_ident: self.builder_ident@,
            data_field: self.data_field@,
            vertex_code: self.vertex_code@,
            fragment_code: self.fragment_code@,
            attribute_fields: self.attribute_fields.deep_view(),
            uniform_fields: self.uniform_fields.deep_view(),
            uniform_types: self.uniform_types.deep_view(),
            bindings: self.bindings.deep_view(),
        }
    }
}

/// The binding steps of a list of attributes: the attribute at position `i`
/// is bound to slot `i`.
pub open spec fn bindings(attributes: Seq<AttributeView>) -> Seq<BindingView> {
    Seq::new(
        attributes.len(),
        |i: int| BindingView { field: attributes[i].field, gl: attributes[i].gl, slot: i as nat },
    )
}

/// The description of the program's own methods.
pub open spec fn program_impl(input: InputView) -> ProgramImplView {
    ProgramImplView {
        vis: input.vis,
        ident: input.ident,
        attr_ident: input.attr_ident,
        builder_ident: input.builder_ident,
        data_field: input.program_data,
        vertex_code: input.vertex_source.source(),
        fragment_code: input.fragment_source.source(),
        attribute_fields: attribute_fields(input.attributes),
        uniform_fields: uniform_fields(input.uniforms),
        uniform_types: uniform_types(input.uniforms),
        bindings: bindings(input.attributes),
    }
}

fn list_bindings(attributes: &Vec<Attribute>) -> (steps: Vec<Binding>)
    ensures
        steps.deep_view() == bindings(attributes.deep_view()),
{
    let mut steps: Vec<Binding> = Vec::new();
    let mut i: usize = 0;
    while i < attributes.len()
        invariant
            i <= attributes.len(),
            steps.len() == i,
            forall|k: int|
                0 <= k < i ==> #[trigger] steps[k].deep_view() == bindings(
                    attributes.deep_view(),
                )[k],
        decreases attributes.len() - i,
    {
        steps.push(
            Binding {
                field: attributes[i].field.clone(),
                gl: attributes[i].gl.clone(),
                slot: i,
            },
        );
        i = i + 1;
    }
    assert(steps.deep_view() =~= bindings(attributes.deep_view()));
    steps
}

/// Describes the program's own methods: the two functions that start a
/// uniform builder, and the program's lifecycle (allocate, compile, link,
/// bind the vertex buffer, select the program).
pub fn gen_program_impl(input: &Input) -> (program: ProgramImpl)
    ensures
        program.deep_view() == program_impl(input.deep_view()),
{
    ProgramImpl {
        vis: input.vis.clone(),
        ident: input.ident.clone(),
        attr_ident: input.attr_ident.clone(),
        builder_ident: input.builder_ident.clone(),
        data_field: input.program_data.clone(),
        vertex_code: input.vertex_source.to_source(),
        fragment_code: input.fragment_source.to_source(),
        attribute_fields: list_attribute_fields(&input.attributes),
        uniform_fields: list_uniform_fields(&input.uniforms),
        uniform_types: list_uniform_types(&input.uniforms),
        bindings: list_bindings(&input.attributes),
    }
}

impl BindingView {
    /// The two statements of one binding step: resolve the attribute's
    /// location, then point it at the buffer column of the step's slot.
    pub open spec fn source(self, data_field: Seq<char>) -> Seq<char> {
        "        let location = self."@
        + self.field
        + ".get_location(context, &self."@
        + data_field
        + ", "@
        + quoted(self.gl)
        + ");\n        buffer.bind_to_attr(context, location, "@
        + decimal(self.slot)
        + "usize);\n"@
    }
}

/// The statements of a list of binding steps, in order.
pub open spec fn bindings_source(steps: Seq<BindingView>, data_field: Seq<char>) -> Seq<char>
    decreases steps.len(),
{
    if steps.len() == 0 {
        Seq::empty()
    } else {
        bindings_source(steps.drop_last(), data_field) + steps.last().source(data_field)
    }
}

impl Binding {
    /// Writes the two statements of the binding step.
    pub fn to_source(&self, data_field: &str) -> (code: String)
        ensures
            code@ == self.deep_view().source(data_field@),
    {
        let mut code = String::from_str("        let location = self.");
        code.append(self.field.as_str());
        code.append(".get_location(context, &self.");
        code.append(data_field);
        code.append(", ");
        code.append(quote_text(self.gl.as_str()).as_str());
        code.append(");\n        buffer.bind_to_attr(context, location, ");
        code.append(decimal_text(self.slot).as_str());
        code.append("usize);\n");
        code
    }
}

fn bindings_to_source(steps: &Vec<Binding>, data_field: &str) -> (code: String)
    ensures
        code@ == bindings_source(steps.deep_view(), data_field@),
{
    let ghost all = steps.deep_view();
    let mut code = String::new();
    let mut i: usize = 0;
    while i < steps.len()
        invariant
            i <= steps.len(),
            all == steps.deep_view(),
            code@ == bindings_source(all.take(i as int), data_field@),
        decreases steps.len() - i,
    {
        proof {
            assert(all.take(i + 1).drop_last() =~= all.take(i as int));
            assert(all.take(i + 1).last() == steps[i as int].deep_view());
        }
        code.append(steps[i].to_source(data_field).as_str());
        i = i + 1;
    }
    proof {
        assert(all.take(steps.len() as int) =~= all);
    }
    code
}

impl ProgramImplView {
    /// The two functions that start a uniform builder.
    pub open spec fn builders_source(self) -> Seq<char> {
        "impl "@
        + self.ident
        + " {\n    /// Creates a builder in which no uniform is set yet.\n    "@
        + self.vis
        + " fn with_uniforms<'program>(&'program self) -> "@
        + self.builder_ident
        + "<'program, "@
        + repeated("(), "@, self.uniform_fields.len())
        + "> {\n        "@
        + self.builder_ident
        + " {\n            program: self,\n"@
        + wrapped(self.uniform_fields, "            "@, ": (),\n"@)
        + "        }\n    }\n\n"@
        + "    /// Creates a builder in which every uniform is set to its default value.\n"@
        + "    "@
        + self.vis
        + " fn with_default_uniforms<'program>(&'program self) -> "@
        + self.builder_ident
        + "<'program, "@
        + wrapped(self.uniform_types, ""@, ", "@)
        + "> {\n        "@
        + self.builder_ident
        + " {\n            program: self,\n"@
        + wrapped(self.uniform_fields, "            "@, ": Default::default(),\n"@)
        + "        }\n    }\n}\n\n"@
    }

    /// The method that allocates the program's handles and leaves every
    /// location unresolved.
    pub open spec fn allocate_source(self) -> Seq<char> {
        "    fn create_internally(context: &::willow::Context) -> Self {\n"@
        + "        let gl = &context.native;\n"@
        + "        let program = gl.create_program().expect(\"Cannot initialize program\");\n"@
        + "        let vertex_shader = gl\n"@
        + "            .create_shader(::willow::WebGlRenderingContext::VERTEX_SHADER)\n"@
        + "            .expect(\"Cannot initialize vertex shader\");\n"@
        + "        let fragment_shader = gl\n"@
        + "            .create_shader(::willow::WebGlRenderingContext::FRAGMENT_SHADER)\n"@
        + "            .expect(\"Cannot initialize fragment shader\");\n        Self {\n"@
        + "            "@
        + self.data_field
        + ": ProgramData {\n                program,\n                vertex_shader,\n"@
        + "                fragment_shader,\n            },\n"@
        + wrapped(self.attribute_fields, "            "@, ": ::willow::Attribute::create_from_macro(),\n"@)
        + wrapped(self.uniform_fields, "            "@, ": ::willow::Uniform::create_from_macro(),\n"@)
        + "        }\n    }\n\n"@
    }

    /// The method that uploads and compiles the two shaders, and in debug
    /// builds stops with the compiler's log where a shader did not compile.
    pub open spec fn compile_source(self) -> Seq<char> {
        "    fn compile_shaders(&self, context: &::willow::Context) {\n"@
        + "        let gl = &context.native;\n        gl.shader_source(&self."@
        + self.data_field
        + ".vertex_shader, "@
        + self.vertex_code
        + ");\n        gl.compile_shader(&self."@
        + self.data_field
        + ".vertex_shader);\n        gl.shader_source(&self."@
        + self.data_field
        + ".fragment_shader, "@
        + self.fragment_code
        + ");\n        gl.compile_shader(&self."@
        + self.data_field
        + ".fragment_shader);\n        #[cfg(debug_assertions)]\n        {\n"@
        + "            for (debug_name, shader) in &[\n"@
        + "                (\"vertex shader\", &self."@
        + self.data_field
        + ".vertex_shader),\n                (\"fragment shader\", &self."@
        + self.data_field
        + ".fragment_shader),\n            ] {\n"@
        + "                let value = gl.get_shader_parameter(\n"@
        + "                    shader,\n"@
        + "                    ::willow::WebGlRenderingContext::COMPILE_STATUS,\n"@
        + "                );\n                if !value.is_truthy() {\n"@
        + "                    let log = gl.get_shader_info_log(shader);\n"@
        + "                    panic!(\n"@
        + "                        \"Error compiling {} of {}: {}\",\n"@
        + "                        debug_name,\n                        stringify!("@
        + self.ident
        + "),\n                        log.unwrap_or_default()\n                    );\n"@
        + "                }\n            }\n        }\n    }\n\n"@
    }

    /// The method that attaches the two shaders and links the program, and in
    /// debug builds stops with the linker's log where linking failed.
    pub open spec fn link_source(self) -> Seq<char> {
        "    fn link_shaders(&self, context: &::willow::Context) {\n"@
        + "        let gl = &context.native;\n        gl.attach_shader(&self."@
        + self.data_field
        + ".program, &self."@
        + self.data_field
        + ".vertex_shader);\n        gl.attach_shader(&self."@
        + self.data_field
        + ".program, &self."@
        + self.data_field
        + ".fragment_shader);\n        gl.link_program(&self."@
        + self.data_field
        + ".program);\n        #[cfg(debug_assertions)]\n        {\n"@
        + "            let value = gl.get_program_parameter(\n                &self."@
        + self.data_field
        + ".program,\n                ::willow::WebGlRenderingContext::LINK_STATUS,\n"@
        + "            );\n            if !value.is_truthy() {\n"@
        + "                let log = gl.get_program_info_log(&self."@
        + self.data_field
        + ".program);\n                panic!(\n"@
        + "                    \"Error linking {}: {}\",\n                    stringify!("@
        + self.ident
        + "),\n                    log.unwrap_or_default()\n                );\n"@
        + "            }\n        }\n    }\n\n"@
    }

    /// The method that binds a vertex buffer: one step for each attribute, in
    /// declaration order.
    pub open spec fn apply_source(self) -> Seq<char> {
        "    fn apply_attrs(\n        &self,\n        context: &::willow::Context,\n"@
        + "        buffer: &::willow::Buffer<Self::AttrStruct>,\n    ) {\n"@
        + "        let gl = &context.native;\n"@
        + "        gl.bind_buffer(::willow::WebGlRenderingContext::ARRAY_BUFFER, Some(&buffer.buf));\n"@
        + bindings_source(self.bindings, self.data_field)
        + "    }\n\n"@
    }

    /// The method that makes the program the current one.
    pub open spec fn select_source(self) -> Seq<char> {
        "    fn use_program(&self, gl: &::willow::Context) {\n"@
        + "        gl.native.use_program(Some(&self."@
        + self.data_field
        + ".program));\n    }\n"@
    }

    /// The source code of the program's own methods: the builder functions,
    /// then the lifecycle in the order allocate, compile, link, bind, select.
    pub open spec fn source(self) -> Seq<char> {
        self.builders_source()
        + "impl ::willow::Program for "@
        + self.ident
        + " {\n    type AttrStruct = "@
        + self.attr_ident
        + ";\n\n"@
        + self.allocate_source()
        + self.compile_source()
        + self.link_source()
        + self.apply_source()
        + self.select_source()
        + "}\n\n"@
    }
}

impl ProgramImpl {
    /// Writes the two functions that start a uniform builder.
    fn builders_to_source(&self) -> (code: String)
        ensures
            code@ == self.deep_view().builders_source(),
    {
        let mut code = String::from_str("impl ");
        code.append(self.ident.as_str());
        code.append(" {\n    /// Creates a builder in which no uniform is set yet.\n    ");
        code.append(self.vis.as_str());
        code.append(" fn with_uniforms<'program>(&'program self) -> ");
        code.append(self.builder_ident.as_str());
        code.append("<'program, ");
        append_repeated(&mut code, "(), ", self.uniform_fields.len());
        code.append("> {\n        ");
        code.append(self.builder_ident.as_str());
        code.append(" {\n            program: self,\n");
        append_wrapped(&mut code, &self.uniform_fields, "            ", ": (),\n");
        code.append("        }\n    }\n\n");
        code.append("    /// Creates a builder in which every uniform is set to its default value.\n");
        code.append("    ");
        code.append(self.vis.as_str());
        code.append(" fn with_default_uniforms<'program>(&'program self) -> ");
        code.append(self.builder_ident.as_str());
        code.append("<'program, ");
        append_wrapped(&mut code, &self.uniform_types, "", ", ");
        code.append("> {\n        ");
        code.append(self.builder_ident.as_str());
        code.append(" {\n            program: self,\n");
        append_wrapped(&mut code, &self.uniform_fields, "            ", ": Default::default(),\n");
        code.append("        }\n    }\n}\n\n");
        code
    }

    /// Writes the method that allocates the program's handles and leaves every
    /// location unresolved.
    fn allocate_to_source(&self) -> (code: String)
        ensures
            code@ == self.deep_view().allocate_source(),
    {
        let mut code = String::from_str("    fn create_internally(context: &::willow::Context) -> Self {\n");
        code.append("        let gl = &context.native;\n");
        code.append("        let program = gl.create_program().expect(\"Cannot initialize program\");\n");
        code.append("        let vertex_shader = gl\n");
        code.append("            .create_shader(::willow::WebGlRenderingContext::VERTEX_SHADER)\n");
        code.append("            .expect(\"Cannot initialize vertex shader\");\n");
        code.append("        let fragment_shader = gl\n");
        code.append("            .create_shader(::willow::WebGlRenderingContext::FRAGMENT_SHADER)\n");
        code.append("            .expect(\"Cannot initialize fragment shader\");\n        Self {\n");
        code.append("            ");
        code.append(self.data_field.as_str());
        code.append(": ProgramData {\n                program,\n                vertex_shader,\n");
        code.append("                fragment_shader,\n            },\n");
        append_wrapped(&mut code, &self.attribute_fields, "            ", ": ::willow::Attribute::create_from_macro(),\n");
        append_wrapped(&mut code, &self.uniform_fields, "            ", ": ::willow::Uniform::create_from_macro(),\n");
        code.append("        }\n    }\n\n");
        code
    }

    /// Writes the method that uploads and compiles the two shaders, and in debug
    /// builds stops with the compiler's log where a shader did not compile.
    fn compile_to_source(&self) -> (code: String)
        ensures
            code@ == self.deep_view().compile_source(),
    {
        let mut code = String::from_str("    fn compile_shaders(&self, context: &::willow::Context) {\n");
        code.append("        let gl = &context.native;\n        gl.shader_source(&self.");
        code.append(self.data_field.as_str());
        code.append(".vertex_shader, ");
        code.append(self.vertex_code.as_str());
        code.append(");\n        gl.compile_shader(&self.");
        code.append(self.data_field.as_str());
        code.append(".vertex_shader);\n        gl.shader_source(&self.");
        code.append(self.data_field.as_str());
        code.append(".fragment_shader, ");
        code.append(self.fragment_code.as_str());
        code.append(");\n        gl.compile_shader(&self.");
        code.append(self.data_field.as_str());
        code.append(".fragment_shader);\n        #[cfg(debug_assertions)]\n        {\n");
        code.append("            for (debug_name, shader) in &[\n");
        code.append("                (\"vertex shader\", &self.");
        code.append(self.data_field.as_str());
        code.append(".vertex_shader),\n                (\"fragment shader\", &self.");
        code.append(self.data_field.as_str());
        code.append(".fragment_shader),\n            ] {\n");
        code.append("                let value = gl.get_shader_parameter(\n");
        code.append("                    shader,\n");
        code.append("                    ::willow::WebGlRenderingContext::COMPILE_STATUS,\n");
        code.append("                );\n                if !value.is_truthy() {\n");
        code.append("                    let log = gl.get_shader_info_log(shader);\n");
        code.append("                    panic!(\n");
        code.append("                        \"Error compiling {} of {}: {}\",\n");
        code.append("                        debug_name,\n                        stringify!(");
        code.append(self.ident.as_str());
        code.append("),\n                        log.unwrap_or_default()\n                    );\n");
        code.append("                }\n            }\n        }\n    }\n\n");
        code
    }

    /// Writes the method that attaches the two shaders and links the program, and in
    /// debug builds stops with the linker's log where linking failed.
    fn link_to_source(&self) -> (code: String)
        ensures
            code@ == self.deep_view().link_source(),
    {
        let mut code = String::from_str("    fn link_shaders(&self, context: &::willow::Context) {\n");
        code.append("        let gl = &context.native;\n        gl.attach_shader(&self.");
        code.append(self.data_field.as_str());
        code.append(".program, &self.");
        code.append(self.data_field.as_str());
        code.append(".vertex_shader);\n        gl.attach_shader(&self.");
        code.append(self.data_field.as_str());
        code.append(".program, &self.");
        code.append(self.data_field.as_str());
        code.append(".fragment_shader);\n        gl.link_program(&self.");
        code.append(self.data_field.as_str());
        code.append(".program);\n        #[cfg(debug_assertions)]\n        {\n");
        code.append("            let value = gl.get_program_parameter(\n                &self.");
        code.append(self.data_field.as_str());
        code.append(".program,\n                ::willow::WebGlRenderingContext::LINK_STATUS,\n");
        code.append("            );\n            if !value.is_truthy() {\n");
        code.append("                let log = gl.get_program_info_log(&self.");
        code.append(self.data_field.as_str());
        code.append(".program);\n                panic!(\n");
        code.append("                    \"Error linking {}: {}\",\n                    stringify!(");
        code.append(self.ident.as_str());
        code.append("),\n                    log.unwrap_or_default()\n                );\n");
        code.append("            }\n        }\n    }\n\n");
        code
    }

    /// Writes the method that binds a vertex buffer: one step for each attribute, in
    /// declaration order.
    fn apply_to_source(&self) -> (code: String)
        ensures
            code@ == self.deep_view().apply_source(),
    {
        let mut code = String::from_str("    fn apply_attrs(\n        &self,\n        context: &::willow::Context,\n");
        code.append("        buffer: &::willow::Buffer<Self::AttrStruct>,\n    ) {\n");
        code.append("        let gl = &context.native;\n");
        code.append("        gl.bind_buffer(::willow::WebGlRenderingContext::ARRAY_BUFFER, Some(&buffer.buf));\n");
        code.append(bindings_to_source(&self.bindings, self.data_field.as_str()).as_str());
        code.append("    }\n\n");
        code
    }

    /// Writes the method that makes the program the current one.
    fn select_to_source(&self) -> (code: String)
        ensures
            code@ == self.deep_view().select_source(),
    {
        let mut code = String::from_str("    fn use_program(&self, gl: &::willow::Context) {\n");
        code.append("        gl.native.use_program(Some(&self.");
        code.append(self.data_field.as_str());
        code.append(".program));\n    }\n");
        code
    }

    /// Writes the source code of the program's own methods.
    pub fn to_source(&self) -> (code: String)
        ensures
            code@ == self.deep_view().source(),
    {
        let mut code = self.builders_to_source();
        code.append("impl ::willow::Program for ");
        code.append(self.ident.as_str());
        code.append(" {\n    type AttrStruct = ");
        code.append(self.attr_ident.as_str());
        code.append(";\n\n");
        code.append(self.allocate_to_source().as_str());
        code.append(self.compile_to_source().as_str());
        code.append(self.link_to_source().as_str());
        code.append(self.apply_to_source().as_str());
        code.append(self.select_to_source().as_str());
        code.append("}\n\n");
        code
    }
}

/// Binding a vertex buffer takes one step for each attribute, in
/// declaration order: the step at position `i` binds the attribute at
/// position `i` to slot `i`, which is the index of the attribute's field in
/// the vertex record and an index at which every reflection lookup answers.
pub proof fn bindings_follow_declaration(input: InputView, i: int)
    requires
        0 <= i < input.attributes.len(),
    ensures
        program_impl(input).bindings.len() == input.attributes.len(),
        program_impl(input).bindings[i].slot == i,
        program_impl(input).bindings[i].field == input.attributes[i].field,
        program_impl(input).bindings[i].gl == input.attributes[i].gl,
        attr_struct(input).fields[i].name == program_impl(input).bindings[i].field,
        attr_struct(input).gl_names.lookup(program_impl(input).bindings[i].slot) is Some,
        attr_struct(input).offsets.lookup(program_impl(input).bindings[i].slot) is Some,
        attr_struct(input).types.lookup(program_impl(input).bindings[i].slot) is Some,
        attr_struct(input).num_comps.lookup(program_impl(input).bindings[i].slot) is Some,
        attr_struct(input).normalized.lookup(program_impl(input).bindings[i].slot) is Some,
{
    reflection_is_consistent(input, i as nat);
}

} // verus!
