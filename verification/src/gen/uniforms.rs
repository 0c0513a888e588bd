//! The uniform builder: a struct with one type parameter for each uniform,
//! one setter for each uniform, and the draw method.

use vstd::prelude::*;
use vstd::string::StringExecFns;
use crate::gen::{
    append_wrapped, list_uniform_fields, list_uniform_types, uniform_fields, uniform_types,
    wrapped,
};
use crate::parse::{Input, InputView, Uniform, UniformView};
use crate::text::{camel_case, quote_text, quoted, to_camel_case};

verus! {

/// One argument in the builder's list of type arguments.
#[derive(Debug, Clone)]
pub enum TypeArg {
    /// The placeholder `()`: the uniform at this position is not set.
    Unit,
    /// A type parameter: the uniform at this position is in either state.
    Param(String),
    /// A uniform's value type: the uniform at this position is set.
    Concrete(String),
}

/// The model of [`TypeArg`]: the same value, with its texts as sequences of
/// characters.
pub enum TypeArgView {
    Unit,
    Param(Seq<char>),
    Concrete(Seq<char>),
}

impl DeepView for TypeArg {
    type V = TypeArgView;

    open spec fn deep_view(&self) -> TypeArgView {
        match self {
            TypeArg::Unit => TypeArgView::Unit,
            TypeArg::Param(p) => TypeArgView::Param(p@),
            TypeArg::Concrete(t) => TypeArgView::Concrete(t@),
        }
    }
}

impl TypeArgView {
    /// The argument as source text.
    pub open spec fn source(self) -> Seq<char> {
        match self {
            TypeArgView::Unit => "()"@,
            TypeArgView::Param(p) => p,
            TypeArgView::Concrete(t) => t,
        }
    }
}

/// A list of type arguments as source text, a comma after each.
pub open spec fn type_args_source(args: Seq<TypeArgView>) -> Seq<char>
    decreases args.len(),
{
    if args.len() == 0 {
        Seq::empty()
    } else {
        type_args_source(args.drop_last()) + args.last().source() + ", "@
    }
}

fn type_args_to_source(args: &Vec<TypeArg>) -> (code: String)
    ensures
        code@ == type_args_source(args.deep_view()),
{
    let ghost all = args.deep_view();
    let mut code = String::new();
    let mut i: usize = 0;
    while i < args.len()
        invariant
            i <= args.len(),
            all == args.deep_view(),
            code@ == type_args_source(all.take(i as int)),
        decreases args.len() - i,
    {
        proof {
            assert(all.take(i + 1).drop_last() =~= all.take(i as int));
            assert(all.take(i + 1).last() == args[i as int].deep_view());
        }
        match &args[i] {
            TypeArg::Unit => {
                code.append("()");
            },
            TypeArg::Param(p) => {
                code.append(p.as_str());
            },
            TypeArg::Concrete(t) => {
                code.append(t.as_str());
            },
        }
        code.append(", ");
        i = i + 1;
    }
    proof {
        assert(all.take(args.len() as int) =~= all);
    }
    code
}

/// The method of the builder that sets one uniform. It is offered by the
/// builder whose type arguments are `receiver`, and gives the builder whose
/// type arguments are `result`.
#[derive(Debug, Clone)]
pub struct Setter {
    /// The uniform's field, which names the method and its parameter.
    pub field: String,
    /// The type of the uniform's value.
    pub ty: String,
    /// The method's documentation.
    pub doc: String,
    /// The type parameters of the method's block: those of the other
    /// uniforms.
    pub params: Vec<String>,
    pub receiver: Vec<TypeArg>,
    pub result: Vec<TypeArg>,
    /// The fields of the other uniforms, which are handed on as they are.
    pub kept: Vec<String>,
}

/// The model of [`Setter`]: the same value, with its texts as sequences of
/// characters.
pub struct SetterView {
    pub field: Seq<char>,
    pub ty: Seq<char>,
    pub doc: Seq<char>,
    pub params: Seq<Seq<char>>,
    pub receiver: Seq<TypeArgView>,
    pub result: Seq<TypeArgView>,
    pub kept: Seq<Seq<char>>,
}

impl DeepView for Setter {
    type V = SetterView;

    open spec fn deep_view(&self) -> SetterView {
        SetterView {
            field: self.field@,
            ty: self.ty@,
            doc: self.doc@,
            params: self.params.deep_view(),
            receiver: self.receiver.deep_view(),
            result: self.result.deep_view(),
            kept: self.kept.deep_view(),
        }
    }
}

/// One step of a draw call: the uniform declared by `field` and named `gl`
/// in the shader is given its value.
#[derive(Debug, Clone)]
pub struct UniformStep {
    pub field: String,
    pub gl: String,
}

/// The model of [`UniformStep`]: the same value, with its texts as sequences of
/// characters.
pub struct UniformStepView {
    pub field: Seq<char>,
    pub gl: Seq<char>,
}

impl DeepView for UniformStep {
    type V = UniformStepView;

    open spec fn deep_view(&self) -> UniformStepView {
        UniformStepView { field: self.field@, gl: self.gl@ }
    }
}

/// What the uniform builder is generated from.
#[derive(Debug, Clone)]
pub struct BuilderDef {
    pub vis: String,
    /// The name of the program's struct.
    pub program: String,
    /// The name of the builder.
    pub ident: String,
    pub attr_ident: String,
    pub data_field: String,
    /// The builder's documentation.
    pub doc: String,
    /// The builder's type parameters: one for each uniform, in order.
    pub generics: Vec<String>,
    /// The builder's fields: one for each uniform, in order.
    pub fields: Vec<String>,
    /// The uniforms' value types: the type arguments of the builder on
    /// which the draw method is offered.
    pub types: Vec<String>,
    /// One setter for each uniform, in order.
    pub setters: Vec<Setter>,
    /// The steps of the draw method, in the order performed.
    pub steps: Vec<UniformStep>,
}

/// The model of [`BuilderDef`]: the same value, with its texts as sequences of
/// characters.
pub struct BuilderDefView {
    pub vis: Seq<char>,
    pub program: Seq<char>,
    pub ident: Seq<char>,
    pub attr_ident: Seq<char>,
    pub data_field: Seq<char>,
    pub doc: Seq<char>,
    pub generics: Seq<Seq<char>>,
    pub fields: Seq<Seq<char>>,
    pub types: Seq<Seq<char>>,
    pub setters: Seq<SetterView>,
    pub steps: Seq<UniformStepView>,
}

impl DeepView for BuilderDef {
    type V = BuilderDefView;

    open spec fn deep_view(&self) -> BuilderDefView {
        BuilderDefView {
            vis: self.vis@,
            program: self.program@,
            ident: self.ident@,
            attr_ident: self.attr_ident@,
            data_field: self.data_field@,
            doc: self.doc@,
            generics: self.generics.deep_view(),
            fields: self.fields.deep_view(),
            types: self.types.deep_view(),
            setters: self.setters.deep_view(),
            steps: self.steps.deep_view(),
        }
    }
}

/// The type arguments of the builder on which the setter of the uniform at
/// position `i` is offered: the placeholder at `i`, and each other
/// uniform's type parameter at its position.
pub open spec fn receiver_args(generics: Seq<Seq<char>>, i: int) -> Seq<TypeArgView> {
    Seq::new(
        generics.len(),
        |j: int|
            if j == i {
                TypeArgView::Unit
            } else {
                TypeArgView::Param(generics[j])
            },
    )
}

/// The type arguments of the builder that the setter of the uniform at
/// position `i` gives: the uniform's value type at `i`, and each other
/// uniform's type parameter at its position.
pub open spec fn result_args(generics: Seq<Seq<char>>, ty: Seq<char>, i: int) -> Seq<
    TypeArgView,
> {
    Seq::new(
        generics.len(),
        |j: int|
            if j == i {
                TypeArgView::Concrete(ty)
            } else {
                TypeArgView::Param(generics[j])
            },
    )
}

/// The setter of the uniform at position `i`.
pub open spec fn setter(uniforms: Seq<UniformView>, generics: Seq<Seq<char>>, i: int) -> SetterView {
    SetterView {
        field: uniforms[i].field,
        ty: uniforms[i].ty,
        doc: "Sets the `"@ + uniforms[i].gl + "` uniform"@,
        params: generics.remove(i),
        receiver: receiver_args(generics, i),
        result: result_args(generics, uniforms[i].ty, i),
        kept: uniform_fields(uniforms).remove(i),
    }
}

/// The steps of a draw call: one for each uniform, in declaration order.
pub open spec fn uniform_steps(uniforms: Seq<UniformView>) -> Seq<UniformStepView> {
    Seq::new(
        uniforms.len(),
        |i: int| UniformStepView { field: uniforms[i].field, gl: uniforms[i].gl },
    )
}

/// The description of the uniform builder of a program, with the given
/// names for its type parameters.
pub open spec fn builder_def(input: InputView, generics: Seq<Seq<char>>) -> BuilderDefView {
    BuilderDefView {
        vis: input.vis,
        program: input.ident,
        ident: input.builder_ident,
        attr_ident: input.attr_ident,
        data_field: input.program_data,
        doc: "A builder type to run a `"@ + input.ident
            + "` program after resetting all uniforms."@,
        generics,
        fields: uniform_fields(input.uniforms),
        types: uniform_types(input.uniforms),
        setters: Seq::new(input.uniforms.len(), |i: int| setter(input.uniforms, generics, i)),
        steps: uniform_steps(input.uniforms),
    }
}

/// The names of the builder's type parameters: for each uniform, the words
/// `has` and the uniform's field in camel case.
pub open spec fn generic_names(uniforms: Seq<UniformView>) -> Seq<Seq<char>> {
    Seq::new(uniforms.len(), |i: int| camel_case("has "@ + uniforms[i].field))
}

/// A copy of a list without the item at position `i`.
fn without(items: &Vec<String>, i: usize) -> (rest: Vec<String>)
    requires
        i < items.len(),
    ensures
        rest.deep_view() == items.deep_view().remove(i as int),
{
    let mut rest: Vec<String> = Vec::new();
    let mut j: usize = 0;
    while j < items.len()
        invariant
            j <= items.len(),
            i < items.len(),
            rest.len() == if j <= i { j as int } else { j - 1 },
            forall|k: int| 0 <= k < rest.len() && k < i ==> rest[k]@ == items[k]@,
            forall|k: int| 0 <= k < rest.len() && k >= i ==> rest[k]@ == items[k + 1]@,
        decreases items.len() - j,
    {
        if j != i {
            rest.push(items[j].clone());
        }
        j = j + 1;
    }
    assert(rest.deep_view() =~= items.deep_view().remove(i as int));
    rest
}

fn list_receiver_args(generics: &Vec<String>, i: usize) -> (args: Vec<TypeArg>)
    ensures
        args.deep_view() == receiver_args(generics.deep_view(), i as int),
{
    let mut args: Vec<TypeArg> = Vec::new();
    let mut j: usize = 0;
    while j < generics.len()
        invariant
            j <= generics.len(),
            args.len() == j,
            forall|k: int|
                0 <= k < j ==> #[trigger] args[k].deep_view() == receiver_args(
                    generics.deep_view(),
                    i as int,
                )[k],
        decreases generics.len() - j,
    {
        if j == i {
            args.push(TypeArg::Unit);
        } else {
            args.push(TypeArg::Param(generics[j].clone()));
        }
        j = j + 1;
    }
    assert(args.deep_view() =~= receiver_args(generics.deep_view(), i as int));
    args
}

fn list_result_args(generics: &Vec<String>, ty: &String, i: usize) -> (args: Vec<TypeArg>)
    ensures
        args.deep_view() == result_args(generics.deep_view(), ty@, i as int),
{
    let mut args: Vec<TypeArg> = Vec::new();
    let mut j: usize = 0;
    while j < generics.len()
        invariant
            j <= generics.len(),
            args.len() == j,
            forall|k: int|
                0 <= k < j ==> #[trigger] args[k].deep_view() == result_args(
                    generics.deep_view(),
                    ty@,
                    i as int,
                )[k],
        decreases generics.len() - j,
    {
        if j == i {
            args.push(TypeArg::Concrete(ty.clone()));
        } else {
            args.push(TypeArg::Param(generics[j].clone()));
        }
        j = j + 1;
    }
    assert(args.deep_view() =~= result_args(generics.deep_view(), ty@, i as int));
    args
}

fn list_uniform_steps(uniforms: &Vec<Uniform>) -> (steps: Vec<UniformStep>)
    ensures
        steps.deep_view() == uniform_steps(uniforms.deep_view()),
{
    let mut steps: Vec<UniformStep> = Vec::new();
    let mut i: usize = 0;
    while i < uniforms.len()
        invariant
            i <= uniforms.len(),
            steps.len() == i,
            forall|k: int|
                0 <= k < i ==> #[trigger] steps[k].deep_view() == uniform_steps(
                    uniforms.deep_view(),
                )[k],
        decreases uniforms.len() - i,
    {
        steps.push(UniformStep { field: uniforms[i].field.clone(), gl: uniforms[i].gl.clone() });
        i = i + 1;
    }
    assert(steps.deep_view() =~= uniform_steps(uniforms.deep_view()));
    steps
}

/// Describes the uniform builder of a program, with the given names for its
/// type parameters, one for each uniform.
pub fn describe_builder(input: &Input, generics: Vec<String>) -> (builder: BuilderDef)
    requires
        generics.len() == input.uniforms.len(),
    ensures
        builder.deep_view() == builder_def(input.deep_view(), generics.deep_view()),
{
    let uniforms = &input.uniforms;
    let ghost u = uniforms.deep_view();
    let ghost g = generics.deep_view();
    let fields = list_uniform_fields(uniforms);
    assert(fields.deep_view().len() == u.len());
    let mut setters: Vec<Setter> = Vec::new();
    let mut i: usize = 0;
    while i < uniforms.len()
        invariant
            i <= uniforms.len(),
            generics.len() == uniforms.len(),
            u == uniforms.deep_view(),
            g == generics.deep_view(),
            fields.deep_view() == uniform_fields(u),
            fields.len() == uniforms.len(),
            setters.len() == i,
            forall|k: int| 0 <= k < i ==> #[trigger] setters[k].deep_view() == setter(u, g, k),
        decreases uniforms.len() - i,
    {
        let uniform = &uniforms[i];
        assert(u[i as int] == uniform.deep_view());
        let mut doc = String::from_str("Sets the `");
        doc.append(uniform.gl.as_str());
        doc.append("` uniform");
        setters.push(
            Setter {
                field: uniform.field.clone(),
                ty: uniform.ty.clone(),
                doc,
                params: without(&generics, i),
                receiver: list_receiver_args(&generics, i),
                result: list_result_args(&generics, &uniform.ty, i),
                kept: without(&fields, i),
            },
        );
        i = i + 1;
    }
    assert(setters.deep_view() =~= Seq::new(u.len(), |i: int| setter(u, g, i)));
    let mut doc = String::from_str("A builder type to run a `");
    doc.append(input.ident.as_str());
    doc.append("` program after resetting all uniforms.");
    BuilderDef {
        vis: input.vis.clone(),
        program: input.ident.clone(),
        ident: input.builder_ident.clone(),
        attr_ident: input.attr_ident.clone(),
        data_field: input.program_data.clone(),
        doc,
        generics,
        fields,
        types: list_uniform_types(uniforms),
        setters,
        steps: list_uniform_steps(uniforms),
    }
}

/// Describes the uniform builder of a program: a struct with one type
/// parameter for each uniform, one setter for each uniform, and the draw
/// method.
pub fn gen_builder(input: &Input) -> (builder: BuilderDef)
    ensures
        builder.deep_view() == builder_def(
            input.deep_view(),
            generic_names(input.deep_view().uniforms),
        ),
{
    let uniforms = &input.uniforms;
    let mut generics: Vec<String> = Vec::new();
    let mut i: usize = 0;
    while i < uniforms.len()
        invariant
            i <= uniforms.len(),
            generics.len() == i,
            forall|k: int|
                0 <= k < i ==> #[trigger] generics[k]@ == generic_names(uniforms.deep_view())[k],
        decreases uniforms.len() - i,
    {
        let mut words = String::from_str("has ");
        words.append(uniforms[i].field.as_str());
        generics.push(to_camel_case(words.as_str()));
        i = i + 1;
    }
    assert(generics.deep_view() =~= generic_names(uniforms.deep_view()));
    describe_builder(input, generics)
}

impl SetterView {
    /// The source code of the setter, inside a builder named `ident` with the
    /// given visibility and fields.
    pub open spec fn source(self, vis: Seq<char>, ident: Seq<char>, fields: Seq<Seq<char>>) -> Seq<char> {
        "impl<'program, "@
        + wrapped(self.params, ""@, ", "@)
        + "> "@
        + ident
        + "<'program, "@
        + type_args_source(self.receiver)
        + "> {\n    #[doc = "@
        + quoted(self.doc)
        + "]\n    "@
        + vis
        + " fn "@
        + self.field
        + "(self, "@
        + self.field
        + ": "@
        + self.ty
        + ") -> "@
        + ident
        + "<'program, "@
        + type_args_source(self.result)
        + "> {\n        let Self {\n            program,\n            "@
        + self.field
        + ": (),\n"@
        + wrapped(self.kept, "            "@, ",\n"@)
        + "        } = self;\n        "@
        + ident
        + " {\n            program,\n"@
        + wrapped(fields, "            "@, ",\n"@)
        + "        }\n    }\n}\n\n"@
    }
}

impl Setter {
    /// Writes the source code of the setter.
    pub fn to_source(&self, vis: &str, ident: &str, fields: &Vec<String>) -> (code: String)
        ensures
            code@ == self.deep_view().source(vis@, ident@, fields.deep_view()),
    {
        let mut code = String::from_str("impl<'program, ");
        append_wrapped(&mut code, &self.params, "", ", ");
        code.append("> ");
        code.append(ident);
        code.append("<'program, ");
        code.append(type_args_to_source(&self.receiver).as_str());
        code.append("> {\n    #[doc = ");
        code.append(quote_text(self.doc.as_str()).as_str());
        code.append("]\n    ");
        code.append(vis);
        code.append(" fn ");
        code.append(self.field.as_str());
        code.append("(self, ");
        code.append(self.field.as_str());
        code.append(": ");
        code.append(self.ty.as_str());
        code.append(") -> ");
        code.append(ident);
        code.append("<'program, ");
        code.append(type_args_to_source(&self.result).as_str());
        code.append("> {\n        let Self {\n            program,\n            ");
        code.append(self.field.as_str());
        code.append(": (),\n");
        append_wrapped(&mut code, &self.kept, "            ", ",\n");
        code.append("        } = self;\n        ");
        code.append(ident);
        code.append(" {\n            program,\n");
        append_wrapped(&mut code, fields, "            ", ",\n");
        code.append("        }\n    }\n}\n\n");
        code
    }
}

impl UniformStepView {
    /// The statements that resolve the uniform's location, report a failure to
    /// resolve it, and upload the value.
    pub open spec fn source(self, data_field: Seq<char>) -> Seq<char> {
        "        {\n            let location = self\n                .program\n"@
        + "                ."@
        + self.field
        + "\n                .get_location(context, &self.program."@
        + data_field
        + ", "@
        + quoted(self.gl)
        + ")\n                .with_context(|| {\n                    format!(\n"@
        + "                        \"Could not retrieve uniform location with name \\\"{}\\\"\",\n"@
        + "                        "@
        + quoted(self.gl)
        + "\n                    )\n                })?;\n"@
        + "            ::willow::UniformType::apply_uniform(self."@
        + self.field
        + ", &context.native, &location);\n        }\n"@
    }
}

impl UniformStep {
    /// Writes the statements of the step.
    pub fn to_source(&self, data_field: &str) -> (code: String)
        ensures
            code@ == self.deep_view().source(data_field@),
    {
        let mut code = String::from_str("        {\n            let location = self\n                .program\n");
        code.append("                .");
        code.append(self.field.as_str());
        code.append("\n                .get_location(context, &self.program.");
        code.append(data_field);
        code.append(", ");
        code.append(quote_text(self.gl.as_str()).as_str());
        code.append(")\n                .with_context(|| {\n                    format!(\n");
        code.append("                        \"Could not retrieve uniform location with name \\\"{}\\\"\",\n");
        code.append("                        ");
        code.append(quote_text(self.gl.as_str()).as_str());
        code.append("\n                    )\n                })?;\n");
        code.append("            ::willow::UniformType::apply_uniform(self.");
        code.append(self.field.as_str());
        code.append(", &context.native, &location);\n        }\n");
        code
    }
}

/// The statements of a list of draw steps, in order.
pub open spec fn steps_source(steps: Seq<UniformStepView>, data_field: Seq<char>) -> Seq<char>
    decreases steps.len(),
{
    if steps.len() == 0 {
        Seq::empty()
    } else {
        steps_source(steps.drop_last(), data_field) + steps.last().source(data_field)
    }
}

fn steps_to_source(steps: &Vec<UniformStep>, data_field: &str) -> (code: String)
    ensures
        code@ == steps_source(steps.deep_view(), data_field@),
{
    let ghost all = steps.deep_view();
    let mut code = String::new();
    let mut i: usize = 0;
    while i < steps.len()
        invariant
            i <= steps.len(),
            all == steps.deep_view(),
            code@ == steps_source(all.take(i as int), data_field@),
        decreases steps.len() - i,
    {
        proof {
            assert(all.take(i + 1).drop_last() =~= all.take(i as int));
            assert(all.take(i + 1).last() == steps[i as int].deep_view());
        }
        code.append(steps[i].to_source(data_field).as_str());
        i = i + 1;
    }
    proof {
        assert(all.take(steps.len() as int) =~= all);
    }
    code
}

/// The source code of a list of setters, in order.
pub open spec fn setters_source(
    setters: Seq<SetterView>,
    vis: Seq<char>,
    ident: Seq<char>,
    fields: Seq<Seq<char>>,
) -> Seq<char>
    decreases setters.len(),
{
    if setters.len() == 0 {
        Seq::empty()
    } else {
        setters_source(setters.drop_last(), vis, ident, fields) + setters.last().source(
            vis,
            ident,
            fields,
        )
    }
}

fn setters_to_source(setters: &Vec<Setter>, vis: &str, ident: &str, fields: &Vec<String>) -> (code:
    String)
    ensures
        code@ == setters_source(setters.deep_view(), vis@, ident@, fields.deep_view()),
{
    let ghost all = setters.deep_view();
    let mut code = String::new();
    let mut i: usize = 0;
    while i < setters.len()
        invariant
            i <= setters.len(),
            all == setters.deep_view(),
            code@ == setters_source(all.take(i as int), vis@, ident@, fields.deep_view()),
        decreases setters.len() - i,
    {
        proof {
            assert(all.take(i + 1).drop_last() =~= all.take(i as int));
            assert(all.take(i + 1).last() == setters[i as int].deep_view());
        }
        code.append(setters[i].to_source(vis, ident, fields).as_str());
        i = i + 1;
    }
    proof {
        assert(all.take(setters.len() as int) =~= all);
    }
    code
}

/// One line for each of the first `n` fields: the field and its type.
pub open spec fn typed_fields_source(fields: Seq<Seq<char>>, types: Seq<Seq<char>>, n: nat) -> Seq<
    char,
>
    decreases n,
{
    if n == 0 {
        Seq::empty()
    } else {
        typed_fields_source(fields, types, (n - 1) as nat)
        + "    "@
        + fields[n - 1]
        + ": "@
        + types[n - 1]
        + ",\n"@
    }
}

fn typed_fields_to_source(fields: &Vec<String>, types: &Vec<String>) -> (code: String)
    requires
        fields.len() == types.len(),
    ensures
        code@ == typed_fields_source(fields.deep_view(), types.deep_view(), fields.len() as nat),
{
    let mut code = String::new();
    let mut i: usize = 0;
    while i < fields.len()
        invariant
            i <= fields.len(),
            fields.len() == types.len(),
            code@ == typed_fields_source(fields.deep_view(), types.deep_view(), i as nat),
        decreases fields.len() - i,
    {
        code.append("    ");
        code.append(fields[i].as_str());
        code.append(": ");
        code.append(types[i].as_str());
        code.append(",\n");
        i = i + 1;
    }
    code
}

impl BuilderDefView {
    /// Whether the builder has as many type parameters as fields, and each
    /// of its setters gives a builder with as many type arguments as the one
    /// that offers it.
    pub open spec fn well_formed(self) -> bool {
        &&& self.generics.len() == self.fields.len()
        &&& forall|i: int|
            0 <= i < self.setters.len() ==> (#[trigger] self.setters[i]).receiver.len()
                == self.setters[i].result.len()
    }

    /// The builder's own declaration: one type parameter and one field for each
    /// uniform.
    pub open spec fn struct_source(self) -> Seq<char> {
        "#[doc = "@
        + quoted(self.doc)
        + "]\n#[derive(Clone, Copy)]\n#[must_use = \"Builder type must be called\"]\n"@
        + self.vis
        + " struct "@
        + self.ident
        + "<'program, "@
        + wrapped(self.generics, ""@, ", "@)
        + "> {\n    program: &'program "@
        + self.program
        + ",\n"@
        + typed_fields_source(self.fields, self.generics, self.fields.len())
        + "}\n\n"@
    }

    /// The draw method, on the builder in which every uniform is set.
    pub open spec fn draw_source(self) -> Seq<char> {
        "impl<'program> "@
        + self.ident
        + "<'program, "@
        + wrapped(self.types, ""@, ", "@)
        + "> {\n    /// Calls the program after setting all uniforms.\n    "@
        + self.vis
        + " fn draw(\n        self,\n        context: &::willow::Context,\n"@
        + "        mode: ::willow::RenderPrimitiveType,\n"@
        + "        buffer: &::willow::Buffer<"@
        + self.attr_ident
        + ">,\n        indices: &impl ::willow::AbstractIndices,\n"@
        + "    ) -> ::willow::Result<()> {\n        use ::willow::anyhow::Context;\n"@
        + "        ::willow::Program::use_program(self.program, context);\n"@
        + steps_source(self.steps, self.data_field)
        + "        ::willow::AbstractIndices::draw(indices, mode, context, self.program, buffer);\n"@
        + "        Ok(())\n    }\n}\n"@
    }

    /// The source code of the builder: its declaration, its setters in
    /// order, and its draw method.
    pub open spec fn source(self) -> Seq<char> {
        self.struct_source()
        + setters_source(self.setters, self.vis, self.ident, self.fields)
        + self.draw_source()
    }
}

impl BuilderDef {
    /// Writes the builder's own declaration.
    fn struct_to_source(&self) -> (code: String)
        requires
            self.deep_view().well_formed(),
        ensures
            code@ == self.deep_view().struct_source(),
    {
        let mut code = String::from_str("#[doc = ");
        code.append(quote_text(self.doc.as_str()).as_str());
        code.append("]\n#[derive(Clone, Copy)]\n#[must_use = \"Builder type must be called\"]\n");
        code.append(self.vis.as_str());
        code.append(" struct ");
        code.append(self.ident.as_str());
        code.append("<'program, ");
        append_wrapped(&mut code, &self.generics, "", ", ");
        code.append("> {\n    program: &'program ");
        code.append(self.program.as_str());
        code.append(",\n");
        code.append(typed_fields_to_source(&self.fields, &self.generics).as_str());
        code.append("}\n\n");
        code
    }

    /// Writes the draw method.
    fn draw_to_source(&self) -> (code: String)
        ensures
            code@ == self.deep_view().draw_source(),
    {
        let mut code = String::from_str("impl<'program> ");
        code.append(self.ident.as_str());
        code.append("<'program, ");
        append_wrapped(&mut code, &self.types, "", ", ");
        code.append("> {\n    /// Calls the program after setting all uniforms.\n    ");
        code.append(self.vis.as_str());
        code.append(" fn draw(\n        self,\n        context: &::willow::Context,\n");
        code.append("        mode: ::willow::RenderPrimitiveType,\n");
        code.append("        buffer: &::willow::Buffer<");
        code.append(self.attr_ident.as_str());
        code.append(">,\n        indices: &impl ::willow::AbstractIndices,\n");
        code.append("    ) -> ::willow::Result<()> {\n        use ::willow::anyhow::Context;\n");
        code.append("        ::willow::Program::use_program(self.program, context);\n");
        code.append(steps_to_source(&self.steps, self.data_field.as_str()).as_str());
        code.append("        ::willow::AbstractIndices::draw(indices, mode, context, self.program, buffer);\n");
        code.append("        Ok(())\n    }\n}\n");
        code
    }

    /// Writes the source code of the builder.
    pub fn to_source(&self) -> (code: String)
        requires
            self.deep_view().well_formed(),
        ensures
            code@ == self.deep_view().source(),
    {
        let mut code = self.struct_to_source();
        code.append(
            setters_to_source(
                &self.setters,
                self.vis.as_str(),
                self.ident.as_str(),
                &self.fields,
            ).as_str(),
        );
        code.append(self.draw_to_source().as_str());
        code
    }
}

/// A draw call takes one step for each uniform, in declaration order, and
/// the builder has one setter for each uniform, in the same order.
pub proof fn uniforms_follow_declaration(input: InputView, generics: Seq<Seq<char>>, i: int)
    requires
        0 <= i < input.uniforms.len(),
    ensures
        builder_def(input, generics).steps.len() == input.uniforms.len(),
        builder_def(input, generics).steps[i].field == input.uniforms[i].field,
        builder_def(input, generics).steps[i].gl == input.uniforms[i].gl,
        builder_def(input, generics).setters.len() == input.uniforms.len(),
        builder_def(input, generics).setters[i].field == input.uniforms[i].field,
        builder_def(input, generics).setters[i].ty == input.uniforms[i].ty,
{
}

} // verus!
