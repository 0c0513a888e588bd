//! From the description of a shader program to the source code of its
//! wrappers.
//!
//! Each block of code is first described as a value (which bindings, which
//! lookups, which setters), then written out as text. The descriptions are
//! what the laws of this crate speak of; the text is what a compiler reads.
//!
//! [`lifecycle`] holds the program's own methods, [`record`] the vertex
//! record with its reflection, and [`uniforms`] the uniform builder.

pub mod lifecycle;
pub mod record;
pub mod uniforms;

pub use lifecycle::{
    bindings, bindings_follow_declaration, gen_program_impl, program_impl, Binding, BindingView,
    ProgramImpl, ProgramImplView,
};
pub use record::{
    arms_of, attr_struct, define_function, gen_attrs, lookup_is_positional, match_fn,
    record_fields, reflection_is_consistent, selected, Arm, ArmView, AttrField, AttrFieldView,
    AttrStructDef, AttrStructDefView, MatchFn, MatchFnView,
};
pub use uniforms::{
    builder_def, describe_builder, gen_builder, generic_names, receiver_args, result_args,
    setter, uniform_steps, uniforms_follow_declaration, BuilderDef, BuilderDefView, Setter,
    SetterView, TypeArg, TypeArgView, UniformStep, UniformStepView,
};

use vstd::prelude::*;
use vstd::string::StringExecFns;
use crate::parse::{
    parsed, roles_partition_fields, Attribute, AttributeView, CodeSource, CodeSourceView, Input,
    InputView, Uniform, UniformView,
};
use crate::syntax::StructDeclView;
use crate::text::{quote_text, quoted};

verus! {

/// Each text of a list between `before` and `after`, one after the other.
pub open spec fn wrapped(items: Seq<Seq<char>>, before: Seq<char>, after: Seq<char>) -> Seq<
    char,
>
    decreases items.len(),
{
    if items.len() == 0 {
        Seq::empty()
    } else {
        wrapped(items.drop_last(), before, after) + (before + items.last() + after)
    }
}

/// A text written `n` times.
pub open spec fn repeated(text: Seq<char>, n: nat) -> Seq<char>
    decreases n,
{
    if n == 0 {
        Seq::empty()
    } else {
        repeated(text, (n - 1) as nat) + text
    }
}

/// Appends each text of a list, between `before` and `after`.
pub fn append_wrapped(out: &mut String, items: &Vec<String>, before: &str, after: &str)
    ensures
        final(out)@ == old(out)@ + wrapped(items.deep_view(), before@, after@),
{
    let ghost all = items.deep_view();
    let mut i: usize = 0;
    assert(out@ =~= old(out)@ + wrapped(all.take(0), before@, after@));
    while i < items.len()
        invariant
            i <= items.len(),
            all == items.deep_view(),
            out@ == old(out)@ + wrapped(all.take(i as int), before@, after@),
        decreases items.len() - i,
    {
        proof {
            assert(all.take(i + 1).drop_last() =~= all.take(i as int));
            assert(all.take(i + 1).last() == items[i as int]@);
        }
        let ghost so_far = out@;
        out.append(before);
        out.append(items[i].as_str());
        out.append(after);
        assert(out@ =~= so_far + (before@ + items[i as int]@ + after@));
        assert(out@ =~= old(out)@ + wrapped(all.take(i + 1), before@, after@));
        i = i + 1;
    }
    proof {
        assert(all.take(items.len() as int) =~= all);
    }
}

/// Appends a text `n` times.
pub fn append_repeated(out: &mut String, text: &str, n: usize)
    ensures
        final(out)@ == old(out)@ + repeated(text@, n as nat),
{
    let mut i: usize = 0;
    assert(out@ =~= old(out)@ + repeated(text@, 0));
    while i < n
        invariant
            i <= n,
            out@ == old(out)@ + repeated(text@, i as nat),
        decreases n - i,
    {
        out.append(text);
        assert(out@ =~= old(out)@ + repeated(text@, (i + 1) as nat));
        i = i + 1;
    }
}

impl CodeSourceView {
    /// The expression that evaluates to the shader's text.
    pub open spec fn source(self) -> Seq<char> {
        match self {
            CodeSourceView::File(path) => "include_str!("@ + quoted(path) + ")"@,
            CodeSourceView::Expr(expr) => expr,
        }
    }
}

impl CodeSource {
    /// Writes the expression that evaluates to the shader's text.
    pub fn to_source(&self) -> (code: String)
        ensures
            code@ == self.deep_view().source(),
    {
        match self {
            CodeSource::File(path) => {
                let mut code = String::from_str("include_str!(");
                let literal = quote_text(path.as_str());
                code.append(literal.as_str());
                code.append(")");
                code
            },
            CodeSource::Expr(expr) => expr.clone(),
        }
    }
}

/// The fields that declare the attributes, in order.
pub open spec fn attribute_fields(attributes: Seq<AttributeView>) -> Seq<Seq<char>> {
    Seq::new(attributes.len(), |i: int| attributes[i].field)
}

/// The fields that declare the uniforms, in order.
pub open spec fn uniform_fields(uniforms: Seq<UniformView>) -> Seq<Seq<char>> {
    Seq::new(uniforms.len(), |i: int| uniforms[i].field)
}

/// The value types of the uniforms, in order.
pub open spec fn uniform_types(uniforms: Seq<UniformView>) -> Seq<Seq<char>> {
    Seq::new(uniforms.len(), |i: int| uniforms[i].ty)
}

pub(crate) fn list_attribute_fields(attributes: &Vec<Attribute>) -> (fields: Vec<String>)
    ensures
        fields.deep_view() == attribute_fields(attributes.deep_view()),
{
    let mut fields: Vec<String> = Vec::new();
    let mut i: usize = 0;
    while i < attributes.len()
        invariant
            i <= attributes.len(),
            fields.len() == i,
            forall|k: int| 0 <= k < i ==> fields[k]@ == attributes[k].field@,
        decreases attributes.len() - i,
    {
        fields.push(attributes[i].field.clone());
        i = i + 1;
    }
    assert(fields.deep_view() =~= attribute_fields(attributes.deep_view()));
    fields
}

pub(crate) fn list_uniform_fields(uniforms: &Vec<Uniform>) -> (fields: Vec<String>)
    ensures
        fields.deep_view() == uniform_fields(uniforms.deep_view()),
{
    let mut fields: Vec<String> = Vec::new();
    let mut i: usize = 0;
    while i < uniforms.len()
        invariant
            i <= uniforms.len(),
            fields.len() == i,
            forall|k: int| 0 <= k < i ==> fields[k]@ == uniforms[k].field@,
        decreases uniforms.len() - i,
    {
        fields.push(uniforms[i].field.clone());
        i = i + 1;
    }
    assert(fields.deep_view() =~= uniform_fields(uniforms.deep_view()));
    fields
}

pub(crate) fn list_uniform_types(uniforms: &Vec<Uniform>) -> (types: Vec<String>)
    ensures
        types.deep_view() == uniform_types(uniforms.deep_view()),
{
    let mut types: Vec<String> = Vec::new();
    let mut i: usize = 0;
    while i < uniforms.len()
        invariant
            i <= uniforms.len(),
            types.len() == i,
            forall|k: int| 0 <= k < i ==> types[k]@ == uniforms[k].ty@,
        decreases uniforms.len() - i,
    {
        types.push(uniforms[i].ty.clone());
        i = i + 1;
    }
    assert(types.deep_view() =~= uniform_types(uniforms.deep_view()));
    types
}

/// The source code that is generated for a program: the program's own
/// methods, the vertex record with its reflection, and the uniform builder.
pub open spec fn generated(input: InputView) -> Seq<char> {
    program_impl(input).source() + attr_struct(input).source() + builder_def(
        input,
        generic_names(input.uniforms),
    ).source()
}

/// Writes the source code that is generated for a program.
pub fn gen_code(input: &Input) -> (code: String)
    ensures
        code@ == generated(input.deep_view()),
{
    let mut code = gen_program_impl(input).to_source();
    code.append(gen_attrs(input).to_source().as_str());
    code.append(gen_builder(input).to_source().as_str());
    code
}

/// For every struct that is accepted, with one field for the program data,
/// `N` attribute fields and `M` uniform fields: the reflection reports `N`
/// fields and answers its lookups exactly at the indices below `N`; a vertex
/// buffer is bound in `N` steps, the step at position `i` to slot `i`; and
/// the builder has `M` setters and draws in `M` steps.
pub proof fn accepted_struct_is_reflected(decl: StructDeclView, i: nat)
    requires
        parsed(decl) is Ok,
    ensures
        ({
            let input = parsed(decl)->Ok_0;
            let n = input.attributes.len();
            let m = input.uniforms.len();
            &&& n + m + 1 == decl.fields.len()
            &&& attr_struct(input).count == n
            &&& program_impl(input).bindings.len() == n
            &&& i < n ==> program_impl(input).bindings[i as int].slot == i
            &&& attr_struct(input).gl_names.lookup(i) is Some <==> i < n
            &&& attr_struct(input).offsets.lookup(i) is Some <==> i < n
            &&& attr_struct(input).types.lookup(i) is Some <==> i < n
            &&& attr_struct(input).num_comps.lookup(i) is Some <==> i < n
            &&& attr_struct(input).normalized.lookup(i) is Some <==> i < n
            &&& builder_def(input, generic_names(input.uniforms)).setters.len() == m
            &&& builder_def(input, generic_names(input.uniforms)).steps.len() == m
        }),
{
    let input = parsed(decl)->Ok_0;
    roles_partition_fields(decl);
    reflection_is_consistent(input, i);
}

} // verus!
