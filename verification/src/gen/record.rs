//! The vertex record and its reflection: the number of its fields, and
//! five lookups by field index.

use vstd::prelude::*;
use vstd::string::StringExecFns;
use crate::parse::{Attribute, AttributeView, Input, InputView};
use crate::text::{decimal, decimal_text, quote_text, quoted};

verus! {

/// One arm of a lookup by field index: at `index`, the lookup gives `value`.
#[derive(Debug, Clone)]
pub struct Arm {
    pub index: usize,
    /// The expression that the arm evaluates to.
    pub value: String,
}

/// The model of [`Arm`]: the same value, with its texts as sequences of
/// characters.
pub struct ArmView {
    pub index: nat,
    pub value: Seq<char>,
}

impl DeepView for Arm {
    type V = ArmView;

    open spec fn deep_view(&self) -> ArmView {
        ArmView { index: self.index as nat, value: self.value@ }
    }
}

/// A function that looks a value up by field index.
#[derive(Debug, Clone)]
pub struct MatchFn {
    pub name: String,
    pub return_type: String,
    /// The arms in the order tried.
    pub arms: Vec<Arm>,
}

/// The model of [`MatchFn`]: the same value, with its texts as sequences of
/// characters.
pub struct MatchFnView {
    pub name: Seq<char>,
    pub return_type: Seq<char>,
    pub arms: Seq<ArmView>,
}

impl DeepView for MatchFn {
    type V = MatchFnView;

    open spec fn deep_view(&self) -> MatchFnView {
        MatchFnView {
            name: self.name@,
            return_type: self.return_type@,
            arms: self.arms.deep_view(),
        }
    }
}

/// The arms that give the values of a list by position: the arm at position
/// `i` has index `i` and gives the value at `i`.
pub open spec fn arms_of(values: Seq<Seq<char>>) -> Seq<ArmView> {
    Seq::new(values.len(), |i: int| ArmView { index: i as nat, value: values[i] })
}

/// The lookup of the values of a list by position.
pub open spec fn match_fn(
    name: Seq<char>,
    return_type: Seq<char>,
    values: Seq<Seq<char>>,
) -> MatchFnView {
    MatchFnView { name, return_type, arms: arms_of(values) }
}

/// Describes the lookup of the values of a list by position.
pub fn define_function(name: &str, return_type: &str, values: Vec<String>) -> (lookup: MatchFn)
    ensures
        lookup.deep_view() == match_fn(name@, return_type@, values.deep_view()),
{
    let mut arms: Vec<Arm> = Vec::new();
    let mut i: usize = 0;
    while i < values.len()
        invariant
            i <= values.len(),
            arms.len() == i,
            forall|k: int|
                0 <= k < i ==> #[trigger] arms[k].deep_view() == arms_of(values.deep_view())[k],
        decreases values.len() - i,
    {
        arms.push(Arm { index: i, value: values[i].clone() });
        i = i + 1;
    }
    assert(arms.deep_view() =~= arms_of(values.deep_view()));
    MatchFn { name: name.to_string(), return_type: return_type.to_string(), arms }
}

/// What the arms give at index `i`: the value of the first arm with that
/// index, and nothing where no arm has it.
pub open spec fn selected(arms: Seq<ArmView>, i: nat) -> Option<Seq<char>>
    decreases arms.len(),
{
    if arms.len() == 0 {
        None
    } else if arms.first().index == i {
        Some(arms.first().value)
    } else {
        selected(arms.drop_first(), i)
    }
}

impl MatchFnView {
    /// What the lookup gives at index `i`; nothing where the lookup stops
    /// the program.
    pub open spec fn lookup(self, i: nat) -> Option<Seq<char>> {
        selected(self.arms, i)
    }
}

impl MatchFn {
    /// Evaluates the lookup at index `i`: the expression of the arm that is
    /// taken, and nothing where the lookup stops the program.
    pub fn lookup(&self, i: usize) -> (value: Option<String>)
        ensures
            value.deep_view() == self.deep_view().lookup(i as nat),
    {
        let ghost all = self.arms.deep_view();
        let mut k: usize = 0;
        assert(all.skip(0) =~= all);
        while k < self.arms.len()
            invariant
                k <= self.arms.len(),
                all == self.arms.deep_view(),
                selected(all, i as nat) == selected(all.skip(k as int), i as nat),
            decreases self.arms.len() - k,
        {
            assert(all.skip(k as int).first() == self.arms[k as int].deep_view());
            assert(all.skip(k as int).drop_first() =~= all.skip(k + 1));
            if self.arms[k].index == i {
                return Some(self.arms[k].value.clone());
            }
            k = k + 1;
        }
        None
    }
}

/// One line for each arm: its index, an arrow, its value.
pub open spec fn arms_source(arms: Seq<ArmView>) -> Seq<char>
    decreases arms.len(),
{
    if arms.len() == 0 {
        Seq::empty()
    } else {
        arms_source(arms.drop_last())
        + "            "@
        + decimal(arms.last().index)
        + "usize => "@
        + arms.last().value
        + ",\n"@
    }
}

fn arms_to_source(arms: &Vec<Arm>) -> (code: String)
    ensures
        code@ == arms_source(arms.deep_view()),
{
    let ghost all = arms.deep_view();
    let mut code = String::new();
    let mut i: usize = 0;
    while i < arms.len()
        invariant
            i <= arms.len(),
            all == arms.deep_view(),
            code@ == arms_source(all.take(i as int)),
        decreases arms.len() - i,
    {
        proof {
            assert(all.take(i + 1).drop_last() =~= all.take(i as int));
            assert(all.take(i + 1).last() == arms[i as int].deep_view());
        }
        code.append("            ");
        code.append(decimal_text(arms[i].index).as_str());
        code.append("usize => ");
        code.append(arms[i].value.as_str());
        code.append(",\n");
        i = i + 1;
    }
    proof {
        assert(all.take(arms.len() as int) =~= all);
    }
    code
}

impl MatchFnView {
    /// The source code of the lookup: one arm for each index, and a last arm
    /// that stops the program for any other index.
    pub open spec fn source(self) -> Seq<char> {
        "    fn "@
        + self.name
        + "(i: usize) -> "@
        + self.return_type
        + " {\n        match i {\n"@
        + arms_source(self.arms)
        + "            _ => panic!(\"Nonexistent field\"),\n        }\n    }\n\n"@
    }
}

impl MatchFn {
    /// Writes the source code of the lookup.
    pub fn to_source(&self) -> (code: String)
        ensures
            code@ == self.deep_view().source(),
    {
        let mut code = String::from_str("    fn ");
        code.append(self.name.as_str());
        code.append("(i: usize) -> ");
        code.append(self.return_type.as_str());
        code.append(" {\n        match i {\n");
        code.append(arms_to_source(&self.arms).as_str());
        code.append("            _ => panic!(\"Nonexistent field\"),\n        }\n    }\n\n");
        code
    }
}

/// One field of the vertex record.
#[derive(Debug, Clone)]
pub struct AttrField {
    pub name: String,
    pub ty: String,
}

/// The model of [`AttrField`]: the same value, with its texts as sequences of
/// characters.
pub struct AttrFieldView {
    pub name: Seq<char>,
    pub ty: Seq<char>,
}

impl DeepView for AttrField {
    type V = AttrFieldView;

    open spec fn deep_view(&self) -> AttrFieldView {
        AttrFieldView { name: self.name@, ty: self.ty@ }
    }
}

/// What the vertex record and its reflection are generated from.
#[derive(Debug, Clone)]
pub struct AttrStructDef {
    pub vis: String,
    pub ident: String,
    /// The record's fields: one for each attribute, in declaration order.
    pub fields: Vec<AttrField>,
    /// The number of fields that the reflection reports.
    pub count: usize,
    /// By field index: the attribute's name in the shader.
    pub gl_names: MatchFn,
    /// By field index: the field's byte offset within the record.
    pub offsets: MatchFn,
    /// By field index: the code of the field's scalar type.
    pub types: MatchFn,
    /// By field index: the number of scalars in the field.
    pub num_comps: MatchFn,
    /// By field index: whether the field is normalised on upload.
    pub normalized: MatchFn,
}

/// The model of [`AttrStructDef`]: the same value, with its texts as sequences of
/// characters.
pub struct AttrStructDefView {
    pub vis: Seq<char>,
    pub ident: Seq<char>,
    pub fields: Seq<AttrFieldView>,
    pub count: nat,
    pub gl_names: MatchFnView,
    pub offsets: MatchFnView,
    pub types: MatchFnView,
    pub num_comps: MatchFnView,
    pub normalized: MatchFnView,
}

impl DeepView for AttrStructDef {
    type V = AttrStructDefView;

    open spec fn deep_view(&self) -> AttrStructDefView {
        AttrStructDefView {
            vis: self.vis@,
            ident: self.ident@,
            fields: self.fields.deep_view(),
            count: self.count as nat,
            gl_names: self.gl_names.deep_view(),
            offsets: self.offsets.deep_view(),
            types: self.types.deep_view(),
            num_comps: self.num_comps.deep_view(),
            normalized: self.normalized.deep_view(),
        }
    }
}

impl AttributeView {
    /// The string literal of the attribute's name in the shader.
    pub open spec fn gl_name_value(self) -> Seq<char> {
        quoted(self.gl)
    }

    /// The expression for the byte offset of the attribute's field within
    /// the vertex record.
    pub open spec fn offset_value(self) -> Seq<char> {
        "::willow::offset_of!(Self => "@ + self.field + ").get_byte_offset()"@
    }

    /// The expression for the code of the attribute's scalar type.
    pub open spec fn type_value(self) -> Seq<char> {
        "<"@ + self.ty + " as ::willow::AttributeType>::gl_type()"@
    }

    /// The expression for the number of scalars in the attribute's value.
    pub open spec fn num_comps_value(self) -> Seq<char> {
        "<"@ + self.ty + " as ::willow::AttributeType>::num_comps()"@
    }

    /// The literal of the attribute's normalisation flag.
    pub open spec fn normalized_value(self) -> Seq<char> {
        if self.normalized {
            "true"@
        } else {
            "false"@
        }
    }
}

/// The fields of the vertex record: the attributes' fields with the
/// attributes' value types, in order.
pub open spec fn record_fields(attributes: Seq<AttributeView>) -> Seq<AttrFieldView> {
    Seq::new(
        attributes.len(),
        |i: int| AttrFieldView { name: attributes[i].field, ty: attributes[i].ty },
    )
}

/// The description of the vertex record and of its reflection.
pub open spec fn attr_struct(input: InputView) -> AttrStructDefView {
    let a = input.attributes;
    AttrStructDefView {
        vis: input.vis,
        ident: input.attr_ident,
        fields: record_fields(a),
        count: a.len(),
        gl_names: match_fn(
            "field_gl_name"@,
            "&'static str"@,
            Seq::new(a.len(), |i: int| a[i].gl_name_value()),
        ),
        offsets: match_fn(
            "field_offset"@,
            "usize"@,
            Seq::new(a.len(), |i: int| a[i].offset_value()),
        ),
        types: match_fn("field_type"@, "u32"@, Seq::new(a.len(), |i: int| a[i].type_value())),
        num_comps: match_fn(
            "field_num_comps"@,
            "usize"@,
            Seq::new(a.len(), |i: int| a[i].num_comps_value()),
        ),
        normalized: match_fn(
            "field_normalized"@,
            "bool"@,
            Seq::new(a.len(), |i: int| a[i].normalized_value()),
        ),
    }
}

impl Attribute {
    fn gl_name_value(&self) -> (value: String)
        ensures
            value@ == self.deep_view().gl_name_value(),
    {
        quote_text(self.gl.as_str())
    }

    fn offset_value(&self) -> (value: String)
        ensures
            value@ == self.deep_view().offset_value(),
    {
        let mut value = String::from_str("::willow::offset_of!(Self => ");
        value.append(self.field.as_str());
        value.append(").get_byte_offset()");
        value
    }

    fn type_value(&self) -> (value: String)
        ensures
            value@ == self.deep_view().type_value(),
    {
        let mut value = String::from_str("<");
        value.append(self.ty.as_str());
        value.append(" as ::willow::AttributeType>::gl_type()");
        value
    }

    fn num_comps_value(&self) -> (value: String)
        ensures
            value@ == self.deep_view().num_comps_value(),
    {
        let mut value = String::from_str("<");
        value.append(self.ty.as_str());
        value.append(" as ::willow::AttributeType>::num_comps()");
        value
    }

    fn normalized_value(&self) -> (value: String)
        ensures
            value@ == self.deep_view().normalized_value(),
    {
        if self.normalized {
            String::from_str("true")
        } else {
            String::from_str("false")
        }
    }
}

/// Describes the vertex record, with one field for each attribute, and its
/// reflection: the number of fields and five lookups by field index.
pub fn gen_attrs(input: &Input) -> (record: AttrStructDef)
    ensures
        record.deep_view() == attr_struct(input.deep_view()),
{
    let attributes = &input.attributes;
    let ghost a = attributes.deep_view();
    let n = attributes.len();
    let mut fields: Vec<AttrField> = Vec::new();
    let mut gl_names: Vec<String> = Vec::new();
    let mut offsets: Vec<String> = Vec::new();
    let mut types: Vec<String> = Vec::new();
    let mut num_comps: Vec<String> = Vec::new();
    let mut normalized: Vec<String> = Vec::new();
    let mut i: usize = 0;
    while i < n
        invariant
            i <= n,
            n == attributes.len(),
            a == attributes.deep_view(),
            fields.len() == i,
            gl_names.len() == i,
            offsets.len() == i,
            types.len() == i,
            num_comps.len() == i,
            normalized.len() == i,
            forall|k: int| 0 <= k < i ==> #[trigger] fields[k].deep_view() == record_fields(a)[k],
            forall|k: int| 0 <= k < i ==> #[trigger] gl_names[k]@ == a[k].gl_name_value(),
            forall|k: int| 0 <= k < i ==> #[trigger] offsets[k]@ == a[k].offset_value(),
            forall|k: int| 0 <= k < i ==> #[trigger] types[k]@ == a[k].type_value(),
            forall|k: int| 0 <= k < i ==> #[trigger] num_comps[k]@ == a[k].num_comps_value(),
            forall|k: int| 0 <= k < i ==> #[trigger] normalized[k]@ == a[k].normalized_value(),
        decreases n - i,
    {
        let attribute = &attributes[i];
        assert(a[i as int] == attribute.deep_view());
        fields.push(AttrField { name: attribute.field.clone(), ty: attribute.ty.clone() });
        gl_names.push(attribute.gl_name_value());
        offsets.push(attribute.offset_value());
        types.push(attribute.type_value());
        num_comps.push(attribute.num_comps_value());
        normalized.push(attribute.normalized_value());
        i = i + 1;
    }
    proof {
        assert(fields.deep_view() =~= record_fields(a));
        assert(gl_names.deep_view() =~= Seq::new(a.len(), |i: int| a[i].gl_name_value()));
        assert(offsets.deep_view() =~= Seq::new(a.len(), |i: int| a[i].offset_value()));
        assert(types.deep_view() =~= Seq::new(a.len(), |i: int| a[i].type_value()));
        assert(num_comps.deep_view() =~= Seq::new(a.len(), |i: int| a[i].num_comps_value()));
        assert(normalized.deep_view() =~= Seq::new(a.len(), |i: int| a[i].normalized_value()));
    }
    AttrStructDef {
        vis: input.vis.clone(),
        ident: input.attr_ident.clone(),
        fields,
        count: n,
        gl_names: define_function("field_gl_name", "&'static str", gl_names),
        offsets: define_function("field_offset", "usize", offsets),
        types: define_function("field_type", "u32", types),
        num_comps: define_function("field_num_comps", "usize", num_comps),
        normalized: define_function("field_normalized", "bool", normalized),
    }
}

/// One line for each field of the vertex record.
pub open spec fn record_fields_source(fields: Seq<AttrFieldView>, vis: Seq<char>) -> Seq<char>
    decreases fields.len(),
{
    if fields.len() == 0 {
        Seq::empty()
    } else {
        record_fields_source(fields.drop_last(), vis)
        + "    "@
        + vis
        + " "@
        + fields.last().name
        + ": "@
        + fields.last().ty
        + ",\n"@
    }
}

fn record_fields_to_source(fields: &Vec<AttrField>, vis: &str) -> (code: String)
    ensures
        code@ == record_fields_source(fields.deep_view(), vis@),
{
    let ghost all = fields.deep_view();
    let mut code = String::new();
    let mut i: usize = 0;
    while i < fields.len()
        invariant
            i <= fields.len(),
            all == fields.deep_view(),
            code@ == record_fields_source(all.take(i as int), vis@),
        decreases fields.len() - i,
    {
        proof {
            assert(all.take(i + 1).drop_last() =~= all.take(i as int));
            assert(all.take(i + 1).last() == fields[i as int].deep_view());
        }
        code.append("    ");
        code.append(vis);
        code.append(" ");
        code.append(fields[i].name.as_str());
        code.append(": ");
        code.append(fields[i].ty.as_str());
        code.append(",\n");
        i = i + 1;
    }
    proof {
        assert(all.take(fields.len() as int) =~= all);
    }
    code
}

impl AttrStructDefView {
    /// The source code of the vertex record and of its reflection.
    pub open spec fn source(self) -> Seq<char> {
        "/// Stores the attributes for a single vertex.\n#[repr(C)]\n"@
        + self.vis
        + " struct "@
        + self.ident
        + " {\n"@
        + record_fields_source(self.fields, self.vis)
        + "}\n\nimpl ::willow::AttrStruct for "@
        + self.ident
        + " {\n    fn fields_count() -> usize {\n        "@
        + decimal(self.count)
        + "usize\n    }\n\n"@
        + self.gl_names.source()
        + self.offsets.source()
        + self.types.source()
        + self.num_comps.source()
        + self.normalized.source()
        + "}\n\n"@
    }
}

impl AttrStructDef {
    /// Writes the source code of the vertex record and of its reflection.
    pub fn to_source(&self) -> (code: String)
        ensures
            code@ == self.deep_view().source(),
    {
        let mut code = String::from_str("/// Stores the attributes for a single vertex.\n#[repr(C)]\n");
        code.append(self.vis.as_str());
        code.append(" struct ");
        code.append(self.ident.as_str());
        code.append(" {\n");
        code.append(record_fields_to_source(&self.fields, self.vis.as_str()).as_str());
        code.append("}\n\nimpl ::willow::AttrStruct for ");
        code.append(self.ident.as_str());
        code.append(" {\n    fn fields_count() -> usize {\n        ");
        code.append(decimal_text(self.count).as_str());
        code.append("usize\n    }\n\n");
        code.append(self.gl_names.to_source().as_str());
        code.append(self.offsets.to_source().as_str());
        code.append(self.types.to_source().as_str());
        code.append(self.num_comps.to_source().as_str());
        code.append(self.normalized.to_source().as_str());
        code.append("}\n\n");
        code
    }
}

/// Looking past the first `k` arms of a positional lookup finds the value
/// at position `i` exactly where `i` is a position from `k` on.
proof fn selected_past(values: Seq<Seq<char>>, k: int, i: nat)
    requires
        0 <= k <= values.len(),
    ensures
        selected(arms_of(values).skip(k), i) == if k <= i < values.len() {
            Some(values[i as int])
        } else {
            None
        },
    decreases values.len() - k,
{
    let arms = arms_of(values).skip(k);
    if k < values.len() {
        assert(arms.first() == arms_of(values)[k]);
        assert(arms.drop_first() =~= arms_of(values).skip(k + 1));
        selected_past(values, k + 1, i);
    }
}

/// A positional lookup gives, at each position of the list, the value at
/// that position, and stops the program at every other index.
pub proof fn lookup_is_positional(
    name: Seq<char>,
    return_type: Seq<char>,
    values: Seq<Seq<char>>,
    i: nat,
)
    ensures
        match_fn(name, return_type, values).lookup(i) == if i < values.len() {
            Some(values[i as int])
        } else {
            None
        },
{
    assert(arms_of(values).skip(0) =~= arms_of(values));
    selected_past(values, 0, i);
}

/// The reflection of a program with `N` attributes reports `N` fields, and
/// answers all five lookups exactly at the indices below `N`: at index `i`
/// with what the attribute at position `i` declares, about the record field
/// at position `i`.
pub proof fn reflection_is_consistent(input: InputView, i: nat)
    ensures
        attr_struct(input).count == input.attributes.len(),
        attr_struct(input).fields.len() == input.attributes.len(),
        i < input.attributes.len() ==> {
            let record = attr_struct(input);
            let attribute = input.attributes[i as int];
            &&& record.fields[i as int].name == attribute.field
            &&& record.fields[i as int].ty == attribute.ty
            &&& record.gl_names.lookup(i) == Some(attribute.gl_name_value())
            &&& record.offsets.lookup(i) == Some(attribute.offset_value())
            &&& record.types.lookup(i) == Some(attribute.type_value())
            &&& record.num_comps.lookup(i) == Some(attribute.num_comps_value())
            &&& record.normalized.lookup(i) == Some(attribute.normalized_value())
        },
        i >= input.attributes.len() ==> {
            let record = attr_struct(input);
            &&& record.gl_names.lookup(i) is None
            &&& record.offsets.lookup(i) is None
            &&& record.types.lookup(i) is None
            &&& record.num_comps.lookup(i) is None
            &&& record.normalized.lookup(i) is None
        },
{
    let a = input.attributes;
    lookup_is_positional(
        "field_gl_name"@,
        "&'static str"@,
        Seq::new(a.len(), |k: int| a[k].gl_name_value()),
        i,
    );
    lookup_is_positional(
        "field_offset"@,
        "usize"@,
        Seq::new(a.len(), |k: int| a[k].offset_value()),
        i,
    );
    lookup_is_positional("field_type"@, "u32"@, Seq::new(a.len(), |k: int| a[k].type_value()), i);
    lookup_is_positional(
        "field_num_comps"@,
        "usize"@,
        Seq::new(a.len(), |k: int| a[k].num_comps_value()),
        i,
    );
    lookup_is_positional(
        "field_normalized"@,
        "bool"@,
        Seq::new(a.len(), |k: int| a[k].normalized_value()),
        i,
    );
}

} // verus!
