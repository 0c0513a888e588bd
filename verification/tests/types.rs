use web_sys::WebGlRenderingContext as Gl;
use willow::types::{strip_spaces, AttributeType, ScalarType, ValueType};

#[test]
fn scalar_codes_are_those_of_webgl() {
    assert_eq!(ScalarType::Byte.gl_type(), Gl::BYTE);
    assert_eq!(ScalarType::Short.gl_type(), Gl::SHORT);
    assert_eq!(ScalarType::UnsignedByte.gl_type(), Gl::UNSIGNED_BYTE);
    assert_eq!(ScalarType::UnsignedShort.gl_type(), Gl::UNSIGNED_SHORT);
    assert_eq!(ScalarType::Float.gl_type(), Gl::FLOAT);
    assert_eq!(ScalarType::Float.gl_type(), 5126);
}

#[test]
fn integer_scalars_are_attribute_types() {
    assert_eq!(<i8 as AttributeType>::num_comps(), 1);
    assert_eq!(<i8 as AttributeType>::gl_type(), Gl::BYTE);
    assert_eq!(<i16 as AttributeType>::gl_type(), Gl::SHORT);
    assert_eq!(<u8 as AttributeType>::gl_type(), Gl::UNSIGNED_BYTE);
    assert_eq!(<u16 as AttributeType>::gl_type(), Gl::UNSIGNED_SHORT);
}

#[test]
fn integer_tuples_are_attribute_types() {
    assert_eq!(<(i8, i8) as AttributeType>::num_comps(), 2);
    assert_eq!(<(i16, i16, i16) as AttributeType>::num_comps(), 3);
    assert_eq!(<(u8, u8, u8, u8) as AttributeType>::num_comps(), 4);
    assert_eq!(<(u8, u8, u8, u8) as AttributeType>::gl_type(), Gl::UNSIGNED_BYTE);
    assert_eq!(<(u16, u16) as AttributeType>::gl_type(), Gl::UNSIGNED_SHORT);
    assert_eq!(<(i16, i16, i16, i16) as AttributeType>::gl_type(), Gl::SHORT);
    assert_eq!(<(i8, i8, i8) as AttributeType>::gl_type(), Gl::BYTE);
}

#[test]
fn a_float_vector_is_named_by_its_tuple() {
    let ty = ValueType::named("(f32 , f32 , f32)").unwrap();
    assert_eq!(ty, ValueType { scalar: ScalarType::Float, comps: 3 });
    assert_eq!(ty.num_comps(), 3);
    assert_eq!(ty.gl_type(), Gl::FLOAT);
}

#[test]
fn value_types_are_named_with_or_without_spaces() {
    assert_eq!(ValueType::named("u8"), Some(ValueType { scalar: ScalarType::UnsignedByte, comps: 1 }));
    assert_eq!(ValueType::named(" i16 "), Some(ValueType { scalar: ScalarType::Short, comps: 1 }));
    assert_eq!(ValueType::named("(i8,i8)"), Some(ValueType { scalar: ScalarType::Byte, comps: 2 }));
    assert_eq!(
        ValueType::named("( u16, u16, u16, u16 )"),
        Some(ValueType { scalar: ScalarType::UnsignedShort, comps: 4 })
    );
    assert_eq!(ValueType::named("f32"), Some(ValueType { scalar: ScalarType::Float, comps: 1 }));
}

#[test]
fn other_types_name_no_value_type() {
    assert_eq!(ValueType::named(""), None);
    assert_eq!(ValueType::named("u32"), None);
    assert_eq!(ValueType::named("(u8, i8)"), None);
    assert_eq!(ValueType::named("(u8, u8, u8, u8, u8)"), None);
    assert_eq!(ValueType::named("(u8,)"), None);
    assert_eq!(ValueType::named("Vector3<f32>"), None);
}

#[test]
fn value_type_names_are_written_without_spaces() {
    assert_eq!(ValueType { scalar: ScalarType::Float, comps: 1 }.to_name(), "f32");
    assert_eq!(ValueType { scalar: ScalarType::Byte, comps: 2 }.to_name(), "(i8,i8)");
    assert_eq!(ValueType { scalar: ScalarType::Short, comps: 3 }.to_name(), "(i16,i16,i16)");
    assert_eq!(ValueType { scalar: ScalarType::UnsignedByte, comps: 4 }.to_name(), "(u8,u8,u8,u8)");
}

#[test]
fn spaces_are_stripped_and_nothing_else() {
    assert_eq!(strip_spaces(" a b  c "), "abc");
    assert_eq!(strip_spaces("a\tb"), "a\tb");
    assert_eq!(strip_spaces(""), "");
}

#[test]
fn the_table_agrees_with_the_trait() {
    let pair = ValueType::named("(u8, u8)").unwrap();
    assert_eq!(pair.num_comps(), <(u8, u8) as AttributeType>::num_comps());
    assert_eq!(pair.gl_type(), <(u8, u8) as AttributeType>::gl_type());
    let scalar = ValueType::named("i16").unwrap();
    assert_eq!(scalar.num_comps(), <i16 as AttributeType>::num_comps());
    assert_eq!(scalar.gl_type(), <i16 as AttributeType>::gl_type());
    let quad = ValueType::named("(u16, u16, u16, u16)").unwrap();
    assert_eq!(quad.num_comps(), <(u16, u16, u16, u16) as AttributeType>::num_comps());
    assert_eq!(quad.gl_type(), <(u16, u16, u16, u16) as AttributeType>::gl_type());
    let triple = ValueType::named("(i8, i8, i8)").unwrap();
    assert_eq!(triple.num_comps(), <(i8, i8, i8) as AttributeType>::num_comps());
    assert_eq!(triple.gl_type(), <(i8, i8, i8) as AttributeType>::gl_type());
}
