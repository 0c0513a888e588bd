//! The reflection that a vertex record offers, and what is computed from it
//! when a buffer column is bound to an attribute.

use vstd::prelude::*;

verus! {

/// The reflection of a vertex record: the number of its fields and, by
/// field index in declaration order, what each field is on the GPU.
///
/// The generated code implements this trait for the record of each program.
/// An index is meant to be below the number of fields: to ask for a field
/// that does not exist is a programming error, on which the generated
/// lookups stop the program.
pub trait AttrStruct {
    /// The number of fields in the record.
    fn fields_count() -> usize;

    /// The name in the shader of the attribute of field `i`.
    fn field_gl_name(i: usize) -> &'static str;

    /// The offset of field `i` in the record, in bytes.
    fn field_offset(i: usize) -> usize;

    /// The WebGL value for the scalar type of field `i`.
    fn field_type(i: usize) -> u32;

    /// The number of scalars in field `i`.
    fn field_num_comps(i: usize) -> usize;

    /// Whether field `i` is normalised on upload.
    fn field_normalized(i: usize) -> bool;
}

/// The arguments of the call that points an attribute at a column of the
/// bound vertex buffer.
#[derive(Debug, Clone, Copy, PartialEq, Eq, Structural)]
pub struct AttribPointer {
    /// The attribute's location.
    pub location: u32,
    /// The number of scalars in a value.
    pub size: i32,
    /// The WebGL value for the scalars' type.
    pub ty: u32,
    /// Whether integer values are scaled to the unit range.
    pub normalized: bool,
    /// The distance in bytes from one record to the next.
    pub stride: i32,
    /// The offset in bytes of the column in a record.
    pub offset: i32,
}

impl AttribPointer {
    /// The arguments that point the attribute at `location` at a column of
    /// which the reflection says the rest. Sizes are handed to the GPU as
    /// signed 32-bit numbers; one that does not fit is cut to its low 32
    /// bits.
    pub open spec fn of(
        location: u32,
        num_comps: usize,
        ty: u32,
        normalized: bool,
        stride: usize,
        offset: usize,
    ) -> AttribPointer {
        AttribPointer {
            location,
            size: num_comps as i32,
            ty,
            normalized,
            stride: stride as i32,
            offset: offset as i32,
        }
    }

    /// Computes the arguments that point the attribute at `location` at a
    /// column of which the reflection says the rest.
    pub fn new(
        location: u32,
        num_comps: usize,
        ty: u32,
        normalized: bool,
        stride: usize,
        offset: usize,
    ) -> (pointer: AttribPointer)
        ensures
            pointer == AttribPointer::of(location, num_comps, ty, normalized, stride, offset),
    {
        AttribPointer {
            location,
            size: #[verifier::truncate]
            (num_comps as i32),
            ty,
            normalized,
            stride: #[verifier::truncate]
            (stride as i32),
            offset: #[verifier::truncate]
            (offset as i32),
        }
    }
}

/// Computes the arguments that point the attribute at `location` at the
/// column of field `field_index` of the record `T`, or nothing where the
/// record has no such field. The reflection of `T` is asked about a field
/// only after it has said that the record has that many fields.
pub fn attrib_pointer<T: AttrStruct>(location: u32, field_index: usize, stride: usize) -> (pointer:
    Option<AttribPointer>)
    ensures
        match pointer {
            Some(p) => has_field::<T>(field_index) && points_at::<T>(
                p,
                location,
                field_index,
                stride,
            ),
            None => lacks_field::<T>(field_index),
        },
{
    let count = T::fields_count();
    if field_index >= count {
        return None;
    }
    let num_comps = T::field_num_comps(field_index);
    let ty = T::field_type(field_index);
    let normalized = T::field_normalized(field_index);
    let offset = T::field_offset(field_index);
    let pointer = AttribPointer::new(location, num_comps, ty, normalized, stride, offset);
    proof {
        assert(call_ensures(T::fields_count, (), count));
        assert(reflects::<T>(field_index, num_comps, ty, normalized, offset));
    }
    Some(pointer)
}

/// Whether the reflection of `T` can report a number of fields above
/// `field_index`: the record has that field.
pub open spec fn has_field<T: AttrStruct>(field_index: usize) -> bool {
    exists|count: usize| call_ensures(T::fields_count, (), count) && field_index < count
}

/// Whether the reflection of `T` can report a number of fields that does
/// not reach `field_index`: the record has no such field.
pub open spec fn lacks_field<T: AttrStruct>(field_index: usize) -> bool {
    exists|count: usize| call_ensures(T::fields_count, (), count) && field_index >= count
}

/// Whether the reflection of `T` can say of field `field_index` that it has
/// `num_comps` scalars of the type with the code `ty`, normalised or not,
/// at `offset` bytes into the record.
pub open spec fn reflects<T: AttrStruct>(
    field_index: usize,
    num_comps: usize,
    ty: u32,
    normalized: bool,
    offset: usize,
) -> bool {
    &&& call_ensures(T::field_num_comps, (field_index,), num_comps)
    &&& call_ensures(T::field_type, (field_index,), ty)
    &&& call_ensures(T::field_normalized, (field_index,), normalized)
    &&& call_ensures(T::field_offset, (field_index,), offset)
}

/// Whether `pointer` holds the arguments that point the attribute at
/// `location` at the column of field `field_index` of the record `T`:
/// the given location and stride, and what the reflection of `T` says of
/// the field.
pub open spec fn points_at<T: AttrStruct>(
    pointer: AttribPointer,
    location: u32,
    field_index: usize,
    stride: usize,
) -> bool {
    exists|num_comps: usize, ty: u32, normalized: bool, offset: usize|
        #[trigger] reflects::<T>(field_index, num_comps, ty, normalized, offset) && pointer
            == AttribPointer::of(location, num_comps, ty, normalized, stride, offset)
}

} // verus!
