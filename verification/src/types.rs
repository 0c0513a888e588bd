//! The value types of vertex attributes: how many scalars a value has, and
//! of which scalar type they are.

use vstd::prelude::*;
use vstd::string::{StrSliceExecFns, StringExecFns};
use crate::constants::{BYTE, FLOAT, SHORT, UNSIGNED_BYTE, UNSIGNED_SHORT};
use crate::text::text_eq;

verus! {

/// The scalar type of an attribute's components.
#[derive(Debug, Clone, Copy, PartialEq, Eq, Structural)]
pub enum ScalarType {
    /// A signed 8-bit integer, `i8`.
    Byte,
    /// A signed 16-bit integer, `i16`.
    Short,
    /// An unsigned 8-bit integer, `u8`.
    UnsignedByte,
    /// An unsigned 16-bit integer, `u16`.
    UnsignedShort,
    /// A 32-bit floating point number.
    Float,
}

impl ScalarType {
    /// The WebGL value that stands for the scalar type.
    pub open spec fn code(self) -> u32 {
        match self {
            ScalarType::Byte => BYTE,
            ScalarType::Short => SHORT,
            ScalarType::UnsignedByte => UNSIGNED_BYTE,
            ScalarType::UnsignedShort => UNSIGNED_SHORT,
            ScalarType::Float => FLOAT,
        }
    }

    /// The name of the scalar type in source text.
    pub open spec fn name(self) -> Seq<char> {
        match self {
            ScalarType::Byte => "i8"@,
            ScalarType::Short => "i16"@,
            ScalarType::UnsignedByte => "u8"@,
            ScalarType::UnsignedShort => "u16"@,
            ScalarType::Float => "f32"@,
        }
    }

    /// The WebGL value that stands for the scalar type.
    pub fn gl_type(self) -> (code: u32)
        ensures
            code == self.code(),
    {
        match self {
            ScalarType::Byte => BYTE,
            ScalarType::Short => SHORT,
            ScalarType::UnsignedByte => UNSIGNED_BYTE,
            ScalarType::UnsignedShort => UNSIGNED_SHORT,
            ScalarType::Float => FLOAT,
        }
    }

    fn word(self) -> (name: &'static str)
        ensures
            name@ == self.name(),
    {
        match self {
            ScalarType::Byte => "i8",
            ScalarType::Short => "i16",
            ScalarType::UnsignedByte => "u8",
            ScalarType::UnsignedShort => "u16",
            ScalarType::Float => "f32",
        }
    }

    /// Different scalar types have different WebGL values.
    pub proof fn code_is_injective(a: ScalarType, b: ScalarType)
        requires
            a.code() == b.code(),
        ensures
            a == b,
    {
    }
}

/// The value type of an attribute: one scalar, or a vector of two, three or
/// four scalars of one type.
#[derive(Debug, Clone, Copy, PartialEq, Eq, Structural)]
pub struct ValueType {
    pub scalar: ScalarType,
    /// The number of scalars in a value.
    pub comps: u8,
}

impl ValueType {
    /// Whether the number of scalars is one that exists: from one to four.
    pub open spec fn well_formed(self) -> bool {
        1 <= self.comps <= 4
    }

    /// The value type in source text, without spaces: the scalar's name, or
    /// a tuple that holds it once for each component.
    pub open spec fn name(self) -> Seq<char> {
        let s = self.scalar.name();
        if self.comps == 1 {
            s
        } else if self.comps == 2 {
            "("@ + s + ","@ + s + ")"@
        } else if self.comps == 3 {
            "("@ + s + ","@ + s + ","@ + s + ")"@
        } else {
            "("@ + s + ","@ + s + ","@ + s + ","@ + s + ")"@
        }
    }

    /// The number of scalars in a value.
    pub fn num_comps(self) -> (n: usize)
        ensures
            n == self.comps,
    {
        self.comps as usize
    }

    /// The WebGL value that stands for the scalars' type.
    pub fn gl_type(self) -> (code: u32)
        ensures
            code == self.scalar.code(),
    {
        self.scalar.gl_type()
    }

    /// Writes the value type in source text, without spaces.
    pub fn to_name(self) -> (name: String)
        requires
            self.well_formed(),
        ensures
            name@ == self.name(),
    {
        let s = self.scalar.word();
        if self.comps == 1 {
            return s.to_string();
        }
        let mut name = String::from_str("(");
        name.append(s);
        name.append(",");
        name.append(s);
        if self.comps >= 3 {
            name.append(",");
            name.append(s);
        }
        if self.comps >= 4 {
            name.append(",");
            name.append(s);
        }
        name.append(")");
        name
    }

    /// Looks for the number of components with which `scalar` gives the
    /// value type that is written `compact`.
    fn with_scalar(compact: &str, scalar: ScalarType) -> (found: Option<ValueType>)
        ensures
            match found {
                Some(ty) => ty.well_formed() && ty.scalar == scalar && ty.name() == compact@,
                None => forall|comps: u8|
                    1 <= comps <= 4 ==> (#[trigger] ValueType { scalar, comps }.name())
                        != compact@,
            },
    {
        let mut comps: u8 = 1;
        while comps <= 4
            invariant
                1 <= comps <= 5,
                forall|c: u8|
                    1 <= c < comps ==> (#[trigger] ValueType { scalar, comps: c }.name())
                        != compact@,
            decreases 5 - comps,
        {
            let ty = ValueType { scalar, comps };
            if text_eq(ty.to_name().as_str(), compact) {
                return Some(ty);
            }
            comps = comps + 1;
        }
        None
    }

    /// The value type that a type in source text names, where it names one:
    /// spaces in the text do not count.
    pub fn named(text: &str) -> (found: Option<ValueType>)
        ensures
            match found {
                Some(ty) => ty.well_formed() && ty.name() == without_spaces(text@),
                None => forall|ty: ValueType|
                    ty.well_formed() ==> #[trigger] ty.name() != without_spaces(text@),
            },
    {
        let compact = strip_spaces(text);
        let compact = compact.as_str();
        match ValueType::with_scalar(compact, ScalarType::Byte) {
            Some(ty) => {
                return Some(ty);
            },
            None => {},
        }
        match ValueType::with_scalar(compact, ScalarType::Short) {
            Some(ty) => {
                return Some(ty);
            },
            None => {},
        }
        match ValueType::with_scalar(compact, ScalarType::UnsignedByte) {
            Some(ty) => {
                return Some(ty);
            },
            None => {},
        }
        match ValueType::with_scalar(compact, ScalarType::UnsignedShort) {
            Some(ty) => {
                return Some(ty);
            },
            None => {},
        }
        match ValueType::with_scalar(compact, ScalarType::Float) {
            Some(ty) => {
                return Some(ty);
            },
            None => {},
        }
        assert forall|ty: ValueType| ty.well_formed() implies #[trigger] ty.name()
            != without_spaces(text@) by {
            assert(ty == ValueType { scalar: ty.scalar, comps: ty.comps });
        }
        None
    }
}

/// The names of the scalar types, character by character.
proof fn scalar_names(scalar: ScalarType)
    ensures
        scalar.name() == match scalar {
            ScalarType::Byte => seq!['i', '8'],
            ScalarType::Short => seq!['i', '1', '6'],
            ScalarType::UnsignedByte => seq!['u', '8'],
            ScalarType::UnsignedShort => seq!['u', '1', '6'],
            ScalarType::Float => seq!['f', '3', '2'],
        },
{
    reveal_strlit("i8");
    reveal_strlit("i16");
    reveal_strlit("u8");
    reveal_strlit("u16");
    reveal_strlit("f32");
    assert("i8"@ =~= seq!['i', '8']);
    assert("i16"@ =~= seq!['i', '1', '6']);
    assert("u8"@ =~= seq!['u', '8']);
    assert("u16"@ =~= seq!['u', '1', '6']);
    assert("f32"@ =~= seq!['f', '3', '2']);
}

/// Different value types are written differently: a text names at most one
/// value type.
pub proof fn name_is_injective(a: ValueType, b: ValueType)
    requires
        a.well_formed(),
        b.well_formed(),
        a.name() == b.name(),
    ensures
        a == b,
{
    reveal_strlit("(");
    reveal_strlit(",");
    reveal_strlit(")");
    scalar_names(a.scalar);
    scalar_names(b.scalar);
    let x = a.name();
    let y = b.name();
    let s = a.scalar.name();
    let t = b.scalar.name();
    assert(x.len() == y.len());
    // a name starts with a bracket exactly if it has more than one component
    assert(x[0] == y[0]);
    if a.comps == 1 {
        assert(b.comps == 1);
        assert(s =~= t);
    } else {
        assert(b.comps != 1);
        // behind the bracket stands the scalar's name, then a comma
        assert(x[1] == y[1]);
        assert(x[2] == y[2]);
        assert(x[3] == y[3]);
        assert(s =~= t);
    }
}

/// A text without its spaces.
pub open spec fn without_spaces(text: Seq<char>) -> Seq<char>
    decreases text.len(),
{
    if text.len() == 0 {
        Seq::empty()
    } else if text.last() == ' ' {
        without_spaces(text.drop_last())
    } else {
        without_spaces(text.drop_last()).push(text.last())
    }
}

/// Copies a text without its spaces.
pub fn strip_spaces(text: &str) -> (compact: String)
    ensures
        compact@ == without_spaces(text@),
{
    let mut compact = String::new();
    let n = text.unicode_len();
    let mut i: usize = 0;
    assert(text@.take(0) =~= Seq::<char>::empty());
    while i < n
        invariant
            n == text@.len(),
            i <= n,
            compact@ == without_spaces(text@.take(i as int)),
        decreases n - i,
    {
        let c = text.get_char(i);
        proof {
            assert(text@.take(i + 1).drop_last() =~= text@.take(i as int));
        }
        if c != ' ' {
            compact.push(c);
        }
        i = i + 1;
    }
    proof {
        assert(text@.take(n as int) =~= text@);
    }
    compact
}

/// Types that can be the value of a vertex attribute.
pub trait AttributeType: Sized {
    /// The number of scalars in a value.
    fn num_comps() -> usize;

    /// The WebGL value that stands for the type of the scalars.
    fn gl_type() -> u32;
}

impl AttributeType for i8 {
    fn num_comps() -> (n: usize)
        ensures
            n == 1,
    {
        1
    }

    fn gl_type() -> (code: u32)
        ensures
            code == ScalarType::Byte.code(),
    {
        BYTE
    }
}

impl AttributeType for (i8, i8) {
    fn num_comps() -> (n: usize)
        ensures
            n == 2,
    {
        2
    }

    fn gl_type() -> (code: u32)
        ensures
            code == ScalarType::Byte.code(),
    {
        BYTE
    }
}

impl AttributeType for (i8, i8, i8) {
    fn num_comps() -> (n: usize)
        ensures
            n == 3,
    {
        3
    }

    fn gl_type() -> (code: u32)
        ensures
            code == ScalarType::Byte.code(),
    {
        BYTE
    }
}

impl AttributeType for (i8, i8, i8, i8) {
    fn num_comps() -> (n: usize)
        ensures
            n == 4,
    {
        4
    }

    fn gl_type() -> (code: u32)
        ensures
            code == ScalarType::Byte.code(),
    {
        BYTE
    }
}

impl AttributeType for i16 {
    fn num_comps() -> (n: usize)
        ensures
            n == 1,
    {
        1
    }

    fn gl_type() -> (code: u32)
        ensures
            code == ScalarType::Short.code(),
    {
        SHORT
    }
}

impl AttributeType for (i16, i16) {
    fn num_comps() -> (n: usize)
        ensures
            n == 2,
    {
        2
    }

    fn gl_type() -> (code: u32)
        ensures
            code == ScalarType::Short.code(),
    {
        SHORT
    }
}

impl AttributeType for (i16, i16, i16) {
    fn num_comps() -> (n: usize)
        ensures
            n == 3,
    {
        3
    }

    fn gl_type() -> (code: u32)
        ensures
            code == ScalarType::Short.code(),
    {
        SHORT
    }
}

impl AttributeType for (i16, i16, i16, i16) {
    fn num_comps() -> (n: usize)
        ensures
            n == 4,
    {
        4
    }

    fn gl_type() -> (code: u32)
        ensures
            code == ScalarType::Short.code(),
    {
        SHORT
    }
}

impl AttributeType for u8 {
    fn num_comps() -> (n: usize)
        ensures
            n == 1,
    {
        1
    }

    fn gl_type() -> (code: u32)
        ensures
            code == ScalarType::UnsignedByte.code(),
    {
        UNSIGNED_BYTE
    }
}

impl AttributeType for (u8, u8) {
    fn num_comps() -> (n: usize)
        ensures
            n == 2,
    {
        2
    }

    fn gl_type() -> (code: u32)
        ensures
            code == ScalarType::UnsignedByte.code(),
    {
        UNSIGNED_BYTE
    }
}

impl AttributeType for (u8, u8, u8) {
    fn num_comps() -> (n: usize)
        ensures
            n == 3,
    {
        3
    }

    fn gl_type() -> (code: u32)
        ensures
            code == ScalarType::UnsignedByte.code(),
    {
        UNSIGNED_BYTE
    }
}

impl AttributeType for (u8, u8, u8, u8) {
    fn num_comps() -> (n: usize)
        ensures
            n == 4,
    {
        4
    }

    fn gl_type() -> (code: u32)
        ensures
            code == ScalarType::UnsignedByte.code(),
    {
        UNSIGNED_BYTE
    }
}

impl AttributeType for u16 {
    fn num_comps() -> (n: usize)
        ensures
            n == 1,
    {
        1
    }

    fn gl_type() -> (code: u32)
        ensures
            code == ScalarType::UnsignedShort.code(),
    {
        UNSIGNED_SHORT
    }
}

impl AttributeType for (u16, u16) {
    fn num_comps() -> (n: usize)
        ensures
            n == 2,
    {
        2
    }

    fn gl_type() -> (code: u32)
        ensures
            code == ScalarType::UnsignedShort.code(),
    {
        UNSIGNED_SHORT
    }
}

impl AttributeType for (u16, u16, u16) {
    fn num_comps() -> (n: usize)
        ensures
            n == 3,
    {
        3
    }

    fn gl_type() -> (code: u32)
        ensures
            code == ScalarType::UnsignedShort.code(),
    {
        UNSIGNED_SHORT
    }
}

impl AttributeType for (u16, u16, u16, u16) {
    fn num_comps() -> (n: usize)
        ensures
            n == 4,
    {
        4
    }

    fn gl_type() -> (code: u32)
        ensures
            code == ScalarType::UnsignedShort.code(),
    {
        UNSIGNED_SHORT
    }
}

} // verus!
