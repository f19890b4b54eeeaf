//! Columnar arrays at the boundary: the element types that cross it, the
//! mathematical value of an array, and the conversion of native slices into
//! arrays.
//!
//! The arrays themselves are `arrow_array` arrays. Verus cannot look inside
//! them, so this module names what an array holds ([`arrow_values`], and
//! [`arrow_values_bytes`] for the size of a float array's buffer) and states
//! each call into `arrow_array` over those names. Everything else in the crate
//! is proved from those statements.

use arrow_array::cast::AsArray;
use arrow_array::types::{Float32Type, Int32Type, UInt64Type, UInt8Type};
use arrow_array::{ArrayRef, Float32Array, Int32Array, UInt64Array, UInt8Array};
use arrow_buffer::Buffer;
use std::sync::Arc;
use vstd::prelude::*;
use vstd::slice::slice_to_vec;

verus! {

/// The four element types whose values cross the boundary.
#[derive(Clone, Copy, Debug, PartialEq, Eq, Structural)]
pub enum ScalarType {
    UInt8,
    Int32,
    Float32,
    UInt64,
}

/// The element type that an input declares for its data.
#[derive(Clone, Debug, PartialEq, Eq)]
pub enum DataType {
    /// The input carries no data.
    Null,
    UInt8,
    Int32,
    Float32,
    UInt64,
    /// Any other element type, by the name it is displayed under.
    Other(String),
}

impl DataType {
    /// The supported element type that this declares, if it declares one.
    pub open spec fn scalar_type(self) -> Option<ScalarType> {
        match self {
            DataType::UInt8 => Some(ScalarType::UInt8),
            DataType::Int32 => Some(ScalarType::Int32),
            DataType::Float32 => Some(ScalarType::Float32),
            DataType::UInt64 => Some(ScalarType::UInt64),
            DataType::Null | DataType::Other(_) => None,
        }
    }

    /// The supported element type that this declares, if it declares one.
    pub fn scalar(&self) -> (scalar: Option<ScalarType>)
        ensures
            scalar == self.scalar_type(),
    {
        match self {
            DataType::UInt8 => Some(ScalarType::UInt8),
            DataType::Int32 => Some(ScalarType::Int32),
            DataType::Float32 => Some(ScalarType::Float32),
            DataType::UInt64 => Some(ScalarType::UInt64),
            DataType::Null | DataType::Other(_) => None,
        }
    }
}

/// The type descriptor that travels with an input: the declared element type
/// and the declared number of elements.
#[derive(Clone, Debug, PartialEq, Eq)]
pub struct TypeInfo {
    pub data_type: DataType,
    pub len: usize,
}

impl TypeInfo {
    /// Whether this descriptor is true of an array with the given contents:
    /// where it declares a supported element type, the array has that element
    /// type and the declared number of elements. A descriptor that declares no
    /// supported type promises nothing about the array.
    pub open spec fn describes(self, values: ArrowValues) -> bool {
        self.data_type.scalar_type() is Some ==> {
            &&& values.scalar_type() == self.data_type.scalar_type()
            &&& values.len() == self.len
        }
    }
}

/// What a columnar array holds, as a mathematical value: the element type
/// together with the elements in order. A 32-bit float is held by its IEEE 754
/// bit pattern. An array of any other element type holds nothing that this
/// library reads.
pub enum ArrowValues {
    UInt8(Seq<u8>),
    Int32(Seq<i32>),
    Float32(Seq<u32>),
    UInt64(Seq<u64>),
    Other,
}

impl ArrowValues {
    /// The supported element type of the array, if it has one.
    pub open spec fn scalar_type(self) -> Option<ScalarType> {
        match self {
            ArrowValues::UInt8(_) => Some(ScalarType::UInt8),
            ArrowValues::Int32(_) => Some(ScalarType::Int32),
            ArrowValues::Float32(_) => Some(ScalarType::Float32),
            ArrowValues::UInt64(_) => Some(ScalarType::UInt64),
            ArrowValues::Other => None,
        }
    }

    /// The number of elements that this library can read from the array.
    pub open spec fn len(self) -> nat {
        match self {
            ArrowValues::UInt8(values) => values.len(),
            ArrowValues::Int32(values) => values.len(),
            ArrowValues::Float32(bits) => bits.len(),
            ArrowValues::UInt64(values) => values.len(),
            ArrowValues::Other => 0,
        }
    }
}

/// A dynamically typed columnar array, shared by reference count.
///
/// Trusted: Verus does not look inside. The field is an `arrow_array::ArrayRef`,
/// a trait object that Verus cannot be told about, which is why the array is
/// held here and not declared. Code outside the verifier moves arrays in and
/// out through the field; any array may be put in.
#[verifier::external_body]
pub struct ArrowData {
    pub array: ArrayRef,
}

/// The contents of an array (trusted name). For the primitive array of one of
/// the four supported element types: the elements of its values buffer in
/// order, a float by its bit pattern. For every other array: `Other`.
pub uninterp spec fn arrow_values(data: ArrowData) -> ArrowValues;

/// The length in bytes of the values buffer of a primitive array of 32-bit
/// floats (trusted name).
pub uninterp spec fn arrow_values_bytes(data: ArrowData) -> nat;

impl View for ArrowData {
    type V = ArrowValues;

    /// What this library reads from the array: its contents, with one
    /// exception. A float array whose values buffer is not made of whole
    /// four-byte elements cannot be viewed as bit patterns in place, and is
    /// read as an array of another type.
    open spec fn view(&self) -> ArrowValues {
        if arrow_values(*self) is Float32 && arrow_values_bytes(*self) % 4 != 0 {
            ArrowValues::Other
        } else {
            arrow_values(*self)
        }
    }
}

/// Trusted wrapper of `UInt8Array::from(Vec<u8>)`. Claims that the new array
/// holds the vector's elements in order: the vector becomes the values buffer
/// without a copy.
#[verifier::external_body]
pub(crate) fn array_from_u8(values: Vec<u8>) -> (data: ArrowData)
    ensures
        arrow_values(data) == ArrowValues::UInt8(values@),
{
    ArrowData { array: Arc::new(UInt8Array::from(values)) }
}

/// Trusted wrapper of `Int32Array::from(Vec<i32>)`. Claims that the new array
/// holds the vector's elements in order.
#[verifier::external_body]
pub(crate) fn array_from_i32(values: Vec<i32>) -> (data: ArrowData)
    ensures
        arrow_values(data) == ArrowValues::Int32(values@),
{
    ArrowData { array: Arc::new(Int32Array::from(values)) }
}

/// Trusted wrapper of `UInt64Array::from(Vec<u64>)`. Claims that the new array
/// holds the vector's elements in order.
#[verifier::external_body]
pub(crate) fn array_from_u64(values: Vec<u64>) -> (data: ArrowData)
    ensures
        arrow_values(data) == ArrowValues::UInt64(values@),
{
    ArrowData { array: Arc::new(UInt64Array::from(values)) }
}

/// Trusted wrapper of `Float32Array::new` over `Buffer::from_vec`. Claims that
/// the new array's elements have the given bit patterns in order, and that its
/// values buffer is four bytes for each of them: the vector's memory becomes
/// the values buffer as it is, and a 32-bit float occupies the four bytes of
/// its bit pattern.
#[verifier::external_body]
pub(crate) fn array_from_f32_bits(bits: Vec<u32>) -> (data: ArrowData)
    ensures
        arrow_values(data) == ArrowValues::Float32(bits@),
        arrow_values_bytes(data) == 4 * bits@.len(),
{
    ArrowData { array: Arc::new(Float32Array::new(Buffer::from_vec(bits).into(), None)) }
}

/// Trusted wrapper of `AsArray::as_primitive_opt::<UInt8Type>` and
/// `PrimitiveArray::values`. Claims that the downcast succeeds exactly on the
/// primitive array of unsigned bytes, and that the slice, which borrows the
/// array's values buffer, is then the array's contents.
#[verifier::external_body]
pub(crate) fn array_as_u8(data: &ArrowData) -> (values: Option<&[u8]>)
    ensures
        match values {
            Some(values) => arrow_values(*data) == ArrowValues::UInt8(values@),
            None => !(arrow_values(*data) is UInt8),
        },
{
    match data.array.as_primitive_opt::<UInt8Type>() {
        Some(array) => Some(array.values()),
        None => None,
    }
}

/// Trusted wrapper of `AsArray::as_primitive_opt::<Int32Type>` and
/// `PrimitiveArray::values`. Claims that the downcast succeeds exactly on the
/// primitive array of signed 32-bit integers, and that the slice, which
/// borrows the array's values buffer, is then the array's contents.
#[verifier::external_body]
pub(crate) fn array_as_i32(data: &ArrowData) -> (values: Option<&[i32]>)
    ensures
        match values {
            Some(values) => arrow_values(*data) == ArrowValues::Int32(values@),
            None => !(arrow_values(*data) is Int32),
        },
{
    match data.array.as_primitive_opt::<Int32Type>() {
        Some(array) => Some(array.values()),
        None => None,
    }
}

/// Trusted wrapper of `AsArray::as_primitive_opt::<UInt64Type>` and
/// `PrimitiveArray::values`. Claims that the downcast succeeds exactly on the
/// primitive array of unsigned 64-bit integers, and that the slice, which
/// borrows the array's values buffer, is then the array's contents.
#[verifier::external_body]
pub(crate) fn array_as_u64(data: &ArrowData) -> (values: Option<&[u64]>)
    ensures
        match values {
            Some(values) => arrow_values(*data) == ArrowValues::UInt64(values@),
            None => !(arrow_values(*data) is UInt64),
        },
{
    match data.array.as_primitive_opt::<UInt64Type>() {
        Some(array) => Some(array.values()),
        None => None,
    }
}

/// Trusted wrapper of `AsArray::as_primitive_opt::<Float32Type>`,
/// `PrimitiveArray::values`, `ScalarBuffer::inner` and `Buffer::len`. Claims
/// that the downcast succeeds exactly on the primitive array of 32-bit floats,
/// and that the number is then the length in bytes of its values buffer.
#[verifier::external_body]
pub(crate) fn array_f32_values_bytes(data: &ArrowData) -> (bytes: Option<usize>)
    ensures
        match bytes {
            Some(bytes) => arrow_values(*data) is Float32 && bytes == arrow_values_bytes(*data),
            None => !(arrow_values(*data) is Float32),
        },
{
    match data.array.as_primitive_opt::<Float32Type>() {
        Some(array) => Some(array.values().inner().len()),
        None => None,
    }
}

/// Trusted wrapper of `AsArray::as_primitive::<Float32Type>`,
/// `PrimitiveArray::values`, `ScalarBuffer::inner` and `Buffer::typed_data`.
/// Claims that the slice, which borrows the array's values buffer, holds the
/// bit patterns of the array's elements in order. The downcast panics on an
/// array of another type, and `typed_data` on a buffer that is not made of
/// whole elements aligned to four bytes: `requires` leaves both out (a float
/// array's values buffer is always aligned).
#[verifier::external_body]
pub(crate) fn array_as_f32_bits(data: &ArrowData) -> (bits: &[u32])
    requires
        arrow_values(*data) is Float32,
        arrow_values_bytes(*data) % 4 == 0,
    ensures
        arrow_values(*data) == ArrowValues::Float32(bits@),
{
    data.array.as_primitive::<Float32Type>().values().inner().typed_data()
}

impl ArrowData {
    /// The elements of an array of unsigned bytes, borrowed from its buffer;
    /// `None` for an array of any other type.
    pub fn as_u8(&self) -> (values: Option<&[u8]>)
        ensures
            match values {
                Some(values) => self@ == ArrowValues::UInt8(values@),
                None => !(self@ is UInt8),
            },
    {
        array_as_u8(self)
    }

    /// The elements of an array of signed 32-bit integers, borrowed from its
    /// buffer; `None` for an array of any other type.
    pub fn as_i32(&self) -> (values: Option<&[i32]>)
        ensures
            match values {
                Some(values) => self@ == ArrowValues::Int32(values@),
                None => !(self@ is Int32),
            },
    {
        array_as_i32(self)
    }

    /// The bit patterns of the elements of an array of 32-bit floats, borrowed
    /// from its buffer; `None` for an array of any other type, and for a float
    /// array whose buffer is not made of whole elements.
    pub fn as_f32_bits(&self) -> (bits: Option<&[u32]>)
        ensures
            match bits {
                Some(bits) => self@ == ArrowValues::Float32(bits@),
                None => !(self@ is Float32),
            },
    {
        match array_f32_values_bytes(self) {
            Some(bytes) => if bytes % 4 == 0 {
                Some(array_as_f32_bits(self))
            } else {
                None
            },
            None => None,
        }
    }

    /// The elements of an array of unsigned 64-bit integers, borrowed from its
    /// buffer; `None` for an array of any other type.
    pub fn as_u64(&self) -> (values: Option<&[u64]>)
        ensures
            match values {
                Some(values) => self@ == ArrowValues::UInt64(values@),
                None => !(self@ is UInt64),
            },
    {
        array_as_u64(self)
    }

    /// The supported element type as which the array can be read, if there is
    /// one.
    pub fn scalar_type(&self) -> (scalar: Option<ScalarType>)
        ensures
            scalar == self@.scalar_type(),
    {
        if self.as_u8().is_some() {
            Some(ScalarType::UInt8)
        } else if self.as_i32().is_some() {
            Some(ScalarType::Int32)
        } else if self.as_f32_bits().is_some() {
            Some(ScalarType::Float32)
        } else if self.as_u64().is_some() {
            Some(ScalarType::UInt64)
        } else {
            None
        }
    }

    /// Whether the array can be read as elements of the given type.
    pub fn is_of(&self, scalar: ScalarType) -> (is_of: bool)
        ensures
            is_of == (self@.scalar_type() == Some(scalar)),
    {
        match scalar {
            ScalarType::UInt8 => self.as_u8().is_some(),
            ScalarType::Int32 => self.as_i32().is_some(),
            ScalarType::Float32 => self.as_f32_bits().is_some(),
            ScalarType::UInt64 => self.as_u64().is_some(),
        }
    }
}

/// A slice of 32-bit floats, each given by its IEEE 754 bit pattern.
#[derive(Clone, Copy, Debug)]
pub struct Float32Bits<'a> {
    pub bits: &'a [u32],
}

/// Conversion of a native slice into a columnar array of the matching element
/// type. The slice is copied: the array does not alias the caller's memory.
pub trait ToArrow {
    /// The contents of the array that the conversion yields.
    spec fn to_arrow_spec(self) -> ArrowValues;

    fn to_arrow(self) -> (data: ArrowData)
        ensures
            data@ == self.to_arrow_spec(),
    ;
}

impl ToArrow for Float32Bits<'_> {
    open spec fn to_arrow_spec(self) -> ArrowValues {
        ArrowValues::Float32(self.bits@)
    }

    fn to_arrow(self) -> (data: ArrowData) {
        array_from_f32_bits(slice_to_vec(self.bits))
    }
}

impl ToArrow for &[i32] {
    open spec fn to_arrow_spec(self) -> ArrowValues {
        ArrowValues::Int32(self@)
    }

    fn to_arrow(self) -> (data: ArrowData) {
        array_from_i32(slice_to_vec(self))
    }
}

impl ToArrow for &[u64] {
    open spec fn to_arrow_spec(self) -> ArrowValues {
        ArrowValues::UInt64(self@)
    }

    fn to_arrow(self) -> (data: ArrowData) {
        array_from_u64(slice_to_vec(self))
    }
}

impl ToArrow for &[u8] {
    open spec fn to_arrow_spec(self) -> ArrowValues {
        ArrowValues::UInt8(self@)
    }

    fn to_arrow(self) -> (data: ArrowData) {
        array_from_u8(slice_to_vec(self))
    }
}

} // verus!
