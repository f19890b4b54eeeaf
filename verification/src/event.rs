//! Events as the caller sees them: what kind of event arrived, the identifier
//! of an input, and typed views into an input's data.
//!
//! Every view borrows from the event, so none outlives it, and none changes it.

use crate::data::{
    array_as_i32, array_as_u64, array_as_u8, ArrowData, ArrowValues, DataType, ScalarType,
    ToArrow, TypeInfo,
};
use vstd::prelude::*;
use vstd::utf8::{encode_utf8, encode_utf8_valid_utf8, valid_utf8};

verus! {

/// The closed set of kinds that an event is classified into.
#[derive(Clone, Copy, Debug, PartialEq, Eq, Structural)]
pub enum EventType {
    Stop,
    Input,
    InputClosed,
    Error,
    Unknown,
}

/// How a typed read of an event ends.
#[derive(Clone, Copy, Debug, PartialEq, Eq, Structural)]
pub enum TypedRead {
    /// There is nothing to read: the event is no input, or the input declares
    /// that it carries no data.
    Absent,
    /// The input declares another element type than the one asked for. The
    /// read must not be made: the caller is to stop with a diagnostic.
    WrongType,
    /// The input declares the element type asked for, but its data is no
    /// array that can be read as that type. The read must not be made.
    Malformed,
    /// The input's data is of the type asked for.
    Value,
}

/// An arrived input: its identifier, its type descriptor and its data.
pub struct Input {
    pub id: String,
    pub type_info: TypeInfo,
    pub data: ArrowData,
}

/// An input as a mathematical value.
pub struct InputView {
    pub id: Seq<char>,
    pub type_info: TypeInfo,
    pub data: ArrowValues,
}

impl InputView {
    /// The descriptor is true of the data.
    pub open spec fn consistent(self) -> bool {
        self.type_info.describes(self.data)
    }
}

impl View for Input {
    type V = InputView;

    open spec fn view(&self) -> InputView {
        InputView { id: self.id@, type_info: self.type_info, data: self.data@ }
    }
}

/// One event of a node's event stream.
pub enum Event {
    /// The node is asked to stop.
    Stop,
    /// An input arrived.
    Input(Input),
    /// An input will receive no more data.
    InputClosed { id: String },
    /// The stream reports an error.
    Error(String),
    /// An event of a kind that this boundary does not name.
    Other,
}

/// An event as a mathematical value.
pub enum EventView {
    Stop,
    Input(InputView),
    InputClosed { id: Seq<char> },
    Error(Seq<char>),
    Other,
}

impl View for Event {
    type V = EventView;

    open spec fn view(&self) -> EventView {
        match self {
            Event::Stop => EventView::Stop,
            Event::Input(input) => EventView::Input(input@),
            Event::InputClosed { id } => EventView::InputClosed { id: id@ },
            Event::Error(message) => EventView::Error(message@),
            Event::Other => EventView::Other,
        }
    }
}

impl EventView {
    /// The kind of the event.
    pub open spec fn event_type(self) -> EventType {
        match self {
            EventView::Stop => EventType::Stop,
            EventView::Input(_) => EventType::Input,
            EventView::InputClosed { .. } => EventType::InputClosed,
            EventView::Error(_) => EventType::Error,
            EventView::Other => EventType::Unknown,
        }
    }

    /// The bytes of the identifier of an input; `None` for any other event.
    pub open spec fn input_id(self) -> Option<Seq<u8>> {
        match self {
            EventView::Input(input) => Some(encode_utf8(input.id)),
            _ => None,
        }
    }

    /// How a read of the event's data as elements of type `requested` ends.
    /// The declared type decides first: only where it is the type asked for
    /// does the data itself matter.
    pub open spec fn typed_read(self, requested: ScalarType) -> TypedRead {
        match self {
            EventView::Input(input) => {
                if input.type_info.data_type is Null {
                    TypedRead::Absent
                } else if input.type_info.data_type.scalar_type() != Some(requested) {
                    TypedRead::WrongType
                } else if input.data.scalar_type() != Some(requested) {
                    TypedRead::Malformed
                } else {
                    TypedRead::Value
                }
            },
            _ => TypedRead::Absent,
        }
    }

    /// Whether a read of the event's data as elements of type `requested` may
    /// be made: it ends with a view or with nothing, and not in one of the
    /// cases in which the caller must stop. Each typed read asks for this.
    pub open spec fn may_read(self, requested: ScalarType) -> bool {
        self.typed_read(requested) is Absent || self.typed_read(requested) is Value
    }

    /// The data that a read of the event as elements of type `requested`
    /// yields; `None` where the read yields nothing.
    pub open spec fn input_data(self, requested: ScalarType) -> Option<ArrowValues> {
        match self {
            EventView::Input(input) => if self.typed_read(requested) is Value {
                Some(input.data)
            } else {
                None
            },
            _ => None,
        }
    }
}

/// What a typed read hands out: the elements, as a view that borrows from the
/// event's buffer, and the number of elements that the input declares. Where
/// the descriptor is true of the data, `len` is the length of `values`.
#[derive(Clone, Copy, Debug)]
pub struct InputData<'a, T> {
    pub values: &'a [T],
    pub len: usize,
}

/// What the diagnostic of a read of the wrong type names: the element type
/// that the input declares, and the one that the read asked for.
#[derive(Clone, Copy, Debug)]
pub struct TypeMismatch<'a> {
    pub declared: &'a DataType,
    pub expected: ScalarType,
}

/// Classifies an event.
pub fn read_dora_event_type(event: &Event) -> (event_type: EventType)
    ensures
        event_type == event@.event_type(),
{
    match event {
        Event::Stop => EventType::Stop,
        Event::Input(_) => EventType::Input,
        Event::InputClosed { .. } => EventType::InputClosed,
        Event::Error(_) => EventType::Error,
        Event::Other => EventType::Unknown,
    }
}

/// The identifier of an input, as a view of its UTF-8 bytes that borrows from
/// the event; `None` for any event that is no input.
pub fn read_dora_input_id(event: &Event) -> (id: Option<&[u8]>)
    ensures
        match id {
            Some(bytes) => event@.input_id() == Some(bytes@) && valid_utf8(bytes@),
            None => !(event@ is Input),
        },
{
    match event {
        Event::Input(input) => {
            proof {
                encode_utf8_valid_utf8(input.id@);
            }
            Some(input.id.as_str().as_bytes())
        },
        _ => None,
    }
}

/// Says how a read of the event's data as elements of type `requested` would
/// end, without making it. A caller asks this before a typed read and stops
/// with a diagnostic on [`TypedRead::WrongType`] and [`TypedRead::Malformed`].
pub fn typed_read(event: &Event, requested: ScalarType) -> (outcome: TypedRead)
    ensures
        outcome == event@.typed_read(requested),
{
    match event {
        Event::Input(input) => match &input.type_info.data_type {
            DataType::Null => TypedRead::Absent,
            declared => match declared.scalar() {
                Some(scalar) => if scalar == requested {
                    if input.data.is_of(requested) {
                        TypedRead::Value
                    } else {
                        TypedRead::Malformed
                    }
                } else {
                    TypedRead::WrongType
                },
                None => TypedRead::WrongType,
            },
        },
        _ => TypedRead::Absent,
    }
}

/// What the caller's diagnostic is to name where a read of the event's data as
/// elements of type `requested` is of the wrong type; `None` in every other
/// case.
pub fn type_mismatch(event: &Event, requested: ScalarType) -> (mismatch: Option<TypeMismatch<'_>>)
    ensures
        mismatch is Some <==> event@.typed_read(requested) is WrongType,
        mismatch matches Some(mismatch) ==> mismatch.expected == requested && (event@ matches
            EventView::Input(input) && *mismatch.declared == input.type_info.data_type),
{
    match event {
        Event::Input(input) => match &input.type_info.data_type {
            DataType::Null => None,
            declared => match declared.scalar() {
                Some(scalar) => if scalar == requested {
                    None
                } else {
                    Some(TypeMismatch { declared, expected: requested })
                },
                None => Some(TypeMismatch { declared, expected: requested }),
            },
        },
        _ => None,
    }
}

/// The data of an input of unsigned bytes: a view that borrows from the
/// event's buffer, with the declared number of elements; `None` where there
/// is nothing to read. The cases in which the caller must stop are left out:
/// see [`typed_read`].
pub fn read_dora_input_data_u8(event: &Event) -> (data: Option<InputData<'_, u8>>)
    requires
        event@.may_read(ScalarType::UInt8),
    ensures
        data is Some <==> event@.typed_read(ScalarType::UInt8) is Value,
        data matches Some(data) ==> event@.input_data(ScalarType::UInt8) == Some(
            ArrowValues::UInt8(data.values@),
        ) && (event@ matches EventView::Input(input) && data.len == input.type_info.len),
{
    match event {
        Event::Input(input) => match input.type_info.data_type {
            DataType::UInt8 => match array_as_u8(&input.data) {
                Some(values) => Some(InputData { values, len: input.type_info.len }),
                None => None,
            },
            _ => None,
        },
        _ => None,
    }
}

/// The data of an input of signed 32-bit integers: a view that borrows from
/// the event's buffer, with the declared number of elements; `None` where
/// there is nothing to read. The cases in which the caller must stop are left
/// out: see [`typed_read`].
pub fn read_dora_input_data_i32(event: &Event) -> (data: Option<InputData<'_, i32>>)
    requires
        event@.may_read(ScalarType::Int32),
    ensures
        data is Some <==> event@.typed_read(ScalarType::Int32) is Value,
        data matches Some(data) ==> event@.input_data(ScalarType::Int32) == Some(
            ArrowValues::Int32(data.values@),
        ) && (event@ matches EventView::Input(input) && data.len == input.type_info.len),
{
    match event {
        Event::Input(input) => match input.type_info.data_type {
            DataType::Int32 => match array_as_i32(&input.data) {
                Some(values) => Some(InputData { values, len: input.type_info.len }),
                None => None,
            },
            _ => None,
        },
        _ => None,
    }
}

/// The data of an input of 32-bit floats: a view of the elements' IEEE 754
/// bit patterns that borrows from the event's buffer, with the declared
/// number of elements; `None` where there is nothing to read. The cases in
/// which the caller must stop are left out: see [`typed_read`].
pub fn read_dora_input_data_f32(event: &Event) -> (data: Option<InputData<'_, u32>>)
    requires
        event@.may_read(ScalarType::Float32),
    ensures
        data is Some <==> event@.typed_read(ScalarType::Float32) is Value,
        data matches Some(data) ==> event@.input_data(ScalarType::Float32) == Some(
            ArrowValues::Float32(data.values@),
        ) && (event@ matches EventView::Input(input) && data.len == input.type_info.len),
{
    match event {
        Event::Input(input) => match input.type_info.data_type {
            DataType::Float32 => match input.data.as_f32_bits() {
                Some(values) => Some(InputData { values, len: input.type_info.len }),
                None => None,
            },
            _ => None,
        },
        _ => None,
    }
}

/// The data of an input of unsigned 64-bit integers: a view that borrows from
/// the event's buffer, with the declared number of elements; `None` where
/// there is nothing to read. The cases in which the caller must stop are left
/// out: see [`typed_read`].
pub fn read_dora_input_data_u64(event: &Event) -> (data: Option<InputData<'_, u64>>)
    requires
        event@.may_read(ScalarType::UInt64),
    ensures
        data is Some <==> event@.typed_read(ScalarType::UInt64) is Value,
        data matches Some(data) ==> event@.input_data(ScalarType::UInt64) == Some(
            ArrowValues::UInt64(data.values@),
        ) && (event@ matches EventView::Input(input) && data.len == input.type_info.len),
{
    match event {
        Event::Input(input) => match input.type_info.data_type {
            DataType::UInt64 => match array_as_u64(&input.data) {
                Some(values) => Some(InputData { values, len: input.type_info.len }),
                None => None,
            },
            _ => None,
        },
        _ => None,
    }
}

/// Releases an event. Taking the event by value ends every view into it.
pub fn free_dora_event(event: Event) {
}

/// Every event that is no input has no identifier to read.
pub proof fn lemma_only_inputs_have_an_identifier(event: EventView)
    ensures
        event.input_id() is Some <==> event is Input,
        event.input_id() is Some <==> event.event_type() == EventType::Input,
{
}

/// A typed read of an input that carries data may be made for the declared
/// element type alone. Asked for any other type, whatever the data and the
/// declared length are, it is the case in which the caller must stop: none of
/// `read_dora_input_data_u8`, `read_dora_input_data_i32`,
/// `read_dora_input_data_f32` and `read_dora_input_data_u64` can be called for
/// a type that the input does not declare, so none hands out a view of data of
/// another type, of the same width or not.
pub proof fn lemma_read_of_another_type_is_wrong(event: EventView, requested: ScalarType)
    requires
        event matches EventView::Input(input) && !(input.type_info.data_type is Null)
            && input.type_info.data_type.scalar_type() != Some(requested),
    ensures
        event.typed_read(requested) is WrongType,
        !event.may_read(requested),
        event.input_data(requested) is None,
{
}

/// Of the four typed reads of an input that declares one of the four
/// supported element types, at most the one of the declared type may be made.
pub proof fn lemma_at_most_one_typed_read_may_be_made(
    event: EventView,
    first: ScalarType,
    second: ScalarType,
)
    requires
        event is Input,
        event.typed_read(first) is Value,
        first != second,
    ensures
        event.typed_read(second) is WrongType,
        !event.may_read(second),
{
}

/// What was converted from a native slice is what a typed read gives back: an
/// input that carries the array made from `sent`, under a descriptor that
/// declares the array's element type and is true of it, yields on a read of
/// that type the elements of `sent` in order, and declares as many elements as
/// `sent` has.
pub proof fn lemma_sent_values_are_read_back<T: ToArrow>(
    sent: T,
    received: InputView,
    scalar: ScalarType,
)
    requires
        sent.to_arrow_spec().scalar_type() == Some(scalar),
        received.consistent(),
        received.data == sent.to_arrow_spec(),
        received.type_info.data_type.scalar_type() == Some(scalar),
    ensures
        EventView::Input(received).typed_read(scalar) is Value,
        EventView::Input(received).input_data(scalar) == Some(sent.to_arrow_spec()),
        received.type_info.len == sent.to_arrow_spec().len(),
{
}

} // verus!
