//! The verified core of a C-callable node interface for a dataflow graph:
//! events and typed views into their data, the context that bundles a node
//! with its event stream, and the preparation of typed outputs.
//!
//! The library does no input or output and holds no raw pointers. A foreign
//! caller reaches it through a thin layer that turns pointers into the borrows
//! and owned values that the functions here take.

pub mod context;
pub mod data;
pub mod event;
pub mod output;

pub use context::{dora_next_event, free_dora_context, init_dora_context_from_env, DoraContext};
pub use data::{ArrowData, ArrowValues, DataType, Float32Bits, ScalarType, ToArrow, TypeInfo};
pub use event::{
    free_dora_event, read_dora_event_type, read_dora_input_data_f32, read_dora_input_data_i32,
    read_dora_input_data_u64, read_dora_input_data_u8, read_dora_input_id, type_mismatch,
    typed_read, Event, EventType, EventView, Input, InputData, InputView, TypeMismatch, TypedRead,
};
pub use output::{
    dora_send_output_f32, dora_send_output_i32, dora_send_output_u64, dora_send_output_u8,
    send_status, try_send_output, Output, SendError, STATUS_FAILED, STATUS_OK,
};
