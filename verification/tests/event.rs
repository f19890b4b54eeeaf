use arrow_array::{Array, Float32Array, Int32Array, StringArray, StructArray, UInt64Array, UInt8Array};
use arrow_buffer::{MutableBuffer, ScalarBuffer};
use dora_node_api_c::{
    free_dora_event, read_dora_event_type, read_dora_input_data_f32, read_dora_input_data_i32,
    read_dora_input_data_u64, read_dora_input_data_u8, read_dora_input_id, type_mismatch,
    typed_read, ArrowData, DataType, Event, EventType, Float32Bits, Input, ScalarType, ToArrow,
    TypeInfo, TypedRead,
};
use std::sync::Arc;

fn input(id: &str, data_type: DataType, len: usize, data: ArrowData) -> Event {
    Event::Input(Input { id: String::from(id), type_info: TypeInfo { data_type, len }, data })
}

fn u8_input(values: Vec<u8>) -> Event {
    let len = values.len();
    input("bytes", DataType::UInt8, len, ArrowData { array: Arc::new(UInt8Array::from(values)) })
}

fn i32_input(values: Vec<i32>) -> Event {
    let len = values.len();
    input("ints", DataType::Int32, len, ArrowData { array: Arc::new(Int32Array::from(values)) })
}

fn f32_input(values: Vec<f32>) -> Event {
    let len = values.len();
    input(
        "floats",
        DataType::Float32,
        len,
        ArrowData { array: Arc::new(Float32Array::from(values)) },
    )
}

fn u64_input(values: Vec<u64>) -> Event {
    let len = values.len();
    input("longs", DataType::UInt64, len, ArrowData { array: Arc::new(UInt64Array::from(values)) })
}

fn non_inputs() -> Vec<Event> {
    vec![
        Event::Stop,
        Event::InputClosed { id: String::from("bytes") },
        Event::Error(String::from("lost")),
        Event::Other,
    ]
}

const ALL: [ScalarType; 4] =
    [ScalarType::UInt8, ScalarType::Int32, ScalarType::Float32, ScalarType::UInt64];

#[test]
fn every_kind_of_event_is_classified() {
    assert_eq!(read_dora_event_type(&Event::Stop), EventType::Stop);
    assert_eq!(read_dora_event_type(&u8_input(vec![1])), EventType::Input);
    assert_eq!(
        read_dora_event_type(&Event::InputClosed { id: String::from("x") }),
        EventType::InputClosed
    );
    assert_eq!(read_dora_event_type(&Event::Error(String::from("e"))), EventType::Error);
    assert_eq!(read_dora_event_type(&Event::Other), EventType::Unknown);
}

#[test]
fn identifier_of_an_input_is_its_utf8_bytes() {
    let event = u8_input(vec![1]);
    assert_eq!(read_dora_input_id(&event), Some("bytes".as_bytes()));
    let event = input("übung-7", DataType::Null, 0, ArrowData {
        array: Arc::new(UInt8Array::from(Vec::<u8>::new())),
    });
    let id = read_dora_input_id(&event);
    assert_eq!(id, Some("übung-7".as_bytes()));
    assert_eq!(id.map(|b| b.len()), Some(8));
}

#[test]
fn empty_identifier_is_present_and_empty() {
    let event = input("", DataType::UInt8, 0, ArrowData {
        array: Arc::new(UInt8Array::from(Vec::<u8>::new())),
    });
    assert_eq!(read_dora_input_id(&event).map(|b| b.len()), Some(0));
}

#[test]
fn identifier_of_a_stop_event_is_absent() {
    assert!(read_dora_input_id(&Event::Stop).is_none());
}

#[test]
fn identifier_of_any_event_that_is_no_input_is_absent() {
    for event in non_inputs() {
        assert!(read_dora_input_id(&event).is_none());
    }
}

#[test]
fn typed_reads_give_the_values_and_the_declared_count() {
    let event = u8_input(vec![1, 2, 3]);
    let data = read_dora_input_data_u8(&event).unwrap();
    assert_eq!(data.values, &[1u8, 2, 3][..]);
    assert_eq!(data.len, 3);
    let event = i32_input(vec![-5, 6]);
    let data = read_dora_input_data_i32(&event).unwrap();
    assert_eq!(data.values, &[-5i32, 6][..]);
    assert_eq!(data.len, 2);
    let event = u64_input(vec![u64::MAX]);
    let data = read_dora_input_data_u64(&event).unwrap();
    assert_eq!(data.values, &[u64::MAX][..]);
    assert_eq!(data.len, 1);
    let event = f32_input(vec![1.5, -0.25]);
    let data = read_dora_input_data_f32(&event).unwrap();
    assert_eq!(data.values.to_vec(), vec![1.5f32.to_bits(), (-0.25f32).to_bits()]);
    assert_eq!(data.len, 2);
}

#[test]
fn typed_read_points_into_the_buffer_of_the_event() {
    let array = Int32Array::from(vec![1i32, 2, 3]);
    let at = array.values().as_ptr();
    let event = input("ints", DataType::Int32, 3, ArrowData { array: Arc::new(array) });
    let data = read_dora_input_data_i32(&event).unwrap();
    assert_eq!(data.values.as_ptr(), at);
    assert_eq!(data.len, 3);

    let array = Float32Array::from(vec![1.0f32, 2.0]);
    let at = format!("{:p}", array.values().as_ptr());
    let event = input("floats", DataType::Float32, 2, ArrowData { array: Arc::new(array) });
    let data = read_dora_input_data_f32(&event).unwrap();
    assert_eq!(format!("{:p}", data.values.as_ptr()), at);
}

#[test]
fn the_count_is_the_declared_one() {
    let data = || ArrowData { array: Arc::new(Int32Array::from(vec![1i32, 2, 3])) };
    let event = input("ints", DataType::Int32, 2, data());
    assert_eq!(typed_read(&event, ScalarType::Int32), TypedRead::Value);
    let read = read_dora_input_data_i32(&event).unwrap();
    assert_eq!(read.len, 2);
    assert_eq!(read.values, &[1i32, 2, 3][..]);
    let event = input("ints", DataType::Int32, 0, data());
    assert_eq!(read_dora_input_data_i32(&event).map(|d| d.len), Some(0));
}

#[test]
fn typed_read_of_an_empty_input_is_present_and_empty() {
    let event = u64_input(Vec::new());
    assert_eq!(typed_read(&event, ScalarType::UInt64), TypedRead::Value);
    let data = read_dora_input_data_u64(&event).unwrap();
    assert_eq!(data.len, 0);
    assert_eq!(data.values.len(), 0);
}

#[test]
fn typed_reads_of_events_that_are_no_input_are_absent() {
    for event in non_inputs() {
        for requested in ALL {
            assert_eq!(typed_read(&event, requested), TypedRead::Absent);
            assert!(type_mismatch(&event, requested).is_none());
        }
        assert!(read_dora_input_data_u8(&event).is_none());
        assert!(read_dora_input_data_i32(&event).is_none());
        assert!(read_dora_input_data_f32(&event).is_none());
        assert!(read_dora_input_data_u64(&event).is_none());
    }
}

#[test]
fn typed_reads_of_an_input_without_data_are_absent() {
    let event = input("tick", DataType::Null, 0, ArrowData {
        array: Arc::new(arrow_array::NullArray::new(0)),
    });
    for requested in ALL {
        assert_eq!(typed_read(&event, requested), TypedRead::Absent);
        assert!(type_mismatch(&event, requested).is_none());
    }
    assert!(read_dora_input_data_u8(&event).is_none());
    assert!(read_dora_input_data_i32(&event).is_none());
    assert!(read_dora_input_data_f32(&event).is_none());
    assert!(read_dora_input_data_u64(&event).is_none());
    assert_eq!(read_dora_input_id(&event), Some("tick".as_bytes()));
}

#[test]
fn an_input_without_data_is_absent_whatever_it_carries() {
    let event =
        input("tick", DataType::Null, 3, ArrowData { array: Arc::new(UInt8Array::from(vec![1u8, 2, 3])) });
    assert_eq!(typed_read(&event, ScalarType::UInt8), TypedRead::Absent);
    assert!(read_dora_input_data_u8(&event).is_none());
}

#[test]
fn typed_read_of_every_other_type_is_wrong() {
    let events = [
        (ScalarType::UInt8, DataType::UInt8, u8_input(vec![1])),
        (ScalarType::Int32, DataType::Int32, i32_input(vec![1])),
        (ScalarType::Float32, DataType::Float32, f32_input(vec![1.0])),
        (ScalarType::UInt64, DataType::UInt64, u64_input(vec![1])),
    ];
    let mut wrong = 0;
    for (scalar, declared, event) in events.iter() {
        for requested in ALL {
            if requested == *scalar {
                assert_eq!(typed_read(event, requested), TypedRead::Value);
                assert!(type_mismatch(event, requested).is_none());
            } else {
                assert_eq!(typed_read(event, requested), TypedRead::WrongType);
                let mismatch = type_mismatch(event, requested).unwrap();
                assert_eq!(mismatch.declared, declared);
                assert_eq!(mismatch.expected, requested);
                wrong += 1;
            }
        }
    }
    assert_eq!(wrong, 12);
}

#[test]
fn typed_read_of_another_type_is_wrong_whatever_the_length() {
    for len in [0usize, 1, 9] {
        let event =
            input("ints", DataType::Int32, len, ArrowData { array: Arc::new(Int32Array::from(vec![7i32])) });
        assert_eq!(typed_read(&event, ScalarType::Float32), TypedRead::WrongType);
        assert_eq!(typed_read(&event, ScalarType::UInt8), TypedRead::WrongType);
        assert_eq!(typed_read(&event, ScalarType::UInt64), TypedRead::WrongType);
    }
}

#[test]
fn typed_read_of_an_unsupported_type_is_wrong() {
    let event = input("text", DataType::Other(String::from("Utf8")), 1, ArrowData {
        array: Arc::new(StringArray::from(vec!["a"])),
    });
    for requested in ALL {
        assert_eq!(typed_read(&event, requested), TypedRead::WrongType);
        let mismatch = type_mismatch(&event, requested).unwrap();
        assert_eq!(mismatch.declared, &DataType::Other(String::from("Utf8")));
        assert_eq!(mismatch.expected, requested);
    }
}

#[test]
fn data_of_another_type_than_declared_is_malformed() {
    let ints = || ArrowData { array: Arc::new(Int32Array::from(vec![1i32, 2])) };
    let event = input("x", DataType::UInt8, 2, ints());
    assert_eq!(typed_read(&event, ScalarType::UInt8), TypedRead::Malformed);
    assert_eq!(typed_read(&event, ScalarType::Int32), TypedRead::WrongType);
    assert!(type_mismatch(&event, ScalarType::UInt8).is_none());
    let event = input("x", DataType::Float32, 2, ints());
    assert_eq!(typed_read(&event, ScalarType::Float32), TypedRead::Malformed);
    let event = input("x", DataType::UInt64, 2, ints());
    assert_eq!(typed_read(&event, ScalarType::UInt64), TypedRead::Malformed);
    let text = ArrowData { array: Arc::new(StringArray::from(vec!["a"])) };
    let event = input("x", DataType::Int32, 1, text);
    assert_eq!(typed_read(&event, ScalarType::Int32), TypedRead::Malformed);
}

#[test]
fn an_array_that_only_reports_a_primitive_type_is_malformed() {
    let posing = StructArray::from(Int32Array::from(vec![1i32]).into_data());
    assert_eq!(posing.data_type(), &arrow_schema::DataType::Int32);
    let event = input("x", DataType::Int32, 1, ArrowData { array: Arc::new(posing) });
    assert_eq!(typed_read(&event, ScalarType::Int32), TypedRead::Malformed);
}

#[test]
fn a_float_array_over_a_ragged_buffer_is_malformed() {
    let ragged: ScalarBuffer<f32> = ScalarBuffer::from(MutableBuffer::from_len_zeroed(5));
    let array = Float32Array::new(ragged, None);
    assert_eq!(array.len(), 1);
    let event = input("x", DataType::Float32, 1, ArrowData { array: Arc::new(array) });
    assert_eq!(typed_read(&event, ScalarType::Float32), TypedRead::Malformed);
}

#[test]
fn what_was_converted_is_read_back() {
    let bytes: Vec<u8> = vec![0, 1, 254, 255];
    let event = input("a", DataType::UInt8, 4, bytes.as_slice().to_arrow());
    let back = read_dora_input_data_u8(&event).unwrap();
    assert_eq!(back.values, bytes.as_slice());
    assert_eq!(back.len, 4);

    let ints: Vec<i32> = vec![i32::MIN, -1, 0, 1, i32::MAX];
    let event = input("b", DataType::Int32, 5, ints.as_slice().to_arrow());
    let back = read_dora_input_data_i32(&event).unwrap();
    assert_eq!(back.values, ints.as_slice());
    assert_eq!(back.len, 5);

    let longs: Vec<u64> = vec![0, u64::MAX, 1 << 40];
    let event = input("c", DataType::UInt64, 3, longs.as_slice().to_arrow());
    let back = read_dora_input_data_u64(&event).unwrap();
    assert_eq!(back.values, longs.as_slice());
    assert_eq!(back.len, 3);

    let floats: Vec<f32> = vec![0.1, -7.75, f32::MAX, f32::MIN_POSITIVE];
    let bits: Vec<u32> = floats.iter().map(|f| f.to_bits()).collect();
    let event = input("d", DataType::Float32, 4, Float32Bits { bits: &bits }.to_arrow());
    let back = read_dora_input_data_f32(&event).unwrap();
    let values: Vec<f32> = back.values.iter().map(|b| f32::from_bits(*b)).collect();
    assert_eq!(values, floats);
    assert_eq!(back.len, 4);
}

#[test]
fn reads_do_not_change_the_event() {
    let event = u8_input(vec![9, 8]);
    let first = read_dora_input_data_u8(&event).map(|d| d.values.to_vec());
    let id = read_dora_input_id(&event).map(|v| v.to_vec());
    let second = read_dora_input_data_u8(&event).map(|d| d.values.to_vec());
    assert_eq!(first, second);
    assert_eq!(first, Some(vec![9, 8]));
    assert_eq!(id, Some(b"bytes".to_vec()));
    assert_eq!(read_dora_event_type(&event), EventType::Input);
}

#[test]
fn freeing_an_event_releases_its_buffer() {
    let array = Arc::new(UInt8Array::from(vec![1u8, 2]));
    let held: arrow_array::ArrayRef = array;
    let event = input("bytes", DataType::UInt8, 2, ArrowData { array: held.clone() });
    assert_eq!(Arc::strong_count(&held), 2);
    free_dora_event(event);
    assert_eq!(Arc::strong_count(&held), 1);
}
