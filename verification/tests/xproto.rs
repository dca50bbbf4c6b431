use winit::ime::XError;
use winit::xproto::ChangePropertyError;
use winit::xproto::Format;
use winit::xproto::GetPropertyError;
use winit::xproto::PropMode;
use winit::xproto::PropertyReader;
use winit::xproto::PropertyReply;
use winit::xproto::PropertyStep;
use winit::xproto::XSmartPointer;
use winit::xproto::check_change_property_format;

fn ok_reply(items: Vec<u64>, bytes_after: u64) -> PropertyReply {
    PropertyReply { actual_type: 5, actual_format: 32, items: Some(items), bytes_after, error: None }
}

#[test]
fn formats_map_to_codes_and_sizes() {
    assert_eq!(Format::from_format(8), Some(Format::Char));
    assert_eq!(Format::from_format(16), Some(Format::Short));
    assert_eq!(Format::from_format(32), Some(Format::Long));
    assert_eq!(Format::from_format(12), None);
    assert_eq!(Format::Char.get_actual_size(), 1);
    assert_eq!(Format::Short.get_actual_size(), 2);
    assert_eq!(Format::Long.get_actual_size(), 8);
    assert_eq!(Format::Long.format_code(), 32);
    assert!(Format::Long.is_same_size_as::<u64>());
    assert!(!Format::Long.is_same_size_as::<u32>());
    assert!(Format::Char.is_same_size_as::<u8>());
}

#[test]
fn prop_modes_have_protocol_codes() {
    assert_eq!(PropMode::Replace.mode_code(), 0);
    assert_eq!(PropMode::Prepend.mode_code(), 1);
    assert_eq!(PropMode::Append.mode_code(), 2);
}

#[test]
fn property_read_accumulates_chunks_in_order() {
    let mut reader = PropertyReader::new(5, 8);
    assert_eq!(reader.feed(ok_reply(vec![1, 2], 16)), PropertyStep::Continue);
    assert_eq!(reader.offset, 1024);
    assert_eq!(reader.feed(ok_reply(vec![3, 4], 0)), PropertyStep::Done);
    assert_eq!(reader.offset, 2048);
    assert_eq!(reader.data, vec![1, 2, 3, 4]);
}

#[test]
fn property_read_reports_a_type_mismatch() {
    let mut reader = PropertyReader::new(5, 8);
    let reply = PropertyReply {
        actual_type: 6,
        actual_format: 32,
        items: Some(vec![1]),
        bytes_after: 0,
        error: None,
    };
    let step = reader.feed(reply);
    assert_eq!(step, PropertyStep::Failed(GetPropertyError::TypeMismatch(6)));
    assert!(GetPropertyError::TypeMismatch(6).is_actual_property_type(6));
    assert!(!GetPropertyError::TypeMismatch(6).is_actual_property_type(5));
    assert!(!GetPropertyError::NothingAllocated.is_actual_property_type(6));
}

#[test]
fn property_read_reports_a_format_mismatch() {
    let mut reader = PropertyReader::new(5, 8);
    let reply = PropertyReply {
        actual_type: 5,
        actual_format: 16,
        items: Some(vec![1]),
        bytes_after: 0,
        error: None,
    };
    assert_eq!(
        reader.feed(reply),
        PropertyStep::Failed(GetPropertyError::FormatMismatch(16))
    );
}

#[test]
fn property_read_reports_a_server_error() {
    let mut reader = PropertyReader::new(5, 8);
    let err = XError { error_code: 2, request_code: 20, minor_code: 0 };
    let reply = PropertyReply {
        actual_type: 5,
        actual_format: 32,
        items: Some(vec![1]),
        bytes_after: 0,
        error: Some(err),
    };
    assert_eq!(reader.feed(reply), PropertyStep::Failed(GetPropertyError::XError(err)));
}

#[test]
fn property_read_reports_an_empty_allocation() {
    let mut reader = PropertyReader::new(5, 8);
    let reply = PropertyReply {
        actual_type: 5,
        actual_format: 32,
        items: None,
        bytes_after: 0,
        error: None,
    };
    assert_eq!(reader.feed(reply), PropertyStep::Failed(GetPropertyError::NothingAllocated));
}

#[test]
fn change_property_checks_the_value_size() {
    assert_eq!(check_change_property_format::<u64>(Format::Long), Ok(()));
    assert_eq!(check_change_property_format::<u8>(Format::Char), Ok(()));
    assert_eq!(
        check_change_property_format::<u32>(Format::Long),
        Err(ChangePropertyError::FormatError {
            format_used: Format::Long,
            size_passed: 4,
            size_expected: 8,
        })
    );
}

#[test]
fn smart_pointer_refuses_the_null_handle() {
    assert_eq!(XSmartPointer::new(0), None);
    assert_eq!(XSmartPointer::new(12), Some(XSmartPointer { ptr: 12 }));
}
