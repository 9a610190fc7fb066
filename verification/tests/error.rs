use hdf5::error::{
    h5check, is_err_code, ErrorFrame, ErrorStack, ExpandedErrorStack, H5Error, H5ErrorCategory,
};
use hdf5::handle::Handle;

fn no_stack() -> H5Error {
    H5Error::query(Err(H5Error::internal("no stack")))
}

#[test]
fn test_error_codes() {
    let err = H5Error::file_not_found("/test.h5");
    assert_eq!(err.category(), H5ErrorCategory::File);
    assert_eq!(err.code(), 1001);
    assert_eq!(err.category().as_str(), "FILE");

    let err = H5Error::dataset_not_found("dataset1");
    assert_eq!(err.category(), H5ErrorCategory::Dataset);
    assert_eq!(err.code(), 2001);
    assert_eq!(err.category().as_str(), "DATASET");

    let err = H5Error::attribute_not_found("attr1");
    assert_eq!(err.category(), H5ErrorCategory::Attribute);
    assert_eq!(err.code(), 3001);

    let err = H5Error::group_not_found("/group");
    assert_eq!(err.category(), H5ErrorCategory::Group);
    assert_eq!(err.code(), 4001);

    let err = H5Error::type_conversion_error("int", "float");
    assert_eq!(err.category(), H5ErrorCategory::Datatype);
    assert_eq!(err.code(), 5001);

    let err = H5Error::selection_error("invalid selection");
    assert_eq!(err.category(), H5ErrorCategory::Dataspace);
    assert_eq!(err.code(), 6001);

    let err = H5Error::invalid_handle(123, "test");
    assert_eq!(err.category(), H5ErrorCategory::Handle);
    assert_eq!(err.code(), 7001);

    let err = H5Error::filter_not_available("blosc");
    assert_eq!(err.category(), H5ErrorCategory::Filter);
    assert_eq!(err.code(), 8001);

    let err = H5Error::internal("test error");
    assert_eq!(err.category(), H5ErrorCategory::Internal);
    assert_eq!(err.code(), 9002);
}

#[test]
fn test_error_display_format() {
    let err = H5Error::file_not_found("/test.h5");
    let display = err.render(None);
    assert!(display.contains("[FILE-1001]"));
    assert!(display.contains("File not found: /test.h5"));

    let err = H5Error::dataset_shape_mismatch(vec![10, 20], vec![5, 20]);
    let display = err.render(None);
    assert!(display.contains("[DATASET-2002]"));
    assert!(display.contains("Dataset shape mismatch"));

    let err = H5Error::type_conversion_error("i32", "f32");
    let display = err.render(None);
    assert!(display.contains("[DATATYPE-5001]"));
    assert!(display.contains("Type conversion error"));
}

#[test]
fn test_log_fields() {
    let err = H5Error::file_not_found("/test.h5");
    let fields = err.log_fields();
    assert_eq!(fields, vec![("path", "/test.h5".to_string())]);

    let err = H5Error::dataset_shape_mismatch(vec![10, 20], vec![5, 20]);
    let fields = err.log_fields();
    assert_eq!(fields.len(), 2);
    assert_eq!(fields[0].0, "expected");

    let err = H5Error::dimension_bounds_error(5, 10, Some("x".to_string()));
    let fields = err.log_fields();
    assert_eq!(fields.len(), 3);
}

#[test]
fn test_h5call() {
    // A call of the C library that succeeded (a non-negative status) ...
    let result_no_error = h5check(0i32, no_stack);
    assert!(result_no_error.is_ok());

    // ... and one that failed (a negative status).
    let result_error = h5check(-1i32, no_stack);
    assert!(result_error.is_err());
}

#[test]
fn test_h5try() {
    fn f1() -> Result<i32, H5Error> {
        h5check(1i64, no_stack)?;
        Ok(100)
    }

    assert_eq!(f1().ok(), Some(100));

    fn f2() -> Result<i32, H5Error> {
        h5check(-1i64, no_stack)?;
        Ok(100)
    }

    assert!(f2().is_err());
}

#[test]
fn test_category_from_code() {
    assert_eq!(H5ErrorCategory::from_code(1001), Some(H5ErrorCategory::File));
    assert_eq!(H5ErrorCategory::from_code(2001), Some(H5ErrorCategory::Dataset));
    assert_eq!(H5ErrorCategory::from_code(9999), Some(H5ErrorCategory::Internal));
    assert_eq!(H5ErrorCategory::from_code(10000), None);
    assert_eq!(H5ErrorCategory::from_code(0), None);
}

#[test]
fn test_all_error_variants_have_codes() {
    // Test that all error variants produce valid codes
    let err = H5Error::file_not_found("/test.h5");
    assert!(err.code() >= 1000 && err.code() < 2000);

    let err = H5Error::dataset_not_found("ds");
    assert!(err.code() >= 2000 && err.code() < 3000);

    let err = H5Error::attribute_not_found("attr");
    assert!(err.code() >= 3000 && err.code() < 4000);

    let err = H5Error::group_not_found("/g");
    assert!(err.code() >= 4000 && err.code() < 5000);

    let err = H5Error::type_conversion_error("i32", "f32");
    assert!(err.code() >= 5000 && err.code() < 6000);

    let err = H5Error::selection_error("test");
    assert!(err.code() >= 6000 && err.code() < 7000);

    let err = H5Error::invalid_handle(123, "test");
    assert!(err.code() >= 7000 && err.code() < 8000);

    let err = H5Error::filter_not_available("blosc");
    assert!(err.code() >= 8000 && err.code() < 9000);

    let err = H5Error::internal("test");
    assert!(err.code() >= 9000 && err.code() < 10000);
}

#[test]
fn test_error_builder_methods() {
    // Test all builder methods work correctly
    let _ = H5Error::file_not_found("/test");
    let _ = H5Error::file_open_error("/test", "reason");
    let _ = H5Error::file_create_error("/test", "reason");
    let _ = H5Error::file_io_error("/test", "read");
    let _ = H5Error::invalid_access_mode("r");

    let _ = H5Error::dataset_not_found("ds");
    let _ = H5Error::dataset_shape_mismatch(vec![1], vec![2]);
    let _ = H5Error::dataset_space_error("reason");
    let _ = H5Error::chunk_size_error("reason");
    let _ = H5Error::dataset_read_error("ds", "reason");
    let _ = H5Error::dataset_write_error("ds", "reason");

    let _ = H5Error::attribute_not_found("attr");
    let _ = H5Error::attribute_read_error("attr", "reason");
    let _ = H5Error::attribute_write_error("attr", "reason");
    let _ = H5Error::attribute_delete_error("attr", "reason");

    let _ = H5Error::group_not_found("/g");
    let _ = H5Error::group_create_error("/g", "reason");
    let _ = H5Error::invalid_group_path("/g", "reason");
    let _ = H5Error::group_iteration_error("reason");

    let _ = H5Error::type_conversion_error("i32", "f32");
    let _ = H5Error::invalid_datatype("int", "convert");
    let _ = H5Error::datatype_create_error("reason");

    let _ = H5Error::selection_error("reason");
    let _ = H5Error::hyperslab_error("reason");
    let _ = H5Error::point_selection_error("reason");
    let _ = H5Error::dimension_bounds_error(1, 10, Some("x".to_string()));
    let _ = H5Error::dimension_overflow(vec![1, 2]);

    let _ = H5Error::invalid_handle(123, "test");
    let _ = H5Error::handle_closed("dataset");
    let _ = H5Error::handle_create_error("dataset", "reason");

    let _ = H5Error::filter_not_available("blosc");
    let _ = H5Error::filter_registration_error("blosc", "reason");
    let _ = H5Error::filter_config_error("blosc", "reason");
    let _ = H5Error::filter_operation_error("blosc", "compress");

    let _ = H5Error::internal("test");
    let _ = H5Error::not_implemented("feature");
    let _ = H5Error::invalid_argument("arg", "reason");
    let _ = H5Error::out_of_memory();
}

#[test]
fn test_error_from_string_conversions() {
    let err: H5Error = "test error".into();
    assert!(matches!(err, H5Error::Internal { .. }));

    let err: H5Error = String::from("test error").into();
    assert!(matches!(err, H5Error::Internal { .. }));
}

// ---------------------------------------------------------------------------
// Further cases
// ---------------------------------------------------------------------------

#[test]
fn every_builder_has_its_code() {
    let cases: Vec<(H5Error, u16, &str)> = vec![
        (H5Error::file_open_error("/f", "r"), 1002, "FILE"),
        (H5Error::file_create_error("/f", "r"), 1003, "FILE"),
        (H5Error::file_io_error("/f", "read"), 1004, "FILE"),
        (H5Error::invalid_access_mode("x"), 1005, "FILE"),
        (H5Error::dataset_shape_mismatch(vec![1], vec![2]), 2002, "DATASET"),
        (H5Error::dataset_space_error("r"), 2003, "DATASET"),
        (H5Error::chunk_size_error("r"), 2004, "DATASET"),
        (H5Error::dataset_read_error("d", "r"), 2005, "DATASET"),
        (H5Error::dataset_write_error("d", "r"), 2006, "DATASET"),
        (H5Error::attribute_read_error("a", "r"), 3002, "ATTRIBUTE"),
        (H5Error::attribute_write_error("a", "r"), 3003, "ATTRIBUTE"),
        (H5Error::attribute_delete_error("a", "r"), 3004, "ATTRIBUTE"),
        (H5Error::group_create_error("/g", "r"), 4002, "GROUP"),
        (H5Error::invalid_group_path("/g", "r"), 4003, "GROUP"),
        (H5Error::group_iteration_error("r"), 4004, "GROUP"),
        (H5Error::invalid_datatype("t", "o"), 5002, "DATATYPE"),
        (H5Error::datatype_create_error("r"), 5003, "DATATYPE"),
        (H5Error::hyperslab_error("r"), 6002, "DATASPACE"),
        (H5Error::point_selection_error("r"), 6003, "DATASPACE"),
        (H5Error::dimension_bounds_error(1, 2, None), 6004, "DATASPACE"),
        (H5Error::dimension_overflow(vec![1]), 6005, "DATASPACE"),
        (H5Error::handle_closed("t"), 7002, "HANDLE"),
        (H5Error::handle_create_error("t", "r"), 7003, "HANDLE"),
        (H5Error::filter_registration_error("f", "r"), 8002, "FILTER"),
        (H5Error::filter_config_error("f", "r"), 8003, "FILTER"),
        (H5Error::filter_operation_error("f", "o"), 8004, "FILTER"),
        (H5Error::hdf5_error(ErrorStack::from_handle(Handle::invalid())), 9001, "INTERNAL"),
        (H5Error::not_implemented("f"), 9003, "INTERNAL"),
        (H5Error::invalid_argument("a", "r"), 9004, "INTERNAL"),
        (H5Error::out_of_memory(), 9005, "INTERNAL"),
    ];
    for (err, code, category) in cases {
        assert_eq!(err.code(), code);
        assert_eq!(err.category().as_str(), category);
        assert_eq!(H5ErrorCategory::from_code(code), Some(err.category()));
    }
}

#[test]
fn category_prefixes() {
    assert_eq!(H5ErrorCategory::File.code_prefix(), 1000);
    assert_eq!(H5ErrorCategory::Internal.code_prefix(), 9000);
    assert_eq!(H5ErrorCategory::from_code(999), None);
    assert_eq!(H5ErrorCategory::from_code(5999), Some(H5ErrorCategory::Datatype));
    assert_eq!(H5ErrorCategory::from_code(6000), Some(H5ErrorCategory::Dataspace));
}

#[test]
fn render_texts() {
    assert_eq!(
        H5Error::dataset_shape_mismatch(vec![10, 20], vec![5, 20]).render(None),
        "[DATASET-2002] Dataset shape mismatch: expected [10, 20], found [5, 20]"
    );
    assert_eq!(
        H5Error::dimension_bounds_error(5, 10, Some("x".to_string())).render(None),
        "[DATASPACE-6004] Dimension 'x' bounds error: index 5 out of bounds for max 10"
    );
    assert_eq!(
        H5Error::dimension_bounds_error(5, 10, None).render(None),
        "[DATASPACE-6004] Dimension bounds error: index 5 out of bounds for max 10"
    );
    assert_eq!(H5Error::invalid_handle(-3, "bad").render(None), "[HANDLE-7001] Invalid handle -3: bad");
    assert_eq!(H5Error::out_of_memory().render(None), "[INTERNAL-9005] Out of memory");
    assert_eq!(
        H5Error::file_io_error("/a.h5", "write").render(None),
        "[FILE-1004] I/O error during write on file '/a.h5'"
    );
    assert_eq!(
        H5Error::filter_operation_error("blosc", "compress").render(None),
        "[FILTER-8004] Filter operation 'compress' failed for blosc"
    );
}

#[test]
fn render_of_library_error() {
    let err = H5Error::hdf5_error(ErrorStack::from_handle(Handle::invalid()));
    assert_eq!(err.render(None), "[INTERNAL-9001] HDF5 C library error (unable to expand stack)");
    let mut stack = ExpandedErrorStack::new();
    stack.push(ErrorFrame::new("can't close", "H5Pclose", "Property lists", "Unable to free object"));
    stack.push(ErrorFrame::new("can't locate ID", "H5I_dec_ref", "Object atom", "Unable to find atom information"));
    assert_eq!(err.render(Some(&stack)), "[INTERNAL-9001] H5Pclose(): can't close: can't locate ID");
}

#[test]
fn log_fields_texts() {
    let err = H5Error::dataset_shape_mismatch(vec![10, 20], vec![5, 20]);
    assert_eq!(
        err.log_fields(),
        vec![("expected", "[10, 20]".to_string()), ("found", "[5, 20]".to_string())]
    );
    let err = H5Error::invalid_handle(-7, "d");
    assert_eq!(err.log_fields(), vec![("handle_id", "-7".to_string()), ("description", "d".to_string())]);
    assert_eq!(H5Error::out_of_memory().log_fields(), vec![]);
    assert_eq!(
        H5Error::dimension_bounds_error(5, 10, None).log_fields(),
        vec![("index", "5".to_string()), ("max", "10".to_string())]
    );
}

#[test]
fn expanded_stack_summary() {
    let empty = ExpandedErrorStack::new();
    assert!(empty.is_empty());
    assert_eq!(empty.len(), 0);
    assert_eq!(empty.description(), "unknown library error");
    assert!(empty.top().is_none());
    assert!(empty.detail().is_none());
    assert!(ExpandedErrorStack::default().is_empty());

    let mut stack = ExpandedErrorStack::new();
    stack.push(ErrorFrame::new("can't close", "H5Pclose", "Property lists", "Unable to free object"));
    assert_eq!(stack.description(), "H5Pclose(): can't close");
    stack.push(ErrorFrame::new("can't locate ID", "H5I_dec_ref", "Object atom", "Unable to find atom information"));
    assert_eq!(stack.len(), 2);
    assert_eq!(stack.description(), "H5Pclose(): can't close: can't locate ID");
    assert_eq!(
        stack.detail().unwrap(),
        "Error in H5Pclose(): can't close [Property lists: Unable to free object]"
    );
    assert_eq!(stack.frames()[1].description(), "H5I_dec_ref(): can't locate ID");
    assert_eq!(stack.top().unwrap().desc(), "can't close");
}

#[test]
fn status_codes() {
    assert!(is_err_code(-1i32));
    assert!(!is_err_code(0i32));
    assert!(is_err_code(0u64));
    assert!(!is_err_code(5u64));
    assert!(is_err_code(-2i64));
    assert_eq!(h5check(7u64, no_stack).ok(), Some(7));
    match h5check(0u64, no_stack) {
        Err(H5Error::Internal { message }) => assert_eq!(message, "Could not get error stack"),
        _ => panic!("expected the error of a missing stack"),
    }
}

#[test]
fn query_takes_stack() {
    match H5Error::query(ErrorStack::from_current(5, true)) {
        H5Error::HDF5Error(s) => assert_eq!(s.handle().id(), 5),
        _ => panic!("expected a library error"),
    }
    match ErrorStack::from_current(-1, false) {
        Err(H5Error::Internal { message }) => assert_eq!(message, "Invalid handle id: -1"),
        _ => panic!("expected a refusal"),
    }
}

#[test]
fn shape_errors_become_internal_errors() {
    let err = H5Error::from(ndarray::ShapeError::from_kind(ndarray::ErrorKind::IncompatibleShape));
    assert_eq!(
        err.render(None),
        "[INTERNAL-9002] Internal error: shape error: ShapeError/IncompatibleShape: incompatible shapes"
    );
    let err = H5Error::from(ndarray::ShapeError::from_kind(ndarray::ErrorKind::Overflow));
    match err {
        H5Error::Internal { message } => {
            assert_eq!(message, "shape error: ShapeError/Overflow: arithmetic overflow")
        }
        _ => panic!("expected an internal error"),
    }
}
