use hdf5::datatype::Datatype;
use hdf5::h5type::{CompoundField, CompoundType, IntSize, TypeDescriptor as TD};
use hdf5::handle::{Handle, H5I_BADID, H5I_INVALID_HID};

fn handle(id: i64) -> Handle {
    Handle::try_new(id, true).ok().unwrap()
}

#[test]
fn try_new_takes_valid_ids() {
    assert_eq!(handle(42).id(), 42);
    match Handle::try_new(42, false) {
        Err(err) => assert_eq!(err.render(None), "[INTERNAL-9002] Internal error: Invalid handle id: 42"),
        Ok(_) => panic!("expected a refusal"),
    }
    assert_eq!(Handle::invalid().id(), H5I_INVALID_HID);
}

#[test]
fn id_types() {
    // A non-positive identifier is never asked about.
    assert_eq!(Handle::invalid().id_type(|| panic!("not asked"), 17), H5I_BADID);
    assert_eq!(handle(0).id_type(|| panic!("not asked"), 17), H5I_BADID);
    assert_eq!(handle(5).id_type(|| 3, 17), 3);
    assert_eq!(handle(5).id_type(|| 17, 17), H5I_BADID);
    assert_eq!(handle(5).id_type(|| -2, 17), H5I_BADID);
    assert!(handle(5).is_valid_id(|| 1, 17));
    assert!(!handle(5).is_valid_id(|| -1, 17));
    assert!(!Handle::invalid().is_valid_id(|| 1, 17));
}

#[test]
fn checked_sizes() {
    assert_eq!(TD::Integer(IntSize::U2).checked_size(), Some(2));
    let big = TD::FixedArray(Box::new(TD::Unsigned(IntSize::U8)), usize::MAX / 4);
    assert_eq!(big.checked_size(), None);
    assert_eq!(TD::FixedArray(Box::new(TD::Unsigned(IntSize::U8)), 5).checked_size(), Some(40));
}

#[test]
fn buildable_descriptors() {
    let ok = TD::Compound(CompoundType {
        fields: vec![CompoundField::new("a", TD::Integer(IntSize::U4), 4, 0)],
        size: 8,
    });
    assert!(Datatype::is_buildable(&ok));
    assert!(Datatype::try_creation_recipe(&ok).is_some());
    let past_end = TD::Compound(CompoundType {
        fields: vec![CompoundField::new("a", TD::Integer(IntSize::U4), usize::MAX - 1, 0)],
        size: 8,
    });
    assert!(!Datatype::is_buildable(&past_end));
    assert!(Datatype::try_creation_recipe(&past_end).is_none());
    let nested = TD::VarLenArray(Box::new(past_end));
    assert!(!Datatype::is_buildable(&nested));
    assert!(Datatype::is_buildable(&TD::VarLenAscii));
}

#[test]
fn short_reprs() {
    let dt = Datatype::from_handle(handle(12));
    assert_eq!(dt.short_repr(), Some("<datatype id=12>".to_string()));
    assert_eq!(dt.id(), 12);
    let stack = hdf5::error::ErrorStack::from_handle(Handle::invalid());
    assert_eq!(stack.short_repr(), Some("<error stack id=-1>".to_string()));
}

#[test]
fn clone_falls_back_on_invalid() {
    assert_eq!(Handle::borrowed_or_invalid(Ok(handle(9))).id(), 9);
    let failed = Handle::borrowed_or_invalid(Err(hdf5::error::H5Error::internal("no")));
    assert_eq!(failed.id(), H5I_INVALID_HID);
}
