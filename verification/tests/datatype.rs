use std::cmp::Ordering;

use hdf5::datatype::{
    ByteOrder, Conversion, Datatype, DatatypeInfo, DatatypeRecipe, H5T_cset_t, H5T_order_t,
    H5T_sign_t, MemberInfo, PredefinedType, StringPadding,
};
use hdf5::error::H5Error;
use hdf5::h5type::{
    CompoundField, CompoundType, EnumMember, EnumType, FloatSize, IntSize, TypeDescriptor,
};
use hdf5::handle::Handle;

fn datatype(id: i64) -> Datatype {
    Datatype::from_handle(Handle::try_new(id, true).ok().unwrap())
}

fn member(name: &str, value: u64) -> EnumMember {
    EnumMember { name: name.to_string(), value }
}

fn int_info(size: usize, signed: bool) -> DatatypeInfo {
    DatatypeInfo::Integer {
        size,
        sign: if signed { H5T_sign_t::H5T_SGN_2 } else { H5T_sign_t::H5T_SGN_NONE },
    }
}

/// What the C library reports about the datatype it creates for `bool`.
fn bool_info() -> DatatypeInfo {
    DatatypeInfo::Enum {
        members: vec![member("FALSE", 0), member("TRUE", 1)],
        base: Box::new(int_info(1, true)),
    }
}

fn read_back(info: &DatatypeInfo) -> TypeDescriptor {
    Datatype::to_descriptor(info).ok().unwrap()
}

fn refusal(info: &DatatypeInfo) -> String {
    match Datatype::to_descriptor(info) {
        Err(H5Error::Internal { message }) => message,
        _ => panic!("expected an internal error"),
    }
}

#[test]
fn test_conversion_display() {
    assert_eq!(Conversion::NoOp.as_str(), "no-op");
    assert_eq!(Conversion::Soft.as_str(), "soft");
    assert_eq!(Conversion::Hard.as_str(), "hard");
}

#[test]
fn test_conversion_default() {
    assert_eq!(Conversion::default(), Conversion::NoOp);
}

#[test]
fn test_conversion_partial_ord() {
    assert!(Conversion::NoOp < Conversion::Hard);
    assert!(Conversion::Hard < Conversion::Soft);
    assert_eq!(Conversion::NoOp, Conversion::NoOp);
}

#[test]
fn test_conversion_ord() {
    assert!(Conversion::NoOp < Conversion::Hard);
    assert!(Conversion::Hard < Conversion::Soft);
}

#[test]
fn test_option_conversion_partial_eq() {
    // Option<Conversion> is never equal to Conversion
    assert_eq!(Option::<Conversion>::None == Conversion::NoOp, false);
    assert_eq!(Some(Conversion::NoOp) == Conversion::NoOp, false);
}

#[test]
fn test_option_conversion_partial_cmp() {
    // Option<Conversion> partial cmp with Conversion
    assert_eq!(Option::<Conversion>::None.partial_cmp(&Conversion::NoOp), Some(Ordering::Greater));
    // NoOp < Hard < Soft
    assert_eq!(Some(Conversion::NoOp).partial_cmp(&Conversion::Hard), Some(Ordering::Less));
    assert_eq!(Some(Conversion::Hard).partial_cmp(&Conversion::Soft), Some(Ordering::Less));
    // Greater cases
    assert_eq!(Some(Conversion::Soft).partial_cmp(&Conversion::Hard), Some(Ordering::Greater));
}

#[test]
fn test_datatype_conv_path_noop() {
    let src = datatype(10);
    let dst = datatype(11);
    // Same type should be NoOp conversion: the library reports the two as equal
    assert_eq!(src.conv_path(&dst, || 1, || -1), Some(Conversion::NoOp));
    assert_eq!(src.conv_path(&src, || -1, || -1), Some(Conversion::NoOp));
}

#[test]
fn test_datatype_conv_path_soft() {
    let src = datatype(10);
    let dst = datatype(12);
    // Integer to integer: a compiled (hard) conversion
    let conv = src.conv_path(&dst, || 0, || 1);
    assert!(conv.is_some());
    // A conversion the library performs in software
    let conv2 = src.conv_path(&dst, || 0, || 0);
    assert!(conv2.is_some());
}

#[test]
fn test_datatype_to_descriptor_i32() {
    let desc = read_back(&int_info(4, true));
    assert!(matches!(desc, TypeDescriptor::Integer(_)));
}

#[test]
fn test_datatype_to_descriptor_u32() {
    let desc = read_back(&int_info(4, false));
    assert!(matches!(desc, TypeDescriptor::Unsigned(_)));
}

#[test]
fn test_datatype_to_descriptor_f64() {
    let desc = read_back(&DatatypeInfo::Float { size: 8 });
    assert!(matches!(desc, TypeDescriptor::Float(_)));
}

#[test]
fn test_datatype_to_descriptor_bool() {
    let desc = read_back(&bool_info());
    assert_eq!(desc, TypeDescriptor::Boolean);
}

// ---------------------------------------------------------------------------
// Further cases
// ---------------------------------------------------------------------------

#[test]
fn conv_path_classifies_compiler_answer() {
    let src = datatype(10);
    let dst = datatype(12);
    assert_eq!(src.conv_path(&dst, || 0, || 0), Some(Conversion::Soft));
    assert_eq!(src.conv_path(&dst, || 0, || 3), Some(Conversion::Hard));
    assert_eq!(src.conv_path(&dst, || -1, || -1), None);
}

#[test]
fn convertible_checks() {
    assert!(Datatype::check_conversion(Some(Conversion::NoOp), Conversion::Hard).is_ok());
    assert!(Datatype::check_conversion(Some(Conversion::Hard), Conversion::Hard).is_ok());
    match Datatype::check_conversion(Some(Conversion::Soft), Conversion::Hard) {
        Err(H5Error::Internal { message }) => {
            assert_eq!(message, "hard conversion path required; available: soft conversion")
        }
        _ => panic!("expected a refusal"),
    }
    match Datatype::check_conversion(None, Conversion::Soft) {
        Err(H5Error::Internal { message }) => assert_eq!(message, "no conversion paths found"),
        _ => panic!("expected a refusal"),
    }
    let src = datatype(10);
    let dst = datatype(12);
    assert!(src.ensure_convertible(&src, Conversion::NoOp, || -1, || -1).is_ok());
    assert!(src.ensure_convertible(&dst, Conversion::NoOp, || 0, || 1).is_err());
    assert!(src.ensure_convertible(&dst, Conversion::Soft, || 0, || 1).is_ok());
}

#[test]
fn byte_orders() {
    assert_eq!(ByteOrder::from(H5T_order_t::H5T_ORDER_LE), ByteOrder::LittleEndian);
    assert_eq!(ByteOrder::from(H5T_order_t::H5T_ORDER_BE), ByteOrder::BigEndian);
    assert_eq!(ByteOrder::from(H5T_order_t::H5T_ORDER_VAX), ByteOrder::Vax);
    assert_eq!(ByteOrder::from(H5T_order_t::H5T_ORDER_MIXED), ByteOrder::Mixed);
    assert_eq!(ByteOrder::from(H5T_order_t::H5T_ORDER_NONE), ByteOrder::Unordered);
    assert_eq!(ByteOrder::from(H5T_order_t::H5T_ORDER_ERROR), ByteOrder::Unordered);
}

#[test]
fn read_back_scalars_and_strings() {
    assert_eq!(read_back(&int_info(1, true)), TypeDescriptor::Integer(IntSize::U1));
    assert_eq!(read_back(&int_info(8, false)), TypeDescriptor::Unsigned(IntSize::U8));
    assert_eq!(read_back(&DatatypeInfo::Float { size: 4 }), TypeDescriptor::Float(FloatSize::U4));
    let s = |size, is_variable, cset| DatatypeInfo::String { size, is_variable, cset };
    assert_eq!(read_back(&s(32, false, H5T_cset_t::H5T_CSET_ASCII)), TypeDescriptor::FixedAscii(32));
    assert_eq!(read_back(&s(16, false, H5T_cset_t::H5T_CSET_UTF8)), TypeDescriptor::FixedUnicode(16));
    assert_eq!(read_back(&s(8, true, H5T_cset_t::H5T_CSET_ASCII)), TypeDescriptor::VarLenAscii);
    assert_eq!(read_back(&s(8, true, H5T_cset_t::H5T_CSET_UTF8)), TypeDescriptor::VarLenUnicode);
}

#[test]
fn read_back_refusals() {
    assert_eq!(refusal(&DatatypeInfo::Integer { size: 4, sign: H5T_sign_t::H5T_SGN_ERROR }), "Invalid sign of integer datatype");
    assert_eq!(refusal(&int_info(3, true)), "Invalid size of integer datatype");
    assert_eq!(refusal(&DatatypeInfo::Float { size: 2 }), "Invalid size of float datatype");
    assert_eq!(
        refusal(&DatatypeInfo::Enum { members: vec![], base: Box::new(DatatypeInfo::Float { size: 4 }) }),
        "Invalid base type for enum datatype"
    );
    assert_eq!(
        refusal(&DatatypeInfo::Array { ndims: 2, len: 3, base: Box::new(int_info(4, true)) }),
        "Multi-dimensional array datatypes are not supported"
    );
    assert_eq!(
        refusal(&DatatypeInfo::String { size: 4, is_variable: false, cset: H5T_cset_t::H5T_CSET_RESERVED }),
        "Invalid encoding for string datatype"
    );
    assert_eq!(refusal(&DatatypeInfo::Unsupported), "Unsupported datatype class");
    // The error of an element type comes through
    assert_eq!(
        refusal(&DatatypeInfo::VarLen { base: Box::new(DatatypeInfo::Float { size: 3 }) }),
        "Invalid size of float datatype"
    );
}

#[test]
fn read_back_enums() {
    let e = DatatypeInfo::Enum {
        members: vec![member("A", 0), member("B", 7)],
        base: Box::new(int_info(2, false)),
    };
    assert_eq!(
        read_back(&e),
        TypeDescriptor::Enum(EnumType { size: IntSize::U2, signed: false, members: vec![member("A", 0), member("B", 7)] })
    );
    // FALSE/TRUE over a wider base is an ordinary enumeration
    let wide = DatatypeInfo::Enum {
        members: vec![member("FALSE", 0), member("TRUE", 1)],
        base: Box::new(int_info(2, true)),
    };
    assert!(matches!(read_back(&wide), TypeDescriptor::Enum(_)));
    // ... and so are the members in another order
    let swapped = DatatypeInfo::Enum {
        members: vec![member("TRUE", 1), member("FALSE", 0)],
        base: Box::new(int_info(1, false)),
    };
    assert!(matches!(read_back(&swapped), TypeDescriptor::Enum(_)));
    let unsigned_bool = DatatypeInfo::Enum {
        members: vec![member("FALSE", 0), member("TRUE", 1)],
        base: Box::new(int_info(1, false)),
    };
    assert_eq!(read_back(&unsigned_bool), TypeDescriptor::Boolean);
}

#[test]
fn read_back_compound_and_arrays() {
    let info = DatatypeInfo::Compound {
        size: 16,
        members: vec![
            MemberInfo { name: "a".to_string(), offset: 0, ty: int_info(4, true) },
            MemberInfo {
                name: "b".to_string(),
                offset: 8,
                ty: DatatypeInfo::Array { ndims: 1, len: 2, base: Box::new(int_info(2, false)) },
            },
        ],
    };
    assert_eq!(
        read_back(&info),
        TypeDescriptor::Compound(CompoundType {
            fields: vec![
                CompoundField::new("a", TypeDescriptor::Integer(IntSize::U4), 0, 0),
                CompoundField::new(
                    "b",
                    TypeDescriptor::FixedArray(Box::new(TypeDescriptor::Unsigned(IntSize::U2)), 2),
                    8,
                    1
                ),
            ],
            size: 16,
        })
    );
    let bad = DatatypeInfo::Compound {
        size: 8,
        members: vec![
            MemberInfo { name: "a".to_string(), offset: 0, ty: int_info(4, true) },
            MemberInfo { name: "b".to_string(), offset: 4, ty: DatatypeInfo::Unsupported },
            MemberInfo { name: "c".to_string(), offset: 6, ty: int_info(5, true) },
        ],
    };
    assert_eq!(refusal(&bad), "Unsupported datatype class");
    assert_eq!(
        read_back(&DatatypeInfo::VarLen { base: Box::new(bool_info()) }),
        TypeDescriptor::VarLenArray(Box::new(TypeDescriptor::Boolean))
    );
}

fn copy_of(r: &DatatypeRecipe) -> PredefinedType {
    match r {
        DatatypeRecipe::Copy(p) => *p,
        _ => panic!("expected a copy of a predefined datatype"),
    }
}

#[test]
fn creation_recipes() {
    assert_eq!(copy_of(&Datatype::creation_recipe(&TypeDescriptor::Integer(IntSize::U4))), PredefinedType::StdI32);
    assert_eq!(copy_of(&Datatype::creation_recipe(&TypeDescriptor::Unsigned(IntSize::U1))), PredefinedType::StdU8);
    assert_eq!(copy_of(&Datatype::creation_recipe(&TypeDescriptor::Float(FloatSize::U8))), PredefinedType::IeeeF64);
    match Datatype::creation_recipe(&TypeDescriptor::Boolean) {
        DatatypeRecipe::Enum { base, members } => {
            assert_eq!(copy_of(&base), PredefinedType::NativeInt8);
            assert_eq!(members, vec![member("FALSE", 0), member("TRUE", 1)]);
        }
        _ => panic!("expected an enumeration"),
    }
    match Datatype::creation_recipe(&TypeDescriptor::VarLenUnicode) {
        DatatypeRecipe::String { cset, padding, size } => {
            assert_eq!(cset, H5T_cset_t::H5T_CSET_UTF8);
            assert_eq!(padding, StringPadding::NullTerminated);
            assert_eq!(size, None);
        }
        _ => panic!("expected a string"),
    }
    match Datatype::creation_recipe(&TypeDescriptor::FixedAscii(12)) {
        DatatypeRecipe::String { cset, padding, size } => {
            assert_eq!(cset, H5T_cset_t::H5T_CSET_ASCII);
            assert_eq!(padding, StringPadding::NullPadded);
            assert_eq!(size, Some(12));
        }
        _ => panic!("expected a string"),
    }
    let compound = TypeDescriptor::Compound(CompoundType {
        fields: vec![
            CompoundField::new("x", TypeDescriptor::Unsigned(IntSize::U2), 4, 0),
            CompoundField::new("y", TypeDescriptor::FixedArray(Box::new(TypeDescriptor::Integer(IntSize::U8)), 3), 8, 1),
        ],
        size: 40,
    });
    match Datatype::creation_recipe(&compound) {
        DatatypeRecipe::Compound { members, size } => {
            assert_eq!(size, 40);
            assert_eq!(members.len(), 2);
            assert_eq!((members[0].offset, members[0].grow_to), (4, 6));
            assert_eq!((members[1].offset, members[1].grow_to), (8, 32));
            assert_eq!(members[1].name, "y");
            match &members[1].ty {
                DatatypeRecipe::Array { elem, len } => {
                    assert_eq!(*len, 3);
                    assert_eq!(copy_of(elem), PredefinedType::StdI64);
                }
                _ => panic!("expected an array"),
            }
        }
        _ => panic!("expected a compound"),
    }
}
