use hdf5::h5type::{
    CompoundField, CompoundType, EnumMember, EnumType, FloatSize, H5Type, IntSize,
    TypeDescriptor as TD,
};

#[test]
fn test_scalar_types() {
    assert_eq!(bool::type_descriptor(), TD::Boolean);
    assert_eq!(i8::type_descriptor(), TD::Integer(IntSize::U1));
    assert_eq!(i16::type_descriptor(), TD::Integer(IntSize::U2));
    assert_eq!(i32::type_descriptor(), TD::Integer(IntSize::U4));
    assert_eq!(i64::type_descriptor(), TD::Integer(IntSize::U8));
    assert_eq!(u8::type_descriptor(), TD::Unsigned(IntSize::U1));
    assert_eq!(u16::type_descriptor(), TD::Unsigned(IntSize::U2));
    assert_eq!(u32::type_descriptor(), TD::Unsigned(IntSize::U4));
    assert_eq!(u64::type_descriptor(), TD::Unsigned(IntSize::U8));
    assert_eq!(bool::type_descriptor().size(), 1);
    assert_eq!(i16::type_descriptor().size(), 2);
    assert_eq!(u32::type_descriptor().size(), 4);
    assert_eq!(TD::Float(FloatSize::U8).size(), 8);
}

#[test]
fn h5type_test_ptr_sized_ints() {
    if std::mem::size_of::<usize>() == 8 {
        assert_eq!(isize::type_descriptor(), TD::Integer(IntSize::U8));
        assert_eq!(usize::type_descriptor(), TD::Unsigned(IntSize::U8));
        assert_eq!(usize::type_descriptor().size(), 8);
    } else {
        assert_eq!(isize::type_descriptor(), TD::Integer(IntSize::U4));
        assert_eq!(usize::type_descriptor(), TD::Unsigned(IntSize::U4));
        assert_eq!(usize::type_descriptor().size(), 4);
    }
}

#[test]
fn test_fixed_array() {
    type S = [T; 4];
    type T = [u32; 256];
    assert_eq!(T::type_descriptor(), TD::FixedArray(Box::new(TD::Unsigned(IntSize::U4)), 256));
    assert_eq!(S::type_descriptor(), TD::FixedArray(Box::new(T::type_descriptor()), 4));
}

#[test]
fn test_intsize_from_int_valid() {
    assert_eq!(IntSize::from_int(1), Some(IntSize::U1));
    assert_eq!(IntSize::from_int(2), Some(IntSize::U2));
    assert_eq!(IntSize::from_int(4), Some(IntSize::U4));
    assert_eq!(IntSize::from_int(8), Some(IntSize::U8));
}

#[test]
fn test_intsize_from_int_invalid() {
    assert_eq!(IntSize::from_int(0), None);
    assert_eq!(IntSize::from_int(3), None);
    assert_eq!(IntSize::from_int(5), None);
    assert_eq!(IntSize::from_int(7), None);
    assert_eq!(IntSize::from_int(9), None);
    assert_eq!(IntSize::from_int(16), None);
    assert_eq!(IntSize::from_int(255), None);
}

#[test]
fn test_floatsize_from_int_valid() {
    assert_eq!(FloatSize::from_int(4), Some(FloatSize::U4));
    assert_eq!(FloatSize::from_int(8), Some(FloatSize::U8));
}

#[test]
fn test_floatsize_from_int_invalid() {
    assert_eq!(FloatSize::from_int(0), None);
    assert_eq!(FloatSize::from_int(1), None);
    assert_eq!(FloatSize::from_int(3), None);
    assert_eq!(FloatSize::from_int(5), None);
    assert_eq!(FloatSize::from_int(16), None);
}

#[test]
fn test_intsize_ord() {
    assert!(IntSize::U1 < IntSize::U2);
    assert!(IntSize::U2 < IntSize::U4);
    assert!(IntSize::U4 < IntSize::U8);
    assert_eq!(IntSize::U1, IntSize::U1);
}

#[test]
fn test_floatsize_ord() {
    assert!(FloatSize::U4 < FloatSize::U8);
    assert_eq!(FloatSize::U4, FloatSize::U4);
}

#[test]
fn test_enum_member() {
    let member = CompoundField::new("test", TD::Unsigned(IntSize::U4), 0, 0);
    assert_eq!(member.name, "test");
    assert_eq!(member.ty, TD::Unsigned(IntSize::U4));
    assert_eq!(member.offset, 0);
    assert_eq!(member.index, 0);
}

#[test]
fn test_enum_type_base_type() {
    let enum_type = EnumType { size: IntSize::U4, signed: false, members: vec![] };
    assert_eq!(enum_type.base_type(), TD::Unsigned(IntSize::U4));

    let signed_enum = EnumType { size: IntSize::U2, signed: true, members: vec![] };
    assert_eq!(signed_enum.base_type(), TD::Integer(IntSize::U2));
}

#[test]
fn test_compound_type_new() {
    let field1 = CompoundField::new("a", TD::Integer(IntSize::U4), 0, 0);
    let field2 = CompoundField::new("b", TD::Float(FloatSize::U8), 4, 1);
    let compound = CompoundType { fields: vec![field1, field2], size: 12 };
    assert_eq!(compound.fields.len(), 2);
    assert_eq!(compound.size, 12);
}

#[test]
fn test_compound_type_to_c_repr_single_field() {
    let field = CompoundField::new("x", TD::Integer(IntSize::U4), 0, 0);
    let compound = CompoundType { fields: vec![field], size: 4 };
    let c_repr = compound.to_c_repr();
    assert_eq!(c_repr.size, 4);
    assert_eq!(c_repr.fields[0].offset, 0);
}

#[test]
fn test_compound_type_to_packed_repr() {
    let field1 = CompoundField::typed::<u8>("a", 0, 0);
    let field2 = CompoundField::typed::<u64>("b", 8, 1);
    let compound = CompoundType { fields: vec![field1, field2], size: 16 };
    let packed = compound.to_packed_repr();
    assert_eq!(packed.size, 9); // 1 + 8, no padding
    assert_eq!(packed.fields[0].offset, 0);
    assert_eq!(packed.fields[1].offset, 1);
}

#[test]
fn test_type_descriptor_size_fixed_array() {
    let td = TD::FixedArray(Box::new(TD::Integer(IntSize::U4)), 10);
    assert_eq!(td.size(), 40);
}

#[test]
fn test_type_descriptor_size_varlen_array() {
    let td = TD::VarLenArray(Box::new(TD::Integer(IntSize::U4)));
    assert_eq!(td.size(), 2 * std::mem::size_of::<usize>());
}

#[test]
fn test_type_descriptor_size_fixed_string() {
    let td = TD::FixedAscii(32);
    assert_eq!(td.size(), 32);
    let td = TD::FixedUnicode(64);
    assert_eq!(td.size(), 64);
}

#[test]
fn test_type_descriptor_size_varlen_string() {
    let td = TD::VarLenAscii;
    assert_eq!(td.size(), std::mem::size_of::<&u8>());
    let td = TD::VarLenUnicode;
    assert_eq!(td.size(), std::mem::size_of::<&u8>());
}

#[test]
fn test_type_descriptor_c_alignment_primitive() {
    assert_eq!(TD::Integer(IntSize::U1).c_alignment(), 1);
    assert_eq!(TD::Integer(IntSize::U2).c_alignment(), 2);
    assert_eq!(TD::Integer(IntSize::U4).c_alignment(), 4);
    assert_eq!(TD::Integer(IntSize::U8).c_alignment(), 8);
    assert_eq!(TD::Unsigned(IntSize::U4).c_alignment(), 4);
    assert_eq!(TD::Float(FloatSize::U8).c_alignment(), 8);
    assert_eq!(TD::Boolean.c_alignment(), 1);
}

#[test]
fn test_type_descriptor_c_alignment_array() {
    let td = TD::FixedArray(Box::new(TD::Integer(IntSize::U4)), 10);
    assert_eq!(td.c_alignment(), 4);
    let td = TD::FixedArray(Box::new(TD::Integer(IntSize::U8)), 5);
    assert_eq!(td.c_alignment(), 8);
}

#[test]
fn test_type_descriptor_c_alignment_compound() {
    let field1 = CompoundField::typed::<u8>("a", 0, 0);
    let field2 = CompoundField::typed::<u64>("b", 8, 1);
    let compound = CompoundType { fields: vec![field1, field2], size: 16 };
    let td = TD::Compound(compound);
    assert_eq!(td.c_alignment(), 8); // max alignment
}

#[test]
fn test_type_descriptor_to_c_repr_preserves_primitives() {
    assert_eq!(TD::Integer(IntSize::U4).to_c_repr(), TD::Integer(IntSize::U4));
    assert_eq!(TD::Float(FloatSize::U8).to_c_repr(), TD::Float(FloatSize::U8));
    assert_eq!(TD::Boolean.to_c_repr(), TD::Boolean);
}

#[test]
fn test_type_descriptor_to_packed_repr_preserves_primitives() {
    assert_eq!(TD::Integer(IntSize::U4).to_packed_repr(), TD::Integer(IntSize::U4));
    assert_eq!(TD::Float(FloatSize::U8).to_packed_repr(), TD::Float(FloatSize::U8));
}

#[test]
fn test_type_descriptor_display_integer() {
    assert_eq!(TD::Integer(IntSize::U1).to_string(), "int8");
    assert_eq!(TD::Integer(IntSize::U2).to_string(), "int16");
    assert_eq!(TD::Integer(IntSize::U4).to_string(), "int32");
    assert_eq!(TD::Integer(IntSize::U8).to_string(), "int64");
}

#[test]
fn test_type_descriptor_display_unsigned() {
    assert_eq!(TD::Unsigned(IntSize::U1).to_string(), "uint8");
    assert_eq!(TD::Unsigned(IntSize::U2).to_string(), "uint16");
    assert_eq!(TD::Unsigned(IntSize::U4).to_string(), "uint32");
    assert_eq!(TD::Unsigned(IntSize::U8).to_string(), "uint64");
}

#[test]
fn test_type_descriptor_display_float() {
    assert_eq!(TD::Float(FloatSize::U4).to_string(), "float32");
    assert_eq!(TD::Float(FloatSize::U8).to_string(), "float64");
}

#[test]
fn test_type_descriptor_display_bool() {
    assert_eq!(TD::Boolean.to_string(), "bool");
}

#[test]
fn test_type_descriptor_display_enum() {
    let enum_type = EnumType { size: IntSize::U4, signed: false, members: vec![] };
    assert_eq!(TD::Enum(enum_type).to_string(), "enum (uint32)");
}

#[test]
fn test_type_descriptor_display_compound() {
    let compound = CompoundType { fields: vec![CompoundField::typed::<u32>("x", 0, 0)], size: 4 };
    assert_eq!(TD::Compound(compound).to_string(), "compound (1 fields)");
}

#[test]
fn test_type_descriptor_display_fixed_array() {
    let td = TD::FixedArray(Box::new(TD::Integer(IntSize::U4)), 10);
    assert_eq!(td.to_string(), "[int32; 10]");
}

#[test]
fn test_type_descriptor_display_varlen_array() {
    let td = TD::VarLenArray(Box::new(TD::Integer(IntSize::U4)));
    assert_eq!(td.to_string(), "[int32] (var len)");
}

#[test]
fn test_type_descriptor_display_strings() {
    assert_eq!(TD::FixedAscii(32).to_string(), "string (len 32)");
    assert_eq!(TD::FixedUnicode(64).to_string(), "unicode (len 64)");
    assert_eq!(TD::VarLenAscii.to_string(), "string (var len)");
    assert_eq!(TD::VarLenUnicode.to_string(), "unicode (var len)");
}

#[test]
fn test_compound_field_typed() {
    let field = CompoundField::typed::<u32>("my_field", 8, 1);
    assert_eq!(field.name, "my_field");
    assert_eq!(field.ty, TD::Unsigned(IntSize::U4));
    assert_eq!(field.offset, 8);
    assert_eq!(field.index, 1);
}

#[test]
fn test_compound_type_with_multiple_fields_to_c_repr() {
    let fields = vec![
        CompoundField::typed::<u8>("a", 0, 0),
        CompoundField::typed::<u32>("b", 4, 1),
        CompoundField::typed::<u16>("c", 8, 2),
    ];
    let compound = CompoundType { fields, size: 12 };
    let c_repr = compound.to_c_repr();
    // C repr should align fields properly
    assert_eq!(c_repr.fields[0].offset, 0);
    assert!(c_repr.fields[1].offset >= 4);
    assert!(c_repr.fields[2].offset >= c_repr.fields[1].offset + 4);
}

// ---------------------------------------------------------------------------
// Further cases
// ---------------------------------------------------------------------------

fn field(name: &str, ty: TD, offset: usize, index: usize) -> CompoundField {
    CompoundField::new(name, ty, offset, index)
}

#[test]
fn c_repr_orders_members_by_index_and_pads() {
    // i8 at index 0, u64 at index 1, f32 at index 2, bool at index 3, given out of order
    let compound = CompoundType {
        fields: vec![
            field("1", TD::Unsigned(IntSize::U8), 0, 1),
            field("2", TD::Float(FloatSize::U4), 8, 2),
            field("0", TD::Integer(IntSize::U1), 12, 0),
            field("3", TD::Boolean, 13, 3),
        ],
        size: 16,
    };
    let c = compound.to_c_repr();
    let names: Vec<&str> = c.fields.iter().map(|f| f.name.as_str()).collect();
    assert_eq!(names, vec!["0", "1", "2", "3"]);
    let offsets: Vec<usize> = c.fields.iter().map(|f| f.offset).collect();
    assert_eq!(offsets, vec![0, 8, 16, 20]);
    assert_eq!(c.size, 24);

    let p = compound.to_packed_repr();
    let offsets: Vec<usize> = p.fields.iter().map(|f| f.offset).collect();
    assert_eq!(offsets, vec![0, 1, 9, 13]);
    assert_eq!(p.size, 14);
}

#[test]
fn c_repr_of_empty_compound_keeps_size() {
    let compound = CompoundType { fields: vec![], size: 7 };
    assert_eq!(compound.to_c_repr().size, 7);
    assert_eq!(compound.to_packed_repr().size, 0);
}

#[test]
fn c_repr_of_nested_compound() {
    let inner = TD::Compound(CompoundType {
        fields: vec![field("a", TD::Unsigned(IntSize::U1), 1, 0), field("b", TD::Unsigned(IntSize::U2), 8, 1)],
        size: 16,
    });
    let outer = TD::FixedArray(Box::new(inner), 3);
    let c = outer.to_c_repr();
    match &c {
        TD::FixedArray(t, 3) => match &**t {
            TD::Compound(ct) => {
                assert_eq!(ct.fields[0].offset, 0);
                assert_eq!(ct.fields[1].offset, 2);
                assert_eq!(ct.size, 4);
            }
            _ => panic!("expected a compound"),
        },
        _ => panic!("expected an array"),
    }
    assert_eq!(c.size(), 12);
    assert_eq!(c.c_alignment(), 2);
}

#[test]
fn sort_is_stable_for_equal_indices() {
    let compound = CompoundType {
        fields: vec![field("x", TD::Boolean, 0, 1), field("y", TD::Boolean, 1, 0), field("z", TD::Boolean, 2, 1)],
        size: 3,
    };
    let p = compound.to_packed_repr();
    let names: Vec<&str> = p.fields.iter().map(|f| f.name.as_str()).collect();
    assert_eq!(names, vec!["y", "x", "z"]);
}

#[test]
fn enum_display_uses_signed_base() {
    let e = EnumType { size: IntSize::U1, signed: true, members: vec![EnumMember { name: "A".to_string(), value: 0 }] };
    assert_eq!(TD::Enum(e).to_string(), "enum (int8)");
}

#[test]
fn nested_array_display_and_size() {
    let td = TD::FixedArray(Box::new(TD::FixedArray(Box::new(TD::Unsigned(IntSize::U2)), 3)), 2);
    assert_eq!(td.to_string(), "[[uint16; 3]; 2]");
    assert_eq!(td.size(), 12);
    assert_eq!(TD::Compound(CompoundType { fields: vec![], size: 0 }).to_string(), "compound (0 fields)");
}

#[test]
fn clone_keeps_descriptor() {
    let td = TD::Compound(CompoundType {
        fields: vec![field("a", TD::VarLenAscii, 0, 0)],
        size: 8,
    });
    assert_eq!(td.clone(), td);
}

#[test]
fn representations_are_normal_forms() {
    let td = TD::Compound(CompoundType {
        fields: vec![
            field("b", TD::Unsigned(IntSize::U8), 3, 2),
            field("a", TD::FixedArray(Box::new(TD::Compound(CompoundType {
                fields: vec![field("x", TD::Boolean, 9, 1), field("y", TD::Integer(IntSize::U4), 0, 0)],
                size: 10,
            })), 2), 0, 1),
            field("c", TD::Integer(IntSize::U2), 40, 0),
        ],
        size: 64,
    });
    let c = td.to_c_repr();
    assert_eq!(c.to_c_repr(), c);
    let p = td.to_packed_repr();
    assert_eq!(p.to_packed_repr(), p);
    assert_eq!(p.size(), 2 + 2 * 5 + 8);
    assert_eq!(c.size(), 24 + 8);
}
