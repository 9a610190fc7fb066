use vstd::prelude::*;

use crate::text::{decimal, push_decimal};

use crate::layout::{
    pointer_bytes,
    c_layout, fields_alignment, fields_c_repr, fields_packed_repr, lemma_alignment_bounds,
    lemma_c_layout_len, lemma_c_layout_prefix, lemma_c_layout_step, lemma_fields_c_repr,
    lemma_fields_packed_repr, lemma_insert_by_index_at, lemma_packed_layout_prefix,
    lemma_packed_layout_step, lemma_sort_by_index_len, lemma_sort_by_index_step, packed_layout,
    round_up_usize, sort_by_index,
};

verus! {

broadcast use vstd::layout::layout_of_primitives;

/// Width in bytes of an HDF5 integer type.
#[derive(Clone, Copy, Debug, PartialEq, Eq, PartialOrd, Ord)]
pub enum IntSize {
    U1,
    U2,
    U4,
    U8,
}

impl IntSize {
    /// The number of bytes that this width stands for.
    pub open spec fn bytes(self) -> nat {
        match self {
            IntSize::U1 => 1,
            IntSize::U2 => 2,
            IntSize::U4 => 4,
            IntSize::U8 => 8,
        }
    }

    /// Picks the width of `size` bytes, if there is one.
    pub fn from_int(size: usize) -> (res: Option<IntSize>)
        ensures
            res matches Some(s) ==> s.bytes() == size,
            res is None <==> !(size == 1 || size == 2 || size == 4 || size == 8),
    {
        if size == 1 {
            Some(IntSize::U1)
        } else if size == 2 {
            Some(IntSize::U2)
        } else if size == 4 {
            Some(IntSize::U4)
        } else if size == 8 {
            Some(IntSize::U8)
        } else {
            None
        }
    }

    /// The number of bytes, as a machine integer.
    pub fn byte_count(self) -> (n: usize)
        ensures
            n == self.bytes(),
    {
        match self {
            IntSize::U1 => 1,
            IntSize::U2 => 2,
            IntSize::U4 => 4,
            IntSize::U8 => 8,
        }
    }
}

/// An integer width is determined by its number of bytes, so that `from_int` of a width's
/// `byte_count` gives that width back.
pub proof fn law_int_size_bytes_determine(s: IntSize, t: IntSize)
    ensures
        s.bytes() == t.bytes() ==> s == t,
{
}

/// Width in bytes of an HDF5 floating-point type.
#[derive(Clone, Copy, Debug, PartialEq, Eq, PartialOrd, Ord)]
pub enum FloatSize {
    U4,
    U8,
}

impl FloatSize {
    /// The number of bytes that this width stands for.
    pub open spec fn bytes(self) -> nat {
        match self {
            FloatSize::U4 => 4,
            FloatSize::U8 => 8,
        }
    }

    /// Picks the floating-point width of `size` bytes, if there is one.
    pub fn from_int(size: usize) -> (res: Option<FloatSize>)
        ensures
            res matches Some(s) ==> s.bytes() == size,
            res is None <==> !(size == 4 || size == 8),
    {
        if size == 4 {
            Some(FloatSize::U4)
        } else if size == 8 {
            Some(FloatSize::U8)
        } else {
            None
        }
    }

    /// The number of bytes, as a machine integer.
    pub fn byte_count(self) -> (n: usize)
        ensures
            n == self.bytes(),
    {
        match self {
            FloatSize::U4 => 4,
            FloatSize::U8 => 8,
        }
    }
}

/// A float width is determined by its number of bytes, so that `from_int` of a width's
/// `byte_count` gives that width back.
pub proof fn law_float_size_bytes_determine(s: FloatSize, t: FloatSize)
    ensures
        s.bytes() == t.bytes() ==> s == t,
{
}

/// A named value of an enumeration type.
#[derive(Debug, PartialEq, Eq)]
pub struct EnumMember {
    pub name: String,
    pub value: u64,
}

/// An enumeration type: an integer base type and its named values.
#[derive(Debug, PartialEq, Eq)]
pub struct EnumType {
    pub size: IntSize,
    pub signed: bool,
    pub members: Vec<EnumMember>,
}

/// A member of a compound type: its name, type, byte offset and declaration index.
#[derive(Debug, PartialEq, Eq)]
pub struct CompoundField {
    pub name: String,
    pub ty: TypeDescriptor,
    pub offset: usize,
    pub index: usize,
}

/// A compound (record) type: its members and its total size in bytes.
#[derive(Debug, PartialEq, Eq)]
pub struct CompoundType {
    pub fields: Vec<CompoundField>,
    pub size: usize,
}

/// The description of an HDF5 datatype.
#[derive(Debug, PartialEq, Eq)]
pub enum TypeDescriptor {
    Integer(IntSize),
    Unsigned(IntSize),
    Float(FloatSize),
    Boolean,
    Enum(EnumType),
    Compound(CompoundType),
    FixedArray(Box<TypeDescriptor>, usize),
    FixedAscii(usize),
    FixedUnicode(usize),
    VarLenArray(Box<TypeDescriptor>),
    VarLenAscii,
    VarLenUnicode,
}

// ---------------------------------------------------------------------------
// Mathematical models
// ---------------------------------------------------------------------------

/// Model of an enumeration member.
#[verifier::ext_equal]
pub struct MemberModel {
    pub name: Seq<char>,
    pub value: u64,
}

/// Model of an enumeration type.
#[verifier::ext_equal]
pub struct EnumModel {
    pub size: IntSize,
    pub signed: bool,
    pub members: Seq<MemberModel>,
}

/// Model of a compound member.
#[verifier::ext_equal]
pub struct FieldModel {
    pub name: Seq<char>,
    pub ty: TypeModel,
    pub offset: usize,
    pub index: usize,
}

/// Model of a compound type.
#[verifier::ext_equal]
pub struct CompoundModel {
    pub fields: Seq<FieldModel>,
    pub size: usize,
}

/// Model of a type descriptor: the same tree, with names as character sequences.
#[verifier::ext_equal]
pub enum TypeModel {
    Integer(IntSize),
    Unsigned(IntSize),
    Float(FloatSize),
    Boolean,
    Enum(EnumModel),
    Compound(CompoundModel),
    FixedArray(Box<TypeModel>, usize),
    FixedAscii(usize),
    FixedUnicode(usize),
    VarLenArray(Box<TypeModel>),
    VarLenAscii,
    VarLenUnicode,
}

pub open spec fn members_model(ms: Seq<EnumMember>) -> Seq<MemberModel> {
    ms.map_values(|m: EnumMember| MemberModel { name: m.name@, value: m.value })
}

pub open spec fn descriptor_model(t: TypeDescriptor) -> TypeModel
    decreases t,
{
    match t {
        TypeDescriptor::Integer(s) => TypeModel::Integer(s),
        TypeDescriptor::Unsigned(s) => TypeModel::Unsigned(s),
        TypeDescriptor::Float(s) => TypeModel::Float(s),
        TypeDescriptor::Boolean => TypeModel::Boolean,
        TypeDescriptor::Enum(e) => TypeModel::Enum(
            EnumModel { size: e.size, signed: e.signed, members: members_model(e.members@) },
        ),
        TypeDescriptor::Compound(c) => TypeModel::Compound(
            CompoundModel { fields: fields_model(c.fields@), size: c.size },
        ),
        TypeDescriptor::FixedArray(b, n) => TypeModel::FixedArray(Box::new(descriptor_model(*b)), n),
        TypeDescriptor::FixedAscii(n) => TypeModel::FixedAscii(n),
        TypeDescriptor::FixedUnicode(n) => TypeModel::FixedUnicode(n),
        TypeDescriptor::VarLenArray(b) => TypeModel::VarLenArray(Box::new(descriptor_model(*b))),
        TypeDescriptor::VarLenAscii => TypeModel::VarLenAscii,
        TypeDescriptor::VarLenUnicode => TypeModel::VarLenUnicode,
    }
}

pub open spec fn fields_model(fs: Seq<CompoundField>) -> Seq<FieldModel>
    decreases fs,
{
    if fs.len() == 0 {
        seq![]
    } else {
        fields_model(fs.drop_last()).push(field_model(fs.last()))
    }
}

pub open spec fn field_model(f: CompoundField) -> FieldModel
    decreases f,
{
    FieldModel { name: f.name@, ty: descriptor_model(f.ty), offset: f.offset, index: f.index }
}

impl View for EnumMember {
    type V = MemberModel;

    open spec fn view(&self) -> MemberModel {
        MemberModel { name: self.name@, value: self.value }
    }
}

impl View for EnumType {
    type V = EnumModel;

    open spec fn view(&self) -> EnumModel {
        EnumModel { size: self.size, signed: self.signed, members: members_model(self.members@) }
    }
}

impl View for CompoundField {
    type V = FieldModel;

    open spec fn view(&self) -> FieldModel {
        field_model(*self)
    }
}

impl View for CompoundType {
    type V = CompoundModel;

    open spec fn view(&self) -> CompoundModel {
        CompoundModel { fields: fields_model(self.fields@), size: self.size }
    }
}

impl View for TypeDescriptor {
    type V = TypeModel;

    open spec fn view(&self) -> TypeModel {
        descriptor_model(*self)
    }
}

impl TypeDescriptor {
    /// The size in bytes of a value of this type, or `None` when the size of an array
    /// within it does not fit in a `usize`.
    pub fn checked_size(&self) -> (r: Option<usize>)
        ensures
            r is Some <==> self@.size_fits(),
            r matches Some(n) ==> n == self@.byte_size(),
        decreases self,
    {
        match self {
            TypeDescriptor::FixedArray(ty, len) => match ty.checked_size() {
                Some(n) => n.checked_mul(*len),
                None => None,
            },
            _ => {
                proof {
                    lemma_byte_size_fits_unless_array(self@);
                }
                Some(self.size())
            },
        }
    }
}

/// Only arrays can have a size beyond the range of a `usize`.
proof fn lemma_byte_size_fits_unless_array(t: TypeModel)
    requires
        !(t is FixedArray),
    ensures
        t.size_fits(),
{
    broadcast use vstd::layout::layout_of_primitives;

    assert(pointer_bytes() == 4 || pointer_bytes() == 8) by {
        assert(vstd::layout::size_of::<usize>() * 8 == usize::BITS);
    }
}

impl TypeDescriptor {
    /// The size in bytes of a value of this type.
    pub fn size(&self) -> (n: usize)
        requires
            self@.size_fits(),
        ensures
            n == self@.byte_size(),
        decreases self,
    {
        match self {
            TypeDescriptor::Integer(s) => s.byte_count(),
            TypeDescriptor::Unsigned(s) => s.byte_count(),
            TypeDescriptor::Float(s) => s.byte_count(),
            TypeDescriptor::Boolean => 1,
            TypeDescriptor::Enum(e) => e.size.byte_count(),
            TypeDescriptor::Compound(c) => c.size,
            TypeDescriptor::FixedArray(ty, len) => ty.size() * *len,
            TypeDescriptor::FixedAscii(len) => *len,
            TypeDescriptor::FixedUnicode(len) => *len,
            TypeDescriptor::VarLenArray(_) => 2 * std::mem::size_of::<usize>(),
            TypeDescriptor::VarLenAscii => std::mem::size_of::<usize>(),
            TypeDescriptor::VarLenUnicode => std::mem::size_of::<usize>(),
        }
    }

    /// The alignment that a C compiler gives this type.
    pub fn c_alignment(&self) -> (a: usize)
        ensures
            a == self@.alignment(),
        decreases self,
    {
        proof {
            lemma_alignment_bounds(self@);
        }
        match self {
            TypeDescriptor::Compound(c) => {
                let n = c.fields.len();
                proof {
                    lemma_fields_model(c.fields@);
                }
                if n == 0 {
                    return 1;
                }
                let ghost fm = fields_model(c.fields@);
                proof {
                    lemma_fields_model(c.fields@);
                }
                let mut best: usize = 0;
                let mut i: usize = 0;
                while i < n
                    invariant
                        *self is Compound,
                        (*self)->Compound_0 == *c,
                        n == c.fields.len(),
                        fm == fields_model(c.fields@),
                        fm.len() == n,
                        forall|j: int| 0 <= j < n ==> #[trigger] fm[j] == field_model(c.fields@[j]),
                        0 <= i <= n,
                        best == fields_alignment(fm.take(i as int)),
                        i > 0 ==> 1 <= best <= 8,
                    decreases n - i,
                {
                    proof {
                        assert(decreases_to!(*self => (*self)->Compound_0));
                        assert(decreases_to!(*c => c.fields));
                        assert(decreases_to!(c.fields => c.fields@));
                        assert(decreases_to!(c.fields@ => c.fields@[i as int]));
                        assert(decreases_to!(c.fields@[i as int] => c.fields@[i as int].ty));
                    }
                    let a = c.fields[i].ty.c_alignment();
                    proof {
                        lemma_alignment_bounds(c.fields@[i as int].ty@);
                        let t = fm.take(i as int + 1);
                        assert(t.drop_last() =~= fm.take(i as int));
                        assert(t.last() == fm[i as int]);
                    }
                    if a > best {
                        best = a;
                    }
                    i = i + 1;
                }
                assert(fm.take(n as int) =~= fm);
                best
            },
            TypeDescriptor::FixedArray(ty, _) => ty.c_alignment(),
            TypeDescriptor::FixedAscii(_) => 1,
            TypeDescriptor::FixedUnicode(_) => 1,
            TypeDescriptor::VarLenArray(_) => std::mem::size_of::<usize>(),
            _ => self.size(),
        }
    }
}

impl TypeModel {
    /// The name of an integer type of width `size`.
    pub open spec fn int_name(size: IntSize, signed: bool) -> Seq<char> {
        match (signed, size) {
            (true, IntSize::U1) => "int8"@,
            (true, IntSize::U2) => "int16"@,
            (true, IntSize::U4) => "int32"@,
            (true, IntSize::U8) => "int64"@,
            (false, IntSize::U1) => "uint8"@,
            (false, IntSize::U2) => "uint16"@,
            (false, IntSize::U4) => "uint32"@,
            (false, IntSize::U8) => "uint64"@,
        }
    }

    /// The text that names the type: integer and float types by width, an enumeration by
    /// its base type, a compound by its number of members, arrays and strings by their
    /// element type and length.
    pub open spec fn text(self) -> Seq<char>
        decreases self,
    {
        match self {
            TypeModel::Integer(s) => Self::int_name(s, true),
            TypeModel::Unsigned(s) => Self::int_name(s, false),
            TypeModel::Float(FloatSize::U4) => "float32"@,
            TypeModel::Float(FloatSize::U8) => "float64"@,
            TypeModel::Boolean => "bool"@,
            TypeModel::Enum(e) => "enum ("@ + Self::int_name(e.size, e.signed) + ")"@,
            TypeModel::Compound(c) => "compound ("@ + decimal(c.fields.len()) + " fields)"@,
            TypeModel::FixedArray(t, n) => "["@ + t.text() + "; "@ + decimal(n as nat) + "]"@,
            TypeModel::FixedAscii(n) => "string (len "@ + decimal(n as nat) + ")"@,
            TypeModel::FixedUnicode(n) => "unicode (len "@ + decimal(n as nat) + ")"@,
            TypeModel::VarLenArray(t) => "["@ + t.text() + "] (var len)"@,
            TypeModel::VarLenAscii => "string (var len)"@,
            TypeModel::VarLenUnicode => "unicode (var len)"@,
        }
    }
}

/// The name of an integer type of width `size`.
fn int_name(size: IntSize, signed: bool) -> (s: &'static str)
    ensures
        s@ == TypeModel::int_name(size, signed),
{
    match (signed, size) {
        (true, IntSize::U1) => "int8",
        (true, IntSize::U2) => "int16",
        (true, IntSize::U4) => "int32",
        (true, IntSize::U8) => "int64",
        (false, IntSize::U1) => "uint8",
        (false, IntSize::U2) => "uint16",
        (false, IntSize::U4) => "uint32",
        (false, IntSize::U8) => "uint64",
    }
}

impl TypeDescriptor {
    /// The text that names the type, as `Display` shows it.
    pub fn to_string(&self) -> (s: String)
        ensures
            s@ == self@.text(),
    {
        let mut out = String::new();
        self.write_text(&mut out);
        assert(out@ =~= self@.text());
        out
    }

    /// Appends the text that names the type to `out`.
    fn write_text(&self, out: &mut String)
        ensures
            final(out)@ == old(out)@ + self@.text(),
        decreases self,
    {
        match self {
            TypeDescriptor::Integer(s) => out.append(int_name(*s, true)),
            TypeDescriptor::Unsigned(s) => out.append(int_name(*s, false)),
            TypeDescriptor::Float(FloatSize::U4) => out.append("float32"),
            TypeDescriptor::Float(FloatSize::U8) => out.append("float64"),
            TypeDescriptor::Boolean => out.append("bool"),
            TypeDescriptor::Enum(e) => {
                out.append("enum (");
                out.append(int_name(e.size, e.signed));
                out.append(")");
            },
            TypeDescriptor::Compound(c) => {
                out.append("compound (");
                push_decimal(out, c.fields.len() as u64);
                out.append(" fields)");
                proof {
                    lemma_fields_model(c.fields@);
                }
            },
            TypeDescriptor::FixedArray(t, n) => {
                out.append("[");
                t.write_text(out);
                out.append("; ");
                push_decimal(out, *n as u64);
                out.append("]");
            },
            TypeDescriptor::FixedAscii(n) => {
                out.append("string (len ");
                push_decimal(out, *n as u64);
                out.append(")");
            },
            TypeDescriptor::FixedUnicode(n) => {
                out.append("unicode (len ");
                push_decimal(out, *n as u64);
                out.append(")");
            },
            TypeDescriptor::VarLenArray(t) => {
                out.append("[");
                t.write_text(out);
                out.append("] (var len)");
            },
            TypeDescriptor::VarLenAscii => out.append("string (var len)"),
            TypeDescriptor::VarLenUnicode => out.append("unicode (var len)"),
        }
        assert(out@ =~= old(out)@ + self@.text());
    }
}

impl EnumType {
    /// The integer type that the enumeration is stored as.
    pub open spec fn spec_base_type(self) -> TypeModel {
        if self.signed {
            TypeModel::Integer(self.size)
        } else {
            TypeModel::Unsigned(self.size)
        }
    }

    /// The integer type that the enumeration is stored as.
    pub fn base_type(&self) -> (t: TypeDescriptor)
        ensures
            t@ == self.spec_base_type(),
    {
        if self.signed {
            TypeDescriptor::Integer(self.size)
        } else {
            TypeDescriptor::Unsigned(self.size)
        }
    }
}

impl CompoundField {
    /// A member called `name` of type `ty` at byte `offset`, declared at position `index`.
    pub fn new(name: &str, ty: TypeDescriptor, offset: usize, index: usize) -> (f: CompoundField)
        ensures
            f.name@ == name@,
            f.ty == ty,
            f.offset == offset,
            f.index == index,
    {
        CompoundField { name: name.to_owned(), ty, offset, index }
    }

    /// A member of the type that `T` describes.
    pub fn typed<T: H5Type>(name: &str, offset: usize, index: usize) -> (f: CompoundField)
        ensures
            f.name@ == name@,
            f.ty@ == T::described(),
            f.offset == offset,
            f.index == index,
    {
        Self::new(name, T::type_descriptor(), offset, index)
    }
}

/// Types that can be stored in and read from HDF5 datasets: each describes its own layout.
///
/// An implementation must describe the memory layout of the type exactly: its size, its
/// alignment and, for compound types, the offsets of its members.
pub trait H5Type {
    /// The description of this type.
    spec fn described() -> TypeModel;

    /// Returns the type descriptor for this type.
    fn type_descriptor() -> (td: TypeDescriptor)
        ensures
            td@ == Self::described(),
    ;
}

impl H5Type for i8 {
    open spec fn described() -> TypeModel {
        TypeModel::Integer(IntSize::U1)
    }

    fn type_descriptor() -> (td: TypeDescriptor) {
        TypeDescriptor::Integer(IntSize::U1)
    }
}

impl H5Type for i16 {
    open spec fn described() -> TypeModel {
        TypeModel::Integer(IntSize::U2)
    }

    fn type_descriptor() -> (td: TypeDescriptor) {
        TypeDescriptor::Integer(IntSize::U2)
    }
}

impl H5Type for i32 {
    open spec fn described() -> TypeModel {
        TypeModel::Integer(IntSize::U4)
    }

    fn type_descriptor() -> (td: TypeDescriptor) {
        TypeDescriptor::Integer(IntSize::U4)
    }
}

impl H5Type for i64 {
    open spec fn described() -> TypeModel {
        TypeModel::Integer(IntSize::U8)
    }

    fn type_descriptor() -> (td: TypeDescriptor) {
        TypeDescriptor::Integer(IntSize::U8)
    }
}

impl H5Type for u8 {
    open spec fn described() -> TypeModel {
        TypeModel::Unsigned(IntSize::U1)
    }

    fn type_descriptor() -> (td: TypeDescriptor) {
        TypeDescriptor::Unsigned(IntSize::U1)
    }
}

impl H5Type for u16 {
    open spec fn described() -> TypeModel {
        TypeModel::Unsigned(IntSize::U2)
    }

    fn type_descriptor() -> (td: TypeDescriptor) {
        TypeDescriptor::Unsigned(IntSize::U2)
    }
}

impl H5Type for u32 {
    open spec fn described() -> TypeModel {
        TypeModel::Unsigned(IntSize::U4)
    }

    fn type_descriptor() -> (td: TypeDescriptor) {
        TypeDescriptor::Unsigned(IntSize::U4)
    }
}

impl H5Type for u64 {
    open spec fn described() -> TypeModel {
        TypeModel::Unsigned(IntSize::U8)
    }

    fn type_descriptor() -> (td: TypeDescriptor) {
        TypeDescriptor::Unsigned(IntSize::U8)
    }
}

/// The integer width of a pointer-sized integer on this machine.
pub open spec fn pointer_int_size() -> IntSize {
    if vstd::layout::size_of::<usize>() == 4 {
        IntSize::U4
    } else {
        IntSize::U8
    }
}

fn pointer_width() -> (s: IntSize)
    ensures
        s == pointer_int_size(),
{
    if std::mem::size_of::<usize>() == 4 {
        IntSize::U4
    } else {
        IntSize::U8
    }
}

impl H5Type for isize {
    open spec fn described() -> TypeModel {
        TypeModel::Integer(pointer_int_size())
    }

    fn type_descriptor() -> (td: TypeDescriptor) {
        TypeDescriptor::Integer(pointer_width())
    }
}

impl H5Type for usize {
    open spec fn described() -> TypeModel {
        TypeModel::Unsigned(pointer_int_size())
    }

    fn type_descriptor() -> (td: TypeDescriptor) {
        TypeDescriptor::Unsigned(pointer_width())
    }
}

impl H5Type for bool {
    open spec fn described() -> TypeModel {
        TypeModel::Boolean
    }

    fn type_descriptor() -> (td: TypeDescriptor) {
        TypeDescriptor::Boolean
    }
}

// Tuples get no `H5Type` here: the offsets of a tuple's elements are the compiler's choice
// and can only be read with `core::mem::offset_of!`, a macro this library cannot use, and
// no other crate may implement this trait for tuples.

impl<T: H5Type, const N: usize> H5Type for [T; N] {
    open spec fn described() -> TypeModel {
        TypeModel::FixedArray(Box::new(T::described()), N)
    }

    fn type_descriptor() -> (td: TypeDescriptor) {
        TypeDescriptor::FixedArray(Box::new(T::type_descriptor()), N)
    }
}

impl Clone for EnumMember {
    fn clone(&self) -> (r: Self)
        ensures
            r@ == self@,
    {
        EnumMember { name: self.name.clone(), value: self.value }
    }
}

impl Clone for EnumType {
    fn clone(&self) -> (r: Self)
        ensures
            r@ == self@,
    {
        let mut members: Vec<EnumMember> = Vec::new();
        let mut i: usize = 0;
        while i < self.members.len()
            invariant
                0 <= i <= self.members.len(),
                members@.len() == i,
                members_model(members@) == members_model(self.members@).take(i as int),
            decreases self.members.len() - i,
        {
            let m = self.members[i].clone();
            let ghost before = members@;
            members.push(m);
            proof {
                assert(members@ =~= before.push(m));
                assert(members_model(members@).len() == i + 1);
                assert forall|j: int| 0 <= j < i + 1 implies #[trigger] members_model(members@)[j]
                    == members_model(self.members@)[j] by {
                    if j < i {
                        assert(members_model(members@)[j] == members_model(before)[j]);
                    }
                }
            }
            i = i + 1;
            assert(members_model(members@) =~= members_model(self.members@).take(i as int));
        }
        assert(members_model(self.members@).take(i as int) =~= members_model(self.members@));
        EnumType { size: self.size, signed: self.signed, members }
    }
}

impl Clone for CompoundField {
    fn clone(&self) -> (r: Self)
        ensures
            r@ == self@,
        decreases self,
    {
        proof {
            assert(decreases_to!(*self => self.ty));
        }
        CompoundField {
            name: self.name.clone(),
            ty: TypeDescriptor::clone(&self.ty),
            offset: self.offset,
            index: self.index,
        }
    }
}

impl Clone for CompoundType {
    fn clone(&self) -> (r: Self)
        ensures
            r@ == self@,
        decreases self,
    {
        let mut fields: Vec<CompoundField> = Vec::new();
        let n = self.fields.len();
        let mut i: usize = 0;
        proof {
            lemma_fields_model(self.fields@);
        }
        while i < n
            invariant
                n == self.fields.len(),
                0 <= i <= n,
                fields_model(fields@) == fields_model(self.fields@).take(i as int),
                fields_model(self.fields@).len() == n,
                forall|j: int| 0 <= j < n ==> #[trigger] fields_model(self.fields@)[j] == field_model(self.fields@[j]),
            decreases n - i,
        {
            proof {
                assert(decreases_to!(self.fields => self.fields@));
                assert(decreases_to!(self.fields@ => self.fields@[i as int]));
            }
            let f = CompoundField::clone(&self.fields[i]);
            proof {
                lemma_fields_model_push(fields@, f);
            }
            fields.push(f);
            i = i + 1;
            assert(fields_model(fields@) =~= fields_model(self.fields@).take(i as int));
        }
        assert(fields_model(self.fields@).take(n as int) =~= fields_model(self.fields@));
        CompoundType { fields, size: self.size }
    }
}

impl Clone for TypeDescriptor {
    fn clone(&self) -> (r: Self)
        ensures
            r@ == self@,
        decreases self,
    {
        match self {
            TypeDescriptor::Integer(s) => TypeDescriptor::Integer(*s),
            TypeDescriptor::Unsigned(s) => TypeDescriptor::Unsigned(*s),
            TypeDescriptor::Float(s) => TypeDescriptor::Float(*s),
            TypeDescriptor::Boolean => TypeDescriptor::Boolean,
            TypeDescriptor::Enum(e) => TypeDescriptor::Enum(e.clone()),
            TypeDescriptor::Compound(c) => {
                proof {
                    assert(decreases_to!(*self => (*self)->Compound_0));
                }
                TypeDescriptor::Compound(CompoundType::clone(c))
            },
            TypeDescriptor::FixedArray(ty, n) => TypeDescriptor::FixedArray(
                Box::new(TypeDescriptor::clone(&**ty)),
                *n,
            ),
            TypeDescriptor::FixedAscii(n) => TypeDescriptor::FixedAscii(*n),
            TypeDescriptor::FixedUnicode(n) => TypeDescriptor::FixedUnicode(*n),
            TypeDescriptor::VarLenArray(ty) => TypeDescriptor::VarLenArray(
                Box::new(TypeDescriptor::clone(&**ty)),
            ),
            TypeDescriptor::VarLenAscii => TypeDescriptor::VarLenAscii,
            TypeDescriptor::VarLenUnicode => TypeDescriptor::VarLenUnicode,
        }
    }
}

/// Orders compound members by declaration index; members with equal indices keep their
/// relative order.
fn sort_fields_by_index(v: Vec<CompoundField>) -> (r: Vec<CompoundField>)
    ensures
        fields_model(r@) == sort_by_index(fields_model(v@)),
{
    let ghost m = fields_model(v@);
    proof {
        lemma_fields_model(v@);
    }
    let mut input = v;
    let mut out: Vec<CompoundField> = Vec::new();
    let ghost mut k: int = 0;
    proof {
        assert(m.take(0) =~= Seq::<FieldModel>::empty());
        assert(fields_model(out@) =~= sort_by_index(m.take(0)));
    }
    while input.len() > 0
        invariant
            m.len() == v@.len(),
            0 <= k <= m.len(),
            input@.len() == m.len() - k,
            forall|j: int| 0 <= j < input@.len() ==> #[trigger] field_model(input@[j]) == m[k + j],
            fields_model(out@) == sort_by_index(m.take(k)),
        decreases input@.len(),
    {
        let ghost old_input = input@;
        let f = input.remove(0);
        proof {
            assert(field_model(old_input[0]) == m[k]);
            assert forall|j: int| 0 <= j < input@.len() implies #[trigger] field_model(input@[j]) == m[k + 1 + j] by {
                assert(input@[j] == old_input[j + 1]);
            }
        }
        let ghost s = fields_model(out@);
        proof {
            lemma_fields_model(out@);
        }
        let mut pos = out.len();
        while pos > 0 && out[pos - 1].index > f.index
            invariant
                0 <= pos <= out@.len(),
                forall|j: int| pos <= j < out@.len() ==> (#[trigger] out@[j]).index > f.index,
            decreases pos,
        {
            pos = pos - 1;
        }
        let ghost before = out@;
        out.insert(pos, f);
        proof {
            lemma_fields_model(before);
            lemma_fields_model(out@);
            assert forall|j: int| pos <= j < s.len() implies (#[trigger] s[j]).index > field_model(f).index by {
                assert(s[j] == field_model(before[j]));
            }
            if pos > 0 {
                assert(s[pos - 1] == field_model(before[pos - 1]));
            }
            lemma_insert_by_index_at(s, field_model(f), pos as int);
            lemma_sort_by_index_step(m, k);
            assert(fields_model(out@) =~= s.take(pos as int).push(field_model(f)) + s.skip(pos as int));
            k = k + 1;
        }
    }
    proof {
        assert(m.take(k) =~= m);
    }
    out
}

impl CompoundType {
    /// The same compound type laid out as a C compiler lays out a struct: members in order
    /// of their indices, every member type in its C representation, each member at the
    /// first offset after the previous one that is a multiple of its alignment, and the
    /// size rounded up to the largest alignment. With no members the size stays.
    pub fn to_c_repr(&self) -> (r: CompoundType)
        requires
            self@.c_repr_fits(),
        ensures
            r@ == self@.c_repr(),
        decreases self,
    {
        let n = self.fields.len();
        let ghost fm = self@.fields;
        proof {
            lemma_fields_model(self.fields@);
            lemma_fields_c_repr(fm);
        }
        let mut mapped: Vec<CompoundField> = Vec::new();
        let mut i: usize = 0;
        while i < n
            invariant
                n == self.fields.len(),
                fm == self@.fields,
                fm.len() == n,
                forall|j: int| 0 <= j < n ==> #[trigger] fm[j] == field_model(self.fields@[j]),
                forall|j: int| 0 <= j < n ==> (#[trigger] fm[j]).ty.c_repr_fits(),
                fields_c_repr(fm).len() == n,
                forall|j: int|
                    0 <= j < n ==> #[trigger] fields_c_repr(fm)[j] == (FieldModel {
                        name: fm[j].name,
                        ty: fm[j].ty.c_repr(),
                        offset: fm[j].offset,
                        index: fm[j].index,
                    }),
                0 <= i <= n,
                mapped@.len() == i,
                forall|j: int| 0 <= j < i ==> #[trigger] field_model(mapped@[j]) == fields_c_repr(fm)[j],
            decreases n - i,
        {
            proof {
                assert(decreases_to!(self.fields => self.fields@));
                assert(decreases_to!(self.fields@ => self.fields@[i as int]));
                assert(decreases_to!(self.fields@[i as int] => self.fields@[i as int].ty));
                assert(fm[i as int] == field_model(self.fields@[i as int]));
            }
            let ty = self.fields[i].ty.to_c_repr();
            let f = CompoundField {
                name: self.fields[i].name.clone(),
                ty,
                offset: self.fields[i].offset,
                index: self.fields[i].index,
            };
            mapped.push(f);
            i = i + 1;
        }
        let ghost cm = fields_c_repr(fm);
        proof {
            lemma_fields_model(mapped@);
            assert(fields_model(mapped@) =~= cm);
        }
        let sorted = sort_fields_by_index(mapped);
        let ghost sm = sort_by_index(cm);
        proof {
            lemma_sort_by_index_len(cm);
            lemma_fields_model(sorted@);
            lemma_c_layout_len(sm);
            if n > 0 {
                lemma_c_layout_prefix(sm, 0);
            }
            assert(sm.take(0) =~= Seq::<FieldModel>::empty());
        }
        let mut rest = sorted;
        let mut out: Vec<CompoundField> = Vec::new();
        let mut offset: usize = 0;
        let mut max_align: usize = 1;
        let mut size: usize = self.size;
        let mut k: usize = 0;
        while k < n
            invariant
                n == self.fields.len(),
                sm.len() == n,
                sm == sort_by_index(cm),
                n > 0 ==> c_layout(sm).fits,
                0 <= k <= n,
                rest@.len() == n - k,
                forall|j: int| 0 <= j < rest@.len() ==> #[trigger] field_model(rest@[j]) == sm[k + j],
                fields_model(out@) == c_layout(sm.take(k as int)).fields,
                offset == c_layout(sm.take(k as int)).end,
                max_align == c_layout(sm.take(k as int)).max_align,
                k == 0 ==> size == self.size,
                k > 0 ==> size == crate::layout::round_up(offset as nat, max_align as nat),
            decreases n - k,
        {
            let ghost old_rest = rest@;
            let f = rest.remove(0);
            proof {
                assert(field_model(old_rest[0]) == sm[k as int]);
                assert forall|j: int| 0 <= j < rest@.len() implies #[trigger] field_model(rest@[j]) == sm[k + 1 + j] by {
                    assert(rest@[j] == old_rest[j + 1]);
                }
                lemma_c_layout_step(sm, k as int);
                lemma_c_layout_prefix(sm, k as int + 1);
                lemma_c_layout_len(sm.take(k as int));
                lemma_alignment_bounds(f.ty@);
            }
            let a = f.ty.c_alignment();
            let off = round_up_usize(offset, a);
            let sz = f.ty.size();
            let end = off + sz;
            if a > max_align {
                max_align = a;
            }
            size = round_up_usize(end, max_align);
            let placed = CompoundField { name: f.name, ty: f.ty, offset: off, index: f.index };
            proof {
                lemma_fields_model_push(out@, placed);
            }
            out.push(placed);
            offset = end;
            k = k + 1;
        }
        proof {
            assert(sm.take(n as int) =~= sm);
            if n == 0 {
                assert(fields_model(out@) =~= sm);
            }
        }
        CompoundType { fields: out, size }
    }

    /// The same compound type with no padding: members in order of their indices, every
    /// member type in its packed representation, each member right after the previous one,
    /// and the size the sum of the member sizes.
    pub fn to_packed_repr(&self) -> (r: CompoundType)
        requires
            self@.packed_repr_fits(),
        ensures
            r@ == self@.packed_repr(),
        decreases self,
    {
        let n = self.fields.len();
        let ghost fm = self@.fields;
        proof {
            lemma_fields_model(self.fields@);
            lemma_fields_packed_repr(fm);
        }
        let mut mapped: Vec<CompoundField> = Vec::new();
        let mut i: usize = 0;
        while i < n
            invariant
                n == self.fields.len(),
                fm == self@.fields,
                fm.len() == n,
                forall|j: int| 0 <= j < n ==> #[trigger] fm[j] == field_model(self.fields@[j]),
                forall|j: int| 0 <= j < n ==> (#[trigger] fm[j]).ty.packed_repr_fits(),
                fields_packed_repr(fm).len() == n,
                forall|j: int|
                    0 <= j < n ==> #[trigger] fields_packed_repr(fm)[j] == (FieldModel {
                        name: fm[j].name,
                        ty: fm[j].ty.packed_repr(),
                        offset: fm[j].offset,
                        index: fm[j].index,
                    }),
                0 <= i <= n,
                mapped@.len() == i,
                forall|j: int| 0 <= j < i ==> #[trigger] field_model(mapped@[j]) == fields_packed_repr(fm)[j],
            decreases n - i,
        {
            proof {
                assert(decreases_to!(self.fields => self.fields@));
                assert(decreases_to!(self.fields@ => self.fields@[i as int]));
                assert(decreases_to!(self.fields@[i as int] => self.fields@[i as int].ty));
                assert(fm[i as int] == field_model(self.fields@[i as int]));
            }
            let ty = self.fields[i].ty.to_packed_repr();
            let f = CompoundField {
                name: self.fields[i].name.clone(),
                ty,
                offset: self.fields[i].offset,
                index: self.fields[i].index,
            };
            mapped.push(f);
            i = i + 1;
        }
        let ghost cm = fields_packed_repr(fm);
        proof {
            lemma_fields_model(mapped@);
            assert(fields_model(mapped@) =~= cm);
        }
        let sorted = sort_fields_by_index(mapped);
        let ghost sm = sort_by_index(cm);
        proof {
            lemma_sort_by_index_len(cm);
            lemma_fields_model(sorted@);
            assert(sm.take(0) =~= Seq::<FieldModel>::empty());
        }
        let mut rest = sorted;
        let mut out: Vec<CompoundField> = Vec::new();
        let mut size: usize = 0;
        let mut k: usize = 0;
        while k < n
            invariant
                n == self.fields.len(),
                sm.len() == n,
                sm == sort_by_index(cm),
                packed_layout(sm).fits,
                0 <= k <= n,
                rest@.len() == n - k,
                forall|j: int| 0 <= j < rest@.len() ==> #[trigger] field_model(rest@[j]) == sm[k + j],
                fields_model(out@) == packed_layout(sm.take(k as int)).fields,
                size == packed_layout(sm.take(k as int)).end,
            decreases n - k,
        {
            let ghost old_rest = rest@;
            let f = rest.remove(0);
            proof {
                assert(field_model(old_rest[0]) == sm[k as int]);
                assert forall|j: int| 0 <= j < rest@.len() implies #[trigger] field_model(rest@[j]) == sm[k + 1 + j] by {
                    assert(rest@[j] == old_rest[j + 1]);
                }
                lemma_packed_layout_step(sm, k as int);
                lemma_packed_layout_prefix(sm, k as int + 1);
            }
            let sz = f.ty.size();
            let placed = CompoundField { name: f.name, ty: f.ty, offset: size, index: f.index };
            proof {
                lemma_fields_model_push(out@, placed);
            }
            out.push(placed);
            size = size + sz;
            k = k + 1;
        }
        proof {
            assert(sm.take(n as int) =~= sm);
        }
        CompoundType { fields: out, size }
    }
}

impl TypeDescriptor {
    /// This type with every compound within it laid out as a C compiler does.
    pub fn to_c_repr(&self) -> (r: TypeDescriptor)
        requires
            self@.c_repr_fits(),
        ensures
            r@ == self@.c_repr(),
        decreases self,
    {
        match self {
            TypeDescriptor::Compound(c) => {
                proof {
                    assert(decreases_to!(*self => (*self)->Compound_0));
                }
                TypeDescriptor::Compound(c.to_c_repr())
            },
            TypeDescriptor::FixedArray(ty, n) => TypeDescriptor::FixedArray(
                Box::new(ty.to_c_repr()),
                *n,
            ),
            TypeDescriptor::VarLenArray(ty) => TypeDescriptor::VarLenArray(Box::new(ty.to_c_repr())),
            _ => self.clone(),
        }
    }

    /// This type with every compound within it packed, with no padding.
    pub fn to_packed_repr(&self) -> (r: TypeDescriptor)
        requires
            self@.packed_repr_fits(),
        ensures
            r@ == self@.packed_repr(),
        decreases self,
    {
        match self {
            TypeDescriptor::Compound(c) => {
                proof {
                    assert(decreases_to!(*self => (*self)->Compound_0));
                }
                TypeDescriptor::Compound(c.to_packed_repr())
            },
            TypeDescriptor::FixedArray(ty, n) => TypeDescriptor::FixedArray(
                Box::new(ty.to_packed_repr()),
                *n,
            ),
            TypeDescriptor::VarLenArray(ty) => TypeDescriptor::VarLenArray(
                Box::new(ty.to_packed_repr()),
            ),
            _ => self.clone(),
        }
    }
}

/// The model of a sequence of fields is the field-by-field model.
pub proof fn lemma_fields_model(fs: Seq<CompoundField>)
    ensures
        fields_model(fs).len() == fs.len(),
        forall|i: int| 0 <= i < fs.len() ==> #[trigger] fields_model(fs)[i] == field_model(fs[i]),
    decreases fs.len(),
{
    if fs.len() > 0 {
        lemma_fields_model(fs.drop_last());
    }
}

/// Taking a prefix commutes with the model.
pub proof fn lemma_fields_model_take(fs: Seq<CompoundField>, n: int)
    requires
        0 <= n <= fs.len(),
    ensures
        fields_model(fs.take(n)) == fields_model(fs).take(n),
{
    lemma_fields_model(fs);
    lemma_fields_model(fs.take(n));
    assert(fields_model(fs.take(n)) =~= fields_model(fs).take(n));
}

/// Appending a field appends its model.
pub proof fn lemma_fields_model_push(fs: Seq<CompoundField>, f: CompoundField)
    ensures
        fields_model(fs.push(f)) == fields_model(fs).push(field_model(f)),
{
    assert(fs.push(f).drop_last() =~= fs);
}

} // verus!
