use vstd::prelude::*;

use crate::error::H5Error;
use crate::h5type::{
    field_model, fields_model, lemma_fields_model, lemma_fields_model_push, members_model,
    CompoundField, CompoundModel, CompoundType, EnumMember, EnumModel, EnumType, FieldModel, FloatSize, IntSize,
    MemberModel, TypeDescriptor, TypeModel,
};
use crate::handle::{hid_t, htri_t, Handle};
use crate::text::{push_signed_decimal, signed_decimal};

verus! {

// ===========================================================================
// Conversion paths
// ===========================================================================

/// The kind of conversion path between two datatypes, from cheapest to dearest.
#[derive(Clone, Copy, Debug, PartialEq, Eq, PartialOrd, Ord, Structural)]
pub enum Conversion {
    NoOp,
    Hard,
    Soft,
}

impl Conversion {
    /// The rank of the conversion: no-op before hard before soft.
    pub open spec fn rank(self) -> nat {
        match self {
            Conversion::NoOp => 1,
            Conversion::Hard => 2,
            Conversion::Soft => 3,
        }
    }

    pub open spec fn name(self) -> Seq<char> {
        match self {
            Conversion::NoOp => "no-op"@,
            Conversion::Hard => "hard"@,
            Conversion::Soft => "soft"@,
        }
    }

    /// The name of the conversion, as its `Display` shows it.
    pub fn as_str(&self) -> (s: &'static str)
        ensures
            s@ == self.name(),
    {
        match self {
            Conversion::NoOp => "no-op",
            Conversion::Hard => "hard",
            Conversion::Soft => "soft",
        }
    }

    /// Whether this conversion is no dearer than `other`.
    pub fn at_most(&self, other: &Conversion) -> (b: bool)
        ensures
            b <==> self.rank() <= other.rank(),
    {
        match (self, other) {
            (Conversion::NoOp, _) => true,
            (Conversion::Hard, Conversion::NoOp) => false,
            (Conversion::Hard, _) => true,
            (Conversion::Soft, Conversion::Soft) => true,
            (Conversion::Soft, _) => false,
        }
    }
}

/// A conversion path that may be missing never equals a conversion.
impl PartialEq<Conversion> for Option<Conversion> {
    fn eq(&self, _other: &Conversion) -> (r: bool) {
        false
    }
}

impl vstd::std_specs::cmp::PartialEqSpecImpl<Conversion> for Option<Conversion> {
    open spec fn obeys_eq_spec() -> bool {
        true
    }

    open spec fn eq_spec(&self, _other: &Conversion) -> bool {
        false
    }
}

/// How a conversion path that may be missing compares with a conversion: by rank when it
/// exists, and a missing path is dearer than any.
pub open spec fn optional_conversion_order(this: Option<Conversion>, other: Conversion) -> Option<core::cmp::Ordering> {
    match this {
        None => Some(core::cmp::Ordering::Greater),
        Some(c) => if c.rank() < other.rank() {
            Some(core::cmp::Ordering::Less)
        } else if c.rank() == other.rank() {
            Some(core::cmp::Ordering::Equal)
        } else {
            Some(core::cmp::Ordering::Greater)
        },
    }
}

impl PartialOrd<Conversion> for Option<Conversion> {
    fn partial_cmp(&self, other: &Conversion) -> (r: Option<core::cmp::Ordering>) {
        match self {
            None => Some(core::cmp::Ordering::Greater),
            Some(c) => {
                if *c == *other {
                    Some(core::cmp::Ordering::Equal)
                } else if c.at_most(other) {
                    Some(core::cmp::Ordering::Less)
                } else {
                    Some(core::cmp::Ordering::Greater)
                }
            },
        }
    }
}

impl vstd::std_specs::cmp::PartialOrdSpecImpl<Conversion> for Option<Conversion> {
    open spec fn obeys_partial_cmp_spec() -> bool {
        true
    }

    open spec fn partial_cmp_spec(&self, other: &Conversion) -> Option<core::cmp::Ordering> {
        optional_conversion_order(*self, *other)
    }
}

impl Default for Conversion {
    fn default() -> (c: Conversion)
        ensures
            c == Conversion::NoOp,
    {
        Conversion::NoOp
    }
}

/// The classification of the answer of the C library's `H5Tcompiler_conv`: zero means a
/// soft conversion, a positive answer a hard one, and a negative answer no path.
pub open spec fn conversion_of_answer(answer: htri_t) -> Option<Conversion> {
    if answer == 0 {
        Some(Conversion::Soft)
    } else if answer > 0 {
        Some(Conversion::Hard)
    } else {
        None
    }
}

// ===========================================================================
// Byte order
// ===========================================================================

/// The byte order of a datatype, as the C library reports it (`H5T_order_t`).
#[allow(non_camel_case_types)]
#[derive(Clone, Copy, Debug, PartialEq, Eq, Structural)]
pub enum H5T_order_t {
    H5T_ORDER_ERROR,
    H5T_ORDER_LE,
    H5T_ORDER_BE,
    H5T_ORDER_VAX,
    H5T_ORDER_MIXED,
    H5T_ORDER_NONE,
}

/// The byte order of a datatype.
#[derive(Copy, Debug, Clone, PartialEq, Eq, Structural)]
pub enum ByteOrder {
    LittleEndian,
    BigEndian,
    Vax,
    Mixed,
    Unordered,
}

pub open spec fn byte_order_of(order: H5T_order_t) -> ByteOrder {
    match order {
        H5T_order_t::H5T_ORDER_LE => ByteOrder::LittleEndian,
        H5T_order_t::H5T_ORDER_BE => ByteOrder::BigEndian,
        H5T_order_t::H5T_ORDER_VAX => ByteOrder::Vax,
        H5T_order_t::H5T_ORDER_MIXED => ByteOrder::Mixed,
        _ => ByteOrder::Unordered,
    }
}

impl From<H5T_order_t> for ByteOrder {
    fn from(order: H5T_order_t) -> (b: ByteOrder) {
        match order {
            H5T_order_t::H5T_ORDER_LE => ByteOrder::LittleEndian,
            H5T_order_t::H5T_ORDER_BE => ByteOrder::BigEndian,
            H5T_order_t::H5T_ORDER_VAX => ByteOrder::Vax,
            H5T_order_t::H5T_ORDER_MIXED => ByteOrder::Mixed,
            _ => ByteOrder::Unordered,
        }
    }
}

impl vstd::std_specs::convert::FromSpecImpl<H5T_order_t> for ByteOrder {
    open spec fn obeys_from_spec() -> bool {
        true
    }

    open spec fn from_spec(order: H5T_order_t) -> ByteOrder {
        byte_order_of(order)
    }
}

// ===========================================================================
// Datatype objects
// ===========================================================================

/// An HDF5 datatype object, held by its identifier.
#[derive(Clone, Debug)]
pub struct Datatype(Handle);

impl Datatype {
    pub closed spec fn spec_handle(&self) -> Handle {
        self.0
    }

    pub open spec fn spec_id(&self) -> hid_t {
        self.spec_handle().spec_id()
    }

    pub fn from_handle(handle: Handle) -> (d: Datatype)
        ensures
            d.spec_handle() == handle,
    {
        Datatype(handle)
    }

    pub fn handle(&self) -> (h: &Handle)
        ensures
            *h == self.spec_handle(),
    {
        &self.0
    }

    pub fn id(&self) -> (id: hid_t)
        ensures
            id == self.spec_id(),
    {
        self.0.id()
    }

    /// A short text that names the object: `<datatype id=N>`.
    pub fn short_repr(&self) -> (s: Option<String>)
        ensures
            s matches Some(t) && t@ == "<datatype id="@ + signed_decimal(self.spec_id() as int)
                + ">"@,
    {
        let mut t = String::from_str("<datatype id=");
        push_signed_decimal(&mut t, self.id());
        t.append(">");
        Some(t)
    }

    /// The conversion path from this datatype to `dst`. Two identical identifiers need no
    /// conversion; otherwise `equal` asks the C library whether the two types are equal
    /// (`H5Tequal`), and equal types need no conversion either; otherwise
    /// `compiler_conv` asks it whether the conversion is a compiled one (`H5Tcompiler_conv`),
    /// whose answer is classified by `conversion_of_answer`. Each question is asked only
    /// when the previous one did not decide.
    pub fn conv_path<E: FnOnce() -> htri_t, C: FnOnce() -> htri_t>(
        &self,
        dst: &Datatype,
        equal: E,
        compiler_conv: C,
    ) -> (r: Option<Conversion>)
        requires
            equal.requires(()),
            compiler_conv.requires(()),
        ensures
            self.spec_id() == dst.spec_id() ==> r == Some(Conversion::NoOp),
            self.spec_id() != dst.spec_id() ==> exists|e: htri_t|
                #![trigger equal.ensures((), e)]
                equal.ensures((), e) && (e > 0 ==> r == Some(Conversion::NoOp)) && (e <= 0
                    ==> exists|c: htri_t|
                    #![trigger compiler_conv.ensures((), c)]
                    compiler_conv.ensures((), c) && r == conversion_of_answer(c)),
    {
        if self.id() == dst.id() {
            return Some(Conversion::NoOp);
        }
        let e = equal();
        if e > 0 {
            return Some(Conversion::NoOp);
        }
        let c = compiler_conv();
        if c == 0 {
            Some(Conversion::Soft)
        } else if c > 0 {
            Some(Conversion::Hard)
        } else {
            None
        }
    }

    /// Checks that the conversion path from this datatype to `dst` is no dearer than
    /// `required`; the path is found by `conv_path` with the C library's answers
    /// `equal` and `compiler_conv`.
    pub fn ensure_convertible<E: FnOnce() -> htri_t, C: FnOnce() -> htri_t>(
        &self,
        dst: &Datatype,
        required: Conversion,
        equal: E,
        compiler_conv: C,
    ) -> (r: Result<(), H5Error>)
        requires
            equal.requires(()),
            compiler_conv.requires(()),
        ensures
            self.spec_id() == dst.spec_id() ==> r is Ok,
            self.spec_id() != dst.spec_id() ==> exists|e: htri_t|
                #![trigger equal.ensures((), e)]
                equal.ensures((), e) && (e > 0 ==> r is Ok) && (e <= 0 ==> exists|c: htri_t|
                    #![trigger compiler_conv.ensures((), c)]
                    compiler_conv.ensures((), c) && conversion_checked(
                        conversion_of_answer(c),
                        required,
                        r,
                    )),
    {
        let conv = self.conv_path(dst, equal, compiler_conv);
        Self::check_conversion(conv, required)
    }

    /// Checks that a conversion path (`conv`, as `conv_path` found it) is no dearer than
    /// `required`.
    pub fn check_conversion(conv: Option<Conversion>, required: Conversion) -> (r: Result<(), H5Error>)
        ensures
            conversion_checked(conv, required, r),
    {
        match conv {
            Some(c) => {
                if c.at_most(&required) {
                    Ok(())
                } else {
                    let mut message = String::from_str(required.as_str());
                    message.append(" conversion path required; available: ");
                    message.append(c.as_str());
                    message.append(" conversion");
                    proof {
                        assert(message@ =~= conversion_refusal(required, c));
                    }
                    Err(H5Error::Internal { message })
                }
            },
            None => Err(H5Error::internal("no conversion paths found")),
        }
    }
}

/// The message of the error for a conversion path `available` that is dearer than
/// `required`.
pub open spec fn conversion_refusal(required: Conversion, available: Conversion) -> Seq<char> {
    required.name() + " conversion path required; available: "@ + available.name()
        + " conversion"@
}

/// What checking a conversion path against a required one gives: success when the path
/// exists and is no dearer, else an internal error that says why.
pub open spec fn conversion_checked(
    conv: Option<Conversion>,
    required: Conversion,
    r: Result<(), H5Error>,
) -> bool {
    match conv {
        None => r matches Err(H5Error::Internal { message }) && message@
            == "no conversion paths found"@,
        Some(c) => if c.rank() <= required.rank() {
            r is Ok
        } else {
            r matches Err(H5Error::Internal { message }) && message@ == conversion_refusal(
                required,
                c,
            )
        },
    }
}

// ===========================================================================
// Reading a datatype back into a descriptor
// ===========================================================================

/// The signedness of an integer datatype, as the C library reports it (`H5T_sign_t`).
#[allow(non_camel_case_types)]
#[derive(Clone, Copy, Debug, PartialEq, Eq, Structural)]
pub enum H5T_sign_t {
    H5T_SGN_ERROR,
    H5T_SGN_NONE,
    H5T_SGN_2,
    H5T_NSGN,
}

/// The character set of a string datatype, as the C library reports it (`H5T_cset_t`);
/// the reserved encodings are folded into one variant.
#[allow(non_camel_case_types)]
#[derive(Clone, Copy, Debug, PartialEq, Eq, Structural)]
pub enum H5T_cset_t {
    H5T_CSET_ERROR,
    H5T_CSET_ASCII,
    H5T_CSET_UTF8,
    H5T_CSET_RESERVED,
}

/// What the C library reports about a datatype, by class: the facts that reading it back
/// into a `TypeDescriptor` looks at. Member, base and element types are described in turn.
#[derive(Debug)]
#[allow(inconsistent_fields)]
pub enum DatatypeInfo {
    /// `H5T_INTEGER`: its size in bytes and its sign.
    Integer { size: usize, sign: H5T_sign_t },
    /// `H5T_FLOAT`: its size in bytes.
    Float { size: usize },
    /// `H5T_ENUM`: its members in order and its base type.
    Enum { members: Vec<EnumMember>, base: Box<DatatypeInfo> },
    /// `H5T_COMPOUND`: its size in bytes and its members in order.
    Compound { size: usize, members: Vec<MemberInfo> },
    /// `H5T_ARRAY`: its rank, its first dimension and its element type.
    Array { ndims: i32, len: u64, base: Box<DatatypeInfo> },
    /// `H5T_STRING`: its size in bytes, whether it is variable-length, and its encoding.
    String { size: usize, is_variable: bool, cset: H5T_cset_t },
    /// `H5T_VLEN`: its element type.
    VarLen { base: Box<DatatypeInfo> },
    /// Any other class.
    Unsupported,
}

/// A member of a compound datatype: its name, byte offset and type.
#[derive(Debug)]
pub struct MemberInfo {
    pub name: String,
    pub offset: usize,
    pub ty: DatatypeInfo,
}

/// The integer width of `size` bytes, if there is one.
pub open spec fn int_size_of(size: usize) -> Option<IntSize> {
    if size == 1 {
        Some(IntSize::U1)
    } else if size == 2 {
        Some(IntSize::U2)
    } else if size == 4 {
        Some(IntSize::U4)
    } else if size == 8 {
        Some(IntSize::U8)
    } else {
        None
    }
}

/// Whether enumeration members are exactly `FALSE = 0` and `TRUE = 1`, in that order.
pub open spec fn is_boolean_members(ms: Seq<MemberModel>) -> bool {
    &&& ms.len() == 2
    &&& ms[0].name == "FALSE"@ && ms[0].value == 0
    &&& ms[1].name == "TRUE"@ && ms[1].value == 1
}

/// The descriptor of an enumeration of width `size`: a boolean when it is one byte wide
/// and its members are `FALSE = 0, TRUE = 1`, else the enumeration itself.
pub open spec fn enum_descriptor(size: IntSize, signed: bool, ms: Seq<MemberModel>) -> TypeModel {
    if size == IntSize::U1 && is_boolean_members(ms) {
        TypeModel::Boolean
    } else {
        TypeModel::Enum(EnumModel { size, signed, members: ms })
    }
}

/// The descriptor that a datatype reads back as, or the message of the error that stops
/// the reading. Members are read in order and the first error wins.
pub open spec fn described_by(t: DatatypeInfo) -> Result<TypeModel, Seq<char>>
    decreases t,
{
    match t {
        DatatypeInfo::Integer { size, sign } => match sign {
            H5T_sign_t::H5T_SGN_NONE => match int_size_of(size) {
                Some(s) => Ok(TypeModel::Unsigned(s)),
                None => Err("Invalid size of integer datatype"@),
            },
            H5T_sign_t::H5T_SGN_2 => match int_size_of(size) {
                Some(s) => Ok(TypeModel::Integer(s)),
                None => Err("Invalid size of integer datatype"@),
            },
            _ => Err("Invalid sign of integer datatype"@),
        },
        DatatypeInfo::Float { size } => if size == 4 {
            Ok(TypeModel::Float(FloatSize::U4))
        } else if size == 8 {
            Ok(TypeModel::Float(FloatSize::U8))
        } else {
            Err("Invalid size of float datatype"@)
        },
        DatatypeInfo::Enum { members, base } => match described_by(*base) {
            Err(e) => Err(e),
            Ok(TypeModel::Integer(s)) => Ok(enum_descriptor(s, true, members_model(members@))),
            Ok(TypeModel::Unsigned(s)) => Ok(enum_descriptor(s, false, members_model(members@))),
            Ok(_) => Err("Invalid base type for enum datatype"@),
        },
        DatatypeInfo::Compound { size, members } => match described_members(members@) {
            Err(e) => Err(e),
            Ok(fs) => Ok(TypeModel::Compound(CompoundModel { fields: fs, size })),
        },
        DatatypeInfo::Array { ndims, len, base } => if ndims == 1 {
            match described_by(*base) {
                Err(e) => Err(e),
                Ok(b) => Ok(TypeModel::FixedArray(Box::new(b), #[verifier::truncate] (len as usize))),
            }
        } else {
            Err("Multi-dimensional array datatypes are not supported"@)
        },
        DatatypeInfo::String { size, is_variable, cset } => match cset {
            H5T_cset_t::H5T_CSET_ASCII => Ok(
                if is_variable {
                    TypeModel::VarLenAscii
                } else {
                    TypeModel::FixedAscii(size)
                },
            ),
            H5T_cset_t::H5T_CSET_UTF8 => Ok(
                if is_variable {
                    TypeModel::VarLenUnicode
                } else {
                    TypeModel::FixedUnicode(size)
                },
            ),
            _ => Err("Invalid encoding for string datatype"@),
        },
        DatatypeInfo::VarLen { base } => match described_by(*base) {
            Err(e) => Err(e),
            Ok(b) => Ok(TypeModel::VarLenArray(Box::new(b))),
        },
        DatatypeInfo::Unsupported => Err("Unsupported datatype class"@),
    }
}

/// The compound members that a sequence of members reads back as, each with its position
/// as its index, or the first error.
pub open spec fn described_members(ms: Seq<MemberInfo>) -> Result<Seq<FieldModel>, Seq<char>>
    decreases ms,
{
    if ms.len() == 0 {
        Ok(seq![])
    } else {
        match described_members(ms.drop_last()) {
            Err(e) => Err(e),
            Ok(fs) => match described_member(ms.last(), (ms.len() - 1) as usize) {
                Err(e) => Err(e),
                Ok(f) => Ok(fs.push(f)),
            },
        }
    }
}

/// The compound member that `m`, at position `index`, reads back as.
pub open spec fn described_member(m: MemberInfo, index: usize) -> Result<FieldModel, Seq<char>>
    decreases m,
{
    match described_by(m.ty) {
        Err(e) => Err(e),
        Ok(t) => Ok(FieldModel { name: m.name@, ty: t, offset: m.offset, index }),
    }
}

/// Whether `r` is what `expected` says: the descriptor with that model, or an internal
/// error with that message.
pub open spec fn reads_back_as(r: Result<TypeDescriptor, H5Error>, expected: Result<TypeModel, Seq<char>>) -> bool {
    match expected {
        Ok(m) => r matches Ok(d) && d@ == m,
        Err(msg) => r matches Err(H5Error::Internal { message }) && message@ == msg,
    }
}

/// A copy of enumeration members.
fn copy_members(ms: &Vec<EnumMember>) -> (r: Vec<EnumMember>)
    ensures
        members_model(r@) == members_model(ms@),
{
    let mut out: Vec<EnumMember> = Vec::new();
    let mut i: usize = 0;
    while i < ms.len()
        invariant
            0 <= i <= ms.len(),
            out@.len() == i,
            members_model(out@) == members_model(ms@).take(i as int),
        decreases ms.len() - i,
    {
        let m = EnumMember { name: ms[i].name.clone(), value: ms[i].value };
        let ghost before = out@;
        out.push(m);
        proof {
            assert(out@ =~= before.push(m));
            assert forall|j: int| 0 <= j < i + 1 implies #[trigger] members_model(out@)[j]
                == members_model(ms@)[j] by {
                if j < i {
                    assert(members_model(out@)[j] == members_model(before)[j]);
                }
            }
        }
        i = i + 1;
        assert(members_model(out@) =~= members_model(ms@).take(i as int));
    }
    assert(members_model(ms@).take(i as int) =~= members_model(ms@));
    out
}

/// Whether enumeration members are exactly `FALSE = 0` and `TRUE = 1`, in that order.
fn are_boolean_members(ms: &Vec<EnumMember>) -> (b: bool)
    ensures
        b == is_boolean_members(members_model(ms@)),
{
    if ms.len() != 2 {
        return false;
    }
    let no = String::from_str("FALSE");
    let yes = String::from_str("TRUE");
    ms[0].name == no && ms[0].value == 0 && ms[1].name == yes && ms[1].value == 1
}

/// A member error, once met, is the error of every longer run of members.
proof fn lemma_member_error_persists(ms: Seq<MemberInfo>, k: int)
    requires
        0 <= k <= ms.len(),
        described_members(ms.take(k)) is Err,
    ensures
        described_members(ms) == described_members(ms.take(k)),
    decreases ms.len() - k,
{
    if k < ms.len() {
        assert(ms.take(k + 1).drop_last() =~= ms.take(k));
        lemma_member_error_persists(ms, k + 1);
    } else {
        assert(ms.take(k) =~= ms);
    }
}

impl Datatype {
    /// Reads a datatype back into a descriptor, given what the C library reports about it.
    /// Integers need a sign and one of the integer widths; floats one of the float widths;
    /// an enumeration needs an integer base, and reads as a boolean when it is one byte wide
    /// with the members `FALSE = 0, TRUE = 1`; arrays must have one dimension; strings need
    /// the ASCII or UTF-8 encoding. Any other class is refused.
    pub fn to_descriptor(info: &DatatypeInfo) -> (r: Result<TypeDescriptor, H5Error>)
        ensures
            reads_back_as(r, described_by(*info)),
        decreases info,
    {
        match info {
            DatatypeInfo::Integer { size, sign } => {
                let signed = match sign {
                    H5T_sign_t::H5T_SGN_NONE => false,
                    H5T_sign_t::H5T_SGN_2 => true,
                    _ => return Err(H5Error::internal("Invalid sign of integer datatype")),
                };
                match IntSize::from_int(*size) {
                    Some(s) => Ok(
                        if signed {
                            TypeDescriptor::Integer(s)
                        } else {
                            TypeDescriptor::Unsigned(s)
                        },
                    ),
                    None => Err(H5Error::internal("Invalid size of integer datatype")),
                }
            },
            DatatypeInfo::Float { size } => match FloatSize::from_int(*size) {
                Some(s) => Ok(TypeDescriptor::Float(s)),
                None => Err(H5Error::internal("Invalid size of float datatype")),
            },
            DatatypeInfo::Enum { members, base } => {
                let members = copy_members(members);
                let (size, signed) = match Self::to_descriptor(base) {
                    Err(e) => return Err(e),
                    Ok(TypeDescriptor::Integer(s)) => (s, true),
                    Ok(TypeDescriptor::Unsigned(s)) => (s, false),
                    Ok(_) => return Err(H5Error::internal("Invalid base type for enum datatype")),
                };
                let one_byte = match size {
                    IntSize::U1 => true,
                    _ => false,
                };
                if one_byte && are_boolean_members(&members) {
                    Ok(TypeDescriptor::Boolean)
                } else {
                    Ok(TypeDescriptor::Enum(EnumType { size, signed, members }))
                }
            },
            DatatypeInfo::Compound { size, members } => {
                let mut fields: Vec<CompoundField> = Vec::new();
                let n = members.len();
                let mut i: usize = 0;
                proof {
                    assert(members@.take(0) =~= Seq::<MemberInfo>::empty());
                }
                while i < n
                    invariant
                        *info is Compound,
                        (*info)->Compound_members == *members,
                        n == members.len(),
                        0 <= i <= n,
                        described_members(members@.take(i as int)) == Ok::<Seq<FieldModel>, Seq<char>>(
                            fields_model(fields@),
                        ),
                    decreases n - i,
                {
                    let m = &members[i];
                    proof {
                        assert(decreases_to!(*info => *members));
                        assert(decreases_to!(*members => members@));
                        assert(decreases_to!(members@ => members@[i as int]));
                        assert(decreases_to!(members@[i as int] => members@[i as int].ty));
                        assert(members@.take(i + 1).drop_last() =~= members@.take(i as int));
                        assert(members@.take(i + 1).last() == *m);
                    }
                    match Self::to_descriptor(&m.ty) {
                        Err(e) => {
                            proof {
                                assert(described_member(*m, i) is Err);
                                assert(described_members(members@.take(i + 1)) is Err);
                                lemma_member_error_persists(members@, i + 1);
                            }
                            return Err(e);
                        },
                        Ok(ty) => {
                            let f = CompoundField { name: m.name.clone(), ty, offset: m.offset, index: i };
                            proof {
                                lemma_fields_model_push(fields@, f);
                            }
                            fields.push(f);
                        },
                    }
                    i = i + 1;
                }
                proof {
                    assert(members@.take(n as int) =~= members@);
                }
                Ok(TypeDescriptor::Compound(CompoundType { fields, size: *size }))
            },
            DatatypeInfo::Array { ndims, len, base } => {
                if *ndims == 1 {
                    match Self::to_descriptor(base) {
                        Err(e) => Err(e),
                        Ok(b) => Ok(
                            TypeDescriptor::FixedArray(Box::new(b), #[verifier::truncate] (*len as usize)),
                        ),
                    }
                } else {
                    Err(H5Error::internal("Multi-dimensional array datatypes are not supported"))
                }
            },
            DatatypeInfo::String { size, is_variable, cset } => match (*is_variable, *cset) {
                (false, H5T_cset_t::H5T_CSET_ASCII) => Ok(TypeDescriptor::FixedAscii(*size)),
                (false, H5T_cset_t::H5T_CSET_UTF8) => Ok(TypeDescriptor::FixedUnicode(*size)),
                (true, H5T_cset_t::H5T_CSET_ASCII) => Ok(TypeDescriptor::VarLenAscii),
                (true, H5T_cset_t::H5T_CSET_UTF8) => Ok(TypeDescriptor::VarLenUnicode),
                _ => Err(H5Error::internal("Invalid encoding for string datatype")),
            },
            DatatypeInfo::VarLen { base } => match Self::to_descriptor(base) {
                Err(e) => Err(e),
                Ok(b) => Ok(TypeDescriptor::VarLenArray(Box::new(b))),
            },
            DatatypeInfo::Unsupported => Err(H5Error::internal("Unsupported datatype class")),
        }
    }
}

// ===========================================================================
// Creating a datatype from a descriptor
// ===========================================================================

/// The predefined datatypes of the C library that new datatypes start from. The standard
/// integer and IEEE float types are taken in the byte order of the machine.
#[derive(Clone, Copy, Debug, PartialEq, Eq, Structural)]
pub enum PredefinedType {
    StdI8,
    StdI16,
    StdI32,
    StdI64,
    StdU8,
    StdU16,
    StdU32,
    StdU64,
    IeeeF32,
    IeeeF64,
    NativeInt8,
}

/// How a string datatype pads its values (`H5T_str_t`).
#[derive(Clone, Copy, Debug, PartialEq, Eq, Structural)]
pub enum StringPadding {
    NullTerminated,
    NullPadded,
}

/// The steps that create the datatype of a descriptor in the C library.
#[derive(Debug)]
#[allow(inconsistent_fields)]
pub enum DatatypeRecipe {
    /// A copy of a predefined datatype.
    Copy(PredefinedType),
    /// An enumeration over the base datatype, with the members inserted in order.
    Enum { base: Box<DatatypeRecipe>, members: Vec<EnumMember> },
    /// A compound datatype of one byte, into which each member is inserted in order after
    /// the compound has been grown to cover it; at last the compound is given its size.
    Compound { members: Vec<MemberRecipe>, size: usize },
    /// A one-dimensional array of `len` elements.
    Array { elem: Box<DatatypeRecipe>, len: u64 },
    /// A copy of the C string datatype with this encoding and padding, and this size, or a
    /// variable size for `None`.
    String { cset: H5T_cset_t, padding: StringPadding, size: Option<usize> },
    /// A variable-length sequence of elements.
    VarLen { elem: Box<DatatypeRecipe> },
}

/// A member to insert into a compound datatype: its name, its offset, the size that the
/// compound is grown to before the insertion, and how to create its datatype.
#[derive(Debug)]
pub struct MemberRecipe {
    pub name: String,
    pub offset: usize,
    pub grow_to: usize,
    pub ty: DatatypeRecipe,
}

/// Model of a creation recipe: the same tree, with names as character sequences.
#[verifier::ext_equal]
#[allow(inconsistent_fields)]
pub enum RecipeModel {
    Copy(PredefinedType),
    Enum { base: Box<RecipeModel>, members: Seq<MemberModel> },
    Compound { members: Seq<MemberRecipeModel>, size: usize },
    Array { elem: Box<RecipeModel>, len: u64 },
    String { cset: H5T_cset_t, padding: StringPadding, size: Option<usize> },
    VarLen { elem: Box<RecipeModel> },
}

/// Model of a member recipe.
#[verifier::ext_equal]
pub struct MemberRecipeModel {
    pub name: Seq<char>,
    pub offset: usize,
    pub grow_to: usize,
    pub ty: RecipeModel,
}

pub open spec fn recipe_model(r: DatatypeRecipe) -> RecipeModel
    decreases r,
{
    match r {
        DatatypeRecipe::Copy(p) => RecipeModel::Copy(p),
        DatatypeRecipe::Enum { base, members } => RecipeModel::Enum {
            base: Box::new(recipe_model(*base)),
            members: members_model(members@),
        },
        DatatypeRecipe::Compound { members, size } => RecipeModel::Compound {
            members: member_recipes_model(members@),
            size,
        },
        DatatypeRecipe::Array { elem, len } => RecipeModel::Array {
            elem: Box::new(recipe_model(*elem)),
            len,
        },
        DatatypeRecipe::String { cset, padding, size } => RecipeModel::String { cset, padding, size },
        DatatypeRecipe::VarLen { elem } => RecipeModel::VarLen { elem: Box::new(recipe_model(*elem)) },
    }
}

pub open spec fn member_recipes_model(ms: Seq<MemberRecipe>) -> Seq<MemberRecipeModel>
    decreases ms,
{
    if ms.len() == 0 {
        seq![]
    } else {
        member_recipes_model(ms.drop_last()).push(member_recipe_model(ms.last()))
    }
}

pub open spec fn member_recipe_model(m: MemberRecipe) -> MemberRecipeModel
    decreases m,
{
    MemberRecipeModel { name: m.name@, offset: m.offset, grow_to: m.grow_to, ty: recipe_model(m.ty) }
}

impl View for DatatypeRecipe {
    type V = RecipeModel;

    open spec fn view(&self) -> RecipeModel {
        recipe_model(*self)
    }
}

/// The standard integer datatype of width `size`.
pub open spec fn integer_predefined(size: IntSize, signed: bool) -> PredefinedType {
    match (signed, size) {
        (true, IntSize::U1) => PredefinedType::StdI8,
        (true, IntSize::U2) => PredefinedType::StdI16,
        (true, IntSize::U4) => PredefinedType::StdI32,
        (true, IntSize::U8) => PredefinedType::StdI64,
        (false, IntSize::U1) => PredefinedType::StdU8,
        (false, IntSize::U2) => PredefinedType::StdU16,
        (false, IntSize::U4) => PredefinedType::StdU32,
        (false, IntSize::U8) => PredefinedType::StdU64,
    }
}

/// The string datatype of an encoding and a size: fixed-size strings are padded with
/// nulls, variable-length ones terminated by a null.
pub open spec fn string_recipe(cset: H5T_cset_t, size: Option<usize>) -> RecipeModel {
    RecipeModel::String {
        cset,
        padding: if size is None {
            StringPadding::NullTerminated
        } else {
            StringPadding::NullPadded
        },
        size,
    }
}

/// The members `FALSE = 0` and `TRUE = 1` of the boolean enumeration.
pub open spec fn boolean_members() -> Seq<MemberModel> {
    seq![MemberModel { name: "FALSE"@, value: 0 }, MemberModel { name: "TRUE"@, value: 1 }]
}

/// How the datatype of a descriptor is created.
pub open spec fn recipe_of(t: TypeModel) -> RecipeModel
    decreases t,
{
    match t {
        TypeModel::Integer(s) => RecipeModel::Copy(integer_predefined(s, true)),
        TypeModel::Unsigned(s) => RecipeModel::Copy(integer_predefined(s, false)),
        TypeModel::Float(FloatSize::U4) => RecipeModel::Copy(PredefinedType::IeeeF32),
        TypeModel::Float(FloatSize::U8) => RecipeModel::Copy(PredefinedType::IeeeF64),
        TypeModel::Boolean => RecipeModel::Enum {
            base: Box::new(RecipeModel::Copy(PredefinedType::NativeInt8)),
            members: boolean_members(),
        },
        TypeModel::Enum(e) => RecipeModel::Enum {
            base: Box::new(RecipeModel::Copy(integer_predefined(e.size, e.signed))),
            members: e.members,
        },
        TypeModel::Compound(c) => RecipeModel::Compound { members: member_recipes(c.fields), size: c.size },
        TypeModel::FixedArray(t, n) => RecipeModel::Array { elem: Box::new(recipe_of(*t)), len: n as u64 },
        TypeModel::FixedAscii(n) => string_recipe(H5T_cset_t::H5T_CSET_ASCII, Some(n)),
        TypeModel::FixedUnicode(n) => string_recipe(H5T_cset_t::H5T_CSET_UTF8, Some(n)),
        TypeModel::VarLenArray(t) => RecipeModel::VarLen { elem: Box::new(recipe_of(*t)) },
        TypeModel::VarLenAscii => string_recipe(H5T_cset_t::H5T_CSET_ASCII, None),
        TypeModel::VarLenUnicode => string_recipe(H5T_cset_t::H5T_CSET_UTF8, None),
    }
}

/// How the members of a compound are inserted: each grows the compound to the end of the
/// member first.
pub open spec fn member_recipes(fs: Seq<FieldModel>) -> Seq<MemberRecipeModel>
    decreases fs,
{
    if fs.len() == 0 {
        seq![]
    } else {
        member_recipes(fs.drop_last()).push(member_recipe(fs.last()))
    }
}

pub open spec fn member_recipe(f: FieldModel) -> MemberRecipeModel
    decreases f,
{
    MemberRecipeModel {
        name: f.name,
        offset: f.offset,
        grow_to: (f.offset + f.ty.byte_size()) as usize,
        ty: recipe_of(f.ty),
    }
}

/// Every compound member within the type has a size that fits, and ends within the range
/// of a `usize`.
pub open spec fn buildable(t: TypeModel) -> bool
    decreases t,
{
    match t {
        TypeModel::Compound(c) => members_buildable(c.fields),
        TypeModel::FixedArray(t, _) => buildable(*t),
        TypeModel::VarLenArray(t) => buildable(*t),
        _ => true,
    }
}

pub open spec fn members_buildable(fs: Seq<FieldModel>) -> bool
    decreases fs,
{
    if fs.len() == 0 {
        true
    } else {
        members_buildable(fs.drop_last()) && member_buildable(fs.last())
    }
}

pub open spec fn member_buildable(f: FieldModel) -> bool
    decreases f,
{
    &&& f.ty.size_fits()
    &&& f.offset + f.ty.byte_size() <= usize::MAX
    &&& buildable(f.ty)
}

/// A member of buildable members is buildable.
proof fn lemma_members_buildable_at(fs: Seq<FieldModel>, i: int)
    requires
        members_buildable(fs),
        0 <= i < fs.len(),
    ensures
        member_buildable(fs[i]),
    decreases fs.len(),
{
    if i < fs.len() - 1 {
        lemma_members_buildable_at(fs.drop_last(), i);
    }
}

/// The standard integer datatype of width `size`.
fn integer_predefined_type(size: IntSize, signed: bool) -> (p: PredefinedType)
    ensures
        p == integer_predefined(size, signed),
{
    match (signed, size) {
        (true, IntSize::U1) => PredefinedType::StdI8,
        (true, IntSize::U2) => PredefinedType::StdI16,
        (true, IntSize::U4) => PredefinedType::StdI32,
        (true, IntSize::U8) => PredefinedType::StdI64,
        (false, IntSize::U1) => PredefinedType::StdU8,
        (false, IntSize::U2) => PredefinedType::StdU16,
        (false, IntSize::U4) => PredefinedType::StdU32,
        (false, IntSize::U8) => PredefinedType::StdU64,
    }
}

impl Datatype {
    /// How the C library creates the datatype of a descriptor: integers and floats are
    /// copies of the standard types of their width; a boolean is an enumeration over the
    /// native 8-bit integer with `FALSE = 0` and `TRUE = 1`; an enumeration starts from its
    /// base type; a compound is grown to the end of each member before the member is
    /// inserted, then given its size; strings are copies of the C string type, fixed-size
    /// ones padded with nulls and variable-length ones null-terminated.
    pub fn creation_recipe(desc: &TypeDescriptor) -> (r: DatatypeRecipe)
        requires
            buildable(desc@),
        ensures
            r@ == recipe_of(desc@),
        decreases desc,
    {
        match desc {
            TypeDescriptor::Integer(s) => DatatypeRecipe::Copy(integer_predefined_type(*s, true)),
            TypeDescriptor::Unsigned(s) => DatatypeRecipe::Copy(integer_predefined_type(*s, false)),
            TypeDescriptor::Float(FloatSize::U4) => DatatypeRecipe::Copy(PredefinedType::IeeeF32),
            TypeDescriptor::Float(FloatSize::U8) => DatatypeRecipe::Copy(PredefinedType::IeeeF64),
            TypeDescriptor::Boolean => {
                let mut members: Vec<EnumMember> = Vec::new();
                members.push(EnumMember { name: String::from_str("FALSE"), value: 0 });
                members.push(EnumMember { name: String::from_str("TRUE"), value: 1 });
                assert(members_model(members@) =~= boolean_members());
                let base = DatatypeRecipe::Copy(PredefinedType::NativeInt8);
                assert(base@ == RecipeModel::Copy(PredefinedType::NativeInt8));
                DatatypeRecipe::Enum { base: Box::new(base), members }
            },
            TypeDescriptor::Enum(e) => {
                let p = integer_predefined_type(e.size, e.signed);
                let base = DatatypeRecipe::Copy(p);
                assert(base@ == RecipeModel::Copy(p));
                DatatypeRecipe::Enum { base: Box::new(base), members: copy_members(&e.members) }
            },
            TypeDescriptor::Compound(c) => {
                let ghost fs = fields_model(c.fields@);
                proof {
                    lemma_fields_model(c.fields@);
                    assert(fs.take(0) =~= Seq::<FieldModel>::empty());
                }
                let n = c.fields.len();
                let mut members: Vec<MemberRecipe> = Vec::new();
                let mut i: usize = 0;
                while i < n
                    invariant
                        *desc is Compound,
                        (*desc)->Compound_0 == *c,
                        n == c.fields.len(),
                        fs == fields_model(c.fields@),
                        fs.len() == n,
                        forall|j: int| 0 <= j < n ==> #[trigger] fs[j] == field_model(c.fields@[j]),
                        members_buildable(fs),
                        0 <= i <= n,
                        member_recipes_model(members@) == member_recipes(fs.take(i as int)),
                    decreases n - i,
                {
                    let f = &c.fields[i];
                    proof {
                        assert(decreases_to!(*desc => (*desc)->Compound_0));
                        assert(decreases_to!((*desc)->Compound_0 => c.fields));
                        assert(decreases_to!(c.fields => c.fields@));
                        assert(decreases_to!(c.fields@ => c.fields@[i as int]));
                        assert(decreases_to!(c.fields@[i as int] => c.fields@[i as int].ty));
                        lemma_members_buildable_at(fs, i as int);
                        assert(fs[i as int] == field_model(*f));
                    }
                    let grow_to = f.offset + f.ty.size();
                    let ty = Self::creation_recipe(&f.ty);
                    let m = MemberRecipe { name: f.name.clone(), offset: f.offset, grow_to, ty };
                    let ghost before = members@;
                    members.push(m);
                    proof {
                        assert(members@.drop_last() =~= before);
                        assert(fs.take(i + 1).drop_last() =~= fs.take(i as int));
                        assert(fs.take(i + 1).last() == fs[i as int]);
                        assert(member_recipe_model(m) == member_recipe(fs[i as int]));
                    }
                    i = i + 1;
                }
                proof {
                    assert(fs.take(n as int) =~= fs);
                }
                DatatypeRecipe::Compound { members, size: c.size }
            },
            TypeDescriptor::FixedArray(t, n) => DatatypeRecipe::Array {
                elem: Box::new(Self::creation_recipe(t)),
                len: *n as u64,
            },
            TypeDescriptor::FixedAscii(n) => DatatypeRecipe::String {
                cset: H5T_cset_t::H5T_CSET_ASCII,
                padding: StringPadding::NullPadded,
                size: Some(*n),
            },
            TypeDescriptor::FixedUnicode(n) => DatatypeRecipe::String {
                cset: H5T_cset_t::H5T_CSET_UTF8,
                padding: StringPadding::NullPadded,
                size: Some(*n),
            },
            TypeDescriptor::VarLenArray(t) => DatatypeRecipe::VarLen {
                elem: Box::new(Self::creation_recipe(t)),
            },
            TypeDescriptor::VarLenAscii => DatatypeRecipe::String {
                cset: H5T_cset_t::H5T_CSET_ASCII,
                padding: StringPadding::NullTerminated,
                size: None,
            },
            TypeDescriptor::VarLenUnicode => DatatypeRecipe::String {
                cset: H5T_cset_t::H5T_CSET_UTF8,
                padding: StringPadding::NullTerminated,
                size: None,
            },
        }
    }
}

impl Datatype {
    /// Whether the datatype of `desc` can be created: the size of every compound member
    /// within it fits in a `usize`, and so does the end of the member.
    pub fn is_buildable(desc: &TypeDescriptor) -> (b: bool)
        ensures
            b == buildable(desc@),
        decreases desc,
    {
        match desc {
            TypeDescriptor::Compound(c) => {
                let ghost fs = fields_model(c.fields@);
                proof {
                    lemma_fields_model(c.fields@);
                    assert(fs.take(0) =~= Seq::<FieldModel>::empty());
                }
                let n = c.fields.len();
                let mut i: usize = 0;
                while i < n
                    invariant
                        *desc is Compound,
                        (*desc)->Compound_0 == *c,
                        n == c.fields.len(),
                        fs == fields_model(c.fields@),
                        fs.len() == n,
                        forall|j: int| 0 <= j < n ==> #[trigger] fs[j] == field_model(c.fields@[j]),
                        0 <= i <= n,
                        members_buildable(fs.take(i as int)),
                    decreases n - i,
                {
                    let f = &c.fields[i];
                    proof {
                        assert(decreases_to!(*desc => (*desc)->Compound_0));
                        assert(decreases_to!((*desc)->Compound_0 => c.fields));
                        assert(decreases_to!(c.fields => c.fields@));
                        assert(decreases_to!(c.fields@ => c.fields@[i as int]));
                        assert(decreases_to!(c.fields@[i as int] => c.fields@[i as int].ty));
                        assert(fs[i as int] == field_model(*f));
                        assert(fs.take(i + 1).drop_last() =~= fs.take(i as int));
                        assert(fs.take(i + 1).last() == fs[i as int]);
                    }
                    let fits = match f.ty.checked_size() {
                        Some(size) => f.offset.checked_add(size).is_some(),
                        None => false,
                    };
                    if !fits || !Self::is_buildable(&f.ty) {
                        proof {
                            if members_buildable(fs) {
                                lemma_members_buildable_at(fs, i as int);
                            }
                        }
                        return false;
                    }
                    assert(member_buildable(fs[i as int]));
                    i = i + 1;
                }
                proof {
                    assert(fs.take(n as int) =~= fs);
                }
                true
            },
            TypeDescriptor::FixedArray(t, _) => Self::is_buildable(t),
            TypeDescriptor::VarLenArray(t) => Self::is_buildable(t),
            _ => true,
        }
    }

    /// How the C library creates the datatype of `desc`, when it can be created (see
    /// `is_buildable`).
    pub fn try_creation_recipe(desc: &TypeDescriptor) -> (r: Option<DatatypeRecipe>)
        ensures
            r is Some <==> buildable(desc@),
            r matches Some(recipe) ==> recipe@ == recipe_of(desc@),
    {
        if Self::is_buildable(desc) {
            Some(Self::creation_recipe(desc))
        } else {
            None
        }
    }
}

// ===========================================================================
// Laws of reading back and creating datatypes
// ===========================================================================

/// The C library's answer on whether a conversion is compiled decides its kind: any
/// positive answer (true) means a hard conversion, zero (false) a soft one, and a negative
/// answer (failure) no conversion path.
pub proof fn law_compiler_answer_kinds(answer: htri_t)
    ensures
        answer > 0 ==> conversion_of_answer(answer) == Some(Conversion::Hard),
        answer == 0 ==> conversion_of_answer(answer) == Some(Conversion::Soft),
        answer < 0 ==> conversion_of_answer(answer) is None,
        conversion_of_answer(answer) == Some(Conversion::Soft) ==> answer == 0,
{
}

/// An enumeration reads back over the integer type that its base reads back as: when the
/// result is an enumeration, its width is the base's width and it is signed exactly when
/// the base is a signed integer; when the result is a boolean, the base is a one-byte
/// integer and the members are `FALSE = 0, TRUE = 1`.
pub proof fn law_enum_reads_back_over_its_base(members: Vec<EnumMember>, base: Box<DatatypeInfo>)
    ensures
        described_by(DatatypeInfo::Enum { members, base }) matches Ok(TypeModel::Enum(e)) ==> (
        described_by(*base) == Ok::<TypeModel, Seq<char>>(
            if e.signed {
                TypeModel::Integer(e.size)
            } else {
                TypeModel::Unsigned(e.size)
            },
        ) && e.members == members_model(members@)),
        described_by(DatatypeInfo::Enum { members, base }) == Ok::<TypeModel, Seq<char>>(
            TypeModel::Boolean,
        ) ==> (described_by(*base) == Ok::<TypeModel, Seq<char>>(TypeModel::Integer(IntSize::U1))
            || described_by(*base) == Ok::<TypeModel, Seq<char>>(TypeModel::Unsigned(IntSize::U1)))
            && members_model(members@).len() == 2,
        described_by(*base) == Ok::<TypeModel, Seq<char>>(TypeModel::Integer(IntSize::U4))
            ==> described_by(DatatypeInfo::Enum { members, base }) == Ok::<TypeModel, Seq<char>>(
            TypeModel::Enum(EnumModel { size: IntSize::U4, signed: true, members: members_model(members@) }),
        ),
{
}

/// Whether a predefined datatype is a signed integer type.
pub open spec fn predefined_signed(p: PredefinedType) -> bool {
    p == PredefinedType::StdI8 || p == PredefinedType::StdI16 || p == PredefinedType::StdI32
        || p == PredefinedType::StdI64 || p == PredefinedType::NativeInt8
}

/// The size in bytes of a predefined datatype.
pub open spec fn predefined_bytes(p: PredefinedType) -> nat {
    match p {
        PredefinedType::StdI8 | PredefinedType::StdU8 | PredefinedType::NativeInt8 => 1,
        PredefinedType::StdI16 | PredefinedType::StdU16 => 2,
        PredefinedType::StdI32 | PredefinedType::StdU32 | PredefinedType::IeeeF32 => 4,
        PredefinedType::StdI64 | PredefinedType::StdU64 | PredefinedType::IeeeF64 => 8,
    }
}

/// The datatype created for an integer type is a standard integer type of the same width
/// and signedness; the datatype created for an enumeration starts from the datatype created
/// for the enumeration's base type, and so has its width and signedness.
pub proof fn law_integer_and_enum_bases(size: IntSize, signed: bool, e: EnumModel)
    ensures
        recipe_of(TypeModel::Integer(size)) matches RecipeModel::Copy(p) && predefined_signed(p)
            && predefined_bytes(p) == size.bytes(),
        recipe_of(TypeModel::Unsigned(size)) matches RecipeModel::Copy(p) && !predefined_signed(p)
            && predefined_bytes(p) == size.bytes(),
        recipe_of(TypeModel::Enum(e)) matches RecipeModel::Enum { base, members } && *base
            == recipe_of(
            if e.signed {
                TypeModel::Integer(e.size)
            } else {
                TypeModel::Unsigned(e.size)
            },
        ) && members == e.members,
        recipe_of(TypeModel::Enum(e)) matches RecipeModel::Enum { base, .. } && (*base matches RecipeModel::Copy(p)
            && predefined_signed(p) == e.signed && predefined_bytes(p) == e.size.bytes()),
{
}

} // verus!
