use vstd::prelude::*;

use crate::h5type::{CompoundModel, FieldModel, TypeModel};

verus! {

broadcast use vstd::layout::layout_of_primitives;

/// The size in bytes of a pointer (and of a `usize`) on this machine.
pub open spec fn pointer_bytes() -> nat {
    vstd::layout::size_of::<usize>()
}

/// `x` rounded up to the next multiple of `a` (for `a > 0`).
pub open spec fn round_up(x: nat, a: nat) -> nat {
    if a == 0 || x % a == 0 {
        x
    } else {
        (x + (a - x % a)) as nat
    }
}

pub open spec fn max_nat(a: nat, b: nat) -> nat {
    if a >= b {
        a
    } else {
        b
    }
}

impl TypeModel {
    /// The size in bytes of a value of this type.
    pub open spec fn byte_size(self) -> nat
        decreases self,
    {
        match self {
            TypeModel::Integer(s) => s.bytes(),
            TypeModel::Unsigned(s) => s.bytes(),
            TypeModel::Float(s) => s.bytes(),
            TypeModel::Boolean => 1nat,
            TypeModel::Enum(e) => e.size.bytes(),
            TypeModel::Compound(c) => c.size as nat,
            TypeModel::FixedArray(t, n) => t.byte_size() * (n as nat),
            TypeModel::FixedAscii(n) => n as nat,
            TypeModel::FixedUnicode(n) => n as nat,
            TypeModel::VarLenArray(_) => 2nat * pointer_bytes(),
            TypeModel::VarLenAscii => pointer_bytes(),
            TypeModel::VarLenUnicode => pointer_bytes(),
        }
    }

    /// The size of this type, and of every array element type within it, fits in a `usize`.
    pub open spec fn size_fits(self) -> bool
        decreases self,
    {
        match self {
            TypeModel::FixedArray(t, n) => t.size_fits() && t.byte_size() * n <= usize::MAX,
            _ => self.byte_size() <= usize::MAX,
        }
    }

    /// The alignment that a C compiler gives this type.
    pub open spec fn alignment(self) -> nat
        decreases self,
    {
        match self {
            TypeModel::Compound(c) => if c.fields.len() == 0 {
                1
            } else {
                fields_alignment(c.fields)
            },
            TypeModel::FixedArray(t, _) => t.alignment(),
            TypeModel::FixedAscii(_) => 1,
            TypeModel::FixedUnicode(_) => 1,
            TypeModel::VarLenArray(_) => pointer_bytes(),
            _ => self.byte_size(),
        }
    }
}

/// The largest alignment among the types of `fs` (0 when there is none).
pub open spec fn fields_alignment(fs: Seq<FieldModel>) -> nat
    decreases fs,
{
    if fs.len() == 0 {
        0
    } else {
        max_nat(fields_alignment(fs.drop_last()), fs.last().ty.alignment())
    }
}

// ---------------------------------------------------------------------------
// Ordering members by declaration index
// ---------------------------------------------------------------------------

/// Inserts `f` into `s` after every trailing member whose index is not greater than
/// `f`'s: one step of a stable insertion sort.
pub open spec fn insert_by_index(s: Seq<FieldModel>, f: FieldModel) -> Seq<FieldModel>
    decreases s.len(),
{
    if s.len() == 0 {
        seq![f]
    } else if s.last().index <= f.index {
        s.push(f)
    } else {
        insert_by_index(s.drop_last(), f).push(s.last())
    }
}

/// The members of `s` in the order of their indices; members with equal indices keep
/// their relative order (a stable sort).
pub open spec fn sort_by_index(s: Seq<FieldModel>) -> Seq<FieldModel>
    decreases s.len(),
{
    if s.len() == 0 {
        s
    } else {
        insert_by_index(sort_by_index(s.drop_last()), s.last())
    }
}

/// The members of `s` are in order of their indices.
pub open spec fn sorted_by_index(s: Seq<FieldModel>) -> bool {
    forall|i: int, j: int| 0 <= i < j < s.len() ==> s[i].index <= s[j].index
}

// ---------------------------------------------------------------------------
// C layout
// ---------------------------------------------------------------------------

/// The result of laying members out one after another as a C compiler does.
pub struct CLayout {
    /// The members, with their offsets set.
    pub fields: Seq<FieldModel>,
    /// The end of the last member.
    pub end: nat,
    /// The largest alignment seen (at least 1).
    pub max_align: nat,
    /// Every intermediate value fits in a `usize`.
    pub fits: bool,
}

/// Lays out `fs` in order: each member at the first offset after the previous one that is
/// a multiple of its alignment.
pub open spec fn c_layout(fs: Seq<FieldModel>) -> CLayout
    decreases fs.len(),
{
    if fs.len() == 0 {
        CLayout { fields: seq![], end: 0, max_align: 1, fits: true }
    } else {
        let p = c_layout(fs.drop_last());
        let f = fs.last();
        let a = f.ty.alignment();
        let off = round_up(p.end, a);
        let end = off + f.ty.byte_size();
        let ma = max_nat(p.max_align, a);
        CLayout {
            fields: p.fields.push(
                FieldModel { name: f.name, ty: f.ty, offset: off as usize, index: f.index },
            ),
            end: end,
            max_align: ma,
            fits: p.fits && f.ty.size_fits() && end <= usize::MAX && round_up(end, ma)
                <= usize::MAX,
        }
    }
}

/// Lays out `fs` as a C struct; with no members the given size stays.
pub open spec fn c_layout_of(fs: Seq<FieldModel>, size: usize) -> CompoundModel {
    if fs.len() == 0 {
        CompoundModel { fields: fs, size: size }
    } else {
        let l = c_layout(fs);
        CompoundModel { fields: l.fields, size: round_up(l.end, l.max_align) as usize }
    }
}

/// The result of packing members one after another with no padding.
pub struct PackedLayout {
    pub fields: Seq<FieldModel>,
    pub end: nat,
    pub fits: bool,
}

/// Packs `fs` in order, each member right after the previous one.
pub open spec fn packed_layout(fs: Seq<FieldModel>) -> PackedLayout
    decreases fs.len(),
{
    if fs.len() == 0 {
        PackedLayout { fields: seq![], end: 0, fits: true }
    } else {
        let p = packed_layout(fs.drop_last());
        let f = fs.last();
        let end = p.end + f.ty.byte_size();
        PackedLayout {
            fields: p.fields.push(
                FieldModel { name: f.name, ty: f.ty, offset: p.end as usize, index: f.index },
            ),
            end: end,
            fits: p.fits && f.ty.size_fits() && end <= usize::MAX,
        }
    }
}

impl CompoundModel {
    /// The C representation: members in index order, each converted to its C
    /// representation and placed at its C offset; the size padded to the largest alignment.
    pub open spec fn c_repr(self) -> CompoundModel
        decreases self,
    {
        c_layout_of(sort_by_index(fields_c_repr(self.fields)), self.size)
    }

    /// Computing the C representation overflows no `usize`.
    pub open spec fn c_repr_fits(self) -> bool
        decreases self,
    {
        fields_c_repr_fit(self.fields) && (self.fields.len() > 0 ==> c_layout(
            sort_by_index(fields_c_repr(self.fields)),
        ).fits)
    }

    /// The packed representation: members in index order, each converted to its packed
    /// representation and placed right after the previous one.
    pub open spec fn packed_repr(self) -> CompoundModel
        decreases self,
    {
        let l = packed_layout(sort_by_index(fields_packed_repr(self.fields)));
        CompoundModel { fields: l.fields, size: l.end as usize }
    }

    /// Computing the packed representation overflows no `usize`.
    pub open spec fn packed_repr_fits(self) -> bool
        decreases self,
    {
        fields_packed_repr_fit(self.fields) && packed_layout(
            sort_by_index(fields_packed_repr(self.fields)),
        ).fits
    }
}

impl TypeModel {
    /// The C representation of this type: every compound within it laid out as C does.
    pub open spec fn c_repr(self) -> TypeModel
        decreases self,
    {
        match self {
            TypeModel::Compound(c) => TypeModel::Compound(c.c_repr()),
            TypeModel::FixedArray(t, n) => TypeModel::FixedArray(Box::new(t.c_repr()), n),
            TypeModel::VarLenArray(t) => TypeModel::VarLenArray(Box::new(t.c_repr())),
            _ => self,
        }
    }

    pub open spec fn c_repr_fits(self) -> bool
        decreases self,
    {
        match self {
            TypeModel::Compound(c) => c.c_repr_fits(),
            TypeModel::FixedArray(t, _) => t.c_repr_fits(),
            TypeModel::VarLenArray(t) => t.c_repr_fits(),
            _ => true,
        }
    }

    /// The packed representation of this type: every compound within it packed.
    pub open spec fn packed_repr(self) -> TypeModel
        decreases self,
    {
        match self {
            TypeModel::Compound(c) => TypeModel::Compound(c.packed_repr()),
            TypeModel::FixedArray(t, n) => TypeModel::FixedArray(Box::new(t.packed_repr()), n),
            TypeModel::VarLenArray(t) => TypeModel::VarLenArray(Box::new(t.packed_repr())),
            _ => self,
        }
    }

    pub open spec fn packed_repr_fits(self) -> bool
        decreases self,
    {
        match self {
            TypeModel::Compound(c) => c.packed_repr_fits(),
            TypeModel::FixedArray(t, _) => t.packed_repr_fits(),
            TypeModel::VarLenArray(t) => t.packed_repr_fits(),
            _ => true,
        }
    }
}

/// Each member with its type replaced by that type's C representation.
pub open spec fn fields_c_repr(fs: Seq<FieldModel>) -> Seq<FieldModel>
    decreases fs,
{
    if fs.len() == 0 {
        seq![]
    } else {
        let f = fs.last();
        fields_c_repr(fs.drop_last()).push(
            FieldModel { name: f.name, ty: f.ty.c_repr(), offset: f.offset, index: f.index },
        )
    }
}

pub open spec fn fields_c_repr_fit(fs: Seq<FieldModel>) -> bool
    decreases fs,
{
    if fs.len() == 0 {
        true
    } else {
        fields_c_repr_fit(fs.drop_last()) && fs.last().ty.c_repr_fits()
    }
}

/// Each member with its type replaced by that type's packed representation.
pub open spec fn fields_packed_repr(fs: Seq<FieldModel>) -> Seq<FieldModel>
    decreases fs,
{
    if fs.len() == 0 {
        seq![]
    } else {
        let f = fs.last();
        fields_packed_repr(fs.drop_last()).push(
            FieldModel { name: f.name, ty: f.ty.packed_repr(), offset: f.offset, index: f.index },
        )
    }
}

pub open spec fn fields_packed_repr_fit(fs: Seq<FieldModel>) -> bool
    decreases fs,
{
    if fs.len() == 0 {
        true
    } else {
        fields_packed_repr_fit(fs.drop_last()) && fs.last().ty.packed_repr_fits()
    }
}

/// Every alignment lies between 1 and 8 bytes.
pub proof fn lemma_alignment_bounds(t: TypeModel)
    ensures
        1 <= t.alignment() <= 8,
    decreases t,
{
    assert(pointer_bytes() == 4 || pointer_bytes() == 8) by {
        assert(vstd::layout::size_of::<usize>() * 8 == usize::BITS);
    }
    match t {
        TypeModel::Compound(c) => {
            if c.fields.len() > 0 {
                lemma_fields_alignment_bounds(c.fields);
            }
        },
        TypeModel::FixedArray(b, _) => {
            lemma_alignment_bounds(*b);
        },
        _ => {},
    }
}

pub proof fn lemma_fields_alignment_bounds(fs: Seq<FieldModel>)
    requires
        fs.len() > 0,
    ensures
        1 <= fields_alignment(fs) <= 8,
    decreases fs,
{
    lemma_alignment_bounds(fs.last().ty);
    if fs.len() > 1 {
        lemma_fields_alignment_bounds(fs.drop_last());
    } else {
        assert(fields_alignment(fs.drop_last()) == 0);
    }
}


pub proof fn lemma_fields_c_repr(fs: Seq<FieldModel>)
    ensures
        fields_c_repr(fs).len() == fs.len(),
        forall|i: int|
            0 <= i < fs.len() ==> #[trigger] fields_c_repr(fs)[i] == (FieldModel {
                name: fs[i].name,
                ty: fs[i].ty.c_repr(),
                offset: fs[i].offset,
                index: fs[i].index,
            }),
        fields_c_repr_fit(fs) <==> forall|i: int| 0 <= i < fs.len() ==> (#[trigger] fs[i]).ty.c_repr_fits(),
    decreases fs.len(),
{
    if fs.len() > 0 {
        lemma_fields_c_repr(fs.drop_last());
        if fields_c_repr_fit(fs) {
            assert forall|i: int| 0 <= i < fs.len() implies (#[trigger] fs[i]).ty.c_repr_fits() by {
                if i < fs.len() - 1 {
                    assert(fs.drop_last()[i] == fs[i]);
                }
            }
        }
        if forall|i: int| 0 <= i < fs.len() ==> (#[trigger] fs[i]).ty.c_repr_fits() {
            assert forall|i: int| 0 <= i < fs.drop_last().len() implies (
            #[trigger] fs.drop_last()[i]).ty.c_repr_fits() by {
                assert(fs.drop_last()[i] == fs[i]);
            }
        }
    }
}

pub proof fn lemma_fields_packed_repr(fs: Seq<FieldModel>)
    ensures
        fields_packed_repr(fs).len() == fs.len(),
        forall|i: int|
            0 <= i < fs.len() ==> #[trigger] fields_packed_repr(fs)[i] == (FieldModel {
                name: fs[i].name,
                ty: fs[i].ty.packed_repr(),
                offset: fs[i].offset,
                index: fs[i].index,
            }),
        fields_packed_repr_fit(fs) <==> forall|i: int| 0 <= i < fs.len() ==> (#[trigger] fs[i]).ty.packed_repr_fits(),
    decreases fs.len(),
{
    if fs.len() > 0 {
        lemma_fields_packed_repr(fs.drop_last());
        if fields_packed_repr_fit(fs) {
            assert forall|i: int| 0 <= i < fs.len() implies (#[trigger] fs[i]).ty.packed_repr_fits() by {
                if i < fs.len() - 1 {
                    assert(fs.drop_last()[i] == fs[i]);
                }
            }
        }
        if forall|i: int| 0 <= i < fs.len() ==> (#[trigger] fs[i]).ty.packed_repr_fits() {
            assert forall|i: int| 0 <= i < fs.drop_last().len() implies (
            #[trigger] fs.drop_last()[i]).ty.packed_repr_fits() by {
                assert(fs.drop_last()[i] == fs[i]);
            }
        }
    }
}

/// One insertion step places `f` at position `p`, where `p` is the first position after
/// which every member has a larger index.
pub proof fn lemma_insert_by_index_at(s: Seq<FieldModel>, f: FieldModel, p: int)
    requires
        0 <= p <= s.len(),
        p == 0 || s[p - 1].index <= f.index,
        forall|j: int| p <= j < s.len() ==> (#[trigger] s[j]).index > f.index,
    ensures
        insert_by_index(s, f) == s.take(p).push(f) + s.skip(p),
    decreases s.len(),
{
    if s.len() == 0 {
        assert(s.take(p).push(f) + s.skip(p) =~= seq![f]);
    } else if s.last().index <= f.index {
        if p < s.len() {
            assert(s[s.len() - 1].index > f.index);
        }
        assert(s.take(p).push(f) + s.skip(p) =~= s.push(f));
    } else {
        let d = s.drop_last();
        assert(p < s.len());
        assert forall|j: int| p <= j < d.len() implies (#[trigger] d[j]).index > f.index by {
            assert(d[j] == s[j]);
        }
        if p > 0 {
            assert(d[p - 1] == s[p - 1]);
        }
        lemma_insert_by_index_at(d, f, p);
        assert((d.take(p).push(f) + d.skip(p)).push(s.last()) =~= s.take(p).push(f) + s.skip(p));
    }
}

/// Sorting one more member is one more insertion step.
pub proof fn lemma_sort_by_index_step(s: Seq<FieldModel>, k: int)
    requires
        0 <= k < s.len(),
    ensures
        sort_by_index(s.take(k + 1)) == insert_by_index(sort_by_index(s.take(k)), s[k]),
{
    assert(s.take(k + 1).drop_last() =~= s.take(k));
}

/// The layout of a prefix is the layout of the shorter prefix plus one member.
pub proof fn lemma_c_layout_step(s: Seq<FieldModel>, k: int)
    requires
        0 <= k < s.len(),
    ensures
        c_layout(s.take(k + 1)) == ({
            let p = c_layout(s.take(k));
            let f = s[k];
            let a = f.ty.alignment();
            let off = round_up(p.end, a);
            let end = off + f.ty.byte_size();
            let ma = max_nat(p.max_align, a);
            CLayout {
                fields: p.fields.push(
                    FieldModel { name: f.name, ty: f.ty, offset: off as usize, index: f.index },
                ),
                end: end,
                max_align: ma,
                fits: p.fits && f.ty.size_fits() && end <= usize::MAX && round_up(end, ma)
                    <= usize::MAX,
            }
        }),
{
    assert(s.take(k + 1).drop_last() =~= s.take(k));
}

/// A layout that fits has prefixes that fit; its member list is as long as its input.
pub proof fn lemma_c_layout_prefix(s: Seq<FieldModel>, k: int)
    requires
        0 <= k <= s.len(),
        c_layout(s).fits,
    ensures
        c_layout(s.take(k)).fits,
    decreases s.len() - k,
{
    if k < s.len() {
        lemma_c_layout_step(s, k);
        lemma_c_layout_prefix(s, k + 1);
    } else {
        assert(s.take(k) =~= s);
    }
}

pub proof fn lemma_c_layout_len(s: Seq<FieldModel>)
    ensures
        c_layout(s).fields.len() == s.len(),
        c_layout(s).max_align >= 1,
        c_layout(s).max_align <= 8,
    decreases s.len(),
{
    if s.len() > 0 {
        lemma_c_layout_len(s.drop_last());
        lemma_alignment_bounds(s.last().ty);
    }
}

pub proof fn lemma_packed_layout_step(s: Seq<FieldModel>, k: int)
    requires
        0 <= k < s.len(),
    ensures
        packed_layout(s.take(k + 1)) == ({
            let p = packed_layout(s.take(k));
            let f = s[k];
            let end = p.end + f.ty.byte_size();
            PackedLayout {
                fields: p.fields.push(
                    FieldModel { name: f.name, ty: f.ty, offset: p.end as usize, index: f.index },
                ),
                end: end,
                fits: p.fits && f.ty.size_fits() && end <= usize::MAX,
            }
        }),
{
    assert(s.take(k + 1).drop_last() =~= s.take(k));
}

pub proof fn lemma_packed_layout_prefix(s: Seq<FieldModel>, k: int)
    requires
        0 <= k <= s.len(),
        packed_layout(s).fits,
    ensures
        packed_layout(s.take(k)).fits,
    decreases s.len() - k,
{
    if k < s.len() {
        lemma_packed_layout_step(s, k);
        lemma_packed_layout_prefix(s, k + 1);
    } else {
        assert(s.take(k) =~= s);
    }
}


/// Sorting keeps the number of members.
pub proof fn lemma_sort_by_index_len(s: Seq<FieldModel>)
    ensures
        sort_by_index(s).len() == s.len(),
    decreases s.len(),
{
    if s.len() > 0 {
        lemma_sort_by_index_len(s.drop_last());
        lemma_insert_by_index_len(sort_by_index(s.drop_last()), s.last());
    }
}

pub proof fn lemma_insert_by_index_len(s: Seq<FieldModel>, f: FieldModel)
    ensures
        insert_by_index(s, f).len() == s.len() + 1,
    decreases s.len(),
{
    if s.len() > 0 && s.last().index > f.index {
        lemma_insert_by_index_len(s.drop_last(), f);
    }
}

/// `x` rounded up to the next multiple of `a`.
pub fn round_up_usize(x: usize, a: usize) -> (r: usize)
    requires
        a >= 1,
        round_up(x as nat, a as nat) <= usize::MAX,
    ensures
        r == round_up(x as nat, a as nat),
{
    let rem = x % a;
    if rem == 0 {
        x
    } else {
        x + (a - rem)
    }
}


// ---------------------------------------------------------------------------
// Laws of the layouts
// ---------------------------------------------------------------------------

/// Where an insertion step places `f` in `s`: after the last member whose index is not
/// greater than `f`'s, counting from the end.
pub open spec fn insertion_point(s: Seq<FieldModel>, f: FieldModel) -> int
    decreases s.len(),
{
    if s.len() == 0 {
        0
    } else if s.last().index <= f.index {
        s.len() as int
    } else {
        insertion_point(s.drop_last(), f)
    }
}

proof fn lemma_insertion_point(s: Seq<FieldModel>, f: FieldModel)
    requires
        sorted_by_index(s),
    ensures
        0 <= insertion_point(s, f) <= s.len(),
        insertion_point(s, f) == 0 || s[insertion_point(s, f) - 1].index <= f.index,
        forall|j: int| insertion_point(s, f) <= j < s.len() ==> (#[trigger] s[j]).index > f.index,
    decreases s.len(),
{
    if s.len() > 0 && s.last().index > f.index {
        let d = s.drop_last();
        assert(sorted_by_index(d)) by {
            assert forall|i: int, j: int| 0 <= i < j < d.len() implies d[i].index <= d[j].index by {
                assert(d[i] == s[i] && d[j] == s[j]);
            }
        }
        lemma_insertion_point(d, f);
        let p = insertion_point(d, f);
        if p > 0 {
            assert(d[p - 1] == s[p - 1]);
        }
        assert forall|j: int| p <= j < s.len() implies (#[trigger] s[j]).index > f.index by {
            if j < d.len() {
                assert(d[j] == s[j]);
            }
        }
    }
}

/// An insertion step keeps members sorted and adds exactly the new member.
proof fn lemma_insert_by_index_sorted(s: Seq<FieldModel>, f: FieldModel)
    requires
        sorted_by_index(s),
    ensures
        sorted_by_index(insert_by_index(s, f)),
        insert_by_index(s, f).to_multiset() == s.to_multiset().insert(f),
{
    lemma_insertion_point(s, f);
    let p = insertion_point(s, f);
    lemma_insert_by_index_at(s, f, p);
    let r = insert_by_index(s, f);
    assert(r =~= s.insert(p, f));
    assert forall|i: int, j: int| 0 <= i < j < r.len() implies r[i].index <= r[j].index by {
        if j < p {
            assert(r[i] == s[i] && r[j] == s[j]);
        } else if j == p {
            if i < p {
                assert(r[i] == s[i]);
                assert(s[i].index <= s[p - 1].index);
            }
        } else {
            assert(r[j] == s[j - 1]);
            if i < p {
                assert(r[i] == s[i]);
            } else if i > p {
                assert(r[i] == s[i - 1]);
            }
        }
    }
    vstd::seq_lib::to_multiset_insert(s, p, f);
}

/// Sorting by index leaves the members in order of their indices and keeps exactly the
/// members it was given.
pub proof fn law_sort_by_index(s: Seq<FieldModel>)
    ensures
        sorted_by_index(sort_by_index(s)),
        sort_by_index(s).to_multiset() == s.to_multiset(),
    decreases s.len(),
{
    if s.len() > 0 {
        law_sort_by_index(s.drop_last());
        lemma_insert_by_index_sorted(sort_by_index(s.drop_last()), s.last());
        vstd::seq_lib::to_multiset_build(s.drop_last(), s.last());
        assert(s.drop_last().push(s.last()) =~= s);
    }
}

/// The sum of the sizes of the types of `s`.
pub open spec fn total_size(s: Seq<FieldModel>) -> nat
    decreases s.len(),
{
    if s.len() == 0 {
        0
    } else {
        total_size(s.drop_last()) + s.last().ty.byte_size()
    }
}

/// A layout keeps each member's name, type and index; only the offset is its own.
pub open spec fn same_members_but_offsets(l: Seq<FieldModel>, s: Seq<FieldModel>) -> bool {
    &&& l.len() == s.len()
    &&& forall|i: int|
        0 <= i < s.len() ==> (#[trigger] l[i]).name == s[i].name && l[i].ty == s[i].ty
            && l[i].index == s[i].index
}

proof fn lemma_packed_layout_shape(s: Seq<FieldModel>)
    requires
        packed_layout(s).fits,
    ensures
        same_members_but_offsets(packed_layout(s).fields, s),
        packed_layout(s).end <= usize::MAX,
        s.len() == 0 ==> packed_layout(s).end == 0,
        s.len() > 0 ==> packed_layout(s).fields[0].offset == 0,
        s.len() > 0 ==> packed_layout(s).end == packed_layout(s).fields[s.len() - 1].offset
            + s[s.len() - 1].ty.byte_size(),
        forall|i: int, j: int|
            0 <= i && j == i + 1 && j < s.len() ==> #[trigger] packed_layout(s).fields[j].offset
                == #[trigger] packed_layout(s).fields[i].offset + s[i].ty.byte_size(),
    decreases s.len(),
{
    if s.len() > 0 {
        let d = s.drop_last();
        lemma_packed_layout_shape(d);
        let p = packed_layout(d);
        let l = packed_layout(s);
        assert forall|i: int| 0 <= i < d.len() implies #[trigger] l.fields[i] == p.fields[i] by {}
        assert forall|i: int| 0 <= i < d.len() implies #[trigger] d[i] == s[i] by {}
        if d.len() > 0 {
            assert(l.fields[d.len() as int].offset == p.end);
        }
    }
}

/// A rounded-up value is a multiple of the rounding step and less than one step above.
proof fn lemma_round_up(x: nat, a: nat)
    requires
        a >= 1,
    ensures
        round_up(x, a) % a == 0,
        x <= round_up(x, a) < x + a,
{
    if x % a != 0 {
        vstd::arithmetic::div_mod::lemma_fundamental_div_mod(x as int, a as int);
        let q = x / a;
        assert(round_up(x, a) == (q + 1) * a) by (nonlinear_arith)
            requires
                x == a * q + x % a,
                round_up(x, a) == x + (a - x % a),
        ;
        vstd::arithmetic::div_mod::lemma_mod_multiples_basic((q + 1) as int, a as int);
    }
}

/// The alignments are the powers of two up to 8.
pub open spec fn is_alignment(a: nat) -> bool {
    a == 1 || a == 2 || a == 4 || a == 8
}

proof fn lemma_alignment_values(t: TypeModel)
    ensures
        is_alignment(t.alignment()),
    decreases t,
{
    assert(pointer_bytes() == 4 || pointer_bytes() == 8) by {
        assert(vstd::layout::size_of::<usize>() * 8 == usize::BITS);
    }
    match t {
        TypeModel::Compound(c) => {
            if c.fields.len() > 0 {
                lemma_fields_alignment_values(c.fields);
            }
        },
        TypeModel::FixedArray(b, _) => {
            lemma_alignment_values(*b);
        },
        _ => {},
    }
}

proof fn lemma_fields_alignment_values(fs: Seq<FieldModel>)
    requires
        fs.len() > 0,
    ensures
        is_alignment(fields_alignment(fs)),
    decreases fs,
{
    lemma_alignment_values(fs.last().ty);
    if fs.len() > 1 {
        lemma_fields_alignment_values(fs.drop_last());
    } else {
        assert(fields_alignment(fs.drop_last()) == 0);
    }
}

/// A multiple of an alignment is a multiple of every smaller alignment.
proof fn lemma_alignment_divides(x: nat, a: nat, m: nat)
    requires
        is_alignment(a),
        is_alignment(m),
        a <= m,
        x % m == 0,
    ensures
        x % a == 0,
{
    assert(x % m == 0 && is_alignment(a) && is_alignment(m) && a <= m ==> x % a == 0) by (nonlinear_arith);
}

proof fn lemma_c_layout_shape(s: Seq<FieldModel>)
    requires
        c_layout(s).fits,
    ensures
        same_members_but_offsets(c_layout(s).fields, s),
        c_layout(s).end <= usize::MAX,
        is_alignment(c_layout(s).max_align),
        round_up(c_layout(s).end, c_layout(s).max_align) <= usize::MAX,
        forall|i: int| 0 <= i < s.len() ==> (#[trigger] s[i]).ty.alignment() <= c_layout(s).max_align,
        forall|i: int|
            0 <= i < s.len() ==> (#[trigger] c_layout(s).fields[i]).offset as nat % s[i].ty.alignment() == 0,
        s.len() > 0 ==> c_layout(s).end == c_layout(s).fields[s.len() - 1].offset
            + s[s.len() - 1].ty.byte_size(),
        forall|i: int, j: int|
            0 <= i && j == i + 1 && j < s.len() ==> #[trigger] c_layout(s).fields[i].offset
                + s[i].ty.byte_size() <= #[trigger] c_layout(s).fields[j].offset,
        s.len() > 0 ==> c_layout(s).fields[0].offset == 0,
        forall|i: int, j: int|
            0 <= i && j == i + 1 && j < s.len() ==> #[trigger] c_layout(s).fields[j].offset
                == round_up(((#[trigger] c_layout(s).fields[i]).offset + s[i].ty.byte_size()) as nat, s[j].ty.alignment()),
        s.len() > 0 ==> c_layout(s).max_align == fields_alignment(s),
    decreases s.len(),
{
    if s.len() > 0 {
        let d = s.drop_last();
        let f = s.last();
        let p = c_layout(d);
        let l = c_layout(s);
        lemma_c_layout_shape(d);
        if d.len() == 0 {
            assert(fields_alignment(d) == 0);
            assert(p.end == 0);
        }
        lemma_alignment_values(f.ty);
        lemma_round_up(p.end, f.ty.alignment());
        assert forall|i: int| 0 <= i < d.len() implies #[trigger] l.fields[i] == p.fields[i] by {}
        assert forall|i: int| 0 <= i < d.len() implies #[trigger] d[i] == s[i] by {}
        assert(l.fields[d.len() as int].offset == round_up(p.end, f.ty.alignment()));
        assert forall|i: int| 0 <= i < s.len() implies (#[trigger] s[i]).ty.alignment() <= l.max_align by {
            if i < d.len() {
                assert(d[i] == s[i]);
            }
        }
        assert forall|i: int|
            0 <= i < s.len() implies (#[trigger] l.fields[i]).offset as nat % s[i].ty.alignment() == 0 by {
            if i < d.len() {
                assert(l.fields[i] == p.fields[i]);
                assert(d[i] == s[i]);
            }
        }
        assert forall|i: int, j: int|
            0 <= i && j == i + 1 && j < s.len() implies #[trigger] l.fields[j].offset
                == round_up(((#[trigger] l.fields[i]).offset + s[i].ty.byte_size()) as nat, s[j].ty.alignment()) by {
            assert(d[i] == s[i]);
            if j < d.len() {
                assert(d[j] == s[j]);
            } else {
                assert(s[j] == f);
            }
        }
    }
}

/// Members with the same types have the same largest alignment.
proof fn lemma_fields_alignment_same_types(a: Seq<FieldModel>, b: Seq<FieldModel>)
    requires
        same_members_but_offsets(a, b),
    ensures
        fields_alignment(a) == fields_alignment(b),
    decreases a.len(),
{
    if a.len() > 0 {
        let (da, db) = (a.drop_last(), b.drop_last());
        assert(same_members_but_offsets(da, db)) by {
            assert forall|i: int| 0 <= i < db.len() implies (#[trigger] da[i]).name == db[i].name
                && da[i].ty == db[i].ty && da[i].index == db[i].index by {
                assert(da[i] == a[i] && db[i] == b[i]);
            }
        }
        lemma_fields_alignment_same_types(da, db);
        assert(a.last().ty == b.last().ty) by {
            assert(a.last() == a[a.len() - 1] && b.last() == b[b.len() - 1]);
        }
    }
}

/// The packed representation of a compound puts its members in index order, the first at
/// offset 0 and each right after the one before, and its size is where the last ends (0
/// with no members).
pub proof fn law_packed_repr_layout(c: CompoundModel)
    requires
        c.packed_repr_fits(),
    ensures
        ({
            let r = c.packed_repr();
            &&& r.fields.len() == c.fields.len()
            &&& sorted_by_index(r.fields)
            &&& r.fields.len() == 0 ==> r.size == 0
            &&& r.fields.len() > 0 ==> r.fields[0].offset == 0
            &&& forall|i: int, j: int|
                0 <= i && j == i + 1 && j < r.fields.len() ==> #[trigger] r.fields[j].offset
                    == #[trigger] r.fields[i].offset + r.fields[i].ty.byte_size()
            &&& r.fields.len() > 0 ==> r.size == r.fields.last().offset
                + r.fields.last().ty.byte_size()
        }),
{
    let s = sort_by_index(fields_packed_repr(c.fields));
    lemma_fields_packed_repr(c.fields);
    lemma_sort_by_index_len(fields_packed_repr(c.fields));
    law_sort_by_index(fields_packed_repr(c.fields));
    lemma_packed_layout_shape(s);
    let r = c.packed_repr();
    assert forall|i: int, j: int| 0 <= i < j < r.fields.len() implies r.fields[i].index
        <= r.fields[j].index by {
        assert(r.fields[i].index == s[i].index && r.fields[j].index == s[j].index);
    }
}

/// The C representation of a compound puts its members in index order, each at an offset
/// that is a multiple of its alignment and no earlier than the end of the one before; its
/// size covers the last member and is a multiple of every member's alignment. With no
/// members the compound keeps its size.
pub proof fn law_c_repr_layout(c: CompoundModel)
    requires
        c.c_repr_fits(),
    ensures
        ({
            let r = c.c_repr();
            &&& r.fields.len() == c.fields.len()
            &&& sorted_by_index(r.fields)
            &&& forall|i: int|
                0 <= i < r.fields.len() ==> (#[trigger] r.fields[i]).offset as nat % r.fields[i].ty.alignment() == 0
            &&& forall|i: int, j: int|
                0 <= i && j == i + 1 && j < r.fields.len() ==> #[trigger] r.fields[i].offset
                    + r.fields[i].ty.byte_size() <= #[trigger] r.fields[j].offset
            &&& r.fields.len() > 0 ==> r.fields.last().offset + r.fields.last().ty.byte_size()
                <= r.size
            &&& forall|i: int|
                0 <= i < r.fields.len() ==> r.size as nat % (#[trigger] r.fields[i]).ty.alignment() == 0
            &&& r.fields.len() == 0 ==> r.size == c.size
            &&& r.fields.len() > 0 ==> r.fields[0].offset == 0
            &&& forall|i: int, j: int|
                0 <= i && j == i + 1 && j < r.fields.len() ==> #[trigger] r.fields[j].offset
                    == round_up(
                    ((#[trigger] r.fields[i]).offset + r.fields[i].ty.byte_size()) as nat,
                    r.fields[j].ty.alignment(),
                )
            &&& r.fields.len() > 0 ==> r.size == round_up(
                (r.fields.last().offset + r.fields.last().ty.byte_size()) as nat,
                fields_alignment(r.fields),
            )
        }),
{
    let s = sort_by_index(fields_c_repr(c.fields));
    lemma_fields_c_repr(c.fields);
    lemma_sort_by_index_len(fields_c_repr(c.fields));
    law_sort_by_index(fields_c_repr(c.fields));
    let r = c.c_repr();
    if c.fields.len() > 0 {
        lemma_c_layout_shape(s);
        let l = c_layout(s);
        lemma_round_up(l.end, l.max_align);
        assert forall|i: int| 0 <= i < r.fields.len() implies r.size as nat % (#[trigger] r.fields[i]).ty.alignment() == 0 by {
            lemma_alignment_values(s[i].ty);
            lemma_alignment_divides(r.size as nat, s[i].ty.alignment(), l.max_align);
        }
        assert forall|i: int, j: int| 0 <= i < j < r.fields.len() implies r.fields[i].index
            <= r.fields[j].index by {
            assert(r.fields[i].index == s[i].index && r.fields[j].index == s[j].index);
        }
        lemma_fields_alignment_same_types(r.fields, s);
        assert forall|i: int, j: int|
            0 <= i && j == i + 1 && j < r.fields.len() implies #[trigger] r.fields[j].offset
                == round_up(((#[trigger] r.fields[i]).offset + r.fields[i].ty.byte_size()) as nat, r.fields[j].ty.alignment()) by {
            assert(r.fields[i].ty == s[i].ty && r.fields[j].ty == s[j].ty);
        }
        assert(r.fields.last().ty == s[s.len() - 1].ty);
    }
}

/// Whether a compound type stands within `t` (as `t` itself or as an element type).
pub open spec fn holds_compound(t: TypeModel) -> bool
    decreases t,
{
    match t {
        TypeModel::Compound(_) => true,
        TypeModel::FixedArray(b, _) => holds_compound(*b),
        TypeModel::VarLenArray(b) => holds_compound(*b),
        _ => false,
    }
}

/// The C and packed representations change only compound types: a type with no compound
/// within it is its own representation.
pub proof fn law_repr_without_compound(t: TypeModel)
    requires
        !holds_compound(t),
    ensures
        t.c_repr() == t,
        t.packed_repr() == t,
    decreases t,
{
    match t {
        TypeModel::FixedArray(b, _) => law_repr_without_compound(*b),
        TypeModel::VarLenArray(b) => law_repr_without_compound(*b),
        _ => {},
    }
}

/// Members already in index order are left as they are by sorting.
proof fn lemma_sort_sorted(s: Seq<FieldModel>)
    requires
        sorted_by_index(s),
    ensures
        sort_by_index(s) == s,
    decreases s.len(),
{
    if s.len() > 0 {
        let d = s.drop_last();
        assert(sorted_by_index(d)) by {
            assert forall|i: int, j: int| 0 <= i < j < d.len() implies d[i].index <= d[j].index by {
                assert(d[i] == s[i] && d[j] == s[j]);
            }
        }
        lemma_sort_sorted(d);
        if d.len() > 0 {
            assert(d.last() == s[s.len() - 2]);
        }
        assert(d.push(s.last()) =~= s);
    }
}

/// Every member after sorting is one of the members before.
proof fn lemma_sort_element(s: Seq<FieldModel>, i: int)
    requires
        0 <= i < sort_by_index(s).len(),
    ensures
        exists|j: int| 0 <= j < s.len() && s[j] == sort_by_index(s)[i],
{
    law_sort_by_index(s);
    let r = sort_by_index(s);
    assert(r.contains(r[i]));
    vstd::seq_lib::to_multiset_contains(r, r[i]);
    vstd::seq_lib::to_multiset_contains(s, r[i]);
}

/// The members that a layout places, with the offsets it gives them.
proof fn lemma_layout_members(s: Seq<FieldModel>)
    ensures
        same_members_but_offsets(c_layout(s).fields, s),
        same_members_but_offsets(packed_layout(s).fields, s),
    decreases s.len(),
{
    if s.len() > 0 {
        let d = s.drop_last();
        lemma_layout_members(d);
        assert forall|i: int| 0 <= i < d.len() implies #[trigger] d[i] == s[i] by {}
        assert forall|i: int| 0 <= i < d.len() implies #[trigger] c_layout(s).fields[i] == c_layout(d).fields[i] by {}
        assert forall|i: int| 0 <= i < d.len() implies #[trigger] packed_layout(s).fields[i] == packed_layout(d).fields[i] by {}
    }
}

/// A layout looks only at the names, types and indices of the members, not at the offsets
/// they had.
proof fn lemma_layout_ignores_offsets(a: Seq<FieldModel>, b: Seq<FieldModel>)
    requires
        same_members_but_offsets(a, b),
    ensures
        c_layout(a) == c_layout(b),
        packed_layout(a) == packed_layout(b),
    decreases a.len(),
{
    if a.len() > 0 {
        let (da, db) = (a.drop_last(), b.drop_last());
        assert(same_members_but_offsets(da, db)) by {
            assert forall|i: int| 0 <= i < db.len() implies (#[trigger] da[i]).name == db[i].name
                && da[i].ty == db[i].ty && da[i].index == db[i].index by {
                assert(da[i] == a[i] && db[i] == b[i]);
            }
        }
        lemma_layout_ignores_offsets(da, db);
        assert(a.last().name == b.last().name && a.last().ty == b.last().ty && a.last().index
            == b.last().index) by {
            assert(a.last() == a[a.len() - 1] && b.last() == b[b.len() - 1]);
        }
    }
}

/// Types that their C representation leaves as they are.
pub open spec fn c_repr_fixed(fs: Seq<FieldModel>) -> bool {
    forall|i: int| 0 <= i < fs.len() ==> (#[trigger] fs[i]).ty.c_repr() == fs[i].ty
}

/// Types that their packed representation leaves as they are.
pub open spec fn packed_repr_fixed(fs: Seq<FieldModel>) -> bool {
    forall|i: int| 0 <= i < fs.len() ==> (#[trigger] fs[i]).ty.packed_repr() == fs[i].ty
}

/// The C representation is a normal form: taking it twice gives what taking it once
/// gives.
pub proof fn law_c_repr_idempotent(t: TypeModel)
    ensures
        t.c_repr().c_repr() == t.c_repr(),
    decreases t,
{
    match t {
        TypeModel::Compound(c) => {
            let f = fields_c_repr(c.fields);
            let s = sort_by_index(f);
            lemma_fields_c_repr(c.fields);
            lemma_sort_by_index_len(f);
            law_sort_by_index(f);
            assert forall|j: int| 0 <= j < c.fields.len() implies (#[trigger] f[j]).ty.c_repr()
                == f[j].ty by {
                assert(decreases_to!(t => c));
                assert(decreases_to!(c => c.fields));
                assert(decreases_to!(c.fields => c.fields[j]));
                assert(decreases_to!(c.fields[j] => c.fields[j].ty));
                law_c_repr_idempotent(c.fields[j].ty);
            }
            assert(c_repr_fixed(s)) by {
                assert forall|i: int| 0 <= i < s.len() implies (#[trigger] s[i]).ty.c_repr()
                    == s[i].ty by {
                    lemma_sort_element(f, i);
                    let j = choose|j: int| 0 <= j < f.len() && f[j] == s[i];
                    assert(f[j].ty.c_repr() == f[j].ty);
                }
            }
            let r = c.c_repr();
            if c.fields.len() > 0 {
                lemma_layout_members(s);
                let g = fields_c_repr(r.fields);
                lemma_fields_c_repr(r.fields);
                assert(same_members_but_offsets(g, s)) by {
                    assert forall|i: int| 0 <= i < s.len() implies (#[trigger] g[i]).name
                        == s[i].name && g[i].ty == s[i].ty && g[i].index == s[i].index by {
                        assert(r.fields[i].ty == s[i].ty);
                    }
                }
                assert(sorted_by_index(g)) by {
                    assert forall|i: int, j: int| 0 <= i < j < g.len() implies g[i].index
                        <= g[j].index by {
                        assert(g[i].index == s[i].index && g[j].index == s[j].index);
                    }
                }
                lemma_sort_sorted(g);
                lemma_layout_ignores_offsets(g, s);
                assert(r.c_repr() == c_layout_of(g, r.size));
                assert(r.c_repr() == r);
            } else {
                assert(s.len() == 0);
                assert(fields_c_repr(r.fields) =~= s);
                assert(r.c_repr() == r);
            }
            assert(t.c_repr() == TypeModel::Compound(r));
        },
        TypeModel::FixedArray(b, _) => law_c_repr_idempotent(*b),
        TypeModel::VarLenArray(b) => law_c_repr_idempotent(*b),
        _ => {},
    }
}

/// The packed representation is a normal form: taking it twice gives what taking it once
/// gives.
pub proof fn law_packed_repr_idempotent(t: TypeModel)
    ensures
        t.packed_repr().packed_repr() == t.packed_repr(),
    decreases t,
{
    match t {
        TypeModel::Compound(c) => {
            let f = fields_packed_repr(c.fields);
            let s = sort_by_index(f);
            lemma_fields_packed_repr(c.fields);
            lemma_sort_by_index_len(f);
            law_sort_by_index(f);
            assert forall|j: int| 0 <= j < c.fields.len() implies (#[trigger] f[j]).ty.packed_repr()
                == f[j].ty by {
                assert(decreases_to!(t => c));
                assert(decreases_to!(c => c.fields));
                assert(decreases_to!(c.fields => c.fields[j]));
                assert(decreases_to!(c.fields[j] => c.fields[j].ty));
                law_packed_repr_idempotent(c.fields[j].ty);
            }
            assert(packed_repr_fixed(s)) by {
                assert forall|i: int| 0 <= i < s.len() implies (#[trigger] s[i]).ty.packed_repr()
                    == s[i].ty by {
                    lemma_sort_element(f, i);
                    let j = choose|j: int| 0 <= j < f.len() && f[j] == s[i];
                    assert(f[j].ty.packed_repr() == f[j].ty);
                }
            }
            let r = c.packed_repr();
            lemma_layout_members(s);
            let g = fields_packed_repr(r.fields);
            lemma_fields_packed_repr(r.fields);
            assert(same_members_but_offsets(g, s)) by {
                assert forall|i: int| 0 <= i < s.len() implies (#[trigger] g[i]).name == s[i].name
                    && g[i].ty == s[i].ty && g[i].index == s[i].index by {
                    assert(r.fields[i].ty == s[i].ty);
                }
            }
            assert(sorted_by_index(g)) by {
                assert forall|i: int, j: int| 0 <= i < j < g.len() implies g[i].index
                    <= g[j].index by {
                    assert(g[i].index == s[i].index && g[j].index == s[j].index);
                }
            }
            lemma_sort_sorted(g);
            lemma_layout_ignores_offsets(g, s);
            assert(r.packed_repr() == r);
            assert(t.packed_repr() == TypeModel::Compound(r));
        },
        TypeModel::FixedArray(b, _) => law_packed_repr_idempotent(*b),
        TypeModel::VarLenArray(b) => law_packed_repr_idempotent(*b),
        _ => {},
    }
}

/// Whether a member has index `k`.
pub open spec fn index_is(k: usize) -> spec_fn(FieldModel) -> bool {
    |f: FieldModel| f.index == k
}

/// The members of `s` whose index is `k`, in their order in `s`.
pub open spec fn with_index(s: Seq<FieldModel>, k: usize) -> Seq<FieldModel> {
    s.filter(index_is(k))
}

/// No member of `s` has index `k`.
proof fn lemma_with_index_none(s: Seq<FieldModel>, k: usize)
    requires
        forall|i: int| 0 <= i < s.len() ==> (#[trigger] s[i]).index != k,
    ensures
        with_index(s, k) == Seq::<FieldModel>::empty(),
    decreases s.len(),
{
    if s.len() > 0 {
        let d = s.drop_last();
        assert forall|i: int| 0 <= i < d.len() implies (#[trigger] d[i]).index != k by {
            assert(d[i] == s[i]);
        }
        lemma_with_index_none(d, k);
        d.lemma_filter_push(s.last(), index_is(k));
        assert(d.push(s.last()) =~= s);
    } else {
        assert(s.filter(index_is(k)) =~= Seq::<FieldModel>::empty()) by {
            reveal(Seq::filter);
        }
    }
}

/// An insertion step puts the new member after every member with the same index.
proof fn lemma_insert_with_index(s: Seq<FieldModel>, f: FieldModel, k: usize)
    requires
        sorted_by_index(s),
    ensures
        with_index(insert_by_index(s, f), k) == if f.index == k {
            with_index(s, k).push(f)
        } else {
            with_index(s, k)
        },
{
    lemma_insertion_point(s, f);
    let p = insertion_point(s, f);
    lemma_insert_by_index_at(s, f, p);
    let (a, b) = (s.take(p), s.skip(p));
    let pred = index_is(k);
    Seq::filter_distributes_over_add(a.push(f), b, pred);
    a.lemma_filter_push(f, pred);
    Seq::filter_distributes_over_add(a, b, pred);
    assert(a + b =~= s);
    if f.index == k {
        assert forall|i: int| 0 <= i < b.len() implies (#[trigger] b[i]).index != k by {
            assert(b[i] == s[p + i]);
        }
        lemma_with_index_none(b, k);
        assert(a.filter(pred) + b.filter(pred) =~= a.filter(pred));
        assert(a.filter(pred).push(f) + b.filter(pred) =~= a.filter(pred).push(f));
    }
}

/// Sorting by index is stable: the members of each index keep their order.
pub proof fn law_sort_by_index_stable(s: Seq<FieldModel>, k: usize)
    ensures
        with_index(sort_by_index(s), k) == with_index(s, k),
    decreases s.len(),
{
    if s.len() > 0 {
        let d = s.drop_last();
        law_sort_by_index_stable(d, k);
        law_sort_by_index(d);
        lemma_insert_with_index(sort_by_index(d), s.last(), k);
        d.lemma_filter_push(s.last(), index_is(k));
        assert(d.push(s.last()) =~= s);
    }
}

/// The members of the C representation of a compound are its members, each with its type
/// converted to its C representation, stably sorted by index: the same names, types and
/// indices, in index order, with the members of each index in their original order.
pub proof fn law_c_repr_members(c: CompoundModel)
    ensures
        ({
            let f = fields_c_repr(c.fields);
            let s = sort_by_index(f);
            &&& f.len() == c.fields.len()
            &&& forall|i: int|
                0 <= i < c.fields.len() ==> #[trigger] f[i] == (FieldModel {
                    name: c.fields[i].name,
                    ty: c.fields[i].ty.c_repr(),
                    offset: c.fields[i].offset,
                    index: c.fields[i].index,
                })
            &&& sorted_by_index(s)
            &&& s.to_multiset() == f.to_multiset()
            &&& forall|k: usize| #[trigger] with_index(s, k) == with_index(f, k)
            &&& same_members_but_offsets(c.c_repr().fields, s)
        }),
{
    let f = fields_c_repr(c.fields);
    let s = sort_by_index(f);
    lemma_fields_c_repr(c.fields);
    law_sort_by_index(f);
    assert forall|k: usize| #[trigger] with_index(s, k) == with_index(f, k) by {
        law_sort_by_index_stable(f, k);
    }
    lemma_layout_members(s);
}

/// The members of the packed representation of a compound are its members, each with its
/// type converted to its packed representation, stably sorted by index: the same names,
/// types and indices, in index order, with the members of each index in their original
/// order.
pub proof fn law_packed_repr_members(c: CompoundModel)
    ensures
        ({
            let f = fields_packed_repr(c.fields);
            let s = sort_by_index(f);
            &&& f.len() == c.fields.len()
            &&& forall|i: int|
                0 <= i < c.fields.len() ==> #[trigger] f[i] == (FieldModel {
                    name: c.fields[i].name,
                    ty: c.fields[i].ty.packed_repr(),
                    offset: c.fields[i].offset,
                    index: c.fields[i].index,
                })
            &&& sorted_by_index(s)
            &&& s.to_multiset() == f.to_multiset()
            &&& forall|k: usize| #[trigger] with_index(s, k) == with_index(f, k)
            &&& same_members_but_offsets(c.packed_repr().fields, s)
        }),
{
    let f = fields_packed_repr(c.fields);
    let s = sort_by_index(f);
    lemma_fields_packed_repr(c.fields);
    law_sort_by_index(f);
    assert forall|k: usize| #[trigger] with_index(s, k) == with_index(f, k) by {
        law_sort_by_index_stable(f, k);
    }
    lemma_layout_members(s);
}

/// A scalar type (an integer, a float, a boolean or an enumeration) is aligned to its own
/// size, and an enumeration aligns as its base integer type.
pub proof fn law_scalar_alignment(t: TypeModel)
    ensures
        (t is Integer || t is Unsigned || t is Float || t is Boolean || t is Enum) ==> t.alignment()
            == t.byte_size(),
        t matches TypeModel::Enum(e) ==> t.alignment() == e.size.bytes() && t.alignment() == (
        if e.signed {
            TypeModel::Integer(e.size)
        } else {
            TypeModel::Unsigned(e.size)
        }).alignment(),
{
}

} // verus!
