//! Byte layouts of host objects.
//!
//! A layout is an ordered list of fields, each with its offset and its
//! kind, and a total size. It is well formed when the fields follow one
//! another without gap or overlap from offset 0 to the total size and each
//! starts at a multiple of its alignment: the layout a C compiler gives a
//! struct whose padding is spelled out as fields.

use vstd::prelude::*;

verus! {

/// The size in bytes of the opaque regions that stand for the host's
/// associative containers.
pub const CONTAINER_SIZE: usize = 48;

/// What a field holds.
#[derive(Clone, Copy, Debug, PartialEq, Eq)]
pub enum Kind {
    /// One byte: an unsigned 8-bit integer, or a byte of padding.
    Byte,
    /// A boolean in one byte.
    Flag,
    /// An unsigned 32-bit integer.
    Word,
    /// A signed 32-bit integer.
    Int,
    /// A binary32 number.
    Real,
    /// An unsigned 64-bit integer.
    Size,
    /// The address of a host object. It is never followed from here.
    Address,
    /// Three binary32 numbers: x, y, z.
    Vector,
    /// Three binary32 numbers: pitch, yaw, roll.
    Rotation,
    /// The region of a host map.
    MakeshiftMap,
    /// The region of a host set.
    MakeshiftSet,
    /// A region of the given size whose content is not modelled.
    Opaque(usize),
}

impl Kind {
    /// The number of bytes a field of this kind takes.
    pub open spec fn spec_size(self) -> nat {
        match self {
            Kind::Byte | Kind::Flag => 1,
            Kind::Word | Kind::Int | Kind::Real => 4,
            Kind::Size | Kind::Address => 8,
            Kind::Vector | Kind::Rotation => 12,
            Kind::MakeshiftMap | Kind::MakeshiftSet => CONTAINER_SIZE as nat,
            Kind::Opaque(size) => size as nat,
        }
    }

    /// The alignment of a field of this kind: its offset is a multiple of
    /// this.
    pub open spec fn spec_align(self) -> nat {
        match self {
            Kind::Word | Kind::Int | Kind::Real | Kind::Vector | Kind::Rotation => 4,
            Kind::Size | Kind::Address => 8,
            _ => 1,
        }
    }

    /// Whether a field of this kind may start at `offset`: whether `offset`
    /// is a multiple of the kind's alignment.
    pub open spec fn spec_aligned(self, offset: nat) -> bool {
        match self {
            Kind::Word | Kind::Int | Kind::Real | Kind::Vector | Kind::Rotation => offset % 4 == 0,
            Kind::Size | Kind::Address => offset % 8 == 0,
            _ => true,
        }
    }

    /// The number of bytes a field of this kind takes.
    pub fn size(&self) -> (size: usize)
        ensures
            size == self.spec_size(),
    {
        match self {
            Kind::Byte | Kind::Flag => 1,
            Kind::Word | Kind::Int | Kind::Real => 4,
            Kind::Size | Kind::Address => 8,
            Kind::Vector | Kind::Rotation => 12,
            Kind::MakeshiftMap | Kind::MakeshiftSet => CONTAINER_SIZE,
            Kind::Opaque(size) => *size,
        }
    }

    /// The alignment of a field of this kind.
    pub fn align(&self) -> (align: usize)
        ensures
            align == self.spec_align(),
    {
        match self {
            Kind::Word | Kind::Int | Kind::Real | Kind::Vector | Kind::Rotation => 4,
            Kind::Size | Kind::Address => 8,
            _ => 1,
        }
    }

    /// Whether a field of this kind may start at `offset`.
    pub fn aligned(&self, offset: usize) -> (aligned: bool)
        ensures
            aligned == self.spec_aligned(offset as nat),
            aligned == (offset as nat % self.spec_align() == 0),
    {
        proof {
            lemma_aligned(*self, offset as nat);
        }
        match self {
            Kind::Word | Kind::Int | Kind::Real | Kind::Vector | Kind::Rotation => offset % 4 == 0,
            Kind::Size | Kind::Address => offset % 8 == 0,
            _ => true,
        }
    }
}

/// A field may start at an offset exactly when the offset is a multiple of
/// the alignment of its kind.
pub proof fn lemma_aligned(kind: Kind, offset: nat)
    ensures
        kind.spec_aligned(offset) == (offset % kind.spec_align() == 0),
{
    let align = kind.spec_align();
    if align == 4 {
        assert(offset % align == offset % 4) by (nonlinear_arith)
            requires
                align == 4,
        ;
    } else if align == 8 {
        assert(offset % align == offset % 8) by (nonlinear_arith)
            requires
                align == 8,
        ;
    } else {
        assert(offset % align == 0) by (nonlinear_arith)
            requires
                align == 1,
        ;
    }
}

/// A field: where it starts and what it holds.
#[derive(Clone, Copy, Debug, PartialEq, Eq)]
pub struct Field {
    pub offset: usize,
    pub kind: Kind,
}

impl Field {
    /// The offset just past the field.
    pub open spec fn end(self) -> nat {
        self.offset as nat + self.kind.spec_size()
    }
}

/// The offset just past the last field: the size of the whole.
pub open spec fn end_of(fields: Seq<Field>) -> nat {
    if fields.len() == 0 {
        0
    } else {
        fields.last().end()
    }
}

/// The first field starts at 0, each other field starts where the one
/// before it ends, the last ends at `size`, and each is aligned.
pub open spec fn packed(fields: Seq<Field>, size: nat) -> bool {
    &&& fields.len() > 0 ==> fields[0].offset == 0
    &&& forall|i: int, j: int|
        0 <= i && j == i + 1 && j < fields.len() ==> (#[trigger] fields[j]).offset == (
        #[trigger] fields[i]).end()
    &&& forall|i: int|
        0 <= i < fields.len() ==> (#[trigger] fields[i]).kind.spec_aligned(fields[i].offset as nat)
    &&& size == end_of(fields)
}

/// The size of fields of these kinds laid end to end.
pub open spec fn extent(kinds: Seq<Kind>) -> nat
    decreases kinds.len(),
{
    if kinds.len() == 0 {
        0
    } else {
        extent(kinds.drop_last()) + kinds.last().spec_size()
    }
}

/// The field at position `i` is aligned where it falls when fields of
/// these kinds are laid end to end from offset 0.
pub open spec fn aligned_at(kinds: Seq<Kind>, i: int) -> bool {
    kinds[i].spec_aligned(extent(kinds.take(i)))
}

/// Fields of these kinds, laid end to end from offset 0, are all aligned
/// and take `size` bytes together.
pub open spec fn fits(kinds: Seq<Kind>, size: nat) -> bool {
    &&& extent(kinds) == size
    &&& forall|i: int| 0 <= i < kinds.len() ==> #[trigger] aligned_at(kinds, i)
}

/// The kinds of the fields, in order.
pub open spec fn kinds_of(fields: Seq<Field>) -> Seq<Kind> {
    Seq::new(fields.len(), |i: int| fields[i].kind)
}

/// In a well-formed layout an earlier field ends before a later one starts,
/// and every field ends within the total size.
pub proof fn lemma_fields_disjoint(fields: Seq<Field>, size: nat, i: int, j: int)
    requires
        packed(fields, size),
        0 <= i < j < fields.len(),
    ensures
        fields[i].end() <= fields[j].offset,
        fields[j].end() <= size,
    decreases j - i,
{
    if i < j - 1 {
        lemma_fields_disjoint(fields, size, i, j - 1);
    }
    assert(fields[j].offset == fields[j - 1].end());
    lemma_field_within(fields, size, j);
}

/// In a well-formed layout every field ends within the total size.
pub proof fn lemma_field_within(fields: Seq<Field>, size: nat, i: int)
    requires
        packed(fields, size),
        0 <= i < fields.len(),
    ensures
        fields[i].end() <= size,
    decreases fields.len() - i,
{
    if i < fields.len() - 1 {
        lemma_field_within(fields, size, i + 1);
        assert(fields[i + 1].offset == fields[i].end());
    }
}

/// Adding kinds never makes a layout smaller.
pub proof fn lemma_extent_monotonic(kinds: Seq<Kind>, i: int)
    requires
        0 <= i <= kinds.len(),
    ensures
        extent(kinds.take(i)) <= extent(kinds),
    decreases kinds.len(),
{
    if i < kinds.len() {
        lemma_extent_monotonic(kinds.drop_last(), i);
        assert(kinds.drop_last().take(i) =~= kinds.take(i));
    } else {
        assert(kinds.take(i) =~= kinds);
    }
}

/// A well-formed layout.
#[derive(Debug, PartialEq, Eq)]
pub struct Layout {
    fields: Vec<Field>,
}

impl Layout {
    #[verifier::type_invariant]
    spec fn well_formed(self) -> bool {
        self.wf()
    }

    /// The fields, in order.
    pub closed spec fn fields(&self) -> Seq<Field> {
        self.fields@
    }

    /// The total size in bytes.
    pub open spec fn spec_size(&self) -> nat {
        end_of(self.fields())
    }

    /// The fields are packed, and their total size is one that a buffer can
    /// have.
    pub open spec fn wf(&self) -> bool {
        &&& packed(self.fields(), self.spec_size())
        &&& self.spec_size() <= usize::MAX
    }

    /// The layout without fields, of size 0.
    pub fn new() -> (layout: Layout)
        ensures
            layout.wf(),
            layout.fields() == Seq::<Field>::empty(),
    {
        Layout { fields: Vec::new() }
    }

    /// Appends a field of the given kind at the current end, if it is
    /// aligned there and the size stays within `usize`. Says whether it
    /// did; if not, the layout is unchanged.
    pub fn push(&mut self, kind: Kind) -> (pushed: bool)
        ensures
            old(self).wf(),
            final(self).wf(),
            pushed == (kind.spec_aligned(old(self).spec_size()) && old(self).spec_size()
                + kind.spec_size() <= usize::MAX),
            pushed ==> final(self).fields() == old(self).fields().push(
                Field { offset: old(self).spec_size() as usize, kind },
            ),
            !pushed ==> final(self).fields() == old(self).fields(),
    {
        proof {
            use_type_invariant(&*self);
        }
        let end = self.size();
        let size = kind.size();
        if !kind.aligned(end) || size > usize::MAX - end {
            return false;
        }
        let ghost before = self.fields@;
        let field = Field { offset: end, kind };
        proof {
            let after = before.push(field);
            assert forall|i: int, j: int|
                0 <= i && j == i + 1 && j < after.len() implies (#[trigger] after[j]).offset == (
            #[trigger] after[i]).end() by {
                assert(after[i] == before[i]);
                if j < before.len() {
                    assert(after[j] == before[j]);
                }
            }
            assert forall|i: int| 0 <= i < after.len() implies (#[trigger] after[i]).kind.spec_aligned(
                after[i].offset as nat,
            ) by {
                if i < before.len() {
                    assert(after[i] == before[i]);
                }
            }
            if before.len() > 0 {
                assert(after[0] == before[0]);
            }
            assert(after.last() == field);
            assert(packed(after, end_of(after)));
        }
        // The fields are taken out while they grow, so that `self` is well
        // formed at every step: first empty, then with the new field.
        let mut fields: Vec<Field> = Vec::new();
        core::mem::swap(&mut self.fields, &mut fields);
        fields.push(field);
        core::mem::swap(&mut self.fields, &mut fields);
        true
    }

    /// Appends a field of the given kind at the current end, where it is
    /// known to be aligned and to fit.
    pub(crate) fn place(&mut self, kind: Kind)
        requires
            kind.spec_aligned(old(self).spec_size()),
            old(self).spec_size() + kind.spec_size() <= usize::MAX,
        ensures
            final(self).fields() == old(self).fields().push(
                Field { offset: old(self).spec_size() as usize, kind },
            ),
            final(self).spec_size() == old(self).spec_size() + kind.spec_size(),
    {
        let _ = self.push(kind);
    }

    /// Lays fields of the given kinds end to end from offset 0. Gives the
    /// layout if every field is aligned where it falls and the whole takes
    /// exactly `size` bytes, and nothing otherwise.
    pub fn pack(kinds: &[Kind], size: usize) -> (layout: Option<Layout>)
        ensures
            match layout {
                Some(layout) => fits(kinds@, size as nat) && layout.wf() && kinds_of(
                    layout.fields(),
                ) == kinds@ && layout.spec_size() == size,
                None => !fits(kinds@, size as nat),
            },
    {
        let mut layout = Layout::new();
        let mut i: usize = 0;
        assert(kinds@.take(0) =~= Seq::<Kind>::empty());
        assert(kinds_of(layout.fields()) =~= kinds@.take(0));
        while i < kinds.len()
            invariant
                i <= kinds@.len(),
                kinds_of(layout.fields()) == kinds@.take(i as int),
                layout.spec_size() == extent(kinds@.take(i as int)),
                forall|j: int| 0 <= j < i ==> #[trigger] aligned_at(kinds@, j),
            decreases kinds@.len() - i,
        {
            let kind = kinds[i];
            let ghost grown = kinds@.take(i + 1);
            proof {
                assert(grown.drop_last() =~= kinds@.take(i as int));
                assert(grown.last() == kind);
                assert(extent(grown) == extent(kinds@.take(i as int)) + kind.spec_size());
                lemma_extent_monotonic(kinds@, i + 1);
            }
            if !layout.push(kind) {
                proof {
                    if fits(kinds@, size as nat) {
                        assert(aligned_at(kinds@, i as int));
                    }
                }
                return None;
            }
            proof {
                assert(aligned_at(kinds@, i as int));
                assert(kinds_of(layout.fields()) =~= grown);
            }
            i = i + 1;
        }
        assert(kinds@.take(i as int) =~= kinds@);
        if layout.size() == size {
            Some(layout)
        } else {
            None
        }
    }

    /// The total size in bytes.
    pub fn size(&self) -> (size: usize)
        ensures
            self.wf(),
            size == self.spec_size(),
    {
        proof {
            use_type_invariant(self);
        }
        let len = self.fields.len();
        if len == 0 {
            0
        } else {
            let last = self.fields[len - 1];
            last.offset + last.kind.size()
        }
    }

    /// The number of fields.
    pub fn len(&self) -> (len: usize)
        ensures
            self.wf(),
            len == self.fields().len(),
    {
        proof {
            use_type_invariant(self);
        }
        self.fields.len()
    }

    /// The field at position `index`, if there is one.
    pub fn field(&self, index: usize) -> (field: Option<Field>)
        ensures
            self.wf(),
            field == (if index < self.fields().len() {
                Some(self.fields()[index as int])
            } else {
                None
            }),
    {
        proof {
            use_type_invariant(self);
        }
        if index < self.fields.len() {
            Some(self.fields[index])
        } else {
            None
        }
    }
}

} // verus!
