//! Typed views onto the bytes of a host object.
//!
//! An [`Overlay`] pairs a layout with a buffer of exactly the layout's size.
//! Fields are read and written by their position in the layout; what is
//! read or written is a [`Value`] of the field's kind, encoded little-endian
//! at the field's offset. A write changes the bytes of its field and no
//! others.

use crate::endian::{
    le_bytes, le_value, lemma_le_bytes_len, lemma_le_value_bound, lemma_le_value_of_bytes,
    lemma_radix_values, read_le, splice, write_le,
};
use crate::host::{Rotation, Vector3};
use crate::layout::{
    lemma_field_within, lemma_fields_disjoint, Field, Kind, Layout, CONTAINER_SIZE,
};
use crate::text::copy_range;
use vstd::prelude::*;

verus! {

/// The region of a host map: its size is known, its content is not
/// interpreted.
#[derive(Clone, Copy, Debug, PartialEq, Eq)]
pub struct MakeshiftMap {
    pub map_data: [u8; 48],
}

/// The region of a host set: its size is known, its content is not
/// interpreted.
#[derive(Clone, Copy, Debug, PartialEq, Eq)]
pub struct MakeshiftSet {
    pub set_data: [u8; 48],
}

/// What a field holds. Binary32 numbers are held as their bit patterns.
#[derive(Debug, PartialEq, Eq)]
pub enum Value {
    Byte(u8),
    Flag(bool),
    Word(u32),
    Int(i32),
    Real(u32),
    Size(u64),
    Address(u64),
    Vector(Vector3),
    Rotation(Rotation),
    MakeshiftMap(MakeshiftMap),
    MakeshiftSet(MakeshiftSet),
    Opaque(Vec<u8>),
}

/// What a field holds, with regions as byte sequences.
pub enum Datum {
    Byte(u8),
    Flag(bool),
    Word(u32),
    Int(i32),
    Real(u32),
    Size(u64),
    Address(u64),
    Vector(Vector3),
    Rotation(Rotation),
    MakeshiftMap(Seq<u8>),
    MakeshiftSet(Seq<u8>),
    Opaque(Seq<u8>),
}

impl View for Value {
    type V = Datum;

    open spec fn view(&self) -> Datum {
        match self {
            Value::Byte(b) => Datum::Byte(*b),
            Value::Flag(f) => Datum::Flag(*f),
            Value::Word(w) => Datum::Word(*w),
            Value::Int(i) => Datum::Int(*i),
            Value::Real(r) => Datum::Real(*r),
            Value::Size(s) => Datum::Size(*s),
            Value::Address(a) => Datum::Address(*a),
            Value::Vector(v) => Datum::Vector(*v),
            Value::Rotation(r) => Datum::Rotation(*r),
            Value::MakeshiftMap(m) => Datum::MakeshiftMap(m.map_data@),
            Value::MakeshiftSet(s) => Datum::MakeshiftSet(s.set_data@),
            Value::Opaque(bytes) => Datum::Opaque(bytes@),
        }
    }
}

/// The unsigned number with the same 32 bits as `value` in two's
/// complement.
pub open spec fn twos(value: i32) -> nat {
    if value >= 0 {
        value as nat
    } else {
        (value + 0x1_0000_0000) as nat
    }
}

/// The signed number with the same 32 bits as `bits` in two's complement.
pub open spec fn untwos(bits: nat) -> i32 {
    if bits >= 0x8000_0000 {
        (bits - 0x1_0000_0000) as i32
    } else {
        bits as i32
    }
}

/// The encoding of three 32-bit numbers one after the other.
pub open spec fn triple_bytes(a: u32, b: u32, c: u32) -> Seq<u8> {
    le_bytes(a as nat, 4) + le_bytes(b as nat, 4) + le_bytes(c as nat, 4)
}

/// The 32-bit number encoded in the four bytes of `bytes` from `at` on.
pub open spec fn word_at(bytes: Seq<u8>, at: int) -> u32 {
    le_value(bytes.subrange(at, at + 4)) as u32
}

impl Datum {
    /// The kind of field that holds this.
    pub open spec fn kind(self) -> Kind {
        match self {
            Datum::Byte(_) => Kind::Byte,
            Datum::Flag(_) => Kind::Flag,
            Datum::Word(_) => Kind::Word,
            Datum::Int(_) => Kind::Int,
            Datum::Real(_) => Kind::Real,
            Datum::Size(_) => Kind::Size,
            Datum::Address(_) => Kind::Address,
            Datum::Vector(_) => Kind::Vector,
            Datum::Rotation(_) => Kind::Rotation,
            Datum::MakeshiftMap(_) => Kind::MakeshiftMap,
            Datum::MakeshiftSet(_) => Kind::MakeshiftSet,
            Datum::Opaque(bytes) => Kind::Opaque(bytes.len() as usize),
        }
    }

    /// Regions have the size of their kind.
    pub open spec fn wf(self) -> bool {
        match self {
            Datum::MakeshiftMap(bytes) | Datum::MakeshiftSet(bytes) => bytes.len() == CONTAINER_SIZE,
            Datum::Opaque(bytes) => bytes.len() <= usize::MAX,
            _ => true,
        }
    }

    /// The bytes that a field holding this consists of.
    pub open spec fn bytes(self) -> Seq<u8> {
        match self {
            Datum::Byte(b) => seq![b],
            Datum::Flag(f) => seq![if f { 1u8 } else { 0u8 }],
            Datum::Word(w) => le_bytes(w as nat, 4),
            Datum::Int(i) => le_bytes(twos(i), 4),
            Datum::Real(r) => le_bytes(r as nat, 4),
            Datum::Size(s) => le_bytes(s as nat, 8),
            Datum::Address(a) => le_bytes(a as nat, 8),
            Datum::Vector(v) => triple_bytes(v.x, v.y, v.z),
            Datum::Rotation(r) => triple_bytes(r.pitch, r.yaw, r.roll),
            Datum::MakeshiftMap(bytes) | Datum::MakeshiftSet(bytes) | Datum::Opaque(bytes) => bytes,
        }
    }

    /// What a field of kind `kind` holds when it consists of `bytes`. Any
    /// byte but 0 is a set flag.
    pub open spec fn decode(kind: Kind, bytes: Seq<u8>) -> Datum {
        match kind {
            Kind::Byte => Datum::Byte(bytes[0]),
            Kind::Flag => Datum::Flag(bytes[0] != 0),
            Kind::Word => Datum::Word(word_at(bytes, 0)),
            Kind::Int => Datum::Int(untwos(le_value(bytes))),
            Kind::Real => Datum::Real(word_at(bytes, 0)),
            Kind::Size => Datum::Size(le_value(bytes) as u64),
            Kind::Address => Datum::Address(le_value(bytes) as u64),
            Kind::Vector => Datum::Vector(
                Vector3 { x: word_at(bytes, 0), y: word_at(bytes, 4), z: word_at(bytes, 8) },
            ),
            Kind::Rotation => Datum::Rotation(
                Rotation { pitch: word_at(bytes, 0), yaw: word_at(bytes, 4), roll: word_at(bytes, 8) },
            ),
            Kind::MakeshiftMap => Datum::MakeshiftMap(bytes),
            Kind::MakeshiftSet => Datum::MakeshiftSet(bytes),
            Kind::Opaque(_) => Datum::Opaque(bytes),
        }
    }
}

/// The bytes of `buffer` that make up `field`.
pub open spec fn field_bytes(buffer: Seq<u8>, field: Field) -> Seq<u8> {
    buffer.subrange(field.offset as int, field.end() as int)
}

/// A value takes as many bytes as a field of its kind.
pub proof fn lemma_bytes_len(datum: Datum)
    requires
        datum.wf(),
    ensures
        datum.bytes().len() == datum.kind().spec_size(),
{
    match datum {
        Datum::Word(w) => lemma_le_bytes_len(w as nat, 4),
        Datum::Int(i) => lemma_le_bytes_len(twos(i), 4),
        Datum::Real(r) => lemma_le_bytes_len(r as nat, 4),
        Datum::Size(s) => lemma_le_bytes_len(s as nat, 8),
        Datum::Address(a) => lemma_le_bytes_len(a as nat, 8),
        Datum::Vector(v) => lemma_triple(v.x, v.y, v.z),
        Datum::Rotation(r) => lemma_triple(r.pitch, r.yaw, r.roll),
        _ => {},
    }
}

/// Three numbers encoded one after the other take twelve bytes, and each
/// is read back from its own four.
pub proof fn lemma_triple(a: u32, b: u32, c: u32)
    ensures
        triple_bytes(a, b, c).len() == 12,
        word_at(triple_bytes(a, b, c), 0) == a,
        word_at(triple_bytes(a, b, c), 4) == b,
        word_at(triple_bytes(a, b, c), 8) == c,
{
    let all = triple_bytes(a, b, c);
    lemma_le_bytes_len(a as nat, 4);
    lemma_le_bytes_len(b as nat, 4);
    lemma_le_bytes_len(c as nat, 4);
    lemma_radix_values();
    lemma_le_value_of_bytes(a as nat, 4);
    lemma_le_value_of_bytes(b as nat, 4);
    lemma_le_value_of_bytes(c as nat, 4);
    assert(all.subrange(0, 4) =~= le_bytes(a as nat, 4));
    assert(all.subrange(4, 8) =~= le_bytes(b as nat, 4));
    assert(all.subrange(8, 12) =~= le_bytes(c as nat, 4));
}

/// Decoding the bytes of a value gives the value back.
pub proof fn lemma_decode_bytes(datum: Datum)
    requires
        datum.wf(),
    ensures
        Datum::decode(datum.kind(), datum.bytes()) == datum,
{
    lemma_radix_values();
    match datum {
        Datum::Word(w) => {
            lemma_le_value_of_bytes(w as nat, 4);
            lemma_le_bytes_len(w as nat, 4);
            assert(datum.bytes().subrange(0, 4) =~= datum.bytes());
        },
        Datum::Int(i) => {
            lemma_le_value_of_bytes(twos(i), 4);
        },
        Datum::Real(r) => {
            lemma_le_value_of_bytes(r as nat, 4);
            lemma_le_bytes_len(r as nat, 4);
            assert(datum.bytes().subrange(0, 4) =~= datum.bytes());
        },
        Datum::Size(s) => {
            lemma_le_value_of_bytes(s as nat, 8);
        },
        Datum::Address(a) => {
            lemma_le_value_of_bytes(a as nat, 8);
        },
        Datum::Vector(v) => lemma_triple(v.x, v.y, v.z),
        Datum::Rotation(r) => lemma_triple(r.pitch, r.yaw, r.roll),
        _ => {},
    }
}

/// Writing a value into a field of its kind and probing the buffer at the
/// field's offset shows the value's bytes; decoding them gives the value
/// back exactly; the buffer keeps its size; and no other field changes.
pub proof fn law_overlay_fidelity(
    fields: Seq<Field>,
    buffer: Seq<u8>,
    index: int,
    datum: Datum,
)
    requires
        crate::layout::packed(fields, buffer.len()),
        0 <= index < fields.len(),
        datum.wf(),
        datum.kind() == fields[index].kind,
    ensures
        ({
            let after = splice(buffer, fields[index].offset as int, datum.bytes());
            &&& after.len() == buffer.len()
            &&& field_bytes(after, fields[index]) == datum.bytes()
            &&& Datum::decode(fields[index].kind, field_bytes(after, fields[index])) == datum
            &&& forall|other: int|
                0 <= other < fields.len() && other != index ==> field_bytes(
                    after,
                    #[trigger] fields[other],
                ) == field_bytes(buffer, fields[other])
        }),
{
    let field = fields[index];
    let after = splice(buffer, field.offset as int, datum.bytes());
    lemma_bytes_len(datum);
    lemma_decode_bytes(datum);
    lemma_field_within(fields, buffer.len(), index);
    assert(field_bytes(after, field) =~= datum.bytes());
    assert forall|other: int| 0 <= other < fields.len() && other != index implies field_bytes(
        after,
        #[trigger] fields[other],
    ) == field_bytes(buffer, fields[other]) by {
        lemma_field_within(fields, buffer.len(), other);
        if other < index {
            lemma_fields_disjoint(fields, buffer.len(), other, index);
        } else {
            lemma_fields_disjoint(fields, buffer.len(), index, other);
        }
        assert(field_bytes(after, fields[other]) =~= field_bytes(buffer, fields[other]));
    }
}

/// The 32 bits of `value` in two's complement, as an unsigned number.
pub fn bits_of(value: i32) -> (bits: u32)
    ensures
        bits == twos(value),
{
    if value >= 0 {
        value as u32
    } else {
        (value as i64 + 0x1_0000_0000i64) as u32
    }
}

/// The signed number whose 32 bits in two's complement are `bits`.
pub fn int_of(bits: u32) -> (value: i32)
    ensures
        value == untwos(bits as nat),
{
    if bits >= 0x8000_0000u32 {
        (bits as i64 - 0x1_0000_0000i64) as i32
    } else {
        bits as i32
    }
}

/// Reads the 32-bit number in the four bytes from `offset` on.
fn read_word(bytes: &[u8], offset: usize) -> (word: u32)
    requires
        offset + 4 <= bytes@.len(),
    ensures
        word == word_at(bytes@, offset as int),
{
    proof {
        lemma_le_value_bound(bytes@.subrange(offset as int, offset + 4));
        lemma_radix_values();
    }
    read_le(bytes, offset, 4) as u32
}

/// Reads the 64-bit number in the eight bytes from `offset` on.
fn read_long(bytes: &[u8], offset: usize) -> (long: u64)
    requires
        offset + 8 <= bytes@.len(),
    ensures
        long == le_value(bytes@.subrange(offset as int, offset + 8)) as u64,
{
    read_le(bytes, offset, 8)
}

/// Reads the region of a host container that starts at `offset`.
fn read_region(bytes: &[u8], offset: usize) -> (region: [u8; 48])
    requires
        offset + 48 <= bytes@.len(),
    ensures
        region@ == bytes@.subrange(offset as int, offset + 48),
{
    let mut region: [u8; 48] = [0u8; 48];
    let len: usize = bytes.len();
    let mut i: usize = 0;
    while i < 48
        invariant
            i <= 48,
            len == bytes@.len(),
            offset + 48 <= len,
            forall|j: int| 0 <= j < i ==> region@[j] == bytes@[offset + j],
        decreases 48 - i,
    {
        region[i] = bytes[offset + i];
        i = i + 1;
    }
    assert(region@ =~= bytes@.subrange(offset as int, offset + 48));
    region
}

/// Writes three 32-bit numbers one after the other from `offset` on.
fn write_triple(bytes: &mut Vec<u8>, offset: usize, a: u32, b: u32, c: u32)
    requires
        offset + 12 <= old(bytes)@.len(),
    ensures
        final(bytes)@ == splice(old(bytes)@, offset as int, triple_bytes(a, b, c)),
    no_unwind
{
    proof {
        lemma_le_bytes_len(a as nat, 4);
        lemma_le_bytes_len(b as nat, 4);
        lemma_le_bytes_len(c as nat, 4);
    }
    let len: usize = bytes.len();
    assert(offset + 12 <= len);
    write_le(bytes, offset, 4, a as u64);
    write_le(bytes, offset + 4, 4, b as u64);
    write_le(bytes, offset + 8, 4, c as u64);
    assert(bytes@ =~= splice(old(bytes)@, offset as int, triple_bytes(a, b, c)));
}

/// A layout laid over a buffer of its size.
#[derive(Debug, PartialEq, Eq)]
pub struct Overlay {
    layout: Layout,
    bytes: Vec<u8>,
}

impl Overlay {
    #[verifier::type_invariant]
    spec fn well_formed(self) -> bool {
        self.wf()
    }

    /// The layout.
    pub closed spec fn spec_layout(&self) -> Layout {
        self.layout
    }

    /// The fields of the layout, in order.
    pub open spec fn fields(&self) -> Seq<Field> {
        self.spec_layout().fields()
    }

    /// The bytes overlaid.
    pub closed spec fn buffer(&self) -> Seq<u8> {
        self.bytes@
    }

    /// The layout is well formed and the buffer has exactly its size.
    pub open spec fn wf(&self) -> bool {
        &&& self.spec_layout().wf()
        &&& self.buffer().len() == self.spec_layout().spec_size()
    }

    /// Lays `layout` over `bytes`, if `bytes` has exactly the size that the
    /// layout declares.
    pub fn new(layout: Layout, bytes: Vec<u8>) -> (overlay: Option<Overlay>)
        ensures
            layout.wf(),
            match overlay {
                Some(overlay) => bytes@.len() == layout.spec_size() && overlay.wf()
                    && overlay.spec_layout() == layout && overlay.buffer() == bytes@,
                None => bytes@.len() != layout.spec_size(),
            },
    {
        if bytes.len() == layout.size() {
            Some(Overlay { layout, bytes })
        } else {
            None
        }
    }

    /// Lays `layout` over a fresh buffer of its size, filled with zeros.
    pub fn zeroed(layout: Layout) -> (overlay: Overlay)
        ensures
            overlay.wf(),
            overlay.spec_layout() == layout,
            overlay.buffer() == Seq::new(layout.spec_size(), |i: int| 0u8),
    {
        let mut bytes: Vec<u8> = Vec::new();
        let size = layout.size();
        let mut i: usize = 0;
        while i < size
            invariant
                i <= size,
                bytes@.len() == i,
                forall|j: int| 0 <= j < i ==> bytes@[j] == 0,
            decreases size - i,
        {
            bytes.push(0);
            i = i + 1;
        }
        assert(bytes@ =~= Seq::new(layout.spec_size(), |i: int| 0u8));
        Overlay { layout, bytes }
    }

    /// The layout.
    pub fn layout(&self) -> (layout: &Layout)
        ensures
            self.wf(),
            *layout == self.spec_layout(),
    {
        proof {
            use_type_invariant(self);
        }
        &self.layout
    }

    /// The bytes overlaid.
    pub fn bytes(&self) -> (bytes: &Vec<u8>)
        ensures
            self.wf(),
            bytes@ == self.buffer(),
    {
        proof {
            use_type_invariant(self);
        }
        &self.bytes
    }

    /// The `len` raw bytes from `offset` on, if they lie within the buffer.
    pub fn probe(&self, offset: usize, len: usize) -> (bytes: Option<Vec<u8>>)
        ensures
            match bytes {
                Some(bytes) => offset + len <= self.buffer().len() && bytes@
                    == self.buffer().subrange(offset as int, offset + len),
                None => offset + len > self.buffer().len(),
            },
    {
        if offset <= self.bytes.len() && len <= self.bytes.len() - offset {
            Some(copy_range(self.bytes.as_slice(), offset, offset + len))
        } else {
            None
        }
    }

    /// Reads the field at position `index`: the value that the field's bytes
    /// decode to, or nothing if the layout has no such field.
    pub fn read(&self, index: usize) -> (value: Option<Value>)
        ensures
            self.wf(),
            match value {
                Some(value) => index < self.fields().len() && value@ == Datum::decode(
                    self.fields()[index as int].kind,
                    field_bytes(self.buffer(), self.fields()[index as int]),
                ),
                None => index >= self.fields().len(),
            },
    {
        proof {
            use_type_invariant(self);
        }
        let field = match self.layout.field(index) {
            Some(field) => field,
            None => {
                return None;
            },
        };
        proof {
            lemma_field_within(self.fields(), self.buffer().len(), index as int);
        }
        let bytes = self.bytes.as_slice();
        let len: usize = bytes.len();
        let at = field.offset;
        let ghost raw = field_bytes(self.buffer(), field);
        assert(at + field.kind.spec_size() <= len);
        let value = match field.kind {
            Kind::Byte => Value::Byte(bytes[at]),
            Kind::Flag => Value::Flag(bytes[at] != 0),
            Kind::Word => {
                assert(raw.subrange(0, 4) =~= bytes@.subrange(at as int, at + 4));
                Value::Word(read_word(bytes, at))
            },
            Kind::Int => {
                assert(raw.subrange(0, 4) =~= raw);
                let bits = read_word(bytes, at);
                proof {
                    lemma_le_value_bound(raw);
                    lemma_radix_values();
                }
                Value::Int(int_of(bits))
            },
            Kind::Real => {
                assert(raw.subrange(0, 4) =~= bytes@.subrange(at as int, at + 4));
                Value::Real(read_word(bytes, at))
            },
            Kind::Size => Value::Size(read_long(bytes, at)),
            Kind::Address => Value::Address(read_long(bytes, at)),
            Kind::Vector => {
                assert(raw.subrange(0, 4) =~= bytes@.subrange(at as int, at + 4));
                assert(raw.subrange(4, 8) =~= bytes@.subrange(at + 4, at + 8));
                assert(raw.subrange(8, 12) =~= bytes@.subrange(at + 8, at + 12));
                Value::Vector(
                    Vector3 {
                        x: read_word(bytes, at),
                        y: read_word(bytes, at + 4),
                        z: read_word(bytes, at + 8),
                    },
                )
            },
            Kind::Rotation => {
                assert(raw.subrange(0, 4) =~= bytes@.subrange(at as int, at + 4));
                assert(raw.subrange(4, 8) =~= bytes@.subrange(at + 4, at + 8));
                assert(raw.subrange(8, 12) =~= bytes@.subrange(at + 8, at + 12));
                Value::Rotation(
                    Rotation {
                        pitch: read_word(bytes, at),
                        yaw: read_word(bytes, at + 4),
                        roll: read_word(bytes, at + 8),
                    },
                )
            },
            Kind::MakeshiftMap => Value::MakeshiftMap(
                MakeshiftMap { map_data: read_region(bytes, at) },
            ),
            Kind::MakeshiftSet => Value::MakeshiftSet(
                MakeshiftSet { set_data: read_region(bytes, at) },
            ),
            Kind::Opaque(size) => Value::Opaque(copy_range(bytes, at, at + size)),
        };
        Some(value)
    }

    /// Writes `part` at `at` and leaves every other byte as it was.
    fn fill(&mut self, at: usize, part: &[u8])
        requires
            at + part@.len() <= old(self).buffer().len(),
        ensures
            final(self).spec_layout() == old(self).spec_layout(),
            final(self).buffer() == splice(old(self).buffer(), at as int, part@),
    {
        proof {
            use_type_invariant(&*self);
        }
        let width: usize = part.len();
        let len: usize = self.bytes.len();
        let mut i: usize = 0;
        while i < width
            invariant
                i <= width,
                width == part@.len(),
                at + width <= len,
                len == self.bytes@.len(),
                self.wf(),
                self.layout == old(self).layout,
                self.bytes@.len() == old(self).bytes@.len(),
                forall|j: int| 0 <= j < i ==> self.bytes@[at + j] == part@[j],
                forall|j: int|
                    0 <= j < len && !(at <= j < at + i) ==> self.bytes@[j] == old(self).bytes@[j],
            decreases width - i,
        {
            self.bytes[at + i] = part[i];
            i = i + 1;
        }
        assert(self.bytes@ =~= splice(old(self).bytes@, at as int, part@));
    }

    /// Writes `value` into the field at position `index`, if the layout has
    /// such a field and it is of the value's kind. Says whether it wrote; if
    /// it did, the field's bytes are the value's and every other byte is as
    /// it was; if not, nothing changed.
    pub fn write(&mut self, index: usize, value: &Value) -> (written: bool)
        ensures
            old(self).wf(),
            final(self).wf(),
            final(self).spec_layout() == old(self).spec_layout(),
            written == (index < old(self).fields().len() && value@.kind() == old(
                self,
            ).fields()[index as int].kind),
            final(self).buffer() == (if written {
                splice(
                    old(self).buffer(),
                    old(self).fields()[index as int].offset as int,
                    value@.bytes(),
                )
            } else {
                old(self).buffer()
            }),
    {
        proof {
            use_type_invariant(&*self);
        }
        let field = match self.layout.field(index) {
            Some(field) => field,
            None => {
                return false;
            },
        };
        proof {
            lemma_field_within(self.fields(), self.buffer().len(), index as int);
        }
        let at = field.offset;
        let len: usize = self.bytes.len();
        let ghost before = self.bytes@;
        proof {
            broadcast use vstd::array::array_len_matches_n;

            if !(value is Opaque) && value@.kind() == field.kind {
                lemma_bytes_len(value@);
            }
        }
        match (field.kind, value) {
            (Kind::Byte, Value::Byte(b)) => {
                self.bytes[at] = *b;
                assert(self.bytes@ =~= splice(before, at as int, value@.bytes()));
                true
            },
            (Kind::Flag, Value::Flag(f)) => {
                self.bytes[at] = if *f { 1 } else { 0 };
                assert(self.bytes@ =~= splice(before, at as int, value@.bytes()));
                true
            },
            (Kind::Word, Value::Word(w)) => {
                write_le(&mut self.bytes, at, 4, *w as u64);
                true
            },
            (Kind::Int, Value::Int(i)) => {
                write_le(&mut self.bytes, at, 4, bits_of(*i) as u64);
                true
            },
            (Kind::Real, Value::Real(r)) => {
                write_le(&mut self.bytes, at, 4, *r as u64);
                true
            },
            (Kind::Size, Value::Size(s)) => {
                write_le(&mut self.bytes, at, 8, *s);
                true
            },
            (Kind::Address, Value::Address(a)) => {
                write_le(&mut self.bytes, at, 8, *a);
                true
            },
            (Kind::Vector, Value::Vector(v)) => {
                write_triple(&mut self.bytes, at, v.x, v.y, v.z);
                true
            },
            (Kind::Rotation, Value::Rotation(r)) => {
                write_triple(&mut self.bytes, at, r.pitch, r.yaw, r.roll);
                true
            },
            (Kind::MakeshiftMap, Value::MakeshiftMap(m)) => {
                self.fill(at, m.map_data.as_slice());
                true
            },
            (Kind::MakeshiftSet, Value::MakeshiftSet(s)) => {
                self.fill(at, s.set_data.as_slice());
                true
            },
            (Kind::Opaque(size), Value::Opaque(bytes)) => {
                if bytes.len() == size {
                    self.fill(at, bytes.as_slice());
                    true
                } else {
                    false
                }
            },
            _ => false,
        }
    }
}

} // verus!
