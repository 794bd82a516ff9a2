//! Little-endian integers in byte buffers.

use vstd::prelude::*;

verus! {

/// The number that `bytes` denotes, least significant byte first.
pub open spec fn le_value(bytes: Seq<u8>) -> nat
    decreases bytes.len(),
{
    if bytes.len() == 0 {
        0
    } else {
        bytes[0] as nat + 256 * le_value(bytes.skip(1))
    }
}

/// The `width` low-order bytes of `value`, least significant byte first.
pub open spec fn le_bytes(value: nat, width: nat) -> Seq<u8>
    decreases width,
{
    if width == 0 {
        Seq::empty()
    } else {
        seq![(value % 256) as u8] + le_bytes(value / 256, (width - 1) as nat)
    }
}

/// The number of values that `width` bytes can hold: 256 to the power `width`.
pub open spec fn radix(width: nat) -> nat
    decreases width,
{
    if width == 0 {
        1
    } else {
        256 * radix((width - 1) as nat)
    }
}

/// `buffer` with the bytes from `at` on replaced by `part`.
pub open spec fn splice(buffer: Seq<u8>, at: int, part: Seq<u8>) -> Seq<u8> {
    buffer.subrange(0, at) + part + buffer.subrange(at + part.len(), buffer.len() as int)
}

/// The powers of 256 up to the eighth, which is one more than a `u64` holds.
pub proof fn lemma_radix_values()
    ensures
        radix(0) == 1,
        radix(1) == 0x100,
        radix(2) == 0x1_0000,
        radix(3) == 0x100_0000,
        radix(4) == 0x1_0000_0000,
        radix(5) == 0x100_0000_0000,
        radix(6) == 0x1_0000_0000_0000,
        radix(7) == 0x100_0000_0000_0000,
        radix(8) == 0x1_0000_0000_0000_0000,
{
    reveal_with_fuel(radix, 9);
}

/// An encoding has exactly the width asked for.
pub proof fn lemma_le_bytes_len(value: nat, width: nat)
    ensures
        le_bytes(value, width).len() == width,
    decreases width,
{
    if width > 0 {
        lemma_le_bytes_len(value / 256, (width - 1) as nat);
    }
}

/// What a byte string denotes fits in its width.
pub proof fn lemma_le_value_bound(bytes: Seq<u8>)
    ensures
        le_value(bytes) < radix(bytes.len()),
    decreases bytes.len(),
{
    if bytes.len() > 0 {
        lemma_le_value_bound(bytes.skip(1));
    }
}

/// Decoding undoes encoding for every value that fits in the width.
pub proof fn lemma_le_value_of_bytes(value: nat, width: nat)
    requires
        value < radix(width),
    ensures
        le_value(le_bytes(value, width)) == value,
    decreases width,
{
    if width > 0 {
        let rest = le_bytes(value / 256, (width - 1) as nat);
        let all = le_bytes(value, width);
        lemma_le_value_of_bytes(value / 256, (width - 1) as nat);
        assert(all.skip(1) =~= rest);
    }
}

/// Wider fields hold more values.
pub proof fn lemma_radix_monotonic(narrow: nat, wide: nat)
    requires
        narrow <= wide,
    ensures
        radix(narrow) <= radix(wide),
        radix(narrow) > 0,
    decreases wide,
{
    if narrow < wide {
        lemma_radix_monotonic(narrow, (wide - 1) as nat);
    } else if narrow > 0 {
        lemma_radix_monotonic((narrow - 1) as nat, (wide - 1) as nat);
    }
}

/// Reads the little-endian integer of `width` bytes that starts at `offset`.
pub fn read_le(bytes: &[u8], offset: usize, width: usize) -> (value: u64)
    requires
        width <= 8,
        offset + width <= bytes@.len(),
    ensures
        value == le_value(bytes@.subrange(offset as int, offset + width)),
{
    let ghost field = bytes@.subrange(offset as int, offset + width);
    let mut value: u64 = 0;
    let mut i: usize = width;
    let len: usize = bytes.len();
    assert(field.skip(width as int) =~= Seq::<u8>::empty());
    while i > 0
        invariant
            width <= 8,
            offset + width <= len,
            len == bytes@.len(),
            i <= width,
            field == bytes@.subrange(offset as int, offset + width),
            value == le_value(field.skip(i as int)),
        decreases i,
    {
        let byte: u8 = bytes[offset + i - 1];
        proof {
            let tail = field.skip(i as int - 1);
            assert(tail.skip(1) =~= field.skip(i as int));
            assert(tail[0] == byte);
            lemma_le_value_bound(tail);
            lemma_radix_values();
            lemma_radix_monotonic(tail.len(), 8);
        }
        value = value * 256 + byte as u64;
        i = i - 1;
    }
    assert(field.skip(0) =~= field);
    value
}

/// Writes the `width` low-order bytes of `value` at `offset`, least
/// significant byte first, and leaves every other byte as it was.
pub fn write_le(bytes: &mut Vec<u8>, offset: usize, width: usize, value: u64)
    requires
        offset + width <= old(bytes)@.len(),
    ensures
        final(bytes)@ == splice(old(bytes)@, offset as int, le_bytes(value as nat, width as nat)),
    no_unwind
{
    let ghost target = le_bytes(value as nat, width as nat);
    let mut rest: u64 = value;
    let mut i: usize = 0;
    let len: usize = bytes.len();
    proof {
        lemma_le_bytes_len(value as nat, width as nat);
    }
    while i < width
        invariant
            i <= width,
            offset + width <= len,
            len == bytes@.len(),
            bytes@.len() == old(bytes)@.len(),
            target == le_bytes(value as nat, width as nat),
            target.len() == width,
            target.skip(i as int) == le_bytes(rest as nat, (width - i) as nat),
            forall|j: int| 0 <= j < i ==> bytes@[offset + j] == target[j],
            forall|j: int|
                0 <= j < bytes@.len() && !(offset <= j < offset + i) ==> bytes@[j] == old(bytes)@[j],
        decreases width - i,
    {
        let ghost before = target.skip(i as int);
        assert(before[0] == (rest % 256) as u8);
        assert(before.skip(1) =~= target.skip(i as int + 1));
        assert(before.skip(1) =~= le_bytes((rest / 256) as nat, (width - i - 1) as nat));
        bytes[offset + i] = (rest % 256) as u8;
        rest = rest / 256;
        i = i + 1;
    }
    assert(bytes@ =~= splice(old(bytes)@, offset as int, target));
}

} // verus!
