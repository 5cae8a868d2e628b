//! Fixed-width little-endian integers, as the wire format lays them out.

use vstd::prelude::*;

verus! {

/// The number of values that `width` bytes can tell apart: 256 to the power
/// `width`.
pub open spec fn radix(width: nat) -> nat
    decreases width,
{
    if width == 0 {
        1
    } else {
        256 * radix((width - 1) as nat)
    }
}

/// The `width` low bytes of `value`, least significant first.
pub open spec fn le_bytes(value: nat, width: nat) -> Seq<u8>
    decreases width,
{
    if width == 0 {
        Seq::empty()
    } else {
        seq![(value % 256) as u8] + le_bytes(value / 256, (width - 1) as nat)
    }
}

/// The number that `bytes` spell, least significant byte first.
pub open spec fn le_value(bytes: Seq<u8>) -> nat
    decreases bytes.len(),
{
    if bytes.len() == 0 {
        0
    } else {
        bytes[0] as nat + 256 * le_value(bytes.drop_first())
    }
}

/// The unsigned number that stands for `value` in two's complement on
/// `width` bytes.
pub open spec fn to_unsigned(value: int, width: nat) -> nat {
    if value >= 0 {
        value as nat
    } else {
        (value + radix(width)) as nat
    }
}

/// The signed number that `value` stands for in two's complement on `width`
/// bytes.
pub open spec fn to_signed(value: nat, width: nat) -> int {
    if 2 * value < radix(width) {
        value as int
    } else {
        value - radix(width)
    }
}

/// The value of `radix` at each width that the format uses.
pub proof fn lemma_radix_values()
    ensures
        radix(0) == 1,
        radix(1) == 0x100,
        radix(4) == 0x1_0000_0000,
        radix(8) == 0x1_0000_0000_0000_0000,
        radix(16) == 0x1_0000_0000_0000_0000_0000_0000_0000_0000,
{
    reveal_with_fuel(radix, 5);
    assert(radix(4) == 0x1_0000_0000);
    assert(radix(8) == 0x1_0000_0000 * radix(4));
    assert(radix(12) == 0x1_0000_0000 * radix(8));
    assert(radix(16) == 0x1_0000_0000 * radix(12));
}

/// `radix` grows with the width.
pub proof fn lemma_radix_monotonic(small: nat, large: nat)
    requires
        small <= large,
    ensures
        0 < radix(small) <= radix(large),
    decreases large,
{
    if large == 0 {
    } else if small == large {
        lemma_radix_monotonic((small - 1) as nat, (large - 1) as nat);
    } else {
        lemma_radix_monotonic(small, (large - 1) as nat);
    }
}

/// `le_bytes` yields exactly `width` bytes.
pub proof fn lemma_le_bytes_len(value: nat, width: nat)
    ensures
        le_bytes(value, width).len() == width,
    decreases width,
{
    if width > 0 {
        lemma_le_bytes_len(value / 256, (width - 1) as nat);
    }
}

/// Bytes spell a number below the radix of their count.
pub proof fn lemma_le_value_bound(bytes: Seq<u8>)
    ensures
        le_value(bytes) < radix(bytes.len()),
    decreases bytes.len(),
{
    if bytes.len() > 0 {
        lemma_le_value_bound(bytes.drop_first());
    }
}

/// Reading back what was laid out gives the number, if it fits the width.
pub proof fn lemma_le_value_of_bytes(value: nat, width: nat)
    requires
        value < radix(width),
    ensures
        le_value(le_bytes(value, width)) == value,
    decreases width,
{
    if width > 0 {
        let rest = le_bytes(value / 256, (width - 1) as nat);
        let all = le_bytes(value, width);
        lemma_le_bytes_len(value / 256, (width - 1) as nat);
        assert(all.drop_first() =~= rest);
        lemma_le_value_of_bytes(value / 256, (width - 1) as nat);
    }
}

/// Laying out the number that bytes spell gives the bytes back.
pub proof fn lemma_le_bytes_of_value(bytes: Seq<u8>)
    ensures
        le_bytes(le_value(bytes), bytes.len()) == bytes,
    decreases bytes.len(),
{
    if bytes.len() > 0 {
        let rest = bytes.drop_first();
        lemma_le_bytes_of_value(rest);
        let value = le_value(bytes);
        assert(value % 256 == bytes[0] as nat);
        assert(value / 256 == le_value(rest));
        assert(le_bytes(value, bytes.len()) =~= bytes);
    }
}

/// Appends the `width` low bytes of `value` to `out`, least significant
/// first.
pub fn put_uint(out: &mut Vec<u8>, value: u128, width: usize)
    ensures
        final(out)@ == old(out)@ + le_bytes(value as nat, width as nat),
{
    let mut rest: u128 = value;
    let mut written: usize = 0;
    while written < width
        invariant
            written <= width,
            old(out)@ + le_bytes(value as nat, width as nat) == out@ + le_bytes(
                rest as nat,
                (width - written) as nat,
            ),
        decreases width - written,
    {
        let ghost before = out@;
        let low: u8 = (rest % 256) as u8;
        out.push(low);
        proof {
            let tail = le_bytes((rest / 256) as nat, (width - written - 1) as nat);
            assert(le_bytes(rest as nat, (width - written) as nat) == seq![low] + tail);
            assert(before + (seq![low] + tail) =~= before.push(low) + tail);
        }
        rest = rest / 256;
        written = written + 1;
    }
    assert(le_bytes(rest as nat, 0) =~= Seq::<u8>::empty());
    assert(out@ + Seq::<u8>::empty() =~= out@);
}

/// Whether `count` bytes lie in `bytes` from position `pos` on.
pub open spec fn holds(bytes: Seq<u8>, pos: int, count: int) -> bool {
    0 <= pos && 0 <= count && pos + count <= bytes.len()
}

/// The number spelled by the `width` bytes of `bytes` from position `pos` on.
pub open spec fn uint_at(bytes: Seq<u8>, pos: int, width: nat) -> nat {
    le_value(bytes.subrange(pos, pos + width))
}

/// Reads the number spelled by the `width` bytes from position `pos` on, or
/// nothing where the slice ends before them.
pub fn get_uint(bytes: &[u8], pos: usize, width: usize) -> (value: Option<u128>)
    requires
        width <= 16,
    ensures
        holds(bytes@, pos as int, width as int) ==> value == Some(
            uint_at(bytes@, pos as int, width as nat) as u128,
        ) && uint_at(bytes@, pos as int, width as nat) < radix(width as nat),
        !holds(bytes@, pos as int, width as int) ==> value is None,
        value is Some ==> pos + width <= usize::MAX,
{
    if width > bytes.len() || pos > bytes.len() - width {
        return None;
    }
    let mut acc: u128 = 0;
    let mut left: usize = width;
    while left > 0
        invariant
            left <= width <= 16,
            pos + width <= bytes@.len() <= usize::MAX,
            acc as nat == le_value(bytes@.subrange(pos + left, pos + width)),
            acc < radix((width - left) as nat),
        decreases left,
    {
        let ghost tail = bytes@.subrange(pos + left, pos + width);
        let ghost more = bytes@.subrange(pos + left - 1, pos + width);
        let byte: u8 = bytes[pos + left - 1];
        proof {
            assert(more.drop_first() =~= tail);
            assert(more[0] == byte);
            lemma_radix_monotonic((width - left + 1) as nat, 16);
            lemma_radix_values();
            assert(radix((width - left + 1) as nat) == 256 * radix((width - left) as nat));
        }
        acc = acc * 256 + byte as u128;
        left = left - 1;
    }
    proof {
        assert(bytes@.subrange(pos + 0, pos + width) == bytes@.subrange(
            pos as int,
            pos + width as nat,
        ));
    }
    Some(acc)
}

} // verus!
