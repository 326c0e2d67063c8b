//! Numbers and sequences of bytes.

use vstd::prelude::*;

verus! {

/// The number that little-endian bytes stand for.
pub open spec fn le_value(bytes: Seq<u8>) -> nat
    decreases bytes.len(),
{
    if bytes.len() == 0 {
        0
    } else {
        bytes[0] as nat + 256 * le_value(bytes.drop_first())
    }
}

/// The `width` low-order bytes of a number, little-endian.
pub open spec fn le_bytes(n: nat, width: nat) -> Seq<u8>
    decreases width,
{
    if width == 0 {
        Seq::empty()
    } else {
        seq![(n % 256) as u8] + le_bytes(n / 256, (width - 1) as nat)
    }
}

/// The number of values that `width` bytes can hold.
pub open spec fn byte_values(width: nat) -> nat
    decreases width,
{
    if width == 0 {
        1
    } else {
        256 * byte_values((width - 1) as nat)
    }
}

/// A number comes back from its bytes, where there are enough of them.
pub proof fn lemma_le_bytes(n: nat, width: nat)
    requires
        n < byte_values(width),
    ensures
        le_bytes(n, width).len() == width,
        le_value(le_bytes(n, width)) == n,
    decreases width,
{
    if width > 0 {
        let rest = le_bytes(n / 256, (width - 1) as nat);
        lemma_le_bytes(n / 256, (width - 1) as nat);
        assert(le_bytes(n, width).drop_first() =~= rest);
    }
}

/// Bytes stand for a number below the number of values that they can hold.
pub proof fn lemma_le_value_bound(bytes: Seq<u8>)
    ensures
        le_value(bytes) < byte_values(bytes.len()),
    decreases bytes.len(),
{
    if bytes.len() > 0 {
        lemma_le_value_bound(bytes.drop_first());
    }
}

/// The number that eight little-endian bytes stand for.
pub fn read_u64(bytes: &[u8]) -> (r: u64)
    requires
        bytes@.len() == 8,
    ensures
        r == le_value(bytes@),
{
    proof {
        reveal_with_fuel(byte_values, 9);
        lemma_le_value_bound(bytes@);
    }
    let mut value: u64 = 0;
    let mut i: usize = 8;
    assert(bytes@.subrange(8, 8) =~= Seq::<u8>::empty());
    while i > 0
        invariant
            i <= 8,
            bytes@.len() == 8,
            value == le_value(bytes@.subrange(i as int, 8)),
            byte_values(8) == 0x1_0000_0000_0000_0000,
        decreases i,
    {
        i = i - 1;
        proof {
            let tail = bytes@.subrange(i as int, 8);
            assert(tail.drop_first() =~= bytes@.subrange(i + 1, 8));
            lemma_le_value_bound(tail);
            lemma_byte_values_monotonic(tail.len(), 8);
        }
        value = bytes[i] as u64 + 256 * value;
    }
    assert(bytes@.subrange(0, 8) =~= bytes@);
    value
}

/// The number that four little-endian bytes stand for.
pub fn read_u32(bytes: [u8; 4]) -> (r: u32)
    ensures
        r == le_value(bytes@),
{
    proof {
        reveal_with_fuel(le_value, 5);
        assert(bytes@.drop_first() =~= seq![bytes[1], bytes[2], bytes[3]]);
        assert(seq![bytes[1], bytes[2], bytes[3]].drop_first() =~= seq![bytes[2], bytes[3]]);
        assert(seq![bytes[2], bytes[3]].drop_first() =~= seq![bytes[3]]);
        assert(seq![bytes[3]].drop_first() =~= Seq::<u8>::empty());
    }
    bytes[0] as u32 + 0x100 * (bytes[1] as u32) + 0x1_0000 * (bytes[2] as u32) + 0x100_0000 * (
    bytes[3] as u32)
}

/// More bytes hold more values.
proof fn lemma_byte_values_monotonic(small: nat, large: nat)
    requires
        small <= large,
    ensures
        byte_values(small) <= byte_values(large),
    decreases large,
{
    if small < large {
        lemma_byte_values_monotonic(small, (large - 1) as nat);
    }
}

/// The eight little-endian bytes of a number.
pub fn write_u64(n: u64) -> (r: Vec<u8>)
    ensures
        r@ == le_bytes(n as nat, 8),
{
    let mut r: Vec<u8> = Vec::new();
    let mut rest: u64 = n;
    let mut width: usize = 8;
    while width > 0
        invariant
            width <= 8,
            r@ + le_bytes(rest as nat, width as nat) == le_bytes(n as nat, 8),
        decreases width,
    {
        let ghost before = r@;
        r.push((rest % 256) as u8);
        proof {
            assert(before + le_bytes(rest as nat, width as nat) =~= r@ + le_bytes(
                rest as nat / 256,
                (width - 1) as nat,
            ));
        }
        rest = rest / 256;
        width = width - 1;
    }
    assert(r@ =~= r@ + le_bytes(rest as nat, 0));
    r
}

/// Whether two sequences hold the same bytes.
pub fn same_bytes(a: &[u8], b: &[u8]) -> (r: bool)
    ensures
        r == (a@ == b@),
{
    if a.len() != b.len() {
        return false;
    }
    let mut i: usize = 0;
    while i < a.len()
        invariant
            a.len() == b.len(),
            i <= a.len(),
            forall|j: int| 0 <= j < i ==> a@[j] == b@[j],
        decreases a.len() - i,
    {
        if a[i] != b[i] {
            return false;
        }
        i = i + 1;
    }
    assert(a@ =~= b@);
    true
}

/// The first of little-endian bytes counts least: four of them stand for the sum of their values
/// times one, 256, 256 squared and 256 cubed.
pub proof fn law_four_bytes_count_upwards(bytes: Seq<u8>)
    requires
        bytes.len() == 4,
    ensures
        le_value(bytes) == bytes[0] + 0x100 * bytes[1] + 0x1_0000 * bytes[2] + 0x100_0000
            * bytes[3],
{
    reveal_with_fuel(le_value, 5);
    assert(bytes.drop_first() =~= seq![bytes[1], bytes[2], bytes[3]]);
    assert(seq![bytes[1], bytes[2], bytes[3]].drop_first() =~= seq![bytes[2], bytes[3]]);
    assert(seq![bytes[2], bytes[3]].drop_first() =~= seq![bytes[3]]);
    assert(seq![bytes[3]].drop_first() =~= Seq::<u8>::empty());
}

/// Eight little-endian bytes stand for the number of the first four, and 256 to the fourth times
/// that of the others.
pub proof fn law_eight_bytes_count_upwards(bytes: Seq<u8>)
    requires
        bytes.len() == 8,
    ensures
        le_value(bytes) == bytes[0] + 0x100 * bytes[1] + 0x1_0000 * bytes[2] + 0x100_0000 * bytes[3]
            + 0x1_0000_0000 * bytes[4] + 0x100_0000_0000 * bytes[5] + 0x1_0000_0000_0000 * bytes[6]
            + 0x100_0000_0000_0000 * bytes[7],
{
    let high = bytes.skip(4);
    law_four_bytes_count_upwards(high);
    reveal_with_fuel(le_value, 5);
    assert(bytes.drop_first() =~= bytes.skip(1));
    assert(bytes.skip(1).drop_first() =~= bytes.skip(2));
    assert(bytes.skip(2).drop_first() =~= bytes.skip(3));
    assert(bytes.skip(3).drop_first() =~= high);
}

/// A number is written as eight bytes that stand for it, the first counting least, and read from
/// eight or four such bytes.
pub proof fn law_numbers_are_written_and_read_upwards(
    n: u64,
    written: Vec<u8>,
    eight: [u8; 8],
    long: u64,
    four: [u8; 4],
    short: u32,
)
    requires
        call_ensures(write_u64, (n,), written),
        call_ensures(read_u64, (&eight,), long),
        call_ensures(read_u32, (four,), short),
    ensures
        written@.len() == 8,
        n == written@[0] + 0x100 * written@[1] + 0x1_0000 * written@[2] + 0x100_0000 * written@[3]
            + 0x1_0000_0000 * written@[4] + 0x100_0000_0000 * written@[5] + 0x1_0000_0000_0000
            * written@[6] + 0x100_0000_0000_0000 * written@[7],
        long == eight@[0] + 0x100 * eight@[1] + 0x1_0000 * eight@[2] + 0x100_0000 * eight@[3]
            + 0x1_0000_0000 * eight@[4] + 0x100_0000_0000 * eight@[5] + 0x1_0000_0000_0000
            * eight@[6] + 0x100_0000_0000_0000 * eight@[7],
        short == four@[0] + 0x100 * four@[1] + 0x1_0000 * four@[2] + 0x100_0000 * four@[3],
{
    reveal_with_fuel(byte_values, 9);
    lemma_le_bytes(n as nat, 8);
    law_eight_bytes_count_upwards(written@);
    law_eight_bytes_count_upwards(eight@);
    law_four_bytes_count_upwards(four@);
}

} // verus!
