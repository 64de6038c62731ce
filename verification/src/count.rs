//! How many times a timer has fired, as the eight bytes that reading the timer yields.
use vstd::prelude::*;

verus! {

/// The number of bytes that hold a count.
pub const COUNT_BYTES: usize = 8;

/// The order in which the machine stores the bytes of an integer.
#[derive(Clone, Copy, Debug, PartialEq, Eq, Structural)]
pub enum ByteOrder {
    /// Least significant byte first.
    Little,
    /// Most significant byte first.
    Big,
}

/// The number whose base 256 digits are the eight elements of `bytes`, the lowest digit first.
pub open spec fn number(bytes: Seq<u8>) -> int {
    bytes[0] + 0x100 * bytes[1] + 0x1_0000 * bytes[2] + 0x100_0000 * bytes[3] + 0x1_0000_0000
        * bytes[4] + 0x100_0000_0000 * bytes[5] + 0x1_0000_0000_0000 * bytes[6]
        + 0x100_0000_0000_0000 * bytes[7]
}

/// The first eight elements of `bytes`, the least significant one first.
pub open spec fn digits(bytes: Seq<u8>, order: ByteOrder) -> Seq<u8> {
    match order {
        ByteOrder::Little => bytes.take(8),
        ByteOrder::Big => bytes.take(8).reverse(),
    }
}

/// The count that the first eight elements of `bytes` hold.
pub open spec fn decoded(bytes: Seq<u8>, order: ByteOrder) -> int {
    number(digits(bytes, order))
}

/// Reads the count out of the eight bytes of `buf`.
pub fn decode(buf: &[u8; 8], order: ByteOrder) -> (count: u64)
    ensures
        count == decoded(buf@, order),
{
    let d: [u8; 8] = match order {
        ByteOrder::Little => [
            buf[0], buf[1], buf[2], buf[3], buf[4], buf[5], buf[6], buf[7],
        ],
        ByteOrder::Big => [buf[7], buf[6], buf[5], buf[4], buf[3], buf[2], buf[1], buf[0]],
    };
    assert(d@ =~= digits(buf@, order));
    d[0] as u64 + 0x100 * (d[1] as u64) + 0x1_0000 * (d[2] as u64) + 0x100_0000 * (d[3] as u64)
        + 0x1_0000_0000 * (d[4] as u64) + 0x100_0000_0000 * (d[5] as u64)
        + 0x1_0000_0000_0000 * (d[6] as u64) + 0x100_0000_0000_0000 * (d[7] as u64)
}

/// Writes `count` into the first eight bytes of `buf` and leaves the others as they are.
pub fn encode(count: u64, order: ByteOrder, buf: &mut [u8])
    requires
        old(buf)@.len() >= 8,
    ensures
        final(buf)@.len() == old(buf)@.len(),
        decoded(final(buf)@, order) == count,
        final(buf)@.skip(8) == old(buf)@.skip(8),
{
    let q1: u64 = count / 0x100;
    let q2: u64 = q1 / 0x100;
    let q3: u64 = q2 / 0x100;
    let q4: u64 = q3 / 0x100;
    let q5: u64 = q4 / 0x100;
    let q6: u64 = q5 / 0x100;
    let q7: u64 = q6 / 0x100;
    let d: [u8; 8] = [
        (count % 0x100) as u8,
        (q1 % 0x100) as u8,
        (q2 % 0x100) as u8,
        (q3 % 0x100) as u8,
        (q4 % 0x100) as u8,
        (q5 % 0x100) as u8,
        (q6 % 0x100) as u8,
        q7 as u8,
    ];
    assert(number(d@) == count);
    for i in 0..8usize
        invariant
            buf@.len() == old(buf)@.len() >= 8,
            forall|j: int|
                0 <= j < i ==> #[trigger] buf@[j] == (match order {
                    ByteOrder::Little => d@[j],
                    ByteOrder::Big => d@[7 - j],
                }),
            forall|j: int| 8 <= j < buf@.len() ==> #[trigger] buf@[j] == old(buf)@[j],
    {
        buf[i] = match order {
            ByteOrder::Little => d[i],
            ByteOrder::Big => d[7 - i],
        };
    }
    assert(digits(buf@, order) =~= d@);
}

/// Equal numbers have equal lowest digits, and equal numbers above them.
proof fn lemma_lowest_digit(x: u8, x_rest: int, y: u8, y_rest: int)
    requires
        x + 0x100 * x_rest == y + 0x100 * y_rest,
    ensures
        x == y,
        x_rest == y_rest,
{
}

/// Eight bytes hold one count only: two buffers that decode alike start with the same eight
/// bytes.
pub proof fn law_count_has_one_encoding(a: Seq<u8>, b: Seq<u8>, order: ByteOrder)
    requires
        a.len() >= 8,
        b.len() >= 8,
        decoded(a, order) == decoded(b, order),
    ensures
        a.take(8) == b.take(8),
{
    let x = digits(a, order);
    let y = digits(b, order);
    let x7 = x[7] as int;
    let x6 = x[6] + 0x100 * x7;
    let x5 = x[5] + 0x100 * x6;
    let x4 = x[4] + 0x100 * x5;
    let x3 = x[3] + 0x100 * x4;
    let x2 = x[2] + 0x100 * x3;
    let x1 = x[1] + 0x100 * x2;
    let y7 = y[7] as int;
    let y6 = y[6] + 0x100 * y7;
    let y5 = y[5] + 0x100 * y6;
    let y4 = y[4] + 0x100 * y5;
    let y3 = y[3] + 0x100 * y4;
    let y2 = y[2] + 0x100 * y3;
    let y1 = y[1] + 0x100 * y2;
    lemma_lowest_digit(x[0], x1, y[0], y1);
    lemma_lowest_digit(x[1], x2, y[1], y2);
    lemma_lowest_digit(x[2], x3, y[2], y3);
    lemma_lowest_digit(x[3], x4, y[3], y4);
    lemma_lowest_digit(x[4], x5, y[4], y5);
    lemma_lowest_digit(x[5], x6, y[5], y6);
    lemma_lowest_digit(x[6], x7, y[6], y7);
    assert(x =~= y);
    match order {
        ByteOrder::Little => {},
        ByteOrder::Big => {
            assert(a.take(8) =~= x.reverse());
            assert(b.take(8) =~= y.reverse());
        },
    }
}

/// A buffer of zeros holds the count zero.
pub proof fn law_zeros_hold_zero(bytes: Seq<u8>, order: ByteOrder)
    requires
        bytes.len() >= 8,
        forall|i: int| 0 <= i < 8 ==> #[trigger] bytes[i] == 0,
    ensures
        decoded(bytes, order) == 0,
{
    let d = digits(bytes, order);
    assert(d[0] == 0 && d[1] == 0 && d[2] == 0 && d[3] == 0 && d[4] == 0 && d[5] == 0 && d[6] == 0
        && d[7] == 0);
}

/// Where the least significant byte comes first, moving all bytes one place up and putting a new
/// one before them multiplies the count by 256 and adds that byte.
pub proof fn law_little_byte_goes_first(bytes: Seq<u8>, byte: u8)
    requires
        bytes.len() == 8,
        bytes[7] == 0,
    ensures
        decoded(seq![byte] + bytes.take(7), ByteOrder::Little) == 0x100 * decoded(
            bytes,
            ByteOrder::Little,
        ) + byte,
{
    let moved = seq![byte] + bytes.take(7);
    assert(digits(moved, ByteOrder::Little) =~= moved);
    assert(digits(bytes, ByteOrder::Little) =~= bytes);
}

/// Where the most significant byte comes first, moving all bytes one place down and putting a
/// new one behind them multiplies the count by 256 and adds that byte.
pub proof fn law_big_byte_goes_first(bytes: Seq<u8>, byte: u8)
    requires
        bytes.len() == 8,
        bytes[0] == 0,
    ensures
        decoded(bytes.skip(1).push(byte), ByteOrder::Big) == 0x100 * decoded(bytes, ByteOrder::Big)
            + byte,
{
    let moved = bytes.skip(1).push(byte);
    assert(digits(moved, ByteOrder::Big) =~= moved.reverse());
    assert(digits(bytes, ByteOrder::Big) =~= bytes.reverse());
}

/// The two byte orders read the same bytes from opposite ends.
pub proof fn law_orders_are_opposite(bytes: Seq<u8>)
    requires
        bytes.len() == 8,
    ensures
        decoded(bytes, ByteOrder::Big) == decoded(bytes.reverse(), ByteOrder::Little),
{
    assert(digits(bytes, ByteOrder::Big) =~= bytes.reverse());
    assert(digits(bytes.reverse(), ByteOrder::Little) =~= bytes.reverse());
}

/// What follows the first eight bytes is no part of the count.
pub proof fn law_count_is_in_eight_bytes(bytes: Seq<u8>, more: Seq<u8>, order: ByteOrder)
    requires
        bytes.len() == 8,
    ensures
        decoded(bytes + more, order) == decoded(bytes, order),
        0 <= decoded(bytes, order) <= u64::MAX,
{
    assert((bytes + more).take(8) =~= bytes);
    assert(bytes.take(8) =~= bytes);
}

} // verus!
