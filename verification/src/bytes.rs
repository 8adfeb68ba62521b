//! Integers as little-endian bytes, and runs of bytes inside storage.
//!
//! Every structure the kernel reads from or writes to caller memory is laid
//! out here byte by byte, in the order all supported targets use.

use vstd::arithmetic::power::pow;
use vstd::prelude::*;

verus! {

/// The `n` least significant bytes of `x`, least significant first.
pub open spec fn le(x: nat, n: nat) -> Seq<u8>
    decreases n,
{
    if n == 0 {
        Seq::empty()
    } else {
        seq![(x % 256) as u8] + le(x / 256, (n - 1) as nat)
    }
}

/// The number whose little-endian bytes are `s`.
pub open spec fn le_value(s: Seq<u8>) -> nat
    decreases s.len(),
{
    if s.len() == 0 {
        0
    } else {
        s[0] as nat + 256 * le_value(s.drop_first())
    }
}

/// How many values `n` bytes can hold.
pub open spec fn span(n: nat) -> nat
    decreases n,
{
    if n == 0 {
        1
    } else {
        256 * span((n - 1) as nat)
    }
}

/// A 32-bit signed number as the unsigned number with the same bits.
pub open spec fn unsigned_of(x: i32) -> nat {
    if x < 0 {
        (x + 0x1_0000_0000) as nat
    } else {
        x as nat
    }
}

/// The 32-bit signed number with the bits of `x`.
pub open spec fn signed_of(x: nat) -> i32 {
    if x < 0x8000_0000 {
        x as i32
    } else {
        (x - 0x1_0000_0000) as i32
    }
}

/// `bytes` with `data` written over it from `at` on.
pub open spec fn overwritten(bytes: Seq<u8>, at: int, data: Seq<u8>) -> Seq<u8> {
    Seq::new(
        bytes.len(),
        |i: int|
            if at <= i < at + data.len() {
                data[i - at]
            } else {
                bytes[i]
            },
    )
}

/// The powers that occur here, as numbers.
pub proof fn span_values()
    ensures
        span(0) == 1,
        span(2) == 0x1_0000,
        span(4) == 0x1_0000_0000,
        span(8) == 0x1_0000_0000_0000_0000,
{
    reveal_with_fuel(span, 9);
}

/// An encoding has exactly the bytes asked for.
pub proof fn le_has_length(x: nat, n: nat)
    ensures
        le(x, n).len() == n,
    decreases n,
{
    if n > 0 {
        le_has_length(x / 256, (n - 1) as nat);
    }
}

/// A number that fits its bytes is read back from them.
pub proof fn le_round_trips(x: nat, n: nat)
    requires
        x < span(n),
    ensures
        le_value(le(x, n)) == x,
        le(x, n).len() == n,
    decreases n,
{
    if n > 0 {
        le_has_length(x / 256, (n - 1) as nat);
        le_round_trips(x / 256, (n - 1) as nat);
        assert(le(x, n).drop_first() =~= le(x / 256, (n - 1) as nat));
    }
}

/// Bytes never stand for a number their count cannot hold.
pub proof fn le_value_is_bounded(s: Seq<u8>)
    ensures
        le_value(s) < span(s.len()),
    decreases s.len(),
{
    if s.len() > 0 {
        le_value_is_bounded(s.drop_first());
    }
}

/// Signed numbers keep their value through the unsigned form.
pub proof fn signed_round_trips(x: i32)
    ensures
        signed_of(unsigned_of(x)) == x,
        unsigned_of(x) < span(4),
{
    span_values();
}

/// What was written is what is read back, and nothing else changed.
pub proof fn overwritten_reads_back(bytes: Seq<u8>, at: int, data: Seq<u8>)
    requires
        0 <= at,
        at + data.len() <= bytes.len(),
    ensures
        overwritten(bytes, at, data).subrange(at, at + data.len()) == data,
        overwritten(bytes, at, data).len() == bytes.len(),
        forall|i: int|
            0 <= i < bytes.len() && !(at <= i < at + data.len()) ==> #[trigger] overwritten(
                bytes,
                at,
                data,
            )[i] == bytes[i],
{
    assert(overwritten(bytes, at, data).subrange(at, at + data.len()) =~= data);
}

/// A number that fits its bytes is written by those bytes alone.
pub proof fn bytes_are_their_value(s: Seq<u8>)
    ensures
        le(le_value(s), s.len()) == s,
    decreases s.len(),
{
    if s.len() > 0 {
        bytes_are_their_value(s.drop_first());
        assert(le(le_value(s), s.len()) =~= s);
    }
}

/// The bytes of zero are zero.
pub proof fn zero_bytes(n: nat)
    ensures
        le(0, n) == Seq::new(n, |i: int| 0u8),
    decreases n,
{
    if n > 0 {
        zero_bytes((n - 1) as nat);
    }
    assert(le(0, n) =~= Seq::new(n, |i: int| 0u8));
}

/// The place of a byte gives its weight: the first counts ones, and each next
/// one 256 times as much as the one before.
pub proof fn bytes_weigh_by_place(s: Seq<u8>)
    ensures
        s.len() == 0 ==> le_value(s) == 0,
        s.len() == 1 ==> le_value(s) == s[0],
        s.len() == 2 ==> le_value(s) == s[0] + 0x100 * s[1],
        s.len() == 4 ==> le_value(s) == s[0] + 0x100 * s[1] + 0x1_0000 * s[2] + 0x100_0000 * s[3],
        s.len() == 8 ==> le_value(s) == s[0] + 0x100 * s[1] + 0x1_0000 * s[2] + 0x100_0000 * s[3]
            + 0x1_0000_0000 * s[4] + 0x100_0000_0000 * s[5] + 0x1_0000_0000_0000 * s[6]
            + 0x100_0000_0000_0000 * s[7],
{
    reveal_with_fuel(le_value, 9);
}

/// A number taken apart into bytes weighs what it did before.
pub proof fn numbers_are_their_bytes(x: nat)
    ensures
        x < 0x1_0000 ==> ({
            let s = le(x, 2);
            s.len() == 2 && x == s[0] + 0x100 * s[1]
        }),
        x < 0x1_0000_0000 ==> ({
            let s = le(x, 4);
            s.len() == 4 && x == s[0] + 0x100 * s[1] + 0x1_0000 * s[2] + 0x100_0000 * s[3]
        }),
        x < 0x1_0000_0000_0000_0000 ==> ({
            let s = le(x, 8);
            s.len() == 8 && x == s[0] + 0x100 * s[1] + 0x1_0000 * s[2] + 0x100_0000 * s[3]
                + 0x1_0000_0000 * s[4] + 0x100_0000_0000 * s[5] + 0x1_0000_0000_0000 * s[6]
                + 0x100_0000_0000_0000 * s[7]
        }),
{
    span_values();
    if x < 0x1_0000 {
        le_round_trips(x, 2);
        bytes_weigh_by_place(le(x, 2));
    }
    if x < 0x1_0000_0000 {
        le_round_trips(x, 4);
        bytes_weigh_by_place(le(x, 4));
    }
    if x < 0x1_0000_0000_0000_0000 {
        le_round_trips(x, 8);
        bytes_weigh_by_place(le(x, 8));
    }
}

/// A byte put after the others outweighs everything before it.
pub proof fn later_bytes_weigh_more(s: Seq<u8>, b: u8)
    ensures
        le_value(s.push(b)) == le_value(s) + b * pow(256, s.len()),
        le_value(s) < pow(256, s.len()),
    decreases s.len(),
{
    reveal(pow);
    if s.len() > 0 {
        let rest = s.drop_first();
        later_bytes_weigh_more(rest, b);
        assert(s.push(b).drop_first() =~= rest.push(b));
        let p = pow(256, rest.len());
        assert(pow(256, s.len()) == 256 * p);
        let q = pow(256, s.len());
        assert(256 * (b * p) == b * q) by (nonlinear_arith)
            requires
                q == 256 * p,
        ;
        assert(le_value(s.push(b)) == s[0] + 256 * le_value(rest.push(b)));
    } else {
        assert(s.push(b).drop_first() =~= s);
        assert(le_value(s.push(b)) == b + 256 * le_value(s));
        let q = pow(256, s.len());
        assert(b * q == b) by (nonlinear_arith)
            requires
                q == 1,
        ;
    }
}

/// The two forms of a signed number differ by all 32-bit numbers or not at
/// all, and the unsigned one is never negative.
pub proof fn signs_wrap(x: i32, y: u32)
    ensures
        x >= 0 ==> unsigned_of(x) == x,
        x < 0 ==> unsigned_of(x) == x + 0x1_0000_0000,
        y <= 0x7fff_ffff ==> signed_of(y as nat) == y,
        y > 0x7fff_ffff ==> signed_of(y as nat) == y - 0x1_0000_0000,
{
}

/// Append the `n` least significant bytes of `x`.
pub fn push_le(out: &mut Vec<u8>, x: u64, n: usize)
    ensures
        final(out)@ == old(out)@ + le(x as nat, n as nat),
    decreases n,
{
    if n > 0 {
        out.push((x % 256) as u8);
        push_le(out, x / 256, n - 1);
        assert(out@ =~= old(out)@ + le(x as nat, n as nat));
    } else {
        assert(out@ =~= old(out)@ + le(x as nat, n as nat));
    }
}

/// Append a signed 32-bit number.
pub fn push_i32(out: &mut Vec<u8>, x: i32)
    ensures
        final(out)@ == old(out)@ + le(unsigned_of(x), 4),
{
    let wide: u64 = if x < 0 {
        (x as i64 + 0x1_0000_0000) as u64
    } else {
        x as u64
    };
    push_le(out, wide, 4);
}

/// Read `n` bytes from `at` on as a number.
pub fn read_le(data: &[u8], at: usize, n: usize) -> (x: u64)
    requires
        n <= 8,
        at + n <= data@.len(),
    ensures
        x == le_value(data@.subrange(at as int, at + n)),
        x < span(n as nat),
    decreases n,
{
    proof {
        span_values();
        reveal_with_fuel(span, 9);
        le_value_is_bounded(data@.subrange(at as int, at + n));
    }
    let len: usize = data.len();
    if n == 0 {
        0
    } else {
        let rest: u64 = read_le(data, at + 1, n - 1);
        let ghost run = data@.subrange(at as int, at + n);
        assert(run.drop_first() =~= data@.subrange(at + 1, at + n));
        assert(span(n as nat) == 256 * span((n - 1) as nat));
        assert(span(n as nat) <= span(8));
        data[at] as u64 + 256 * rest
    }
}

/// Read four bytes from `at` on as a signed number.
pub fn read_i32(data: &[u8], at: usize) -> (x: i32)
    requires
        at + 4 <= data@.len(),
    ensures
        x == signed_of(le_value(data@.subrange(at as int, at + 4))),
{
    let wide: u64 = read_le(data, at, 4);
    proof {
        span_values();
    }
    if wide < 0x8000_0000 {
        wide as i32
    } else {
        (wide as i64 - 0x1_0000_0000) as i32
    }
}

} // verus!
