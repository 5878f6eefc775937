//! Fixed-width integers as bytes, in either byte order.

use crate::platform::ByteOrder;
use vstd::prelude::*;

verus! {

/// 256 to the power of `n`: the number of values that `n` bytes can hold.
pub open spec fn pow256(n: nat) -> nat
    decreases n,
{
    if n == 0 {
        1
    } else {
        256 * pow256((n - 1) as nat)
    }
}

/// The `width` low bytes of `value`, least significant first.
pub open spec fn le_bytes(value: nat, width: nat) -> Seq<u8>
    decreases width,
{
    if width == 0 {
        Seq::empty()
    } else {
        seq![(value % 256) as u8] + le_bytes(value / 256, (width - 1) as nat)
    }
}

/// The number that `bytes` hold, least significant first.
pub open spec fn le_value(bytes: Seq<u8>) -> nat
    decreases bytes.len(),
{
    if bytes.len() == 0 {
        0
    } else {
        bytes[0] as nat + 256 * le_value(bytes.drop_first())
    }
}

/// The `width` low bytes of `value` in the given order.
pub open spec fn int_bytes(value: nat, width: nat, order: ByteOrder) -> Seq<u8> {
    match order {
        ByteOrder::Little => le_bytes(value, width),
        ByteOrder::Big => le_bytes(value, width).reverse(),
    }
}

/// The number that `bytes` hold in the given order.
pub open spec fn int_value(bytes: Seq<u8>, order: ByteOrder) -> nat {
    match order {
        ByteOrder::Little => le_value(bytes),
        ByteOrder::Big => le_value(bytes.reverse()),
    }
}

/// The unsigned 32-bit word with the bits of `x` (two's complement).
pub open spec fn i32_word(x: i32) -> nat {
    if x >= 0 {
        x as nat
    } else {
        (x + 0x1_0000_0000) as nat
    }
}

/// The signed number with the bits of the 32-bit word `w`.
pub open spec fn word_i32(w: nat) -> i32 {
    if w < 0x8000_0000 {
        w as i32
    } else {
        (w - 0x1_0000_0000) as i32
    }
}

/// The four bytes of `x` in the given order.
pub open spec fn i32_bytes(x: i32, order: ByteOrder) -> Seq<u8> {
    int_bytes(i32_word(x), 4, order)
}

/// The number that four bytes hold in the given order.
pub open spec fn i32_of_bytes(bytes: Seq<u8>, order: ByteOrder) -> i32 {
    word_i32(int_value(bytes, order))
}

/// The number of bytes of a machine word.
pub open spec fn word_width() -> nat {
    (usize::BITS / 8) as nat
}

/// A number written in `width` bytes takes `width` bytes.
pub proof fn lemma_le_bytes_len(value: nat, width: nat)
    ensures
        le_bytes(value, width).len() == width,
    decreases width,
{
    if width > 0 {
        lemma_le_bytes_len(value / 256, (width - 1) as nat);
    }
}

/// Bytes written least significant first read back as the number they were
/// made from, where the number fits the width.
pub proof fn lemma_le_round_trip(value: nat, width: nat)
    requires
        value < pow256(width),
    ensures
        le_value(le_bytes(value, width)) == value,
    decreases width,
{
    if width > 0 {
        let rest = le_bytes(value / 256, (width - 1) as nat);
        let all = le_bytes(value, width);
        lemma_le_bytes_len(value / 256, (width - 1) as nat);
        lemma_le_round_trip(value / 256, (width - 1) as nat);
        assert(all.drop_first() =~= rest);
        assert(all[0] == (value % 256) as u8);
    }
}

/// What `width` bytes hold least significant first fits the width, and
/// writes back as the same bytes.
pub proof fn lemma_le_value_round_trip(bytes: Seq<u8>)
    ensures
        le_value(bytes) < pow256(bytes.len()),
        le_bytes(le_value(bytes), bytes.len()) == bytes,
    decreases bytes.len(),
{
    if bytes.len() > 0 {
        let rest = bytes.drop_first();
        lemma_le_value_round_trip(rest);
        let v = le_value(bytes);
        assert(v == bytes[0] as nat + 256 * le_value(rest));
        assert(v / 256 == le_value(rest));
        assert(v % 256 == bytes[0] as nat);
        assert(le_bytes(v, bytes.len()) =~= seq![bytes[0]] + rest);
        assert(seq![bytes[0]] + rest =~= bytes);
    } else {
        assert(le_bytes(0, 0) =~= bytes);
    }
}

/// Bytes written in an order read back in that order as the number they were
/// made from, where the number fits the width.
pub proof fn lemma_int_round_trip(value: nat, width: nat, order: ByteOrder)
    requires
        value < pow256(width),
    ensures
        int_bytes(value, width, order).len() == width,
        int_value(int_bytes(value, width, order), order) == value,
{
    lemma_le_bytes_len(value, width);
    lemma_le_round_trip(value, width);
    let le = le_bytes(value, width);
    assert(le.reverse().reverse() =~= le);
}

/// The four bytes of a signed 32-bit number read back as that number, in
/// either order.
pub proof fn lemma_i32_round_trip(x: i32, order: ByteOrder)
    ensures
        i32_bytes(x, order).len() == 4,
        i32_of_bytes(i32_bytes(x, order), order) == x,
{
    assert(pow256(4) == 0x1_0000_0000) by {
        reveal_with_fuel(pow256, 5);
    }
    lemma_int_round_trip(i32_word(x), 4, order);
}

/// Four bytes hold a signed 32-bit number whose bytes they are, in either
/// order.
pub proof fn lemma_i32_bytes_of_bytes(bytes: Seq<u8>, order: ByteOrder)
    requires
        bytes.len() == 4,
    ensures
        i32_bytes(i32_of_bytes(bytes, order), order) == bytes,
{
    assert(pow256(4) == 0x1_0000_0000) by {
        reveal_with_fuel(pow256, 5);
    }
    let le = match order {
        ByteOrder::Little => bytes,
        ByteOrder::Big => bytes.reverse(),
    };
    lemma_le_value_round_trip(le);
    assert(i32_word(word_i32(le_value(le))) == le_value(le));
    assert(bytes.reverse().reverse() =~= bytes);
}

/// The four bytes of `x` in the given order.
pub fn i32_to_bytes(x: i32, order: ByteOrder) -> (r: [u8; 4])
    ensures
        r@ == i32_bytes(x, order),
{
    let w: u64 = if x >= 0 {
        x as u64
    } else {
        (x as i64 + 0x1_0000_0000) as u64
    };
    let b0: u8 = (w % 256) as u8;
    let b1: u8 = (w / 256 % 256) as u8;
    let b2: u8 = (w / 65536 % 256) as u8;
    let b3: u8 = (w / 16777216 % 256) as u8;
    proof {
        reveal_with_fuel(le_bytes, 5);
        let le = le_bytes(i32_word(x), 4);
        assert(w == i32_word(x));
        assert(w / 256 / 256 == w / 65536);
        assert(w / 256 / 256 / 256 == w / 16777216);
        assert(le =~= seq![b0, b1, b2, b3]);
        assert(le.reverse() =~= seq![b3, b2, b1, b0]);
    }
    match order {
        ByteOrder::Little => {
            let r: [u8; 4] = [b0, b1, b2, b3];
            assert(r@ =~= seq![b0, b1, b2, b3]);
            r
        },
        ByteOrder::Big => {
            let r: [u8; 4] = [b3, b2, b1, b0];
            assert(r@ =~= seq![b3, b2, b1, b0]);
            r
        },
    }
}

/// The number that four bytes hold in the given order.
pub fn i32_from_bytes(bytes: [u8; 4], order: ByteOrder) -> (x: i32)
    ensures
        x == i32_of_bytes(bytes@, order),
{
    let (b0, b1, b2, b3) = match order {
        ByteOrder::Little => (bytes[0], bytes[1], bytes[2], bytes[3]),
        ByteOrder::Big => (bytes[3], bytes[2], bytes[1], bytes[0]),
    };
    let w: i64 = b0 as i64 + 256 * (b1 as i64) + 65536 * (b2 as i64) + 16777216 * (b3 as i64);
    proof {
        reveal_with_fuel(le_value, 5);
        let le = seq![b0, b1, b2, b3];
        assert(le.drop_first() =~= seq![b1, b2, b3]);
        assert(le.drop_first().drop_first() =~= seq![b2, b3]);
        assert(le.drop_first().drop_first().drop_first() =~= seq![b3]);
        assert(le.drop_first().drop_first().drop_first().drop_first() =~= Seq::<u8>::empty());
        assert(le_value(le) == w);
        match order {
            ByteOrder::Little => {
                assert(bytes@ =~= le);
            },
            ByteOrder::Big => {
                assert(bytes@.reverse() =~= le);
            },
        }
        assert(int_value(bytes@, order) == w);
    }
    if w < 0x8000_0000 {
        w as i32
    } else {
        (w - 0x1_0000_0000) as i32
    }
}

/// The bytes of the machine word `n` in the given order.
pub fn word_to_bytes(n: usize, order: ByteOrder) -> (r: Vec<u8>)
    ensures
        r@ == int_bytes(n as nat, word_width(), order),
{
    let width: usize = (usize::BITS / 8) as usize;
    let mut low_first: Vec<u8> = Vec::new();
    let mut rest: usize = n;
    let mut i: usize = 0;
    while i < width
        invariant
            i <= width,
            width == word_width(),
            low_first@ + le_bytes(rest as nat, (width - i) as nat) == le_bytes(
                n as nat,
                width as nat,
            ),
            low_first@.len() == i,
        decreases width - i,
    {
        let ghost before = low_first@;
        low_first.push((rest % 256) as u8);
        proof {
            let tail = le_bytes((rest / 256) as nat, (width - i - 1) as nat);
            assert(le_bytes(rest as nat, (width - i) as nat) =~= seq![(rest % 256) as u8] + tail);
            assert(low_first@ + tail =~= before + (seq![(rest % 256) as u8] + tail));
        }
        rest = rest / 256;
        i = i + 1;
    }
    assert(low_first@ =~= le_bytes(n as nat, width as nat));
    match order {
        ByteOrder::Little => low_first,
        ByteOrder::Big => {
            let mut high_first: Vec<u8> = Vec::new();
            let mut j: usize = width;
            while j > 0
                invariant
                    j <= width,
                    low_first@.len() == width,
                    high_first@.len() == width - j,
                    forall|k: int|
                        0 <= k < high_first@.len() ==> high_first@[k] == low_first@[width - 1 - k],
                decreases j,
            {
                j = j - 1;
                high_first.push(low_first[j]);
            }
            assert(high_first@ =~= low_first@.reverse());
            high_first
        },
    }
}

/// Adds the bytes of `tail` to the end of `out`.
pub fn append(out: &mut Vec<u8>, tail: &[u8])
    ensures
        final(out)@ == old(out)@ + tail@,
{
    let mut i: usize = 0;
    while i < tail.len()
        invariant
            i <= tail@.len(),
            out@ == old(out)@ + tail@.subrange(0, i as int),
        decreases tail@.len() - i,
    {
        out.push(tail[i]);
        i = i + 1;
        assert(tail@.subrange(0, i as int) =~= tail@.subrange(0, i - 1).push(tail@[i - 1]));
    }
    assert(tail@.subrange(0, i as int) =~= tail@);
}

} // verus!
