//! Base-128 variable-length integers, the primitive of the wire format.

use vstd::prelude::*;

verus! {

/// The base-128 encoding of `v`: seven bits per byte, least significant group
/// first, the top bit set on every byte but the last.
pub open spec fn varint_bytes(v: u64) -> Seq<u8>
    decreases v,
{
    if v < 128 {
        seq![v as u8]
    } else {
        seq![(v % 128 + 128) as u8] + varint_bytes(v / 128)
    }
}

/// Reads groups of seven bits from the front of `b`, at most `budget` bytes:
/// the number they spell and how many bytes were read. `None` when the input
/// ends, or the budget runs out, before a byte without the top bit.
pub open spec fn varint_read(b: Seq<u8>, budget: nat) -> Option<(int, nat)>
    decreases budget,
{
    if budget == 0 || b.len() == 0 {
        None
    } else if b[0] < 128 {
        Some((b[0] as int, 1nat))
    } else {
        match varint_read(b.skip(1), (budget - 1) as nat) {
            Some((high, n)) => Some((b[0] - 128 + 128 * high, n + 1)),
            None => None,
        }
    }
}

/// The varint at the front of `b` and its length in bytes. A varint takes at
/// most ten bytes and its value fits in 64 bits; anything else is `None`.
pub open spec fn varint_parse(b: Seq<u8>) -> Option<(u64, nat)> {
    match varint_read(b, 10) {
        Some((v, n)) => if v <= u64::MAX {
            Some((v as u64, n))
        } else {
            None
        },
        None => None,
    }
}

/// 128 to the power `n`.
pub open spec fn pow128(n: nat) -> nat
    decreases n,
{
    if n == 0 {
        1
    } else {
        128 * pow128((n - 1) as nat)
    }
}

proof fn lemma_pow128_values()
    ensures
        pow128(0) == 1,
        pow128(1) == 0x80,
        pow128(2) == 0x4000,
        pow128(3) == 0x20_0000,
        pow128(4) == 0x1000_0000,
        pow128(5) == 0x8_0000_0000,
        pow128(6) == 0x400_0000_0000,
        pow128(7) == 0x2_0000_0000_0000,
        pow128(8) == 0x100_0000_0000_0000,
        pow128(9) == 0x8000_0000_0000_0000,
        pow128(10) == 0x40_0000_0000_0000_0000,
{
    reveal_with_fuel(pow128, 11);
}

/// An encoding is never empty, and a value below `128^k` takes at most `k`
/// bytes.
pub proof fn lemma_varint_len(v: u64, k: nat)
    requires
        k >= 1,
        v < pow128(k),
    ensures
        1 <= varint_bytes(v).len() <= k,
    decreases v,
{
    reveal_with_fuel(pow128, 2);
    if v >= 128 {
        assert(k >= 2) by {
            if k == 1 {
                assert(pow128(1) == 128);
            }
        }
        assert(pow128(k) == 128 * pow128((k - 1) as nat));
        lemma_varint_len(v / 128, (k - 1) as nat);
    }
}

/// Every 64-bit value is encoded in one to ten bytes.
pub proof fn lemma_varint_len_bound(v: u64)
    ensures
        1 <= varint_bytes(v).len() <= 10,
{
    lemma_pow128_values();
    lemma_varint_len(v, 10);
}

/// Reading an encoding, whatever follows it, gives the value back.
pub proof fn lemma_varint_read_bytes(v: u64, rest: Seq<u8>, budget: nat)
    requires
        budget >= varint_bytes(v).len(),
    ensures
        varint_read(varint_bytes(v) + rest, budget) == Some((v as int, varint_bytes(v).len())),
    decreases v,
{
    let b = varint_bytes(v) + rest;
    if v < 128 {
        assert(b[0] == v as u8);
    } else {
        let tail = varint_bytes(v / 128);
        assert(b[0] == (v % 128 + 128) as u8);
        assert(b.skip(1) =~= tail + rest);
        lemma_varint_read_bytes(v / 128, rest, (budget - 1) as nat);
    }
}

/// Parsing an encoding, whatever follows it, gives the value back and stops
/// where the encoding ends.
pub proof fn lemma_varint_parse_bytes(v: u64, rest: Seq<u8>)
    ensures
        varint_parse(varint_bytes(v) + rest) == Some((v, varint_bytes(v).len())),
{
    lemma_varint_len_bound(v);
    lemma_varint_read_bytes(v, rest, 10);
}

/// A successful read consumes at least one byte and no more than the budget
/// or the input hold, and spells a number below `128^n`.
pub proof fn lemma_varint_read_bounds(b: Seq<u8>, budget: nat)
    ensures
        varint_read(b, budget) matches Some((v, n)) ==> 1 <= n <= budget && n <= b.len() && 0 <= v
            < pow128(n),
    decreases budget,
{
    reveal_with_fuel(pow128, 2);
    if budget > 0 && b.len() > 0 && b[0] >= 128 {
        lemma_varint_read_bounds(b.skip(1), (budget - 1) as nat);
        match varint_read(b.skip(1), (budget - 1) as nat) {
            Some((high, n)) => {
                assert(pow128(n + 1) == 128 * pow128(n));
            },
            None => {},
        }
    }
}

/// Appends the encoding of `value` to `buf`.
pub fn put_varint(buf: &mut Vec<u8>, value: u64)
    ensures
        final(buf)@ == old(buf)@ + varint_bytes(value),
{
    let mut v: u64 = value;
    while v >= 128
        invariant
            old(buf)@ + varint_bytes(value) == buf@ + varint_bytes(v),
        decreases v,
    {
        let low: u8 = (v % 128 + 128) as u8;
        buf.push(low);
        v = v / 128;
        assert(old(buf)@ + varint_bytes(value) =~= buf@ + varint_bytes(v));
    }
    buf.push(v as u8);
    assert(old(buf)@ + varint_bytes(value) =~= buf@);
}

/// Reads the varint that starts at `pos`: its value and the position after
/// it, or `None` where `varint_parse` finds none.
pub fn get_varint(bytes: &[u8], pos: usize) -> (r: Option<(u64, usize)>)
    requires
        pos <= bytes@.len(),
    ensures
        match varint_parse(bytes@.skip(pos as int)) {
            Some((v, n)) => r == Some((v, (pos + n) as usize)) && pos + n <= bytes@.len(),
            None => r is None,
        },
{
    let ghost input = bytes@.skip(pos as int);
    let mut acc: u64 = 0;
    let mut scale: u64 = 1;
    let mut i: usize = 0;
    proof {
        lemma_pow128_values();
        assert(input.skip(0) =~= input);
    }
    while i < 10 && i < bytes.len() - pos
        invariant
            pos <= bytes@.len(),
            input == bytes@.skip(pos as int),
            i <= 10,
            i <= input.len(),
            scale == pow128(i as nat) || i == 10,
            acc < pow128(i as nat),
            varint_read(input, 10) == match varint_read(input.skip(i as int), (10 - i) as nat) {
                Some((high, n)) => Some((acc + pow128(i as nat) * high, (n + i) as nat)),
                None => None,
            },
        decreases 10 - i,
    {
        let byte: u8 = bytes[pos + i];
        let ghost tail = input.skip(i as int);
        proof {
            lemma_pow128_values();
            reveal_with_fuel(pow128, 2);
            assert(tail[0] == byte);
            assert(tail.skip(1) =~= input.skip(i + 1));
            assert(pow128((i + 1) as nat) == 128 * pow128(i as nat));
            lemma_varint_read_bounds(tail.skip(1), (9 - i) as nat);
        }
        let group: u64 = (byte % 128) as u64;
        if i == 9 && group > 1 {
            proof {
                // the tenth group would not fit in 64 bits
                let p = pow128(9);
                match varint_read(tail.skip(1), 0) {
                    Some(_) => {},
                    None => {},
                }
                if byte < 128 {
                    assert(acc + p * (byte as int) > u64::MAX) by (nonlinear_arith)
                        requires
                            p == 0x8000_0000_0000_0000,
                            byte >= 2,
                            acc >= 0,
                    ;
                }
            }
            return None;
        }
        assert(group * scale <= 127 * scale) by (nonlinear_arith)
            requires
                group <= 127,
                scale >= 0,
        ;
        assert(i == 9 ==> group * scale <= scale) by (nonlinear_arith)
            requires
                i == 9 ==> group <= 1,
                scale >= 0,
        ;
        let ghost old_acc = acc;
        acc = acc + group * scale;
        if byte < 128 {
            proof {
                assert(varint_read(tail, (10 - i) as nat) == Some((byte as int, 1nat)));
                assert(old_acc + pow128(i as nat) * (byte as int) == acc) by (nonlinear_arith)
                    requires
                        acc == old_acc + group * scale,
                        group == byte,
                        scale == pow128(i as nat),
                ;
            }
            return Some((acc, pos + i + 1));
        }
        proof {
            let p = pow128(i as nat);
            assert(acc < 128 * p) by (nonlinear_arith)
                requires
                    acc == old_acc + group * scale,
                    scale == p,
                    old_acc < p,
                    group <= 127,
            ;
            match varint_read(tail.skip(1), (9 - i) as nat) {
                Some((high, n)) => {
                    assert(old_acc + p * (byte - 128 + 128 * high) == acc + (128 * p) * high)
                        by (nonlinear_arith)
                        requires
                            acc == old_acc + group * scale,
                            scale == p,
                            group == byte - 128,
                    ;
                },
                None => {},
            }
        }
        if i < 9 {
            scale = scale * 128;
        }
        i = i + 1;
    }
    proof {
        assert(varint_read(input.skip(i as int), (10 - i) as nat) is None);
    }
    None
}

} // verus!
