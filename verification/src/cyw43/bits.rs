//! Bit-level encodings of the gSPI bus: the command word, the 16-bit word
//! swap used before the bus is switched to 32-bit mode, and the
//! most-significant-bit-first serialisation of bytes on the data line.
use vstd::prelude::*;

verus! {

/// Value of `x` with the two bytes of each 16-bit half exchanged.
pub open spec fn spec_swap16(x: u32) -> u32 {
    (x & 0xFF00FF00u32) >> 8u32 | (x & 0x00FF00FFu32) << 8u32
}

/// Exchanges the two bytes of each 16-bit half of `x`.
pub fn swap16(x: u32) -> (r: u32)
    ensures
        r == spec_swap16(x),
{
    (x & 0xFF00FF00u32) >> 8u32 | (x & 0x00FF00FFu32) << 8u32
}

/// Swapping twice gives back the original word.
pub proof fn lemma_swap16_involution(x: u32)
    ensures
        spec_swap16(spec_swap16(x)) == x,
{
    assert(((x & 0xFF00FF00u32) >> 8u32 | (x & 0x00FF00FFu32) << 8u32) & 0xFF00FF00u32 == (x
        & 0x00FF00FFu32) << 8u32) by (bit_vector);
    assert(((x & 0xFF00FF00u32) >> 8u32 | (x & 0x00FF00FFu32) << 8u32) & 0x00FF00FFu32 == (x
        & 0xFF00FF00u32) >> 8u32) by (bit_vector);
    assert((((x & 0x00FF00FFu32) << 8u32) >> 8u32) | (((x & 0xFF00FF00u32) >> 8u32) << 8u32)
        == x) by (bit_vector);
}

/// The 32-bit gSPI command word: bit 31 write, bit 30 auto-increment,
/// bits 29..28 function, bits 27..11 address, bits 10..0 length.
pub open spec fn spec_cmd_word(write: bool, incr: bool, func: u32, addr: u32, len: u32) -> u32 {
    (if write {
        1u32
    } else {
        0u32
    }) << 31u32 | (if incr {
        1u32
    } else {
        0u32
    }) << 30u32 | (func & 0b11u32) << 28u32 | (addr & 0x1FFFFu32) << 11u32 | (len & 0x7FFu32)
}

/// Builds a gSPI command word.
pub fn cmd_word(write: bool, incr: bool, func: u32, addr: u32, len: u32) -> (r: u32)
    ensures
        r == spec_cmd_word(write, incr, func, addr, len),
{
    let w: u32 = if write {
        1
    } else {
        0
    };
    let i: u32 = if incr {
        1
    } else {
        0
    };
    w << 31u32 | i << 30u32 | (func & 0b11u32) << 28u32 | (addr & 0x1FFFFu32) << 11u32 | (len
        & 0x7FFu32)
}

/// Every field of a command word can be read back from it, truncated to its
/// width.
pub proof fn lemma_cmd_word_fields(write: bool, incr: bool, func: u32, addr: u32, len: u32)
    ensures
        (spec_cmd_word(write, incr, func, addr, len) >> 31u32 == 1) == write,
        ((spec_cmd_word(write, incr, func, addr, len) >> 30u32) & 1 == 1) == incr,
        (spec_cmd_word(write, incr, func, addr, len) >> 28u32) & 0b11 == func & 0b11,
        (spec_cmd_word(write, incr, func, addr, len) >> 11u32) & 0x1FFFF == addr & 0x1FFFF,
        spec_cmd_word(write, incr, func, addr, len) & 0x7FF == len & 0x7FF,
{
    let w: u32 = if write {
        1
    } else {
        0
    };
    let i: u32 = if incr {
        1
    } else {
        0
    };
    assert(w <= 1 && i <= 1 ==> {
        let c = w << 31u32 | i << 30u32 | (func & 0b11u32) << 28u32 | (addr & 0x1FFFFu32) << 11u32
            | (len & 0x7FFu32);
        &&& c >> 31u32 == w
        &&& (c >> 30u32) & 1 == i
        &&& (c >> 28u32) & 0b11 == func & 0b11
        &&& (c >> 11u32) & 0x1FFFF == addr & 0x1FFFF
        &&& c & 0x7FF == len & 0x7FF
    }) by (bit_vector);
}

/// Level of the data line for bit `i` (0 is sent first) of `byte`.
pub open spec fn spec_bit(byte: u8, i: int) -> bool {
    (byte >> ((7 - i) as u8)) & 1u8 == 1u8
}

/// Data line levels that send `bytes`, most significant bit of each byte first.
pub open spec fn spec_bits_of(bytes: Seq<u8>) -> Seq<bool> {
    Seq::new(bytes.len() * 8, |k: int| spec_bit(bytes[k / 8], k % 8))
}

/// The byte shifted in from the first `n` of `bits`, most significant first.
pub open spec fn spec_shift_in(bits: Seq<bool>, n: nat) -> u8
    decreases n,
{
    if n == 0 {
        0u8
    } else {
        let w = spec_shift_in(bits, (n - 1) as nat);
        (((w as u32) << 1u32) | (if bits[n - 1] {
            1u32
        } else {
            0u32
        })) as u8
    }
}

/// Bytes read from sampled data line levels, eight per byte.
pub open spec fn spec_bytes_of(bits: Seq<bool>) -> Seq<u8> {
    Seq::new(bits.len() / 8, |j: int| spec_shift_in(bits.subrange(j * 8, j * 8 + 8), 8))
}

/// Data line levels for writing `words`, one per clock, most significant bit
/// of each byte first.
pub fn spi_write_bits(words: &[u8]) -> (r: Vec<bool>)
    requires
        words@.len() * 8 <= usize::MAX,
    ensures
        r@ == spec_bits_of(words@),
{
    let mut out: Vec<bool> = Vec::new();
    let mut j: usize = 0;
    while j < words.len()
        invariant
            0 <= j <= words@.len(),
            words@.len() * 8 <= usize::MAX,
            out@.len() == j * 8,
            forall|k: int| 0 <= k < j * 8 ==> out@[k] == spec_bit(words@[k / 8], k % 8),
        decreases words@.len() - j,
    {
        let mut word = words[j];
        let b0 = words[j];
        assert((((b0 as u32) << 0u32) as u8) == b0) by (bit_vector);
        let mut i: usize = 0;
        while i < 8
            invariant
                0 <= j < words@.len(),
                0 <= i <= 8,
                out@.len() == j * 8 + i,
                word == ((words@[j as int] as u32) << (i as u32)) as u8,
                forall|k: int|
                    0 <= k < j * 8 + i ==> out@[k] == spec_bit(words@[k / 8], k % 8),
            decreases 8 - i,
        {
            let b = words[j];
            let ii = i as u32;
            assert(ii < 8 ==> ((((b as u32) << ii) as u8) & 0x80u8 != 0) == ((b >> ((7 - ii)
                as u8)) & 1u8 == 1u8)) by (bit_vector);
            assert(ii < 8 ==> ((((b as u32) << ii) as u8) << 1u8) == (((b as u32) << ((ii + 1)
                as u32)) as u8)) by (bit_vector);
            out.push(word & 0x80u8 != 0);
            word = word << 1u8;
            proof {
                let k = j * 8 + i;
                assert(k / 8 == j as int && k % 8 == i as int) by (nonlinear_arith)
                    requires
                        k == j * 8 + i,
                        0 <= i < 8,
                ;
            }
            i = i + 1;
        }
        j = j + 1;
    }
    assert(out@ =~= spec_bits_of(words@));
    out
}

/// Bytes shifted in from sampled data line levels, eight levels per byte,
/// most significant bit first.
pub fn spi_read_bytes(bits: &[bool]) -> (r: Vec<u8>)
    requires
        bits@.len() % 8 == 0,
    ensures
        r@ == spec_bytes_of(bits@),
{
    let mut out: Vec<u8> = Vec::new();
    let n = bits.len() / 8;
    let mut j: usize = 0;
    while j < n
        invariant
            0 <= j <= n,
            n == bits@.len() / 8,
            bits@.len() % 8 == 0,
            bits@.len() <= usize::MAX,
            out@.len() == j,
            forall|k: int|
                0 <= k < j ==> out@[k] == spec_shift_in(bits@.subrange(k * 8, k * 8 + 8), 8),
        decreases n - j,
    {
        proof {
            assert(j * 8 + 8 <= bits@.len()) by (nonlinear_arith)
                requires
                    j < n,
                    n == bits@.len() / 8,
                    bits@.len() % 8 == 0,
            ;
        }
        let ghost chunk = bits@.subrange(j * 8, j * 8 + 8);
        let mut w: u8 = 0;
        let mut i: usize = 0;
        while i < 8
            invariant
                0 <= i <= 8,
                j * 8 + 8 <= bits@.len(),
                bits@.len() <= usize::MAX,
                chunk == bits@.subrange(j * 8, j * 8 + 8),
                w == spec_shift_in(chunk, i as nat),
            decreases 8 - i,
        {
            let bit = bits[j * 8 + i];
            assert(chunk[i as int] == bit);
            let x: u32 = if bit {
                1
            } else {
                0
            };
            assert(x <= 1 ==> (((w as u32) << 1u32) | x) as u8 == ((w << 1u8) | (x as u8))) by (
            bit_vector);
            w = w << 1u8;
            if bit {
                w = w | 0x01u8;
            }
            assert(w == ((w as u32) | 0u32) as u8) by (bit_vector);
            i = i + 1;
        }
        out.push(w);
        j = j + 1;
    }
    assert(out@ =~= spec_bytes_of(bits@));
    out
}

/// Shifting in the eight levels that send a byte gives back that byte.
proof fn lemma_shift_in_bits(b: u8, bits: Seq<bool>)
    requires
        bits.len() == 8,
        forall|i: int| 0 <= i < 8 ==> bits[i] == spec_bit(b, i),
    ensures
        spec_shift_in(bits, 8) == b,
{
    reveal_with_fuel(spec_shift_in, 9);
    let v0: u32 = if bits[0] { 1 } else { 0 };
    let v1: u32 = if bits[1] { 1 } else { 0 };
    let v2: u32 = if bits[2] { 1 } else { 0 };
    let v3: u32 = if bits[3] { 1 } else { 0 };
    let v4: u32 = if bits[4] { 1 } else { 0 };
    let v5: u32 = if bits[5] { 1 } else { 0 };
    let v6: u32 = if bits[6] { 1 } else { 0 };
    let v7: u32 = if bits[7] { 1 } else { 0 };
    assert(spec_bit(b, 0) == ((b >> 7u8) & 1u8 == 1u8));
    assert(spec_bit(b, 1) == ((b >> 6u8) & 1u8 == 1u8));
    assert(spec_bit(b, 2) == ((b >> 5u8) & 1u8 == 1u8));
    assert(spec_bit(b, 3) == ((b >> 4u8) & 1u8 == 1u8));
    assert(spec_bit(b, 4) == ((b >> 3u8) & 1u8 == 1u8));
    assert(spec_bit(b, 5) == ((b >> 2u8) & 1u8 == 1u8));
    assert(spec_bit(b, 6) == ((b >> 1u8) & 1u8 == 1u8));
    assert(spec_bit(b, 7) == ((b >> 0u8) & 1u8 == 1u8));
    assert({
        &&& v0 == (if (b >> 7u8) & 1u8 == 1u8 { 1u32 } else { 0u32 })
        &&& v1 == (if (b >> 6u8) & 1u8 == 1u8 { 1u32 } else { 0u32 })
        &&& v2 == (if (b >> 5u8) & 1u8 == 1u8 { 1u32 } else { 0u32 })
        &&& v3 == (if (b >> 4u8) & 1u8 == 1u8 { 1u32 } else { 0u32 })
        &&& v4 == (if (b >> 3u8) & 1u8 == 1u8 { 1u32 } else { 0u32 })
        &&& v5 == (if (b >> 2u8) & 1u8 == 1u8 { 1u32 } else { 0u32 })
        &&& v6 == (if (b >> 1u8) & 1u8 == 1u8 { 1u32 } else { 0u32 })
        &&& v7 == (if (b >> 0u8) & 1u8 == 1u8 { 1u32 } else { 0u32 })
    } ==> {
        let x1 = (((0u8 as u32) << 1u32) | v0) as u8;
        let x2 = (((x1 as u32) << 1u32) | v1) as u8;
        let x3 = (((x2 as u32) << 1u32) | v2) as u8;
        let x4 = (((x3 as u32) << 1u32) | v3) as u8;
        let x5 = (((x4 as u32) << 1u32) | v4) as u8;
        let x6 = (((x5 as u32) << 1u32) | v5) as u8;
        let x7 = (((x6 as u32) << 1u32) | v6) as u8;
        let x8 = (((x7 as u32) << 1u32) | v7) as u8;
        x8 == b
    }) by (bit_vector);
}

/// Reading back the levels written for `bytes` gives back `bytes`: the two
/// serialisations of the data line are inverse.
pub proof fn lemma_spi_loopback(bytes: Seq<u8>)
    ensures
        spec_bytes_of(spec_bits_of(bytes)) == bytes,
{
    let bits = spec_bits_of(bytes);
    assert(bits.len() / 8 == bytes.len()) by (nonlinear_arith)
        requires
            bits.len() == bytes.len() * 8,
    ;
    assert forall|j: int| 0 <= j < bytes.len() implies #[trigger] spec_bytes_of(bits)[j]
        == bytes[j] by {
        let chunk = bits.subrange(j * 8, j * 8 + 8);
        assert(j * 8 + 8 <= bits.len()) by (nonlinear_arith)
            requires
                0 <= j < bytes.len(),
                bits.len() == bytes.len() * 8,
        ;
        assert forall|i: int| 0 <= i < 8 implies chunk[i] == spec_bit(bytes[j], i) by {
            assert((j * 8 + i) / 8 == j && (j * 8 + i) % 8 == i) by (nonlinear_arith)
                requires
                    0 <= i < 8,
            ;
        }
        lemma_shift_in_bits(bytes[j], chunk);
    }
    assert(spec_bytes_of(bits) =~= bytes);
}

} // verus!
