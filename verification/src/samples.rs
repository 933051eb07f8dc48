//! Sample decoding: the rules that read one raw sample out of the byte
//! stream, in native little-endian order, and say how it normalizes.
//!
//! Integer samples normalize by division through the largest positive
//! value of their width (32767, 8388607 or 2147483647); 32-bit float
//! samples are the four bytes reinterpreted as an IEEE-754 float, with no
//! scaling. The division and the reinterpretation are floating-point work
//! and happen outside the library; a decoded sample carries the exact
//! integer value and its divisor, or the exact float bits.

use vstd::prelude::*;
use crate::format::FormatDescriptor;

verus! {

/// One decoded sample: a signed integer with the divisor that normalizes
/// it into [-1, 1], or the raw bits of an IEEE-754 float.
#[derive(Clone, Copy, Debug, PartialEq, Eq, Structural)]
pub enum SampleValue {
    Pcm { value: i32, divisor: u32 },
    FloatBits(u32),
}

/// The signed 16-bit value of two little-endian bytes.
pub open spec fn s16_val(b0: u8, b1: u8) -> int {
    let u = b0 + 256 * b1;
    if u < 32768 {
        u as int
    } else {
        u - 65536
    }
}

/// The signed 24-bit value of three little-endian bytes.
pub open spec fn s24_val(b0: u8, b1: u8, b2: u8) -> int {
    let u = b0 + 256 * b1 + 65536 * b2;
    if u < 8388608 {
        u as int
    } else {
        u - 16777216
    }
}

/// The unsigned 32-bit value of four little-endian bytes.
pub open spec fn u32_val(b0: u8, b1: u8, b2: u8, b3: u8) -> int {
    b0 + 256 * b1 + 65536 * b2 + 16777216 * b3
}

/// The signed 32-bit value of four little-endian bytes.
pub open spec fn s32_val(b0: u8, b1: u8, b2: u8, b3: u8) -> int {
    let u = u32_val(b0, b1, b2, b3);
    if u < 2147483648 {
        u
    } else {
        u - 4294967296
    }
}

pub fn decode_s16(b0: u8, b1: u8) -> (r: i16)
    ensures
        r as int == s16_val(b0, b1),
{
    let u: u32 = (b0 as u32) + 256 * (b1 as u32);
    if u < 32768 {
        u as i16
    } else {
        ((u as i32) - 65536) as i16
    }
}

pub fn decode_s24(b0: u8, b1: u8, b2: u8) -> (r: i32)
    ensures
        r as int == s24_val(b0, b1, b2),
{
    let u: u32 = (b0 as u32) + 256 * (b1 as u32) + 65536 * (b2 as u32);
    if u < 8388608 {
        u as i32
    } else {
        (u as i32) - 16777216
    }
}

pub fn decode_u32(b0: u8, b1: u8, b2: u8, b3: u8) -> (r: u32)
    ensures
        r as int == u32_val(b0, b1, b2, b3),
{
    (b0 as u32) + 256 * (b1 as u32) + 65536 * (b2 as u32) + 16777216 * (b3 as u32)
}

pub fn decode_s32(b0: u8, b1: u8, b2: u8, b3: u8) -> (r: i32)
    ensures
        r as int == s32_val(b0, b1, b2, b3),
{
    let u = decode_u32(b0, b1, b2, b3);
    if u < 2147483648 {
        u as i32
    } else {
        ((u as i64) - 4294967296) as i32
    }
}

/// Round trip at the sample level: a 16-bit value laid out as its two
/// little-endian two's-complement bytes decodes back to itself, so the
/// container's pass-through payload loses nothing of a synthetic 16-bit
/// stream.
pub proof fn lemma_s16_roundtrip(v: int)
    requires
        -32768 <= v < 32768,
    ensures
        ({
            let u = if v >= 0 { v } else { v + 65536 };
            s16_val((u % 256) as u8, (u / 256) as u8) == v
        }),
{
    let u = if v >= 0 { v } else { v + 65536 };
    vstd::arithmetic::div_mod::lemma_fundamental_div_mod(u, 256);
    assert(0 <= u % 256 < 256);
    assert(0 <= u / 256 < 256);
    assert(((u % 256) as u8) as int == u % 256);
    assert(((u / 256) as u8) as int == u / 256);
}

/// The sample starting at byte offset `off` of `data`, under `fmt`.
pub open spec fn sample_at(data: Seq<u8>, fmt: FormatDescriptor, off: int) -> SampleValue {
    if fmt.bits_per_sample == 16 {
        SampleValue::Pcm { value: s16_val(data[off], data[off + 1]) as i32, divisor: 32767 }
    } else if fmt.bits_per_sample == 24 {
        SampleValue::Pcm {
            value: s24_val(data[off], data[off + 1], data[off + 2]) as i32,
            divisor: 8388607,
        }
    } else if fmt.is_float_encoded {
        SampleValue::FloatBits(
            u32_val(data[off], data[off + 1], data[off + 2], data[off + 3]) as u32,
        )
    } else {
        SampleValue::Pcm {
            value: s32_val(data[off], data[off + 1], data[off + 2], data[off + 3]) as i32,
            divisor: 2147483647,
        }
    }
}

/// The whole sample stream read out of `data` under `fmt`.
pub open spec fn decoded_stream(data: Seq<u8>, fmt: FormatDescriptor) -> Seq<SampleValue> {
    Seq::new(
        (data.len() as int / fmt.spec_bytes_per_sample()) as nat,
        |i: int| sample_at(data, fmt, i * fmt.spec_bytes_per_sample()),
    )
}

/// Decodes every sample of `data` in order. The byte length must be an
/// exact multiple of the sample width: partial samples never occur in a
/// frame-aligned capture.
pub fn decode_samples(data: &Vec<u8>, fmt: &FormatDescriptor) -> (r: Vec<SampleValue>)
    requires
        fmt.valid(),
        data@.len() as int % fmt.spec_bytes_per_sample() == 0,
    ensures
        r@ == decoded_stream(data@, *fmt),
{
    let bps = fmt.bytes_per_sample();
    let n = data.len();
    let count = n / bps;
    let ghost stream = decoded_stream(data@, *fmt);
    proof {
        vstd::arithmetic::div_mod::lemma_fundamental_div_mod(n as int, bps as int);
        assert(count as int == n as int / bps as int);
        assert(n as int == bps as int * (n as int / bps as int) + n as int % bps as int);
        assert(n as int == bps as int * count as int);
        assert(bps as int * count as int == count as int * bps as int) by (nonlinear_arith);
        assert(stream.len() == count);
    }
    let mut out: Vec<SampleValue> = Vec::new();
    let mut k: usize = 0;
    let mut off: usize = 0;
    while k < count
        invariant
            fmt.valid(),
            bps == fmt.spec_bytes_per_sample(),
            n == data@.len(),
            n == count * bps,
            stream == decoded_stream(data@, *fmt),
            stream.len() == count,
            k <= count,
            off == k * bps,
            out@ == stream.subrange(0, k as int),
        decreases count - k,
    {
        proof {
            vstd::arithmetic::mul::lemma_mul_inequality(k as int + 1, count as int, bps as int);
            assert((k + 1) * bps == k * bps + bps) by (nonlinear_arith);
            assert(off + bps <= n);
        }
        let s: SampleValue = if fmt.bits_per_sample == 16 {
            SampleValue::Pcm { value: decode_s16(data[off], data[off + 1]) as i32, divisor: 32767 }
        } else if fmt.bits_per_sample == 24 {
            SampleValue::Pcm {
                value: decode_s24(data[off], data[off + 1], data[off + 2]),
                divisor: 8388607,
            }
        } else if fmt.is_float_encoded {
            SampleValue::FloatBits(decode_u32(data[off], data[off + 1], data[off + 2], data[off + 3]))
        } else {
            SampleValue::Pcm {
                value: decode_s32(data[off], data[off + 1], data[off + 2], data[off + 3]),
                divisor: 2147483647,
            }
        };
        proof {
            assert(s == sample_at(data@, *fmt, k as int * fmt.spec_bytes_per_sample()));
            assert(s == stream[k as int]);
        }
        out.push(s);
        k = k + 1;
        off = off + bps;
        proof {
            assert(out@ =~= stream.subrange(0, k as int));
        }
    }
    proof {
        assert(out@ =~= stream);
    }
    out
}

} // verus!
