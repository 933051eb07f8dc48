//! The format descriptor of a capture session: the native sample layout
//! that the platform audio service negotiated when the session was opened.

use vstd::prelude::*;

verus! {

/// An immutable description of the native sample layout of a capture
/// session: how many interleaved channels, how many frames per second,
/// how wide a sample is, and whether samples are IEEE floats rather
/// than signed integers.
#[derive(Clone, Copy, Debug, PartialEq, Eq, Structural)]
pub struct FormatDescriptor {
    pub channel_count: u16,
    pub sample_rate: u32,
    pub bits_per_sample: u16,
    pub is_float_encoded: bool,
}

impl FormatDescriptor {
    /// The supported sample widths: 16, 24 and 32 bits. Float encoding
    /// is only meaningful at 32 bits.
    pub open spec fn valid(self) -> bool {
        &&& self.channel_count >= 1
        &&& (self.bits_per_sample == 16 || self.bits_per_sample == 24
            || self.bits_per_sample == 32)
        &&& (self.is_float_encoded ==> self.bits_per_sample == 32)
    }

    /// Width of one sample in bytes.
    pub open spec fn spec_bytes_per_sample(self) -> int {
        self.bits_per_sample as int / 8
    }

    /// Width of one frame (one sample per channel) in bytes.
    pub open spec fn spec_frame_size(self) -> int {
        self.channel_count * self.spec_bytes_per_sample()
    }

    pub fn new(channel_count: u16, sample_rate: u32, bits_per_sample: u16, is_float_encoded: bool)
        -> (r: Option<FormatDescriptor>)
        ensures
            ({
                let f = FormatDescriptor { channel_count, sample_rate, bits_per_sample, is_float_encoded };
                r == if f.valid() { Some(f) } else { None::<FormatDescriptor> }
            }),
    {
        let f = FormatDescriptor { channel_count, sample_rate, bits_per_sample, is_float_encoded };
        if channel_count >= 1
            && (bits_per_sample == 16 || bits_per_sample == 24 || bits_per_sample == 32)
            && (!is_float_encoded || bits_per_sample == 32)
        {
            Some(f)
        } else {
            None
        }
    }

    /// The validity test, available to executable callers.
    pub fn check_valid(&self) -> (r: bool)
        ensures
            r == self.valid(),
    {
        self.channel_count >= 1
            && (self.bits_per_sample == 16 || self.bits_per_sample == 24
                || self.bits_per_sample == 32)
            && (!self.is_float_encoded || self.bits_per_sample == 32)
    }

    pub fn bytes_per_sample(&self) -> (r: usize)
        requires
            self.valid(),
        ensures
            r == self.spec_bytes_per_sample(),
    {
        (self.bits_per_sample / 8) as usize
    }

    pub fn frame_size(&self) -> (r: usize)
        requires
            self.valid(),
        ensures
            r == self.spec_frame_size(),
            r >= 1,
    {
        let bps = self.bytes_per_sample();
        proof {
            assert(self.channel_count as int * bps as int <= 65535 * 4) by (nonlinear_arith)
                requires
                    self.channel_count <= 65535,
                    bps <= 4,
            ;
            assert(self.channel_count as int * bps as int >= 1) by (nonlinear_arith)
                requires
                    self.channel_count >= 1,
                    bps >= 1,
            ;
        }
        (self.channel_count as usize) * bps
    }
}

} // verus!
