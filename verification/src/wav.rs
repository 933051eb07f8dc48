//! The container encoder: turns the drained raw bytes of one session,
//! together with its format descriptor, into the bytes of a complete WAV
//! file. The header declares the session's channel count, sample rate and
//! sample width, with format tag 1 for integer PCM and 3 for IEEE float;
//! the data chunk carries the captured samples in playback order.

use vstd::prelude::*;
use crate::format::FormatDescriptor;

verus! {

/// Why a session could not be encoded.
#[derive(Clone, Copy, Debug, PartialEq, Eq, Structural)]
pub enum EncodeError {
    /// The format descriptor is not one the container supports: an
    /// unsupported bit depth, no channels, a float flag at a width other
    /// than 32 bits, or a byte rate beyond the header's 32-bit field.
    UnsupportedFormat,
    /// The byte length is not a multiple of the frame size.
    MisalignedData,
    /// The data does not fit the container's 32-bit length fields.
    DataTooLarge,
}

/// The two little-endian bytes of a 16-bit value.
pub open spec fn le16(v: u16) -> Seq<u8> {
    seq![(v % 256) as u8, (v / 256) as u8]
}

/// The four little-endian bytes of a 32-bit value.
pub open spec fn le32(v: u32) -> Seq<u8> {
    seq![
        (v % 256) as u8,
        (v / 256 % 256) as u8,
        (v / 65536 % 256) as u8,
        (v / 16777216) as u8,
    ]
}

/// The header's format tag: 1 for integer PCM, 3 for IEEE float.
pub open spec fn spec_format_tag(fmt: FormatDescriptor) -> u16 {
    if fmt.is_float_encoded {
        3
    } else {
        1
    }
}

/// Bytes streamed per second: sample rate times frame size.
pub open spec fn spec_byte_rate(fmt: FormatDescriptor) -> int {
    fmt.sample_rate * fmt.spec_frame_size()
}

/// The 44-byte RIFF/WAVE header for `data_len` bytes of sample data.
pub open spec fn wav_header(fmt: FormatDescriptor, data_len: int) -> Seq<u8> {
    seq![0x52u8, 0x49u8, 0x46u8, 0x46u8]  // "RIFF"
        + le32((36 + data_len) as u32)
        + seq![0x57u8, 0x41u8, 0x56u8, 0x45u8]  // "WAVE"
        + seq![0x66u8, 0x6du8, 0x74u8, 0x20u8]  // "fmt "
        + le32(16)
        + le16(spec_format_tag(fmt))
        + le16(fmt.channel_count)
        + le32(fmt.sample_rate)
        + le32(spec_byte_rate(fmt) as u32)
        + le16(fmt.spec_frame_size() as u16)
        + le16(fmt.bits_per_sample)
        + seq![0x64u8, 0x61u8, 0x74u8, 0x61u8]  // "data"
        + le32(data_len as u32)
}

/// The bytes of the whole file: header, then the raw samples unchanged.
pub open spec fn wav_file_bytes(fmt: FormatDescriptor, data: Seq<u8>) -> Seq<u8> {
    wav_header(fmt, data.len() as int) + data
}

/// When encoding succeeds: a supported format whose byte rate fits the
/// header, frame-aligned data, and a payload within the 32-bit length
/// fields.
pub open spec fn encode_ok(fmt: FormatDescriptor, data: Seq<u8>) -> bool {
    &&& fmt.valid()
    &&& fmt.spec_frame_size() <= u16::MAX
    &&& spec_byte_rate(fmt) <= u32::MAX
    &&& data.len() as int % fmt.spec_frame_size() == 0
    &&& data.len() + 36 <= u32::MAX
}

/// The error reported for a rejected input, checked in this order.
pub open spec fn spec_encode_err(fmt: FormatDescriptor, data: Seq<u8>) -> EncodeError {
    if !(fmt.valid() && fmt.spec_frame_size() <= u16::MAX && spec_byte_rate(fmt) <= u32::MAX) {
        EncodeError::UnsupportedFormat
    } else if data.len() as int % fmt.spec_frame_size() != 0 {
        EncodeError::MisalignedData
    } else {
        EncodeError::DataTooLarge
    }
}

/// The header is exactly 44 bytes long.
pub proof fn lemma_wav_header_len(fmt: FormatDescriptor, data_len: int)
    ensures
        wav_header(fmt, data_len).len() == 44,
{
}

/// Round trip through the container: the payload that follows the 44-byte
/// header is the raw sample data, byte for byte.
pub proof fn lemma_wav_payload_roundtrip(fmt: FormatDescriptor, data: Seq<u8>)
    ensures
        wav_file_bytes(fmt, data).len() == 44 + data.len(),
        wav_file_bytes(fmt, data).subrange(44, 44 + data.len() as int) == data,
{
    lemma_wav_header_len(fmt, data.len() as int);
    assert(wav_file_bytes(fmt, data).subrange(44, 44 + data.len() as int) =~= data);
}

fn push_le16(out: &mut Vec<u8>, v: u16)
    ensures
        final(out)@ == old(out)@ + le16(v),
{
    out.push((v % 256) as u8);
    out.push((v / 256) as u8);
    proof {
        assert(out@ =~= old(out)@ + le16(v));
    }
}

fn push_le32(out: &mut Vec<u8>, v: u32)
    ensures
        final(out)@ == old(out)@ + le32(v),
{
    out.push((v % 256) as u8);
    out.push((v / 256 % 256) as u8);
    out.push((v / 65536 % 256) as u8);
    out.push((v / 16777216) as u8);
    proof {
        assert(out@ =~= old(out)@ + le32(v));
    }
}

/// Builds the 44-byte header. The numeric arguments carry the values the
/// caller has already computed and bounded.
#[verifier::rlimit(50)]
fn build_header(fmt: &FormatDescriptor, data_len: u32, frame: u16, rate: u32) -> (out: Vec<u8>)
    requires
        frame as int == fmt.spec_frame_size(),
        rate as int == spec_byte_rate(*fmt),
        data_len + 36 <= u32::MAX,
    ensures
        out@ == wav_header(*fmt, data_len as int),
{
    let mut out: Vec<u8> = Vec::new();
    out.push(0x52);
    out.push(0x49);
    out.push(0x46);
    out.push(0x46);
    push_le32(&mut out, 36 + data_len);
    out.push(0x57);
    out.push(0x41);
    out.push(0x56);
    out.push(0x45);
    out.push(0x66);
    out.push(0x6d);
    out.push(0x74);
    out.push(0x20);
    push_le32(&mut out, 16);
    push_le16(&mut out, if fmt.is_float_encoded { 3 } else { 1 });
    push_le16(&mut out, fmt.channel_count);
    push_le32(&mut out, fmt.sample_rate);
    push_le32(&mut out, rate);
    push_le16(&mut out, frame);
    push_le16(&mut out, fmt.bits_per_sample);
    out.push(0x64);
    out.push(0x61);
    out.push(0x74);
    out.push(0x61);
    push_le32(&mut out, data_len);
    proof {
        assert(out@ =~= wav_header(*fmt, data_len as int));
    }
    out
}

/// Encodes one session's raw bytes as a complete WAV file, or says
/// exactly why the input cannot be represented. On success the result is
/// the 44-byte header followed by `data` unchanged.
pub fn encode_wav(fmt: &FormatDescriptor, data: &Vec<u8>) -> (r: Result<Vec<u8>, EncodeError>)
    ensures
        r is Ok <==> encode_ok(*fmt, data@),
        (r matches Ok(out) ==> out@ == wav_file_bytes(*fmt, data@)),
        (r matches Err(e) ==> e == spec_encode_err(*fmt, data@)),
{
    if !fmt.check_valid() {
        return Err(EncodeError::UnsupportedFormat);
    }
    let frame = fmt.frame_size();
    if frame > u16::MAX as usize {
        return Err(EncodeError::UnsupportedFormat);
    }
    proof {
        assert(fmt.sample_rate as int * frame as int <= 0xffffffffu64 * 0x10000) by (nonlinear_arith)
            requires
                fmt.sample_rate <= 0xffffffffu64,
                frame <= 0x10000,
        ;
    }
    let rate64: u64 = (fmt.sample_rate as u64) * (frame as u64);
    if rate64 > u32::MAX as u64 {
        return Err(EncodeError::UnsupportedFormat);
    }
    if data.len() % frame != 0 {
        return Err(EncodeError::MisalignedData);
    }
    if data.len() as u64 > (u32::MAX - 36) as u64 {
        return Err(EncodeError::DataTooLarge);
    }
    let data_len: u32 = data.len() as u32;
    let mut out = build_header(fmt, data_len, frame as u16, rate64 as u32);
    let n = data.len();
    let mut i: usize = 0;
    while i < n
        invariant
            n == data@.len(),
            i <= n,
            out@ == wav_header(*fmt, data@.len() as int) + data@.subrange(0, i as int),
        decreases n - i,
    {
        out.push(data[i]);
        i = i + 1;
        proof {
            assert(out@ =~= wav_header(*fmt, data@.len() as int) + data@.subrange(0, i as int));
        }
    }
    proof {
        assert(data@.subrange(0, n as int) =~= data@);
        assert(out@ =~= wav_file_bytes(*fmt, data@));
    }
    Ok(out)
}

} // verus!
