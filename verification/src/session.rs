//! Stop handling: when the operator flips the state back to idle, the
//! accumulated bytes are drained and either packaged as a save job — the
//! file name and the complete container bytes — or dropped with a reason.

use vstd::prelude::*;
use vstd::string::StringExecFns;
use crate::buffer::SampleBuffer;
use crate::format::FormatDescriptor;
use crate::wav::{encode_ok, encode_wav, spec_encode_err, wav_file_bytes, EncodeError};

verus! {

/// A session's stop time, with second resolution, naming its output file.
#[derive(Clone, Copy, Debug, PartialEq, Eq, Structural)]
pub struct Timestamp {
    pub year: u16,
    pub month: u8,
    pub day: u8,
    pub hour: u8,
    pub minute: u8,
    pub second: u8,
}

impl Timestamp {
    /// Field ranges of a calendar time the file name can carry.
    pub open spec fn well_formed(self) -> bool {
        &&& self.year <= 9999
        &&& 1 <= self.month <= 12
        &&& 1 <= self.day <= 31
        &&& self.hour < 24
        &&& self.minute < 60
        &&& self.second < 60
    }

    pub fn new(year: u16, month: u8, day: u8, hour: u8, minute: u8, second: u8)
        -> (r: Option<Timestamp>)
        ensures
            ({
                let t = Timestamp { year, month, day, hour, minute, second };
                r == if t.well_formed() { Some(t) } else { None::<Timestamp> }
            }),
    {
        let t = Timestamp { year, month, day, hour, minute, second };
        if year <= 9999 && 1 <= month && month <= 12 && 1 <= day && day <= 31 && hour < 24
            && minute < 60 && second < 60 {
            Some(t)
        } else {
            None
        }
    }
}

/// The decimal digit character for `d` in 0..10.
pub open spec fn digit_char(d: int) -> char {
    if d == 0 { '0' }
    else if d == 1 { '1' }
    else if d == 2 { '2' }
    else if d == 3 { '3' }
    else if d == 4 { '4' }
    else if d == 5 { '5' }
    else if d == 6 { '6' }
    else if d == 7 { '7' }
    else if d == 8 { '8' }
    else { '9' }
}

/// `n` in 0..100 as two decimal digits, zero-padded.
pub open spec fn two_digit_chars(n: int) -> Seq<char> {
    seq![digit_char(n / 10), digit_char(n % 10)]
}

/// `n` in 0..10000 as four decimal digits, zero-padded.
pub open spec fn four_digit_chars(n: int) -> Seq<char> {
    seq![
        digit_char(n / 1000),
        digit_char(n / 100 % 10),
        digit_char(n / 10 % 10),
        digit_char(n % 10),
    ]
}

/// The stop time with second resolution: `YYYYMMDDTHHMMSS`.
pub open spec fn timestamp_chars(t: Timestamp) -> Seq<char> {
    four_digit_chars(t.year as int) + two_digit_chars(t.month as int)
        + two_digit_chars(t.day as int) + seq!['T'] + two_digit_chars(t.hour as int)
        + two_digit_chars(t.minute as int) + two_digit_chars(t.second as int)
}

/// The output path: the capture directory, the stop time, the container
/// extension.
pub open spec fn wav_filename_chars(t: Timestamp) -> Seq<char> {
    "captures/"@ + timestamp_chars(t) + ".wav"@
}

/// The one-character string for a decimal digit.
fn digit_str(d: u8) -> (r: &'static str)
    requires
        d < 10,
    ensures
        r@ == seq![digit_char(d as int)],
{
    proof {
        reveal_strlit("0");
        reveal_strlit("1");
        reveal_strlit("2");
        reveal_strlit("3");
        reveal_strlit("4");
        reveal_strlit("5");
        reveal_strlit("6");
        reveal_strlit("7");
        reveal_strlit("8");
        reveal_strlit("9");
    }
    match d {
        0 => "0",
        1 => "1",
        2 => "2",
        3 => "3",
        4 => "4",
        5 => "5",
        6 => "6",
        7 => "7",
        8 => "8",
        _ => "9",
    }
}

fn push_two_digits(s: &mut String, n: u8)
    requires
        n < 100,
    ensures
        final(s)@ == old(s)@ + two_digit_chars(n as int),
{
    s.append(digit_str(n / 10));
    s.append(digit_str(n % 10));
    proof {
        assert(s@ =~= old(s)@ + two_digit_chars(n as int));
    }
}

fn push_four_digits(s: &mut String, n: u16)
    requires
        n < 10000,
    ensures
        final(s)@ == old(s)@ + four_digit_chars(n as int),
{
    s.append(digit_str((n / 1000) as u8));
    s.append(digit_str((n / 100 % 10) as u8));
    s.append(digit_str((n / 10 % 10) as u8));
    s.append(digit_str((n % 10) as u8));
    proof {
        assert(s@ =~= old(s)@ + four_digit_chars(n as int));
    }
}

/// The output file name for a session stopped at `t`.
pub fn wav_filename(t: &Timestamp) -> (s: String)
    requires
        t.well_formed(),
    ensures
        s@ == wav_filename_chars(*t),
{
    let mut s = String::from_str("captures/");
    push_four_digits(&mut s, t.year);
    push_two_digits(&mut s, t.month);
    push_two_digits(&mut s, t.day);
    proof {
        reveal_strlit("T");
    }
    s.append("T");
    push_two_digits(&mut s, t.hour);
    push_two_digits(&mut s, t.minute);
    push_two_digits(&mut s, t.second);
    s.append(".wav");
    proof {
        assert("T"@ =~= seq!['T']);
        assert(s@ =~= wav_filename_chars(*t));
    }
    s
}

/// Everything the surrounding application needs to persist one session:
/// where to write, and the complete container bytes.
pub struct SaveJob {
    pub filename: String,
    pub bytes: Vec<u8>,
}

/// What a stop produced.
pub enum StopOutcome {
    /// The buffer was empty: nothing is written, informational only.
    NoAudioData,
    /// A complete file to write.
    Save(SaveJob),
    /// Captured bytes could not be encoded; they are dropped.
    EncodeFailed(EncodeError),
}

/// Handles one stop event: drains the buffer in one step and, unless the
/// session was empty, packages the bytes as a WAV file named by the stop
/// time. The buffer is left empty in every case; an empty session
/// produces no save job, so no file and no directory are ever created
/// for it.
pub fn finish_session(buffer: &mut SampleBuffer, fmt: &FormatDescriptor, t: &Timestamp)
    -> (r: StopOutcome)
    requires
        t.well_formed(),
    ensures
        final(buffer)@ == Seq::<u8>::empty(),
        (r is NoAudioData <==> old(buffer)@.len() == 0),
        (r is Save <==> old(buffer)@.len() > 0 && encode_ok(*fmt, old(buffer)@)),
        (r matches StopOutcome::Save(job) ==> job.filename@ == wav_filename_chars(*t)
            && job.bytes@ == wav_file_bytes(*fmt, old(buffer)@)),
        (r matches StopOutcome::EncodeFailed(e) ==> old(buffer)@.len() > 0
            && e == spec_encode_err(*fmt, old(buffer)@)),
{
    if buffer.is_empty() {
        proof {
            assert(buffer@ =~= Seq::<u8>::empty());
        }
        return StopOutcome::NoAudioData;
    }
    let data = buffer.drain_and_clear();
    match encode_wav(fmt, &data) {
        Ok(bytes) => StopOutcome::Save(SaveJob { filename: wav_filename(t), bytes }),
        Err(e) => StopOutcome::EncodeFailed(e),
    }
}

} // verus!
