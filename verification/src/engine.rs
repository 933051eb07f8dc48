//! The capture engine's decision logic: what one iteration of the packet
//! pump does, given the stored "stream already started" flag and the
//! recording state it has just read. The surrounding loop performs the
//! platform calls the decision names; the decisions themselves are pure.

use vstd::prelude::*;
use crate::format::FormatDescriptor;

verus! {

/// The stream transition one iteration issues against the platform
/// session.
#[derive(Clone, Copy, Debug, PartialEq, Eq, Structural)]
pub enum StreamCommand {
    /// Issue "start stream": the operator began listening.
    Start,
    /// Issue "stop stream": the operator went idle.
    Stop,
    /// No transition: the state did not change since the last look.
    Keep,
}

/// How the rest of the iteration behaves.
#[derive(Clone, Copy, Debug, PartialEq, Eq, Structural)]
pub enum LoopMode {
    /// Drain every available packet, then sleep briefly.
    PollPackets,
    /// Pull nothing and sleep for the longer idle interval.
    SleepIdle,
}

/// The command an iteration issues when the stream-active flag is
/// `active` and the recording flag reads `recording`.
pub open spec fn step_command(active: bool, recording: bool) -> StreamCommand {
    if recording && !active {
        StreamCommand::Start
    } else if !recording && active {
        StreamCommand::Stop
    } else {
        StreamCommand::Keep
    }
}

/// The stream-active flag after the iteration.
pub open spec fn step_active(active: bool, recording: bool) -> bool {
    recording
}

/// The packet handling of the iteration.
pub open spec fn step_mode(recording: bool) -> LoopMode {
    if recording {
        LoopMode::PollPackets
    } else {
        LoopMode::SleepIdle
    }
}

/// What one iteration decided.
#[derive(Clone, Copy, Debug, PartialEq, Eq, Structural)]
pub struct EngineDecision {
    pub command: StreamCommand,
    pub mode: LoopMode,
    pub stream_active: bool,
}

/// Decides one iteration of the capture loop: start the stream exactly on
/// the idle-to-listening edge, stop it exactly on the reverse edge, and
/// otherwise leave it alone; pull packets only while listening.
pub fn engine_step(active: bool, recording: bool) -> (r: EngineDecision)
    ensures
        r.command == step_command(active, recording),
        r.stream_active == step_active(active, recording),
        r.mode == step_mode(recording),
{
    let command = if recording && !active {
        StreamCommand::Start
    } else if !recording && active {
        StreamCommand::Stop
    } else {
        StreamCommand::Keep
    };
    let mode = if recording {
        LoopMode::PollPackets
    } else {
        LoopMode::SleepIdle
    };
    EngineDecision { command, mode, stream_active: recording }
}

/// Starting is idempotent from the engine's side: once an iteration has
/// run, a second look at an unchanged recording flag never issues another
/// transition, so the platform session never sees two starts or two stops
/// in a row.
pub proof fn lemma_no_repeated_transition(active: bool, recording: bool)
    ensures
        step_command(step_active(active, recording), recording) == StreamCommand::Keep,
{
}

/// The byte size of one packet of `frame_count` frames, or `None` where
/// it would not fit the address space. Whole frames only: the size is
/// always a multiple of the frame size.
pub fn packet_data_size(frame_count: u32, fmt: &FormatDescriptor) -> (r: Option<usize>)
    requires
        fmt.valid(),
    ensures
        (r matches Some(n) ==> n as int == frame_count * fmt.spec_frame_size()
            && n as int % fmt.spec_frame_size() == 0),
        (r is Some <==> frame_count * fmt.spec_frame_size() <= usize::MAX),
{
    let frame = fmt.frame_size();
    proof {
        assert(fmt.spec_frame_size() <= 65535 * 4) by (nonlinear_arith)
            requires
                fmt.channel_count <= 65535,
                fmt.spec_bytes_per_sample() <= 4,
        ;
        assert(frame_count as int * frame as int <= 0xffffffffu64 * 0x40000) by (nonlinear_arith)
            requires
                frame_count <= 0xffffffffu64,
                frame <= 0x40000,
        ;
    }
    let size64: u64 = (frame_count as u64) * (frame as u64);
    if size64 <= usize::MAX as u64 {
        let n = size64 as usize;
        proof {
            vstd::arithmetic::div_mod::lemma_mod_multiples_basic(
                frame_count as int,
                fmt.spec_frame_size(),
            );
        }
        Some(n)
    } else {
        None
    }
}

} // verus!
