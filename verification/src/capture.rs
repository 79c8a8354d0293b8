//! Memory sampling and CPU profiling: the commands that run a capture and
//! the part of the final result that is saved.

use vstd::prelude::*;

use crate::json::{JsonNumber, JsonValue};
use crate::protocol::{empty_object, is_empty_object, is_single_member, single_member, Command};

verus! {

/// The two timed captures.
#[derive(Clone, Copy, Debug, PartialEq, Eq)]
pub enum CaptureKind {
    /// Sampling of heap allocations.
    MemorySampling,
    /// Profiling of the CPU.
    CpuProfile,
}

/// The interval, in bytes, between allocation samples.
pub const SAMPLING_INTERVAL: u64 = 32768;

impl CaptureKind {
    /// The commands that enable the profiler and start the capture, in the
    /// order in which they are sent.
    pub fn start_commands(&self) -> (res: Vec<Command>)
        ensures
            res@.len() == 2,
            match self {
                CaptureKind::MemorySampling => {
                    &&& res@[0].method@ == "HeapProfiler.enable"@
                    &&& is_empty_object(res@[0].params)
                    &&& res@[1].method@ == "HeapProfiler.startSampling"@
                    &&& is_single_member(
                        res@[1].params,
                        "samplingInterval"@,
                        JsonValue::Number(JsonNumber::Unsigned(SAMPLING_INTERVAL)),
                    )
                },
                CaptureKind::CpuProfile => {
                    &&& res@[0].method@ == "Profiler.enable"@
                    &&& is_empty_object(res@[0].params)
                    &&& res@[1].method@ == "Profiler.start"@
                    &&& is_empty_object(res@[1].params)
                },
            },
    {
        let mut res: Vec<Command> = Vec::new();
        match self {
            CaptureKind::MemorySampling => {
                res.push(Command::new("HeapProfiler.enable", empty_object()));
                let interval = JsonValue::Number(JsonNumber::Unsigned(SAMPLING_INTERVAL));
                res.push(
                    Command::new(
                        "HeapProfiler.startSampling",
                        single_member("samplingInterval", interval),
                    ),
                );
            },
            CaptureKind::CpuProfile => {
                res.push(Command::new("Profiler.enable", empty_object()));
                res.push(Command::new("Profiler.start", empty_object()));
            },
        }
        res
    }

    /// The command that stops the capture; its result holds the profile.
    pub fn stop_command(&self) -> (res: Command)
        ensures
            is_empty_object(res.params),
            res.method@ == match self {
                CaptureKind::MemorySampling => "HeapProfiler.stopSampling"@,
                CaptureKind::CpuProfile => "Profiler.stop"@,
            },
    {
        match self {
            CaptureKind::MemorySampling => Command::new("HeapProfiler.stopSampling", empty_object()),
            CaptureKind::CpuProfile => Command::new("Profiler.stop", empty_object()),
        }
    }
}

/// The part of a stop command's result that is saved: its `profile` member
/// when it has one, else the whole result.
pub fn profile_payload(result: &JsonValue) -> (res: &JsonValue)
    ensures
        *res == match result.field("profile"@) {
            Some(p) => p,
            None => *result,
        },
{
    match result.get("profile") {
        Some(p) => p,
        None => result,
    }
}

} // verus!
