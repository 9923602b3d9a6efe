//! The bookkeeping around a running pipeline: the name of the encoder it
//! runs, the element whose frames count as captured, the counters of the
//! once-a-second telemetry and the reaction to bus messages.

use vstd::prelude::*;
use crate::ipc::OutboundMessage;

verus! {

/// The name reported for the running encoder: its factory's name when the
/// pipeline has an element named `video_encoder`, `unknown` when that
/// element has no factory, `none` when there is no such element.
pub open spec fn active_encoder_spec(found: bool, factory: Option<Seq<char>>) -> Seq<char> {
    if !found {
        "none"@
    } else {
        match factory {
            Some(f) => f,
            None => "unknown"@,
        }
    }
}

/// The name reported for the encoder of a freshly built pipeline.
pub fn active_encoder_name(found: bool, factory: Option<String>) -> (r: String)
    ensures
        r@ == active_encoder_spec(found, match factory { Some(f) => Some(f@), None => None }),
{
    if !found {
        String::from_str("none")
    } else {
        match factory {
            Some(f) => f,
            None => String::from_str("unknown"),
        }
    }
}

/// The name reported after a restart: a new pipeline without an element
/// named `video_encoder` keeps the name reported before.
pub fn encoder_after_restart(previous: String, found: bool, factory: Option<String>) -> (r: String)
    ensures
        r@ == if found {
            active_encoder_spec(true, match factory { Some(f) => Some(f@), None => None })
        } else {
            previous@
        },
{
    if found {
        active_encoder_name(true, factory)
    } else {
        previous
    }
}

/// The capture elements whose output counts as captured frames, in the
/// order they are looked for.
pub open spec fn capture_source_names() -> Seq<Seq<char>> {
    seq!["d3d11screencapturesrc0"@, "pipewiresrc0"@, "gdi_src"@, "ximagesrc0"@]
}

fn capture_source_name(i: usize) -> (r: &'static str)
    requires
        i < 4,
    ensures
        r@ == capture_source_names()[i as int],
{
    if i == 0 {
        "d3d11screencapturesrc0"
    } else if i == 1 {
        "pipewiresrc0"
    } else if i == 2 {
        "gdi_src"
    } else {
        "ximagesrc0"
    }
}

/// Whether `present` may answer `b` when asked about the element `name`.
pub open spec fn presence_answered<F: Fn(&str) -> bool>(present: F, name: Seq<char>, b: bool) -> bool {
    exists|n: &str| n@ == name && #[trigger] present.ensures((n,), b)
}

/// The first capture element, in the order of [`capture_source_names`],
/// that the pipeline holds by `present`'s answer; `None` when it holds none.
pub fn find_capture_source<F: Fn(&str) -> bool>(present: F) -> (r: Option<&'static str>)
    requires
        forall|n: &str| #[trigger] present.requires((n,)),
    ensures
        match r {
            Some(name) => exists|i: int|
                0 <= i < 4 && name@ == capture_source_names()[i]
                    && presence_answered(present, capture_source_names()[i], true)
                    && forall|j: int| 0 <= j < i ==> #[trigger] presence_answered(present, capture_source_names()[j], false),
            None => forall|j: int| 0 <= j < 4 ==> #[trigger] presence_answered(present, capture_source_names()[j], false),
        },
{
    let mut i: usize = 0;
    while i < 4
        invariant
            i <= 4,
            forall|n: &str| #[trigger] present.requires((n,)),
            forall|j: int| 0 <= j < i ==> #[trigger] presence_answered(present, capture_source_names()[j], false),
        decreases 4 - i,
    {
        let name = capture_source_name(i);
        let b = present(name);
        assert(presence_answered(present, capture_source_names()[i as int], b));
        if b {
            return Some(name);
        }
        i = i + 1;
    }
    None
}

/// Buffer counts since the last telemetry report: captured frames, frames
/// into and out of the encoder, key frames and other frames among them,
/// and encoded bytes. Every count wraps around as an atomic counter does.
#[derive(Debug, Clone, Copy, PartialEq, Eq, Structural)]
pub struct TelemetryCounters {
    pub captured: u32,
    pub encoder_in: u32,
    pub encoder_out: u32,
    pub key_frames: u32,
    pub delta_frames: u32,
    pub bytes: u64,
}

/// `n + 1`, wrapping at 2^32.
pub open spec fn bump(n: u32) -> u32 {
    if n == u32::MAX { 0 } else { (n + 1) as u32 }
}

impl TelemetryCounters {
    /// All counts zero.
    pub fn new() -> (r: Self)
        ensures
            r == (TelemetryCounters {
                captured: 0,
                encoder_in: 0,
                encoder_out: 0,
                key_frames: 0,
                delta_frames: 0,
                bytes: 0,
            }),
    {
        TelemetryCounters { captured: 0, encoder_in: 0, encoder_out: 0, key_frames: 0, delta_frames: 0, bytes: 0 }
    }

    /// Counts a buffer leaving the capture element.
    pub fn on_captured(&mut self)
        ensures
            *final(self) == (TelemetryCounters { captured: bump(old(self).captured), ..*old(self) }),
    {
        self.captured = self.captured.wrapping_add(1);
    }

    /// Counts a buffer entering the encoder.
    pub fn on_encoder_input(&mut self)
        ensures
            *final(self) == (TelemetryCounters { encoder_in: bump(old(self).encoder_in), ..*old(self) }),
    {
        self.encoder_in = self.encoder_in.wrapping_add(1);
    }

    /// Counts an encoded buffer of `size` bytes; a buffer that is not a
    /// delta unit is a key frame.
    pub fn on_encoder_output(&mut self, size: u64, delta_unit: bool)
        ensures
            final(self).encoder_out == bump(old(self).encoder_out),
            final(self).bytes == ((old(self).bytes as int + size as int) % 0x1_0000_0000_0000_0000) as u64,
            final(self).key_frames == if delta_unit { old(self).key_frames } else { bump(old(self).key_frames) },
            final(self).delta_frames == if delta_unit { bump(old(self).delta_frames) } else { old(self).delta_frames },
            final(self).captured == old(self).captured,
            final(self).encoder_in == old(self).encoder_in,
    {
        self.encoder_out = self.encoder_out.wrapping_add(1);
        self.bytes = self.bytes.wrapping_add(size);
        if delta_unit {
            self.delta_frames = self.delta_frames.wrapping_add(1);
        } else {
            self.key_frames = self.key_frames.wrapping_add(1);
        }
    }

    /// The counts since the last report; the counters start again at zero.
    pub fn take(&mut self) -> (r: TelemetryCounters)
        ensures
            r == *old(self),
            *final(self) == TelemetryCounters::new_spec(),
    {
        let r = *self;
        *self = TelemetryCounters::new();
        r
    }

    /// All counts zero.
    pub open spec fn new_spec() -> TelemetryCounters {
        TelemetryCounters { captured: 0, encoder_in: 0, encoder_out: 0, key_frames: 0, delta_frames: 0, bytes: 0 }
    }
}

/// Every encoded buffer is a key frame or another frame: when the counts
/// started at zero and did not wrap, the two kinds add up to the encoder's
/// output.
pub open spec fn frames_balanced(c: TelemetryCounters) -> bool {
    c.key_frames + c.delta_frames == c.encoder_out
}

/// Counting an encoded buffer keeps the key and other frames adding up to
/// the encoder's output, as long as no count wraps.
pub proof fn law_output_frames_balance(before: TelemetryCounters, after: TelemetryCounters, delta_unit: bool)
    requires
        frames_balanced(before),
        before.encoder_out < u32::MAX,
        after.encoder_out == bump(before.encoder_out),
        after.key_frames == if delta_unit { before.key_frames } else { bump(before.key_frames) },
        after.delta_frames == if delta_unit { bump(before.delta_frames) } else { before.delta_frames },
    ensures
        frames_balanced(after),
{
}

/// A message from the pipeline's bus, as far as the daemon reads it.
#[derive(Debug, PartialEq)]
pub enum BusEvent {
    /// An element failed; `message` describes it.
    Error { message: String },
    Warning,
    EndOfStream,
    Other,
}

/// The description sent for an element's error: the element's path (or
/// `unknown`), the error and its debug details as already rendered.
pub open spec fn bus_error_text(source: Option<Seq<char>>, error: Seq<char>, debug: Seq<char>) -> Seq<char> {
    "Error from element "@ + (match source {
        Some(s) => s,
        None => "unknown"@,
    }) + ": "@ + error + " | Debug context: "@ + debug
}

/// The description sent for an element's error.
pub fn bus_error_message(source: Option<&str>, error: &str, debug: &str) -> (r: String)
    ensures
        r@ == bus_error_text(match source { Some(s) => Some(s@), None => None }, error@, debug@),
{
    let mut s = String::from_str("Error from element ");
    match source {
        Some(src) => s.append(src),
        None => s.append("unknown"),
    }
    s.append(": ");
    s.append(error);
    s.append(" | Debug context: ");
    s.append(debug);
    s
}

/// The reaction to a bus message: an error is reported to the application
/// and ends the listening, as the end of the stream does; other messages
/// are only logged.
pub fn on_bus_event(event: BusEvent) -> (r: (Option<OutboundMessage>, bool))
    ensures
        match event {
            BusEvent::Error { message } => r.0 == Some(OutboundMessage::StreamError { message }) && !r.1,
            BusEvent::EndOfStream => r.0 is None && !r.1,
            _ => r.0 is None && r.1,
        },
{
    match event {
        BusEvent::Error { message } => (Some(OutboundMessage::StreamError { message }), false),
        BusEvent::EndOfStream => (None, false),
        _ => (None, true),
    }
}

} // verus!
