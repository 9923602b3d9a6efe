//! Capture and audio sources for Linux, from the session context.

use vstd::prelude::*;
use crate::pipeline::PlatformContext;
use crate::platform::{bool_text, push_bool};
use crate::text::{dec, dec_int, push_i32, push_u32};

verus! {

/// The Linux capture source for a session context.
pub open spec fn linux_source_spec(ctx: PlatformContext, show_cursor: bool) -> Seq<char> {
    let queue = "queue max-size-buffers=1 max-size-bytes=0 max-size-time=0 leaky=downstream"@;
    match ctx.portal_info {
        Some((node_id, fd)) => "pipewiresrc fd="@ + dec_int(fd as int) + " path="@ + dec(node_id as nat)
            + " do-timestamp=true always-copy=false ! "@ + queue,
        None => if ctx.wayland_session {
            "videotestsrc is-live=true ! "@ + queue
        } else {
            "ximagesrc use-damage=true show-pointer="@ + bool_text(show_cursor)
                + " do-timestamp=true ! "@ + queue
        },
    }
}

/// The Linux capture source: the portal's PipeWire stream, a test source on
/// Wayland without one, the X11 root window otherwise.
pub fn video_source(ctx: &PlatformContext, show_cursor: bool, _monitor_index: u32) -> (r: String)
    ensures
        r@ == linux_source_spec(*ctx, show_cursor),
{
    let mut s = String::new();
    match ctx.portal_info {
        Some((node_id, fd)) => {
            s.append("pipewiresrc fd=");
            push_i32(&mut s, fd);
            s.append(" path=");
            push_u32(&mut s, node_id);
            s.append(" do-timestamp=true always-copy=false ! ");
        },
        None => {
            if ctx.wayland_session {
                s.append("videotestsrc is-live=true ! ");
            } else {
                s.append("ximagesrc use-damage=true show-pointer=");
                push_bool(&mut s, show_cursor);
                s.append(" do-timestamp=true ! ");
            }
        },
    }
    s.append("queue max-size-buffers=1 max-size-bytes=0 max-size-time=0 leaky=downstream");
    assert(s@ =~= linux_source_spec(*ctx, show_cursor));
    s
}

/// The Linux audio capture element.
pub fn audio_source() -> (r: String)
    ensures
        r@ == "pulsesrc buffer-time=10000 latency-time=10000"@,
{
    String::from_str("pulsesrc buffer-time=10000 latency-time=10000")
}

} // verus!
