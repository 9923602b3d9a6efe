//! Capture and audio sources for Windows, from the session context.

use vstd::prelude::*;
use crate::pipeline::PlatformContext;
use crate::platform::{bool_text, push_bool};
use crate::text::{dec, push_u32};

verus! {

/// The Windows capture source: the GDI grabber's application source when
/// GDI is asked for, Desktop Duplication of the chosen monitor otherwise.
pub open spec fn windows_source_spec(gdi: bool, show_cursor: bool, monitor_index: u32) -> Seq<char> {
    if gdi {
        "appsrc name=gdi_src format=time is-live=true do-timestamp=true block=false max-bytes=20000000 ! queue max-size-buffers=1 max-size-bytes=0 max-size-time=0 leaky=downstream"@
    } else {
        "d3d11screencapturesrc show-cursor="@ + bool_text(show_cursor) + " monitor-index="@ + dec(
            monitor_index as nat,
        ) + " ! queue max-size-buffers=1 max-size-bytes=0 max-size-time=0 leaky=downstream"@
    }
}

/// The Windows capture source.
pub fn video_source(_ctx: &PlatformContext, gdi: bool, show_cursor: bool, monitor_index: u32) -> (r:
    String)
    ensures
        r@ == windows_source_spec(gdi, show_cursor, monitor_index),
{
    if gdi {
        String::from_str(
            "appsrc name=gdi_src format=time is-live=true do-timestamp=true block=false max-bytes=20000000 ! queue max-size-buffers=1 max-size-bytes=0 max-size-time=0 leaky=downstream",
        )
    } else {
        let mut s = String::from_str("d3d11screencapturesrc show-cursor=");
        push_bool(&mut s, show_cursor);
        s.append(" monitor-index=");
        push_u32(&mut s, monitor_index);
        s.append(" ! queue max-size-buffers=1 max-size-bytes=0 max-size-time=0 leaky=downstream");
        assert(s@ =~= windows_source_spec(gdi, show_cursor, monitor_index));
        s
    }
}

/// The Windows audio capture element.
pub fn audio_source() -> (r: String)
    ensures
        r@ == "wasapisrc loopback=true low-latency=true do-timestamp=true"@,
{
    String::from_str("wasapisrc loopback=true low-latency=true do-timestamp=true")
}

} // verus!
