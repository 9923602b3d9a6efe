//! Scaling, rate and format caps placed in front of the encoder.

use vstd::prelude::*;
use crate::config::StreamConfig;
use crate::pipeline::encoders::opt_view;
use crate::text::{dec, push_u32};
use crate::pipeline::{holds_text, lemma_holds_middle};

verus! {

/// Whether an optional dimension asks for a positive value.
pub open spec fn positive(o: Option<u32>) -> bool {
    o is Some && o->0 > 0
}

/// `name=<value>,` when the dimension is positive, nothing otherwise.
pub open spec fn caps_field(name: Seq<char>, o: Option<u32>) -> Seq<char> {
    if positive(o) { name + dec(o->0 as nat) + ","@ } else { seq![] }
}

/// The caps (with any scaling and rate elements before them) that fix the
/// raw video the encoder receives: the requested frame rate, width and
/// height when positive, the format (the encoder's own, or NV12 for hardware
/// and I420 for software encoders) and the memory feature of the capture.
pub open spec fn scale_caps_spec(
    cfg: StreamConfig,
    format: Option<Seq<char>>,
    is_hw: bool,
    mem_feature: Option<Seq<char>>,
) -> Seq<char> {
    let scale = if (positive(cfg.width) || positive(cfg.height)) && mem_feature is None {
        "videoscale ! "@
    } else {
        seq![]
    };
    let rate = if positive(cfg.framerate) && mem_feature is None {
        "videorate ! "@
    } else {
        seq![]
    };
    let fr = if positive(cfg.framerate) {
        "framerate="@ + dec(cfg.framerate->0 as nat) + "/1,"@
    } else {
        seq![]
    };
    let fmt = match format {
        Some(f) => f,
        None => if is_hw { "NV12"@ } else { "I420"@ },
    };
    let media = match mem_feature {
        Some(m) => m,
        None => "video/x-raw"@,
    };
    scale + rate + media + ","@ + fr + caps_field("width="@, cfg.width) + caps_field(
        "height="@,
        cfg.height,
    ) + "format="@ + fmt + " ! "@
}

fn dim_positive(o: Option<u32>) -> (r: bool)
    ensures
        r == positive(o),
{
    match o {
        Some(v) => v > 0,
        None => false,
    }
}

fn field_str(name: &str, o: Option<u32>) -> (r: String)
    ensures
        r@ == caps_field(name@, o),
{
    let mut s = String::new();
    if let Some(v) = o {
        if v > 0 {
            s.append(name);
            push_u32(&mut s, v);
            s.append(",");
        }
    }
    s
}

fn framerate_str(o: Option<u32>) -> (r: String)
    ensures
        r@ == (if positive(o) { "framerate="@ + dec(o->0 as nat) + "/1,"@ } else { seq![] }),
{
    let mut s = String::new();
    if let Some(f) = o {
        if f > 0 {
            s.append("framerate=");
            push_u32(&mut s, f);
            s.append("/1,");
        }
    }
    s
}

/// The caps (with any scaling and rate elements before them) that fix the
/// raw video the encoder receives.
pub fn scale_caps(
    cfg: &StreamConfig,
    format: Option<&str>,
    is_hw: bool,
    mem_feature: Option<&str>,
) -> (r: String)
    ensures
        r@ == scale_caps_spec(*cfg, opt_view(format), is_hw, opt_view(mem_feature)),
{
    let has_res = dim_positive(cfg.width) || dim_positive(cfg.height);
    let has_rate = dim_positive(cfg.framerate);
    let no_mem = mem_feature.is_none();
    let scale: &str = if has_res && no_mem { "videoscale ! " } else { "" };
    let rate: &str = if has_rate && no_mem { "videorate ! " } else { "" };
    let media: &str = match mem_feature {
        Some(m) => m,
        None => "video/x-raw",
    };
    let fmt: &str = match format {
        Some(f) => f,
        None => if is_hw { "NV12" } else { "I420" },
    };
    proof {
        reveal_strlit("");
    }
    let fr = framerate_str(cfg.framerate);
    let w = field_str("width=", cfg.width);
    let h = field_str("height=", cfg.height);
    let mut s = String::new();
    s.append(scale);
    s.append(rate);
    s.append(media);
    s.append(",");
    s.append(fr.as_str());
    s.append(w.as_str());
    s.append(h.as_str());
    s.append("format=");
    s.append(fmt);
    s.append(" ! ");
    assert(s@ =~= scale_caps_spec(*cfg, opt_view(format), is_hw, opt_view(mem_feature)));
    s
}


/// Frames that stay in GPU memory are neither scaled nor rate-converted on
/// the CPU: the caps then begin with the memory feature itself.
pub proof fn law_gpu_memory_skips_cpu_scaling(
    cfg: StreamConfig,
    format: Option<Seq<char>>,
    is_hw: bool,
    mem_feature: Seq<char>,
)
    ensures
        scale_caps_spec(cfg, format, is_hw, Some(mem_feature)).take(mem_feature.len() as int) == mem_feature,
{
    let s = scale_caps_spec(cfg, format, is_hw, Some(mem_feature));
    let rest = s.skip(mem_feature.len() as int);
    assert(s =~= mem_feature + rest);
    assert(s.take(mem_feature.len() as int) =~= mem_feature);
}


/// The caps carry every requested dimension, whatever else is asked for:
/// a positive frame rate as `framerate=<f>/1`, a positive width as
/// `width=<w>`, a positive height as `height=<h>`; and they end with the
/// format: the encoder's own, else NV12 for hardware and I420 for software
/// encoders.
pub proof fn law_caps_carry_the_requested_video(
    cfg: StreamConfig,
    format: Option<Seq<char>>,
    is_hw: bool,
    mem_feature: Option<Seq<char>>,
)
    ensures
        positive(cfg.framerate) ==> holds_text(
            scale_caps_spec(cfg, format, is_hw, mem_feature),
            "framerate="@ + dec(cfg.framerate->0 as nat) + "/1,"@,
        ),
        positive(cfg.width) ==> holds_text(
            scale_caps_spec(cfg, format, is_hw, mem_feature),
            "width="@ + dec(cfg.width->0 as nat) + ","@,
        ),
        positive(cfg.height) ==> holds_text(
            scale_caps_spec(cfg, format, is_hw, mem_feature),
            "height="@ + dec(cfg.height->0 as nat) + ","@,
        ),
        ({
            let s = scale_caps_spec(cfg, format, is_hw, mem_feature);
            let f = match format {
                Some(f) => f,
                None => if is_hw { "NV12"@ } else { "I420"@ },
            };
            let t = "format="@ + f + " ! "@;
            t.len() <= s.len() && s.subrange(s.len() - t.len(), s.len() as int) == t
        }),
{
    let s = scale_caps_spec(cfg, format, is_hw, mem_feature);
    let scale = if (positive(cfg.width) || positive(cfg.height)) && mem_feature is None {
        "videoscale ! "@
    } else {
        seq![]
    };
    let rate = if positive(cfg.framerate) && mem_feature is None {
        "videorate ! "@
    } else {
        seq![]
    };
    let fr = if positive(cfg.framerate) {
        "framerate="@ + dec(cfg.framerate->0 as nat) + "/1,"@
    } else {
        seq![]
    };
    let fmt = match format {
        Some(f) => f,
        None => if is_hw { "NV12"@ } else { "I420"@ },
    };
    let media = match mem_feature {
        Some(m) => m,
        None => "video/x-raw"@,
    };
    let w = caps_field("width="@, cfg.width);
    let h = caps_field("height="@, cfg.height);
    lemma_caps_pieces(scale + rate + media + ","@, fr, w, h, "format="@, fmt, " ! "@);
    if positive(cfg.width) {
        assert(w == "width="@ + dec(cfg.width->0 as nat) + ","@);
    }
    if positive(cfg.height) {
        assert(h == "height="@ + dec(cfg.height->0 as nat) + ","@);
    }
}

proof fn lemma_caps_pieces(
    front: Seq<char>,
    fr: Seq<char>,
    w: Seq<char>,
    h: Seq<char>,
    f1: Seq<char>,
    fmt: Seq<char>,
    f2: Seq<char>,
)
    ensures
        holds_text(front + fr + w + h + f1 + fmt + f2, fr),
        holds_text(front + fr + w + h + f1 + fmt + f2, w),
        holds_text(front + fr + w + h + f1 + fmt + f2, h),
        ({
            let s = front + fr + w + h + f1 + fmt + f2;
            let t = f1 + fmt + f2;
            t.len() <= s.len() && s.subrange(s.len() - t.len(), s.len() as int) == t
        }),
{
    let s = front + fr + w + h + f1 + fmt + f2;
    let t = f1 + fmt + f2;
    assert(s =~= front + fr + (w + h + t));
    lemma_holds_middle(front, fr, w + h + t);
    assert(s =~= front + fr + w + (h + t));
    lemma_holds_middle(front + fr, w, h + t);
    assert(s =~= front + fr + w + h + t);
    lemma_holds_middle(front + fr + w, h, t);
    assert(s.subrange(s.len() - t.len(), s.len() as int) =~= t);
}

} // verus!
