//! What an attempt to stream needs before FFmpeg is started.
use vstd::prelude::*;
use vstd::string::*;

use crate::audio_bridge::AudioBridge;
use crate::command::{
    build_ffmpeg_cmd, build_ffmpeg_cmd_for_ndi, build_ffmpeg_cmd_for_omt, command,
    command_ends_with_destination, raw_plan, rescaled, scaling,
};
use crate::encoder::{Encoders, EncodersModel};
use crate::plan::{plan_error_text, planned, Machine, PlanModel, StreamPlan};
use crate::raw_video::{NdiVideoFormat, OmtVideoFormat};
use crate::services::in_name_order;
use crate::state::{EncoderModel, EncoderState};
use crate::text::{between_quotes, cat3, cat4, opt_text, same, show_quoted, texts};

verus! {

/// What is told when a source cannot be used.
pub open spec fn unavailable_text(p: PlanModel) -> Seq<char> {
    "Source '"@ + p.source.label + "' is not available. "@ + p.source.notes
}

/// Why the plan's source cannot be used, if it cannot.
pub fn source_fault(plan: &StreamPlan) -> (r: Option<String>)
    ensures
        opt_text(r) == (if plan.source.available {
            None
        } else {
            Some(unavailable_text(plan@))
        }),
{
    if plan.source.available {
        None
    } else {
        Some(
            cat4(
                "Source '",
                plan.source.label.as_str(),
                "' is not available. ",
                plan.source.notes.as_str(),
            ),
        )
    }
}

/// The plan of an attempt, or what the operator is told if none can be made.
pub open spec fn attempt_plan(s: EncoderModel, m: Machine) -> Result<PlanModel, Seq<char>> {
    match planned(s, m) {
        Err(e) => Err(plan_error_text(e)),
        Ok(p) => if p.source.available {
            Ok(p)
        } else {
            Err(unavailable_text(p))
        },
    }
}

/// What the result of planning an attempt holds.
pub open spec fn attempt_result(r: Result<StreamPlan, String>) -> Result<PlanModel, Seq<char>> {
    match r {
        Ok(p) => Ok(p@),
        Err(e) => Err(e@),
    }
}

impl EncoderState {
    /// The plan of an attempt, or what the operator is told if none can be made: because
    /// of the settings, or because the source cannot be used.
    pub fn plan_attempt(&self, machine: &Machine) -> (r: Result<StreamPlan, String>)
        requires
            in_name_order(self@.services),
        ensures
            attempt_result(r) == attempt_plan(self@, *machine),
    {
        match self.build_plan(machine) {
            Err(e) => Err(e.message()),
            Ok(plan) => match source_fault(&plan) {
                Some(fault) => Err(fault),
                None => Ok(plan),
            },
        }
    }
}

/// The source's own audio is handed to FFmpeg: it comes from NDI, and is neither
/// muted nor replaced by that of a device.
pub open spec fn bridges_audio(p: PlanModel, s: EncoderModel) -> bool {
    p.source.id == "ndi"@ && s.audio_mode != "silent"@ && s.audio_mode != "custom"@
}

/// Whether the source's own audio is handed to FFmpeg.
pub fn wants_audio_bridge(plan: &StreamPlan, state: &EncoderState) -> (r: bool)
    ensures
        r == bridges_audio(plan@, state@),
{
    same(plan.source.id.as_str(), "ndi") && !same(state.audio_mode.as_str(), "silent") && !same(
        state.audio_mode.as_str(),
        "custom",
    )
}

/// Whether anybody takes the source's own audio.
pub fn wants_audio(state: &EncoderState, bridge: &Option<AudioBridge>) -> (r: bool)
    ensures
        r == (state@.omt_output_enabled || bridge is Some),
{
    state.omt_output_enabled || bridge.is_some()
}

/// Where an attempt's video comes from.
#[derive(Clone, Copy, Debug, PartialEq, Eq, Structural)]
pub enum Feed {
    /// Captured from NDI and handed to FFmpeg.
    Ndi,
    /// Captured from OMT and handed to FFmpeg.
    Omt,
    /// Read by FFmpeg itself.
    Direct,
}

/// Where a plan's video comes from.
pub open spec fn feed_of(p: PlanModel) -> Feed {
    if p.source.id == "ndi"@ {
        Feed::Ndi
    } else if p.source.id == "omt"@ {
        Feed::Omt
    } else {
        Feed::Direct
    }
}

/// Where a plan's video comes from.
pub fn plan_feed(plan: &StreamPlan) -> (r: Feed)
    ensures
        r == feed_of(plan@),
{
    if same(plan.source.id.as_str(), "ndi") {
        Feed::Ndi
    } else if same(plan.source.id.as_str(), "omt") {
        Feed::Omt
    } else {
        Feed::Direct
    }
}

/// What is told when no NDI source has the name.
pub fn ndi_not_found(name: &str) -> (r: String)
    ensures
        r@ == "NDI source not found: "@ + between_quotes(name@)
            + ". Refresh the discovery list."@,
{
    let q: String = show_quoted(name);
    cat3("NDI source not found: ", q.as_str(), ". Refresh the discovery list.")
}

/// What is told when no OMT source has the name.
pub fn omt_not_found(name: &str) -> (r: String)
    ensures
        r@ == "OMT source not found: "@ + between_quotes(name@)
            + ". Refresh the discovery list, or rebuild with --features omt if support isn't compiled in."@,
{
    let q: String = show_quoted(name);
    cat3(
        "OMT source not found: ",
        q.as_str(),
        ". Refresh the discovery list, or rebuild with --features omt if support isn't compiled in.",
    )
}

/// How the stream is published over OMT.
#[derive(Clone, Copy, Debug)]
pub struct OmtOutput {
    pub width: u32,
    pub height: u32,
    /// The layout of the pixels, in FFmpeg's words.
    pub pix_fmt: &'static str,
    /// Whether FFmpeg reads the source a second time to give the pictures; if not,
    /// those that were captured are published as they are.
    pub tee: bool,
}

/// The stream is published as `o` says: not at all unless that is wanted; captured
/// pictures as they are, others in the size of the plan.
pub open spec fn published(
    o: Option<OmtOutput>,
    wanted: bool,
    p: PlanModel,
    raw: Option<(u32, u32, &'static str)>,
) -> bool {
    if !wanted {
        o is None
    } else {
        o matches Some(x) && match raw {
            Some(f) => x.width == f.0 && x.height == f.1 && x.pix_fmt@ == f.2@ && !x.tee,
            None => x.width == p.width && x.height == p.height && x.pix_fmt@ == "bgra"@ && x.tee,
        }
    }
}

/// How the stream is published over OMT, if it is. `raw` is the format of captured
/// pictures.
pub fn omt_output(
    state: &EncoderState,
    plan: &StreamPlan,
    raw: Option<(u32, u32, &'static str)>,
) -> (r: Option<OmtOutput>)
    ensures
        published(r, state@.omt_output_enabled, plan@, raw),
{
    if !state.omt_output_enabled {
        return None;
    }
    match raw {
        Some((width, height, pix_fmt)) => Some(OmtOutput { width, height, pix_fmt, tee: false }),
        None => Some(
            OmtOutput { width: plan.width, height: plan.height, pix_fmt: "bgra", tee: true },
        ),
    }
}

// ---------------------------------------------------------------------------
// FFmpeg's part
// ---------------------------------------------------------------------------

/// The format of captured pictures.
#[derive(Clone, Copy, Debug)]
pub enum RawFormat {
    Ndi(NdiVideoFormat),
    Omt(OmtVideoFormat),
}

/// The size of captured pictures and the layout of their pixels.
pub open spec fn raw_shape(captured: Option<RawFormat>) -> Option<(u32, u32, &'static str)> {
    match captured {
        Some(RawFormat::Ndi(f)) => Some((f.width, f.height, f.ffmpeg_pix_fmt)),
        Some(RawFormat::Omt(f)) => Some((f.width, f.height, f.ffmpeg_pix_fmt)),
        None => None,
    }
}

/// What FFmpeg is started for: the plan itself, or with captured pictures in place of
/// its source. The audio of a bridge goes with pictures from NDI only.
pub open spec fn attempted_plan(
    p: PlanModel,
    captured: Option<RawFormat>,
    s: EncoderModel,
    e: EncodersModel,
    bridge: Option<AudioBridge>,
) -> PlanModel {
    match captured {
        Some(RawFormat::Ndi(f)) => raw_plan(p, f, s, e.platform, bridge),
        Some(RawFormat::Omt(f)) => raw_plan(
            p,
            NdiVideoFormat {
                width: f.width,
                height: f.height,
                fps_num: f.fps_num,
                fps_den: f.fps_den,
                ffmpeg_pix_fmt: f.ffmpeg_pix_fmt,
            },
            s,
            e.platform,
            None,
        ),
        None => p,
    }
}

/// How FFmpeg is started.
#[derive(Debug)]
pub struct Launch {
    pub command: Vec<String>,
    /// Whether it is handed pictures.
    pub piped: bool,
    /// How the stream is published over OMT, if it is.
    pub output: Option<OmtOutput>,
}

/// How FFmpeg is started for a plan, with the pictures that were captured for it and the
/// bridge that was opened for its audio.
pub fn launch(
    ffmpeg: &str,
    plan: &StreamPlan,
    captured: Option<RawFormat>,
    state: &EncoderState,
    encoders: &Encoders,
    bridge: Option<AudioBridge>,
) -> (r: Launch)
    requires
        plan.protocol@ != "decklink"@ ==> plan.keyframe_seconds * plan.fps <= u32::MAX,
    ensures
        texts(r.command@) == command(
            ffmpeg@,
            attempted_plan(plan@, captured, state@, encoders@, bridge),
            encoders@,
        ),
        r.piped == (captured is Some),
        published(r.output, state@.omt_output_enabled, plan@, raw_shape(captured)),
{
    match captured {
        Some(RawFormat::Ndi(f)) => Launch {
            command: build_ffmpeg_cmd_for_ndi(ffmpeg, plan, &f, state, encoders, bridge),
            piped: true,
            output: omt_output(state, plan, Some((f.width, f.height, f.ffmpeg_pix_fmt))),
        },
        Some(RawFormat::Omt(f)) => Launch {
            command: build_ffmpeg_cmd_for_omt(ffmpeg, plan, &f, state, encoders),
            piped: true,
            output: omt_output(state, plan, Some((f.width, f.height, f.ffmpeg_pix_fmt))),
        },
        None => Launch {
            command: build_ffmpeg_cmd(ffmpeg, plan, encoders),
            piped: false,
            output: omt_output(state, plan, None),
        },
    }
}

/// Whatever was captured, an attempt goes where its plan goes.
pub proof fn attempts_reach_the_destination(
    ffmpeg: Seq<char>,
    p: PlanModel,
    captured: Option<RawFormat>,
    s: EncoderModel,
    e: EncodersModel,
    bridge: Option<AudioBridge>,
)
    ensures
        command(ffmpeg, attempted_plan(p, captured, s, e, bridge), e).last() == (if p.protocol
            == "decklink"@ {
            p.decklink_device_name
        } else {
            p.output_url
        }),
{
    command_ends_with_destination(ffmpeg, attempted_plan(p, captured, s, e, bridge), e);
}

/// Captured pictures of another size than the plan's are first taken to that size.
pub proof fn captured_pictures_are_fitted(
    p: PlanModel,
    captured: RawFormat,
    s: EncoderModel,
    e: EncodersModel,
    bridge: Option<AudioBridge>,
)
    ensures
        ({
            let q = attempted_plan(p, Some(captured), s, e, bridge);
            let shape = raw_shape(Some(captured))->0;
            let scale = scaling(p.width, p.height);
            &&& q.width == p.width && q.height == p.height
            &&& if shape.0 == p.width && shape.1 == p.height {
                q.video_filter == p.video_filter
            } else {
                q.video_filter matches Some(x) && x.len() >= scale.len() && x.take(
                    scale.len() as int,
                ) == scale
            }
        }),
{
    let q = attempted_plan(p, Some(captured), s, e, bridge);
    let scale = scaling(p.width, p.height);
    if q.video_filter != p.video_filter {
        assert((q.video_filter->0).take(scale.len() as int) =~= scale);
    } else if q.video_filter is Some {
        assert(rescaled(p.video_filter, scale).take(scale.len() as int) =~= scale);
    }
}

/// A muted source, or one whose audio is replaced, is never bridged.
pub proof fn muted_audio_is_not_bridged(p: PlanModel, s: EncoderModel)
    requires
        s.audio_mode == "silent"@ || s.audio_mode == "custom"@,
    ensures
        !bridges_audio(p, s),
{
}

} // verus!
