//! The command lines FFmpeg is started with.
use vstd::prelude::*;
use vstd::string::*;

use crate::audio_bridge::{bridge_input, AudioBridge};
use crate::encoder::{
    audio_section, build_audio_section, chosen_encoder, encoder_section, select_encoder, Encoders,
    EncodersModel,
};
use crate::number::{decimal, show};
use crate::plan::{PlanModel, StreamPlan};
use crate::raw_video::{whole_rate, NdiVideoFormat, OmtVideoFormat};
use crate::scan::{begins, find_char, position, starts_with};
use crate::sources::{
    add_silent_input, or_default, show_size, silent_input, size_text, Platform, Source, SourceModel,
};
use crate::state::{EncoderModel, EncoderState};
use crate::text::{
    arg, args, args_from, cat2, cat3, cat4, opt_text, same, slice_text, str_texts, texts, to_chars,
};

verus! {

// ---------------------------------------------------------------------------
// To a card and to the network
// ---------------------------------------------------------------------------

/// The start of a command: the program, what it prints, and what it reads.
pub open spec fn opening(ffmpeg: Seq<char>, level: Seq<char>, input: Seq<Seq<char>>) -> Seq<
    Seq<char>,
> {
    seq![ffmpeg, "-hide_banner"@, "-loglevel"@, level] + input
}

/// The streams that are output: the video of the first input, and the audio of the
/// same one or of the second.
pub open spec fn mapping(combined_av: bool) -> Seq<Seq<char>> {
    seq![
        "-map"@,
        "0:v:0"@,
        "-map"@,
        if combined_av {
            "0:a:0"@
        } else {
            "1:a:0"@
        },
    ]
}

/// An option with its value, if there is one.
pub open spec fn option_args(flag: Seq<char>, value: Option<Seq<char>>) -> Seq<Seq<char>> {
    match value {
        Some(v) => seq![flag, v],
        None => Seq::empty(),
    }
}

/// The command that outputs to a card: raw video and audio, straight to the card.
pub open spec fn card_command(ffmpeg: Seq<char>, p: PlanModel) -> Seq<Seq<char>> {
    opening(ffmpeg, "info"@, p.source.args) + mapping(p.source.combined_av) + option_args(
        "-vf"@,
        p.video_filter,
    ) + option_args("-af"@, p.audio_filter) + seq![
        "-c:v"@,
        "wrapped_avframe"@,
        "-pix_fmt"@,
        or_default(p.decklink_pixel_format, "uyvy422"@),
        "-c:a"@,
        "pcm_s16le"@,
        "-ar"@,
        "48000"@,
        "-ac"@,
        if p.audio_output_mono {
            "1"@
        } else {
            "2"@
        },
        "-f"@,
        "decklink"@,
        "-format_code"@,
        p.decklink_format_code,
        p.decklink_device_name,
    ]
}

/// How the stream is wrapped for a protocol.
pub open spec fn container(protocol: Seq<char>) -> Seq<Seq<char>> {
    if protocol == "srt"@ {
        seq!["-f"@, "mpegts"@, "-mpegts_flags"@, "+resend_headers"@, "-flush_packets"@, "1"@]
    } else if protocol == "rtmp"@ || protocol == "rtmps"@ {
        seq!["-flvflags"@, "no_duration_filesize"@, "-f"@, "flv"@]
    } else {
        Seq::empty()
    }
}

/// The command that streams to the network.
pub open spec fn network_command(ffmpeg: Seq<char>, p: PlanModel, e: EncodersModel) -> Seq<
    Seq<char>,
> {
    opening(ffmpeg, "info"@, p.source.args) + mapping(p.source.combined_av) + option_args(
        "-vf"@,
        p.video_filter,
    ) + encoder_section(p, chosen_encoder(p, e)) + option_args("-af"@, p.audio_filter)
        + audio_section(p) + container(p.protocol) + seq![p.output_url]
}

/// The command for a plan.
pub open spec fn command(ffmpeg: Seq<char>, p: PlanModel, e: EncodersModel) -> Seq<Seq<char>> {
    if p.protocol == "decklink"@ {
        card_command(ffmpeg, p)
    } else {
        network_command(ffmpeg, p, e)
    }
}

/// The program is told where to write last.
pub proof fn command_ends_with_destination(ffmpeg: Seq<char>, p: PlanModel, e: EncodersModel)
    ensures
        command(ffmpeg, p, e).len() > 0,
        command(ffmpeg, p, e)[0] == ffmpeg,
        command(ffmpeg, p, e).last() == (if p.protocol == "decklink"@ {
            p.decklink_device_name
        } else {
            p.output_url
        }),
{
}

/// A stream goes over RTMPS as it goes over RTMP: the command for the same plan and URL is
/// the same, and ends with the same container.
pub proof fn rtmps_goes_as_rtmp(ffmpeg: Seq<char>, p: PlanModel, e: EncodersModel)
    requires
        p.protocol == "rtmps"@,
    ensures
        command(ffmpeg, p, e) == command(ffmpeg, PlanModel { protocol: "rtmp"@, ..p }, e),
        ({
            let c = command(ffmpeg, p, e);
            c.len() >= 5 && c.skip(c.len() - 5) == seq![
                "-flvflags"@,
                "no_duration_filesize"@,
                "-f"@,
                "flv"@,
                p.output_url,
            ]
        }),
{
    reveal_strlit("rtmps");
    reveal_strlit("rtmp");
    reveal_strlit("srt");
    reveal_strlit("decklink");
    let q = PlanModel { protocol: "rtmp"@, ..p };
    assert("srt"@.len() == 3 && "rtmps"@.len() == 5 && "rtmp"@.len() == 4);
    assert("decklink"@.len() == 8);
    assert(encoder_section(p, chosen_encoder(p, e)) == encoder_section(q, chosen_encoder(q, e)));
    let c = command(ffmpeg, p, e);
    assert(c.skip(c.len() - 5) =~= container(p.protocol) + seq![p.output_url]);
}

fn open_command(ffmpeg: &str, level: &str, input: &Vec<String>) -> (r: Vec<String>)
    ensures
        texts(r@) == opening(ffmpeg@, level@, texts(input@)),
{
    let mut cmd: Vec<String> = Vec::new();
    arg(&mut cmd, ffmpeg);
    arg(&mut cmd, "-hide_banner");
    arg(&mut cmd, "-loglevel");
    arg(&mut cmd, level);
    args_from(&mut cmd, input);
    assert(texts(cmd@) =~= opening(ffmpeg@, level@, texts(input@)));
    cmd
}

fn add_mapping(cmd: &mut Vec<String>, combined_av: bool)
    ensures
        texts(final(cmd)@) == texts(old(cmd)@) + mapping(combined_av),
{
    let audio: &str = if combined_av {
        "0:a:0"
    } else {
        "1:a:0"
    };
    let list: [&str; 4] = ["-map", "0:v:0", "-map", audio];
    args(cmd, &list);
    assert(str_texts(list@) =~= mapping(combined_av));
}

fn add_option(cmd: &mut Vec<String>, flag: &str, value: &Option<String>)
    ensures
        texts(final(cmd)@) == texts(old(cmd)@) + option_args(flag@, opt_text(*value)),
{
    match value {
        Some(v) => {
            arg(cmd, flag);
            arg(cmd, v.as_str());
        },
        None => {},
    }
    assert(texts(cmd@) =~= texts(old(cmd)@) + option_args(flag@, opt_text(*value)));
}

/// The command that outputs to a card.
pub fn build_decklink_output_cmd(ffmpeg: &str, plan: &StreamPlan) -> (r: Vec<String>)
    ensures
        texts(r@) == card_command(ffmpeg@, plan@),
{
    let mut cmd: Vec<String> = open_command(ffmpeg, "info", &plan.source.ffmpeg_input_args);
    add_mapping(&mut cmd, plan.source.combined_av);
    add_option(&mut cmd, "-vf", &plan.video_filter);
    add_option(&mut cmd, "-af", &plan.audio_filter);
    let format: &str = if plan.decklink_pixel_format.as_str().is_empty() {
        "uyvy422"
    } else {
        plan.decklink_pixel_format.as_str()
    };
    let channels: &str = if plan.audio_output_mono {
        "1"
    } else {
        "2"
    };
    let list: [&str; 15] = [
        "-c:v", "wrapped_avframe",
        "-pix_fmt", format,
        "-c:a", "pcm_s16le",
        "-ar", "48000",
        "-ac", channels,
        "-f", "decklink",
        "-format_code", plan.decklink_format_code.as_str(),
        plan.decklink_device_name.as_str(),
    ];
    args(&mut cmd, &list);
    assert(str_texts(list@) =~= seq![
        "-c:v"@, "wrapped_avframe"@,
        "-pix_fmt"@, or_default(plan@.decklink_pixel_format, "uyvy422"@),
        "-c:a"@, "pcm_s16le"@,
        "-ar"@, "48000"@,
        "-ac"@, channels@,
        "-f"@, "decklink"@,
        "-format_code"@, plan@.decklink_format_code,
        plan@.decklink_device_name,
    ]);
    cmd
}

fn add_container(cmd: &mut Vec<String>, protocol: &str)
    ensures
        texts(final(cmd)@) == texts(old(cmd)@) + container(protocol@),
{
    if same(protocol, "srt") {
        let list: [&str; 6] = [
            "-f", "mpegts",
            "-mpegts_flags", "+resend_headers",
            "-flush_packets", "1",
        ];
        args(cmd, &list);
        assert(str_texts(list@) =~= container(protocol@));
    } else if same(protocol, "rtmp") || same(protocol, "rtmps") {
        let list: [&str; 4] = ["-flvflags", "no_duration_filesize", "-f", "flv"];
        args(cmd, &list);
        assert(str_texts(list@) =~= container(protocol@));
    }
    assert(texts(cmd@) =~= texts(old(cmd)@) + container(protocol@));
}

/// The command for a plan.
pub fn build_ffmpeg_cmd(ffmpeg: &str, plan: &StreamPlan, encoders: &Encoders) -> (r: Vec<String>)
    requires
        plan.protocol@ != "decklink"@ ==> plan.keyframe_seconds * plan.fps <= u32::MAX,
    ensures
        texts(r@) == command(ffmpeg@, plan@, encoders@),
{
    if same(plan.protocol.as_str(), "decklink") {
        return build_decklink_output_cmd(ffmpeg, plan);
    }
    let mut cmd: Vec<String> = open_command(ffmpeg, "info", &plan.source.ffmpeg_input_args);
    add_mapping(&mut cmd, plan.source.combined_av);
    add_option(&mut cmd, "-vf", &plan.video_filter);
    let video: Vec<String> = select_encoder(plan, encoders);
    args_from(&mut cmd, &video);
    add_option(&mut cmd, "-af", &plan.audio_filter);
    let audio: Vec<String> = build_audio_section(plan);
    args_from(&mut cmd, &audio);
    add_container(&mut cmd, plan.protocol.as_str());
    arg(&mut cmd, plan.output_url.as_str());
    assert(texts(cmd@) =~= network_command(ffmpeg@, plan@, encoders@));
    cmd
}

// ---------------------------------------------------------------------------
// From raw video
// ---------------------------------------------------------------------------

/// The audio comes from a device of its own.
pub open spec fn own_audio_device(s: EncoderModel) -> bool {
    s.audio_mode == "custom"@ && s.av_audio_name.len() > 0
}

/// The audio input beside raw video: the picked device on the systems that can
/// capture one, else the bridge if there is one, else silence.
pub open spec fn raw_audio_input(
    s: EncoderModel,
    platform: Platform,
    bridge: Option<AudioBridge>,
    to_card: bool,
) -> Seq<Seq<char>> {
    if own_audio_device(s) {
        match platform {
            Platform::MacOs => seq!["-f"@, "avfoundation"@, "-i"@, ":"@ + s.av_audio_name],
            Platform::Windows => seq!["-f"@, "dshow"@, "-i"@, "audio="@ + s.av_audio_name],
            Platform::Other => silent_input(),
        }
    } else {
        match bridge {
            Some(b) => bridge_input(b.port, to_card),
            None => silent_input(),
        }
    }
}

/// The video input for raw video that FFmpeg reads from its standard input.
pub open spec fn raw_video_input(f: NdiVideoFormat) -> Seq<Seq<char>> {
    seq![
        "-f"@,
        "rawvideo"@,
        "-pix_fmt"@,
        f.ffmpeg_pix_fmt@,
        "-s"@,
        size_text(f.width, f.height),
        "-r"@,
        decimal(whole_rate(f.fps_num, f.fps_den) as nat),
        "-i"@,
        "pipe:0"@,
    ]
}

/// The step that scales to the output size.
pub open spec fn scaling(w: u32, h: u32) -> Seq<char> {
    "scale="@ + decimal(w as nat) + ":"@ + decimal(h as nat) + ":flags=lanczos"@
}

/// The filter with the scaling that raw video needs: in place of a scaling that is
/// there first already, else before what is there. The steps after it stay, as a
/// card depends on them.
pub open spec fn rescaled(filter: Option<Seq<char>>, scale: Seq<char>) -> Seq<char> {
    match filter {
        Some(f) => if begins(f, "scale="@) {
            scale + f.skip(position(f, ',') as int)
        } else {
            scale + ","@ + f
        },
        None => scale,
    }
}

/// The plan with raw video as its input, scaled if it is of another size.
pub open spec fn raw_plan(
    p: PlanModel,
    f: NdiVideoFormat,
    s: EncoderModel,
    platform: Platform,
    bridge: Option<AudioBridge>,
) -> PlanModel {
    PlanModel {
        source: SourceModel {
            args: raw_video_input(f) + raw_audio_input(
                s,
                platform,
                bridge,
                p.protocol == "decklink"@,
            ),
            combined_av: false,
            ..p.source
        },
        video_filter: if f.width != p.width || f.height != p.height {
            Some(rescaled(p.video_filter, scaling(p.width, p.height)))
        } else {
            p.video_filter
        },
        ..p
    }
}

impl Source {
    /// The same source with other input, video and audio apart.
    fn with_input(&self, input: Vec<String>) -> (r: Source)
        ensures
            r@ == (SourceModel { args: texts(input@), combined_av: false, ..self@ }),
    {
        Source {
            id: self.id.clone(),
            label: self.label.clone(),
            description: self.description.clone(),
            ffmpeg_input_args: input,
            available: self.available,
            notes: self.notes.clone(),
            combined_av: false,
        }
    }
}

impl StreamPlan {
    /// The same plan with another source and video filter.
    fn with_source(&self, source: Source, video_filter: Option<String>) -> (r: StreamPlan)
        ensures
            r@ == (PlanModel { source: source@, video_filter: opt_text(video_filter), ..self@ }),
    {
        StreamPlan {
            width: self.width,
            height: self.height,
            fps: self.fps,
            video_bitrate: self.video_bitrate,
            audio_bitrate: self.audio_bitrate,
            keyframe_seconds: self.keyframe_seconds,
            output_url: self.output_url.clone(),
            protocol: self.protocol.clone(),
            source,
            video_codec: self.video_codec.clone(),
            video_filter,
            audio_filter: copy_option(&self.audio_filter),
            audio_output_mono: self.audio_output_mono,
            decklink_device_name: self.decklink_device_name.clone(),
            decklink_format_code: self.decklink_format_code.clone(),
            decklink_pixel_format: self.decklink_pixel_format.clone(),
            video_encoder: self.video_encoder.clone(),
            encoder_extra_flags: self.encoder_extra_flags.clone(),
            audio_codec: self.audio_codec.clone(),
            audio_bitrate_kbps: self.audio_bitrate_kbps,
            audio_sample_rate: self.audio_sample_rate,
            audio_channels: self.audio_channels,
        }
    }
}

fn copy_option(v: &Option<String>) -> (r: Option<String>)
    ensures
        opt_text(r) == opt_text(*v),
{
    match v {
        Some(s) => Some(s.clone()),
        None => None,
    }
}

fn add_raw_audio(
    input: &mut Vec<String>,
    state: &EncoderState,
    platform: Platform,
    bridge: Option<AudioBridge>,
    to_card: bool,
)
    ensures
        texts(final(input)@) == texts(old(input)@) + raw_audio_input(
            state@,
            platform,
            bridge,
            to_card,
        ),
{
    let name: &str = state.av_audio_name.as_str();
    if same(state.audio_mode.as_str(), "custom") && !name.is_empty() {
        match platform {
            Platform::MacOs => {
                let device: String = cat2(":", name);
                let list: [&str; 4] = ["-f", "avfoundation", "-i", device.as_str()];
                args(input, &list);
                assert(str_texts(list@) =~= seq!["-f"@, "avfoundation"@, "-i"@, ":"@ + name@]);
            },
            Platform::Windows => {
                let device: String = cat2("audio=", name);
                let list: [&str; 4] = ["-f", "dshow", "-i", device.as_str()];
                args(input, &list);
                assert(str_texts(list@) =~= seq!["-f"@, "dshow"@, "-i"@, "audio="@ + name@]);
            },
            Platform::Other => add_silent_input(input),
        }
    } else {
        match bridge {
            Some(b) => {
                let more: Vec<String> = b.ffmpeg_input_args(to_card);
                args_from(input, &more);
            },
            None => add_silent_input(input),
        }
    }
}

fn rescale(filter: &Option<String>, scale: String) -> (r: String)
    ensures
        r@ == rescaled(opt_text(*filter), scale@),
{
    match filter {
        Some(f) => if starts_with(f.as_str(), "scale=") {
            let v: Vec<char> = to_chars(f.as_str());
            let n: usize = v.len();
            let at: usize = find_char(&v, 0, ',');
            assert(v@.skip(0) == v@);
            let rest: String = slice_text(&v, at, n);
            assert(rest@ == f@.skip(position(f@, ',') as int));
            cat2(scale.as_str(), rest.as_str())
        } else {
            cat3(scale.as_str(), ",", f.as_str())
        },
        None => scale,
    }
}

/// The command for a plan whose video comes raw over FFmpeg's standard input.
pub fn build_ffmpeg_cmd_for_ndi(
    ffmpeg: &str,
    plan: &StreamPlan,
    format: &NdiVideoFormat,
    state: &EncoderState,
    encoders: &Encoders,
    bridge: Option<AudioBridge>,
) -> (r: Vec<String>)
    requires
        plan.protocol@ != "decklink"@ ==> plan.keyframe_seconds * plan.fps <= u32::MAX,
    ensures
        texts(r@) == command(
            ffmpeg@,
            raw_plan(plan@, *format, state@, encoders.platform, bridge),
            encoders@,
        ),
{
    let size: String = show_size(format.width, format.height);
    let rate: String = show(format.fps() as u64);
    let list: [&str; 10] = [
        "-f", "rawvideo",
        "-pix_fmt", format.ffmpeg_pix_fmt,
        "-s", size.as_str(),
        "-r", rate.as_str(),
        "-i", "pipe:0",
    ];
    let mut input: Vec<String> = Vec::new();
    args(&mut input, &list);
    assert(str_texts(list@) =~= raw_video_input(*format));
    assert(texts(input@) =~= raw_video_input(*format));
    let to_card: bool = same(plan.protocol.as_str(), "decklink");
    add_raw_audio(&mut input, state, encoders.platform, bridge, to_card);
    let filter: Option<String> = if format.width != plan.width || format.height != plan.height {
        let w: String = show(plan.width as u64);
        let h: String = show(plan.height as u64);
        let mut scale: String = cat4("scale=", w.as_str(), ":", h.as_str());
        scale.push_str(":flags=lanczos");
        Some(rescale(&plan.video_filter, scale))
    } else {
        copy_option(&plan.video_filter)
    };
    let source: Source = plan.source.with_input(input);
    let adjusted: StreamPlan = plan.with_source(source, filter);
    build_ffmpeg_cmd(ffmpeg, &adjusted, encoders)
}

/// The command for a plan whose video comes raw from OMT. Its audio is not bridged.
pub fn build_ffmpeg_cmd_for_omt(
    ffmpeg: &str,
    plan: &StreamPlan,
    format: &OmtVideoFormat,
    state: &EncoderState,
    encoders: &Encoders,
) -> (r: Vec<String>)
    requires
        plan.protocol@ != "decklink"@ ==> plan.keyframe_seconds * plan.fps <= u32::MAX,
    ensures
        texts(r@) == command(
            ffmpeg@,
            raw_plan(
                plan@,
                NdiVideoFormat {
                    width: format.width,
                    height: format.height,
                    fps_num: format.fps_num,
                    fps_den: format.fps_den,
                    ffmpeg_pix_fmt: format.ffmpeg_pix_fmt,
                },
                state@,
                encoders.platform,
                None,
            ),
            encoders@,
        ),
{
    let ndi: NdiVideoFormat = format.as_ndi();
    build_ffmpeg_cmd_for_ndi(ffmpeg, plan, &ndi, state, encoders, None)
}

/// The last step of a card's filter stays, whatever size the raw video has.
pub proof fn rescaling_keeps_format(scale: Seq<char>, first: Seq<char>, rest: Seq<char>)
    requires
        begins(first, "scale="@),
        position(first, ',') == first.len(),
    ensures
        rescaled(Some(first + ","@ + rest), scale) == scale + ","@ + rest,
{
    reveal_strlit(",");
    let f = first + ","@ + rest;
    assert(f.take("scale="@.len() as int) =~= first.take("scale="@.len() as int));
    comma_position(first, rest);
    assert(f.skip(first.len() as int) =~= ","@ + rest);
    assert(scale + (","@ + rest) =~= scale + ","@ + rest);
}

proof fn comma_position(first: Seq<char>, rest: Seq<char>)
    requires
        position(first, ',') == first.len(),
    ensures
        position(first + ","@ + rest, ',') == first.len(),
    decreases first.len(),
{
    reveal_strlit(",");
    let f = first + ","@ + rest;
    if first.len() > 0 {
        assert(f.drop_first() =~= first.drop_first() + ","@ + rest);
        comma_position(first.drop_first(), rest);
    }
}

// ---------------------------------------------------------------------------
// Beside a stream
// ---------------------------------------------------------------------------

/// The command that reads the same source again and gives raw video for OMT.
pub open spec fn tee_command(
    ffmpeg: Seq<char>,
    input: Seq<Seq<char>>,
    w: u32,
    h: u32,
    fps: u32,
) -> Seq<Seq<char>> {
    let size = decimal(w as nat) + ":"@ + decimal(h as nat);
    opening(ffmpeg, "warning"@, input) + seq![
        "-map"@,
        "0:v:0"@,
        "-vf"@,
        "scale="@ + size + ":force_original_aspect_ratio=decrease,pad="@ + size
            + ":(ow-iw)/2:(oh-ih)/2,format=bgra,fps="@ + decimal(fps as nat) + ",setsar=1"@,
        "-pix_fmt"@,
        "bgra"@,
        "-f"@,
        "rawvideo"@,
        "pipe:1"@,
    ]
}

/// The command that reads the same source again and gives raw video for OMT.
pub fn omt_video_tee_cmd(ffmpeg: &str, input: &Vec<String>, width: u32, height: u32, fps: u32) -> (r:
    Vec<String>)
    ensures
        texts(r@) == tee_command(ffmpeg@, texts(input@), width, height, fps),
{
    let w: String = show(width as u64);
    let h: String = show(height as u64);
    let rate: String = show(fps as u64);
    let size: String = cat3(w.as_str(), ":", h.as_str());
    let mut filter: String = cat4(
        "scale=",
        size.as_str(),
        ":force_original_aspect_ratio=decrease,pad=",
        size.as_str(),
    );
    filter.push_str(":(ow-iw)/2:(oh-ih)/2,format=bgra,fps=");
    filter.push_str(rate.as_str());
    filter.push_str(",setsar=1");
    let mut cmd: Vec<String> = open_command(ffmpeg, "warning", input);
    let list: [&str; 9] = [
        "-map", "0:v:0",
        "-vf", filter.as_str(),
        "-pix_fmt", "bgra",
        "-f", "rawvideo",
        "pipe:1",
    ];
    args(&mut cmd, &list);
    assert(str_texts(list@) =~= seq![
        "-map"@, "0:v:0"@,
        "-vf"@, filter@,
        "-pix_fmt"@, "bgra"@,
        "-f"@, "rawvideo"@,
        "pipe:1"@,
    ]);
    assert(texts(cmd@) =~= tee_command(ffmpeg@, texts(input@), width, height, fps));
    cmd
}

/// The bytes of one frame that the second reading gives.
pub fn tee_frame_bytes(width: u32, height: u32) -> (r: usize)
    requires
        width * height * 4 <= usize::MAX,
    ensures
        r == width * height * 4,
{
    assert(width * height <= width * height * 4) by (nonlinear_arith)
        requires
            width >= 0,
            height >= 0,
    ;
    (width as usize) * (height as usize) * 4
}

/// The script that stops FFmpeg when the encoder is gone, for a Unix shell: it
/// waits while both run, and leaves FFmpeg alone if the encoder still runs.
pub open spec fn unix_watchdog(parent: u32, child: u32) -> Seq<char> {
    let p = decimal(parent as nat);
    let c = decimal(child as nat);
    "while kill -0 "@ + p + " 2>/dev/null && kill -0 "@ + c
        + " 2>/dev/null; do sleep 1; done; if kill -0 "@ + p
        + " 2>/dev/null; then exit 0; fi; kill -TERM -"@ + c
        + " 2>/dev/null; sleep 1; kill -KILL -"@ + c + " 2>/dev/null"@
}

/// The script that stops FFmpeg when the encoder is gone, for a Unix shell.
pub fn unix_watchdog_script(parent: u32, child: u32) -> (r: String)
    ensures
        r@ == unix_watchdog(parent, child),
{
    let p: String = show(parent as u64);
    let c: String = show(child as u64);
    let mut out: String = cat4(
        "while kill -0 ",
        p.as_str(),
        " 2>/dev/null && kill -0 ",
        c.as_str(),
    );
    out.push_str(" 2>/dev/null; do sleep 1; done; if kill -0 ");
    out.push_str(p.as_str());
    out.push_str(" 2>/dev/null; then exit 0; fi; kill -TERM -");
    out.push_str(c.as_str());
    out.push_str(" 2>/dev/null; sleep 1; kill -KILL -");
    out.push_str(c.as_str());
    out.push_str(" 2>/dev/null");
    out
}

/// The script that stops FFmpeg when the encoder is gone, for PowerShell.
pub open spec fn windows_watchdog(parent: u32, child: u32) -> Seq<char> {
    let p = decimal(parent as nat);
    let c = decimal(child as nat);
    "while ((Get-Process -Id "@ + p + " -EA SilentlyContinue) -and (Get-Process -Id "@ + c
        + " -EA SilentlyContinue)) { Start-Sleep -Seconds 1 }; if (-not (Get-Process -Id "@ + p
        + " -EA SilentlyContinue)) { Stop-Process -Id "@ + c
        + " -Force -EA SilentlyContinue }"@
}

/// The script that stops FFmpeg when the encoder is gone, for PowerShell.
pub fn windows_watchdog_script(parent: u32, child: u32) -> (r: String)
    ensures
        r@ == windows_watchdog(parent, child),
{
    let p: String = show(parent as u64);
    let c: String = show(child as u64);
    let mut out: String = cat4(
        "while ((Get-Process -Id ",
        p.as_str(),
        " -EA SilentlyContinue) -and (Get-Process -Id ",
        c.as_str(),
    );
    out.push_str(
        " -EA SilentlyContinue)) { Start-Sleep -Seconds 1 }; if (-not (Get-Process -Id ",
    );
    out.push_str(p.as_str());
    out.push_str(" -EA SilentlyContinue)) { Stop-Process -Id ");
    out.push_str(c.as_str());
    out.push_str(" -Force -EA SilentlyContinue }");
    out
}

} // verus!
