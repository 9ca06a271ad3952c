//! Which encoder is used, and how it is told what to do.
use vstd::prelude::*;
use vstd::string::*;

use crate::number::{decimal, lowered, show, to_lower};
use crate::plan::{gop_length, PlanModel, StreamPlan};
use crate::scan::{begins, ends_with, finishes};
use crate::shell::{flags_of, no_flags, parse_extra_flags};
use crate::sources::Platform;
use crate::text::{arg, arg_owned, args, args_from, cat3, same, str_texts, texts};

verus! {

// ---------------------------------------------------------------------------
// The choice
// ---------------------------------------------------------------------------

/// What there is to encode with.
#[derive(Debug)]
pub struct Encoders {
    /// The encoders that FFmpeg has.
    pub available: Vec<String>,
    pub platform: Platform,
    /// Whether Apple's hardware is not to be picked.
    pub skip_videotoolbox: bool,
}

/// What an `Encoders` holds.
pub struct EncodersModel {
    pub available: Seq<Seq<char>>,
    pub platform: Platform,
    pub skip_videotoolbox: bool,
}

impl View for Encoders {
    type V = EncodersModel;

    open spec fn view(&self) -> EncodersModel {
        EncodersModel {
            available: texts(self.available@),
            platform: self.platform,
            skip_videotoolbox: self.skip_videotoolbox,
        }
    }
}

/// The encoders for a codec, the best first: hardware before software.
pub open spec fn candidates(codec: Seq<char>, platform: Platform) -> Seq<Seq<char>> {
    if codec == "h265"@ {
        if platform == Platform::MacOs {
            seq!["hevc_videotoolbox"@, "hevc_nvenc"@, "hevc_qsv"@, "hevc_amf"@, "libx265"@]
        } else {
            seq!["hevc_nvenc"@, "hevc_qsv"@, "hevc_amf"@, "libx265"@]
        }
    } else if platform == Platform::MacOs {
        seq!["h264_videotoolbox"@, "h264_nvenc"@, "h264_qsv"@, "h264_amf"@, "libx264"@]
    } else {
        seq!["h264_nvenc"@, "h264_qsv"@, "h264_amf"@, "libx264"@]
    }
}

/// An encoder can be picked.
pub open spec fn usable(name: Seq<char>, e: EncodersModel) -> bool {
    e.available.contains(name) && !(e.skip_videotoolbox && finishes(name, "_videotoolbox"@))
}

/// The first of the encoders that can be picked.
pub open spec fn first_usable(names: Seq<Seq<char>>, e: EncodersModel) -> Option<Seq<char>>
    decreases names.len(),
{
    if names.len() == 0 {
        None
    } else if usable(names[0], e) {
        Some(names[0])
    } else {
        first_usable(names.drop_first(), e)
    }
}

/// The best encoder for a codec; the software one if FFmpeg does not even have
/// that, so that it says so itself.
pub open spec fn best_encoder(codec: Seq<char>, e: EncodersModel) -> Seq<char> {
    match first_usable(candidates(codec, e.platform), e) {
        Some(name) => name,
        None => if codec == "h265"@ {
            "libx265"@
        } else {
            "libx264"@
        },
    }
}

/// The encoder for a plan: the wanted one if FFmpeg has it, else the best.
pub open spec fn chosen_encoder(p: PlanModel, e: EncodersModel) -> Seq<char> {
    if p.video_encoder != "auto"@ && p.video_encoder.len() > 0 && e.available.contains(
        p.video_encoder,
    ) {
        p.video_encoder
    } else {
        best_encoder(lowered(p.video_codec), e)
    }
}

impl Encoders {
    /// Whether FFmpeg has an encoder.
    pub fn has(&self, name: &str) -> (r: bool)
        ensures
            r == self@.available.contains(name@),
    {
        let mut i: usize = 0;
        while i < self.available.len()
            invariant
                i <= self.available@.len(),
                forall|j: int| 0 <= j < i ==> (#[trigger] self@.available[j]) != name@,
            decreases self.available@.len() - i,
        {
            if same(self.available[i].as_str(), name) {
                assert(self@.available[i as int] == name@);
                return true;
            }
            i += 1;
        }
        false
    }
}

/// The best encoder for a codec.
pub fn auto_select_encoder(codec: &str, encoders: &Encoders) -> (r: String)
    ensures
        r@ == best_encoder(codec@, encoders@),
{
    let h265: bool = same(codec, "h265");
    let mut names: Vec<String> = Vec::new();
    if h265 {
        if encoders.platform == Platform::MacOs {
            arg(&mut names, "hevc_videotoolbox");
        }
        args(&mut names, &["hevc_nvenc", "hevc_qsv", "hevc_amf", "libx265"]);
        assert(str_texts(["hevc_nvenc", "hevc_qsv", "hevc_amf", "libx265"]@) =~= seq![
            "hevc_nvenc"@,
            "hevc_qsv"@,
            "hevc_amf"@,
            "libx265"@,
        ]);
    } else {
        if encoders.platform == Platform::MacOs {
            arg(&mut names, "h264_videotoolbox");
        }
        args(&mut names, &["h264_nvenc", "h264_qsv", "h264_amf", "libx264"]);
        assert(str_texts(["h264_nvenc", "h264_qsv", "h264_amf", "libx264"]@) =~= seq![
            "h264_nvenc"@,
            "h264_qsv"@,
            "h264_amf"@,
            "libx264"@,
        ]);
    }
    let ghost all = candidates(codec@, encoders.platform);
    assert(texts(names@) =~= all);
    let mut i: usize = 0;
    assert(all.skip(0) == all);
    while i < names.len()
        invariant
            i <= names@.len(),
            texts(names@) == all,
            first_usable(all.skip(i as int), encoders@) == first_usable(all, encoders@),
            all == candidates(codec@, encoders.platform),
        decreases names@.len() - i,
    {
        assert(all.skip(i as int)[0] == names@[i as int]@);
        assert(all.skip(i as int).drop_first() == all.skip(i + 1));
        let off: bool = encoders.skip_videotoolbox && ends_with(names[i].as_str(), "_videotoolbox");
        if !off && encoders.has(names[i].as_str()) {
            return names[i].clone();
        }
        i += 1;
    }
    if h265 {
        "libx265".to_owned()
    } else {
        "libx264".to_owned()
    }
}

// ---------------------------------------------------------------------------
// The arguments
// ---------------------------------------------------------------------------

/// The figures of a plan that encoders are told, as texts.
pub struct Figures {
    pub bitrate: String,
    pub kilobits: String,
    pub gop: String,
    pub fps: String,
}

/// What a `Figures` holds.
pub struct FiguresModel {
    pub bitrate: Seq<char>,
    pub kilobits: Seq<char>,
    pub gop: Seq<char>,
    pub fps: Seq<char>,
}

impl View for Figures {
    type V = FiguresModel;

    open spec fn view(&self) -> FiguresModel {
        FiguresModel {
            bitrate: self.bitrate@,
            kilobits: self.kilobits@,
            gop: self.gop@,
            fps: self.fps@,
        }
    }
}

/// The figures of a plan.
pub open spec fn figures_of(p: PlanModel) -> FiguresModel {
    FiguresModel {
        bitrate: decimal(p.video_bitrate as nat),
        kilobits: decimal((p.video_bitrate / 1000) as nat),
        gop: decimal(gop_length(p.keyframe_seconds, p.fps) as nat),
        fps: decimal(p.fps as nat),
    }
}

/// The arguments for Apple's hardware.
pub open spec fn videotoolbox_args(name: Seq<char>, f: FiguresModel) -> Seq<Seq<char>> {
    seq![
        "-c:v"@, name,
        "-profile:v"@, "main"@,
        "-pix_fmt"@, "yuv420p"@,
        "-realtime"@, "1"@,
        "-allow_sw"@, "1"@,
        "-constant_bit_rate"@, "1"@,
        "-b:v"@, f.bitrate,
        "-bf"@, "0"@,
        "-g"@, f.gop,
        "-keyint_min"@, f.gop,
        "-sc_threshold"@, "0"@,
        "-r"@, f.fps,
    ]
}

/// The arguments for NVIDIA's hardware.
pub open spec fn nvenc_args(name: Seq<char>, f: FiguresModel) -> Seq<Seq<char>> {
    seq![
        "-c:v"@, name,
        "-preset"@, "p4"@,
        "-tune"@, "ll"@,
        "-rc"@, "cbr"@,
        "-profile:v"@, "main"@,
        "-pix_fmt"@, "yuv420p"@,
        "-b:v"@, f.bitrate,
        "-maxrate"@, f.bitrate,
        "-bufsize"@, f.bitrate,
        "-bf"@, "0"@,
        "-g"@, f.gop,
        "-keyint_min"@, f.gop,
        "-r"@, f.fps,
    ]
}

/// The arguments for Intel's hardware.
pub open spec fn qsv_args(name: Seq<char>, f: FiguresModel) -> Seq<Seq<char>> {
    seq![
        "-c:v"@, name,
        "-preset"@, "veryfast"@,
        "-look_ahead"@, "0"@,
        "-profile:v"@, "main"@,
        "-pix_fmt"@, "yuv420p"@,
        "-b:v"@, f.bitrate,
        "-maxrate"@, f.bitrate,
        "-bf"@, "0"@,
        "-g"@, f.gop,
        "-r"@, f.fps,
    ]
}

/// The arguments for AMD's hardware.
pub open spec fn amf_args(name: Seq<char>, f: FiguresModel) -> Seq<Seq<char>> {
    seq![
        "-c:v"@, name,
        "-quality"@, "speed"@,
        "-rc"@, "cbr"@,
        "-profile"@, "main"@,
        "-pix_fmt"@, "yuv420p"@,
        "-b:v"@, f.bitrate,
        "-maxrate"@, f.bitrate,
        "-bf"@, "0"@,
        "-g"@, f.gop,
        "-r"@, f.fps,
    ]
}

/// How x265 is tuned.
pub open spec fn x265_params(f: FiguresModel) -> Seq<char> {
    "bframes=0:no-scenecut=1:keyint="@ + f.gop + ":min-keyint="@ + f.gop + ":vbv-maxrate="@
        + f.kilobits + ":vbv-bufsize="@ + f.kilobits
        + ":repeat-headers=1:hrd=1:log-level=warning"@
}

/// The arguments for x265.
pub open spec fn x265_args(f: FiguresModel) -> Seq<Seq<char>> {
    seq![
        "-c:v"@, "libx265"@,
        "-profile:v"@, "main"@,
        "-preset"@, "veryfast"@,
        "-tune"@, "zerolatency"@,
        "-pix_fmt"@, "yuv420p"@,
        "-x265-params"@, x265_params(f),
        "-b:v"@, f.bitrate,
        "-g"@, f.gop,
        "-keyint_min"@, f.gop,
        "-sc_threshold"@, "0"@,
        "-r"@, f.fps,
    ]
}

/// How x264 is tuned.
pub open spec fn x264_params(f: FiguresModel) -> Seq<char> {
    "bframes=0:scenecut=0:keyint="@ + f.gop + ":min-keyint="@ + f.gop + ":nal-hrd=cbr"@
}

/// The arguments for x264.
pub open spec fn x264_args(f: FiguresModel) -> Seq<Seq<char>> {
    seq![
        "-c:v"@, "libx264"@,
        "-profile:v"@, "main"@,
        "-preset"@, "veryfast"@,
        "-tune"@, "zerolatency"@,
        "-pix_fmt"@, "yuv420p"@,
        "-x264-params"@, x264_params(f),
        "-b:v"@, f.bitrate,
        "-maxrate"@, f.bitrate,
        "-minrate"@, f.bitrate,
        "-bufsize"@, f.bitrate,
        "-g"@, f.gop,
        "-keyint_min"@, f.gop,
        "-sc_threshold"@, "0"@,
        "-r"@, f.fps,
    ]
}

/// The arguments for an encoder; those of x264 for one that is not known.
pub open spec fn codec_args(name: Seq<char>, f: FiguresModel) -> Seq<Seq<char>> {
    if name == "h264_videotoolbox"@ || name == "hevc_videotoolbox"@ {
        videotoolbox_args(name, f)
    } else if name == "h264_nvenc"@ || name == "hevc_nvenc"@ {
        nvenc_args(name, f)
    } else if name == "h264_qsv"@ || name == "hevc_qsv"@ {
        qsv_args(name, f)
    } else if name == "h264_amf"@ || name == "hevc_amf"@ {
        amf_args(name, f)
    } else if name == "libx265"@ {
        x265_args(f)
    } else {
        x264_args(f)
    }
}

/// The arguments for an encoder, and after them the operator's own, which so go
/// first with FFmpeg.
pub open spec fn encoder_section(p: PlanModel, name: Seq<char>) -> Seq<Seq<char>> {
    codec_args(name, figures_of(p)) + flags_of(p.encoder_extra_flags)
}

fn add_videotoolbox(cmd: &mut Vec<String>, name: &str, f: &Figures)
    ensures
        texts(final(cmd)@) == texts(old(cmd)@) + videotoolbox_args(name@, f@),
{
    let list: [&str; 24] = [
        "-c:v", name,
        "-profile:v", "main",
        "-pix_fmt", "yuv420p",
        "-realtime", "1",
        "-allow_sw", "1",
        "-constant_bit_rate", "1",
        "-b:v", f.bitrate.as_str(),
        "-bf", "0",
        "-g", f.gop.as_str(),
        "-keyint_min", f.gop.as_str(),
        "-sc_threshold", "0",
        "-r", f.fps.as_str(),
    ];
    args(cmd, &list);
    assert(str_texts(list@) =~= videotoolbox_args(name@, f@));
}

fn add_nvenc(cmd: &mut Vec<String>, name: &str, f: &Figures)
    ensures
        texts(final(cmd)@) == texts(old(cmd)@) + nvenc_args(name@, f@),
{
    let list: [&str; 26] = [
        "-c:v", name,
        "-preset", "p4",
        "-tune", "ll",
        "-rc", "cbr",
        "-profile:v", "main",
        "-pix_fmt", "yuv420p",
        "-b:v", f.bitrate.as_str(),
        "-maxrate", f.bitrate.as_str(),
        "-bufsize", f.bitrate.as_str(),
        "-bf", "0",
        "-g", f.gop.as_str(),
        "-keyint_min", f.gop.as_str(),
        "-r", f.fps.as_str(),
    ];
    args(cmd, &list);
    assert(str_texts(list@) =~= nvenc_args(name@, f@));
}

fn add_qsv(cmd: &mut Vec<String>, name: &str, f: &Figures)
    ensures
        texts(final(cmd)@) == texts(old(cmd)@) + qsv_args(name@, f@),
{
    let list: [&str; 20] = [
        "-c:v", name,
        "-preset", "veryfast",
        "-look_ahead", "0",
        "-profile:v", "main",
        "-pix_fmt", "yuv420p",
        "-b:v", f.bitrate.as_str(),
        "-maxrate", f.bitrate.as_str(),
        "-bf", "0",
        "-g", f.gop.as_str(),
        "-r", f.fps.as_str(),
    ];
    args(cmd, &list);
    assert(str_texts(list@) =~= qsv_args(name@, f@));
}

fn add_amf(cmd: &mut Vec<String>, name: &str, f: &Figures)
    ensures
        texts(final(cmd)@) == texts(old(cmd)@) + amf_args(name@, f@),
{
    let list: [&str; 20] = [
        "-c:v", name,
        "-quality", "speed",
        "-rc", "cbr",
        "-profile", "main",
        "-pix_fmt", "yuv420p",
        "-b:v", f.bitrate.as_str(),
        "-maxrate", f.bitrate.as_str(),
        "-bf", "0",
        "-g", f.gop.as_str(),
        "-r", f.fps.as_str(),
    ];
    args(cmd, &list);
    assert(str_texts(list@) =~= amf_args(name@, f@));
}

fn add_x265(cmd: &mut Vec<String>, f: &Figures)
    ensures
        texts(final(cmd)@) == texts(old(cmd)@) + x265_args(f@),
{
    let mut tuning: String = cat3(
        "bframes=0:no-scenecut=1:keyint=",
        f.gop.as_str(),
        ":min-keyint=",
    );
    tuning.push_str(f.gop.as_str());
    tuning.push_str(":vbv-maxrate=");
    tuning.push_str(f.kilobits.as_str());
    tuning.push_str(":vbv-bufsize=");
    tuning.push_str(f.kilobits.as_str());
    tuning.push_str(":repeat-headers=1:hrd=1:log-level=warning");
    let list: [&str; 22] = [
        "-c:v", "libx265",
        "-profile:v", "main",
        "-preset", "veryfast",
        "-tune", "zerolatency",
        "-pix_fmt", "yuv420p",
        "-x265-params", tuning.as_str(),
        "-b:v", f.bitrate.as_str(),
        "-g", f.gop.as_str(),
        "-keyint_min", f.gop.as_str(),
        "-sc_threshold", "0",
        "-r", f.fps.as_str(),
    ];
    args(cmd, &list);
    assert(str_texts(list@) =~= x265_args(f@));
}

fn add_x264(cmd: &mut Vec<String>, f: &Figures)
    ensures
        texts(final(cmd)@) == texts(old(cmd)@) + x264_args(f@),
{
    let mut tuning: String = cat3(
        "bframes=0:scenecut=0:keyint=",
        f.gop.as_str(),
        ":min-keyint=",
    );
    tuning.push_str(f.gop.as_str());
    tuning.push_str(":nal-hrd=cbr");
    let list: [&str; 28] = [
        "-c:v", "libx264",
        "-profile:v", "main",
        "-preset", "veryfast",
        "-tune", "zerolatency",
        "-pix_fmt", "yuv420p",
        "-x264-params", tuning.as_str(),
        "-b:v", f.bitrate.as_str(),
        "-maxrate", f.bitrate.as_str(),
        "-minrate", f.bitrate.as_str(),
        "-bufsize", f.bitrate.as_str(),
        "-g", f.gop.as_str(),
        "-keyint_min", f.gop.as_str(),
        "-sc_threshold", "0",
        "-r", f.fps.as_str(),
    ];
    args(cmd, &list);
    assert(str_texts(list@) =~= x264_args(f@));
}

fn plan_figures(plan: &StreamPlan) -> (r: Figures)
    requires
        plan.keyframe_seconds * plan.fps <= u32::MAX,
    ensures
        r@ == figures_of(plan@),
{
    Figures {
        bitrate: show(plan.video_bitrate),
        kilobits: show(plan.video_bitrate / 1000),
        gop: show(plan.gop() as u64),
        fps: show(plan.fps as u64),
    }
}

/// The arguments for an encoder and the operator's own.
pub fn build_encoder_section(plan: &StreamPlan, encoder: &str) -> (r: Vec<String>)
    requires
        plan.keyframe_seconds * plan.fps <= u32::MAX,
    ensures
        texts(r@) == encoder_section(plan@, encoder@),
{
    let f: Figures = plan_figures(plan);
    let mut cmd: Vec<String> = Vec::new();
    if same(encoder, "h264_videotoolbox") || same(encoder, "hevc_videotoolbox") {
        add_videotoolbox(&mut cmd, encoder, &f);
    } else if same(encoder, "h264_nvenc") || same(encoder, "hevc_nvenc") {
        add_nvenc(&mut cmd, encoder, &f);
    } else if same(encoder, "h264_qsv") || same(encoder, "hevc_qsv") {
        add_qsv(&mut cmd, encoder, &f);
    } else if same(encoder, "h264_amf") || same(encoder, "hevc_amf") {
        add_amf(&mut cmd, encoder, &f);
    } else if same(encoder, "libx265") {
        add_x265(&mut cmd, &f);
    } else {
        add_x264(&mut cmd, &f);
    }
    let extras: Vec<String> = parse_extra_flags(plan.encoder_extra_flags.as_str());
    args_from(&mut cmd, &extras);
    assert(texts(cmd@) =~= encoder_section(plan@, encoder@));
    cmd
}

/// The arguments for the encoder that a plan gets.
pub fn select_encoder(plan: &StreamPlan, encoders: &Encoders) -> (r: Vec<String>)
    requires
        plan.keyframe_seconds * plan.fps <= u32::MAX,
    ensures
        texts(r@) == encoder_section(plan@, chosen_encoder(plan@, encoders@)),
{
    let wanted: &str = plan.video_encoder.as_str();
    let chosen: String = if same(wanted, "auto") || wanted.is_empty() || !encoders.has(wanted) {
        let codec: String = to_lower(plan.video_codec.as_str());
        auto_select_encoder(codec.as_str(), encoders)
    } else {
        plan.video_encoder.clone()
    };
    build_encoder_section(plan, chosen.as_str())
}

// ---------------------------------------------------------------------------
// Audio
// ---------------------------------------------------------------------------

/// The arguments for the audio encoder.
pub open spec fn audio_section(p: PlanModel) -> Seq<Seq<char>> {
    let profile = if p.audio_codec == "aac_he"@ || p.audio_codec == "aac_he_v2"@ {
        seq!["-profile:a"@, p.audio_codec]
    } else {
        Seq::empty()
    };
    seq!["-c:a"@, "aac"@] + profile + seq![
        "-b:a"@,
        decimal(p.audio_bitrate as nat),
        "-ar"@,
        decimal(p.audio_sample_rate as nat),
        "-ac"@,
        decimal(p.audio_channels as nat),
    ]
}

/// The arguments for the audio encoder.
pub fn build_audio_section(plan: &StreamPlan) -> (r: Vec<String>)
    ensures
        texts(r@) == audio_section(plan@),
{
    let mut cmd: Vec<String> = Vec::new();
    arg(&mut cmd, "-c:a");
    arg(&mut cmd, "aac");
    let codec: &str = plan.audio_codec.as_str();
    if same(codec, "aac_he") || same(codec, "aac_he_v2") {
        arg(&mut cmd, "-profile:a");
        arg(&mut cmd, codec);
    }
    arg(&mut cmd, "-b:a");
    arg_owned(&mut cmd, show(plan.audio_bitrate));
    arg(&mut cmd, "-ar");
    arg_owned(&mut cmd, show(plan.audio_sample_rate as u64));
    arg(&mut cmd, "-ac");
    arg_owned(&mut cmd, show(plan.audio_channels as u64));
    assert(texts(cmd@) =~= audio_section(plan@));
    cmd
}

// ---------------------------------------------------------------------------
// What holds of every choice
// ---------------------------------------------------------------------------

/// `flag` stands in the arguments with `value` right after it.
pub open spec fn sets(list: Seq<Seq<char>>, flag: Seq<char>, value: Seq<char>) -> bool {
    exists|i: int|
        0 <= i < list.len() - 1 && #[trigger] list[i] == flag && list[i + 1] == value
}

/// Whatever the encoder, it is told the bitrate, the distance of key frames and the
/// frame rate of the plan.
pub proof fn every_encoder_gets_figures(name: Seq<char>, f: FiguresModel)
    ensures
        sets(codec_args(name, f), "-b:v"@, f.bitrate),
        sets(codec_args(name, f), "-g"@, f.gop),
        sets(codec_args(name, f), "-r"@, f.fps),
{
    let a = codec_args(name, f);
    if name == "h264_videotoolbox"@ || name == "hevc_videotoolbox"@ {
        assert(a[12] == "-b:v"@ && a[16] == "-g"@ && a[22] == "-r"@);
    } else if name == "h264_nvenc"@ || name == "hevc_nvenc"@ {
        assert(a[12] == "-b:v"@ && a[20] == "-g"@ && a[24] == "-r"@);
    } else if name == "h264_qsv"@ || name == "hevc_qsv"@ {
        assert(a[10] == "-b:v"@ && a[16] == "-g"@ && a[18] == "-r"@);
    } else if name == "h264_amf"@ || name == "hevc_amf"@ {
        assert(a[10] == "-b:v"@ && a[16] == "-g"@ && a[18] == "-r"@);
    } else if name == "libx265"@ {
        assert(a[12] == "-b:v"@ && a[14] == "-g"@ && a[20] == "-r"@);
    } else {
        assert(a[12] == "-b:v"@ && a[20] == "-g"@ && a[26] == "-r"@);
    }
}

/// The operator's own flags come last, after all that the encoder gets without them.
pub proof fn extra_flags_come_last(p: PlanModel, name: Seq<char>)
    ensures
        encoder_section(p, name) == encoder_section(
            PlanModel { encoder_extra_flags: ""@, ..p },
            name,
        ) + flags_of(p.encoder_extra_flags),
{
    reveal_strlit("");
    let q = PlanModel { encoder_extra_flags: ""@, ..p };
    assert(""@ =~= Seq::<char>::empty());
    no_flags();
    assert(encoder_section(q, name) =~= codec_args(name, figures_of(p)));
}

/// The encoders whose arguments are known.
pub open spec fn known_encoders() -> Seq<Seq<char>> {
    seq![
        "libx264"@,
        "libx265"@,
        "h264_videotoolbox"@,
        "hevc_videotoolbox"@,
        "h264_nvenc"@,
        "hevc_nvenc"@,
        "h264_qsv"@,
        "hevc_qsv"@,
        "h264_amf"@,
        "hevc_amf"@,
    ]
}

/// An encoder that is not known gets what x264 gets.
pub proof fn unknown_encoders_count_as_x264(p: PlanModel, name: Seq<char>)
    requires
        !known_encoders().contains(name),
    ensures
        encoder_section(p, name) == encoder_section(p, "libx264"@),
{
    let k = known_encoders();
    assert(k[1] == "libx265"@ && k[2] == "h264_videotoolbox"@ && k[3] == "hevc_videotoolbox"@);
    assert(k[4] == "h264_nvenc"@ && k[5] == "hevc_nvenc"@ && k[6] == "h264_qsv"@);
    assert(k[7] == "hevc_qsv"@ && k[8] == "h264_amf"@ && k[9] == "hevc_amf"@);
    reveal_strlit("libx264");
    reveal_strlit("libx265");
    reveal_strlit("h264_videotoolbox");
    reveal_strlit("hevc_videotoolbox");
    reveal_strlit("h264_nvenc");
    reveal_strlit("hevc_nvenc");
    reveal_strlit("h264_qsv");
    reveal_strlit("hevc_qsv");
    reveal_strlit("h264_amf");
    reveal_strlit("hevc_amf");
    assert("libx264"@[0] == 'l' && "h264_qsv"@[0] == 'h' && "hevc_qsv"@[0] == 'h');
    assert("libx264"@[6] == '4' && "libx265"@[6] == '5');
    assert("h264_amf"@[0] == 'h' && "hevc_amf"@[0] == 'h');
}

/// The arguments ask for the main profile.
pub open spec fn asks_main_profile(list: Seq<Seq<char>>) -> bool {
    sets(list, "-profile:v"@, "main"@) || sets(list, "-profile"@, "main"@)
}

/// The arguments ask for a quarter of the colour resolution.
pub open spec fn asks_quarter_colour(list: Seq<Seq<char>>) -> bool {
    sets(list, "-pix_fmt"@, "yuv420p"@)
}

/// The arguments rule out pictures that depend on later ones.
pub open spec fn asks_no_b_frames(list: Seq<Seq<char>>) -> bool {
    ||| sets(list, "-bf"@, "0"@)
    ||| exists|tuning: Seq<char>|
        #![trigger begins(tuning, "bframes=0:"@)]
        begins(tuning, "bframes=0:"@) && (sets(list, "-x264-params"@, tuning) || sets(
            list,
            "-x265-params"@,
            tuning,
        ))
}

/// Whatever the encoder, its stream is one that the switcher plays: of the main profile,
/// with a quarter of the colour resolution, and without pictures that depend on later
/// ones.
pub proof fn every_encoder_suits_the_switcher(name: Seq<char>, f: FiguresModel)
    ensures
        asks_main_profile(codec_args(name, f)),
        asks_quarter_colour(codec_args(name, f)),
        asks_no_b_frames(codec_args(name, f)),
{
    let a = codec_args(name, f);
    if name == "h264_videotoolbox"@ || name == "hevc_videotoolbox"@ {
        assert(a[2] == "-profile:v"@ && a[4] == "-pix_fmt"@ && a[14] == "-bf"@);
    } else if name == "h264_nvenc"@ || name == "hevc_nvenc"@ {
        assert(a[8] == "-profile:v"@ && a[10] == "-pix_fmt"@ && a[18] == "-bf"@);
    } else if name == "h264_qsv"@ || name == "hevc_qsv"@ {
        assert(a[6] == "-profile:v"@ && a[8] == "-pix_fmt"@ && a[14] == "-bf"@);
    } else if name == "h264_amf"@ || name == "hevc_amf"@ {
        assert(a[6] == "-profile"@ && a[8] == "-pix_fmt"@ && a[14] == "-bf"@);
    } else {
        reveal_strlit("bframes=0:");
        reveal_strlit("bframes=0:no-scenecut=1:keyint=");
        reveal_strlit("bframes=0:scenecut=0:keyint=");
        assert(a[2] == "-profile:v"@ && a[8] == "-pix_fmt"@);
        assert(a[10] == (if name == "libx265"@ {
            "-x265-params"@
        } else {
            "-x264-params"@
        }));
        let tuning = a[11];
        assert(tuning.take(10) =~= "bframes=0:"@);
        assert(begins(tuning, "bframes=0:"@));
    }
}

/// With Apple's hardware ruled out and no encoder asked for, it is never chosen.
pub proof fn videotoolbox_can_be_ruled_out(p: PlanModel, e: EncodersModel)
    requires
        e.skip_videotoolbox,
        p.video_encoder == "auto"@,
    ensures
        !finishes(chosen_encoder(p, e), "_videotoolbox"@),
{
    first_usable_is_usable(candidates(lowered(p.video_codec), e.platform), e);
    reveal_strlit("libx264");
    reveal_strlit("libx265");
    reveal_strlit("_videotoolbox");
}

proof fn first_usable_is_usable(names: Seq<Seq<char>>, e: EncodersModel)
    ensures
        first_usable(names, e) matches Some(n) ==> usable(n, e),
    decreases names.len(),
{
    if names.len() > 0 && !usable(names[0], e) {
        first_usable_is_usable(names.drop_first(), e);
    }
}

} // verus!
