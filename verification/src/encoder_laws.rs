//! What every encoder is told, and what every command asks for, read from the arguments as
//! FFmpeg reads them: flag and value in turn.
use vstd::prelude::*;

use crate::command::{command, container, mapping, option_args};
use crate::encoder::{
    audio_section, candidates, chosen_encoder, codec_args, figures_of, first_usable,
    known_encoders, sets, x264_params, x265_params, EncodersModel, FiguresModel,
};
use crate::number::{decimal, decimal_is_digits, is_digit, lowered};
use crate::plan::{gop_length, PlanModel};
use crate::reading::{
    first_piece_is, lacks_concat, only_piece_is, told, told_from, told_in_parts,
};
use crate::scan::{begins, finishes, pieces};
use crate::shell::flags_of;
use crate::sources::Platform;

verus! {

// ---------------------------------------------------------------------------
// One encoder
// ---------------------------------------------------------------------------

#[verifier::rlimit(60)]
proof fn video_flags_differ()
    ensures
        "-c:v"@ != "-profile:v"@,
        "-c:v"@ != "-pix_fmt"@,
        "-c:v"@ != "-realtime"@,
        "-c:v"@ != "-allow_sw"@,
        "-c:v"@ != "-constant_bit_rate"@,
        "-c:v"@ != "-b:v"@,
        "-c:v"@ != "-bf"@,
        "-c:v"@ != "-g"@,
        "-c:v"@ != "-keyint_min"@,
        "-c:v"@ != "-sc_threshold"@,
        "-c:v"@ != "-r"@,
        "-c:v"@ != "-preset"@,
        "-c:v"@ != "-tune"@,
        "-c:v"@ != "-rc"@,
        "-c:v"@ != "-maxrate"@,
        "-c:v"@ != "-bufsize"@,
        "-c:v"@ != "-look_ahead"@,
        "-c:v"@ != "-quality"@,
        "-c:v"@ != "-profile"@,
        "-c:v"@ != "-x265-params"@,
        "-c:v"@ != "-x264-params"@,
        "-c:v"@ != "-minrate"@,
        "-b:v"@ != "-c:v"@,
        "-b:v"@ != "-profile:v"@,
        "-b:v"@ != "-pix_fmt"@,
        "-b:v"@ != "-realtime"@,
        "-b:v"@ != "-allow_sw"@,
        "-b:v"@ != "-constant_bit_rate"@,
        "-b:v"@ != "-bf"@,
        "-b:v"@ != "-g"@,
        "-b:v"@ != "-keyint_min"@,
        "-b:v"@ != "-sc_threshold"@,
        "-b:v"@ != "-r"@,
        "-b:v"@ != "-preset"@,
        "-b:v"@ != "-tune"@,
        "-b:v"@ != "-rc"@,
        "-b:v"@ != "-maxrate"@,
        "-b:v"@ != "-bufsize"@,
        "-b:v"@ != "-look_ahead"@,
        "-b:v"@ != "-quality"@,
        "-b:v"@ != "-profile"@,
        "-b:v"@ != "-x265-params"@,
        "-b:v"@ != "-x264-params"@,
        "-b:v"@ != "-minrate"@,
        "-g"@ != "-c:v"@,
        "-g"@ != "-profile:v"@,
        "-g"@ != "-pix_fmt"@,
        "-g"@ != "-realtime"@,
        "-g"@ != "-allow_sw"@,
        "-g"@ != "-constant_bit_rate"@,
        "-g"@ != "-b:v"@,
        "-g"@ != "-bf"@,
        "-g"@ != "-keyint_min"@,
        "-g"@ != "-sc_threshold"@,
        "-g"@ != "-r"@,
        "-g"@ != "-preset"@,
        "-g"@ != "-tune"@,
        "-g"@ != "-rc"@,
        "-g"@ != "-maxrate"@,
        "-g"@ != "-bufsize"@,
        "-g"@ != "-look_ahead"@,
        "-g"@ != "-quality"@,
        "-g"@ != "-profile"@,
        "-g"@ != "-x265-params"@,
        "-g"@ != "-x264-params"@,
        "-g"@ != "-minrate"@,
        "-r"@ != "-c:v"@,
        "-r"@ != "-profile:v"@,
        "-r"@ != "-pix_fmt"@,
        "-r"@ != "-realtime"@,
        "-r"@ != "-allow_sw"@,
        "-r"@ != "-constant_bit_rate"@,
        "-r"@ != "-b:v"@,
        "-r"@ != "-bf"@,
        "-r"@ != "-g"@,
        "-r"@ != "-keyint_min"@,
        "-r"@ != "-sc_threshold"@,
        "-r"@ != "-preset"@,
        "-r"@ != "-tune"@,
        "-r"@ != "-rc"@,
        "-r"@ != "-maxrate"@,
        "-r"@ != "-bufsize"@,
        "-r"@ != "-look_ahead"@,
        "-r"@ != "-quality"@,
        "-r"@ != "-profile"@,
        "-r"@ != "-x265-params"@,
        "-r"@ != "-x264-params"@,
        "-r"@ != "-minrate"@,
        "-pix_fmt"@ != "-c:v"@,
        "-pix_fmt"@ != "-profile:v"@,
        "-pix_fmt"@ != "-realtime"@,
        "-pix_fmt"@ != "-allow_sw"@,
        "-pix_fmt"@ != "-constant_bit_rate"@,
        "-pix_fmt"@ != "-b:v"@,
        "-pix_fmt"@ != "-bf"@,
        "-pix_fmt"@ != "-g"@,
        "-pix_fmt"@ != "-keyint_min"@,
        "-pix_fmt"@ != "-sc_threshold"@,
        "-pix_fmt"@ != "-r"@,
        "-pix_fmt"@ != "-preset"@,
        "-pix_fmt"@ != "-tune"@,
        "-pix_fmt"@ != "-rc"@,
        "-pix_fmt"@ != "-maxrate"@,
        "-pix_fmt"@ != "-bufsize"@,
        "-pix_fmt"@ != "-look_ahead"@,
        "-pix_fmt"@ != "-quality"@,
        "-pix_fmt"@ != "-profile"@,
        "-pix_fmt"@ != "-x265-params"@,
        "-pix_fmt"@ != "-x264-params"@,
        "-pix_fmt"@ != "-minrate"@,
        "-maxrate"@ != "-c:v"@,
        "-maxrate"@ != "-profile:v"@,
        "-maxrate"@ != "-pix_fmt"@,
        "-maxrate"@ != "-realtime"@,
        "-maxrate"@ != "-allow_sw"@,
        "-maxrate"@ != "-constant_bit_rate"@,
        "-maxrate"@ != "-b:v"@,
        "-maxrate"@ != "-bf"@,
        "-maxrate"@ != "-g"@,
        "-maxrate"@ != "-keyint_min"@,
        "-maxrate"@ != "-sc_threshold"@,
        "-maxrate"@ != "-r"@,
        "-maxrate"@ != "-preset"@,
        "-maxrate"@ != "-tune"@,
        "-maxrate"@ != "-rc"@,
        "-maxrate"@ != "-bufsize"@,
        "-maxrate"@ != "-look_ahead"@,
        "-maxrate"@ != "-quality"@,
        "-maxrate"@ != "-profile"@,
        "-maxrate"@ != "-x265-params"@,
        "-maxrate"@ != "-x264-params"@,
        "-maxrate"@ != "-minrate"@,
        "-bufsize"@ != "-c:v"@,
        "-bufsize"@ != "-profile:v"@,
        "-bufsize"@ != "-pix_fmt"@,
        "-bufsize"@ != "-realtime"@,
        "-bufsize"@ != "-allow_sw"@,
        "-bufsize"@ != "-constant_bit_rate"@,
        "-bufsize"@ != "-b:v"@,
        "-bufsize"@ != "-bf"@,
        "-bufsize"@ != "-g"@,
        "-bufsize"@ != "-keyint_min"@,
        "-bufsize"@ != "-sc_threshold"@,
        "-bufsize"@ != "-r"@,
        "-bufsize"@ != "-preset"@,
        "-bufsize"@ != "-tune"@,
        "-bufsize"@ != "-rc"@,
        "-bufsize"@ != "-maxrate"@,
        "-bufsize"@ != "-look_ahead"@,
        "-bufsize"@ != "-quality"@,
        "-bufsize"@ != "-profile"@,
        "-bufsize"@ != "-x265-params"@,
        "-bufsize"@ != "-x264-params"@,
        "-bufsize"@ != "-minrate"@,
        "-minrate"@ != "-c:v"@,
        "-minrate"@ != "-profile:v"@,
        "-minrate"@ != "-pix_fmt"@,
        "-minrate"@ != "-realtime"@,
        "-minrate"@ != "-allow_sw"@,
        "-minrate"@ != "-constant_bit_rate"@,
        "-minrate"@ != "-b:v"@,
        "-minrate"@ != "-bf"@,
        "-minrate"@ != "-g"@,
        "-minrate"@ != "-keyint_min"@,
        "-minrate"@ != "-sc_threshold"@,
        "-minrate"@ != "-r"@,
        "-minrate"@ != "-preset"@,
        "-minrate"@ != "-tune"@,
        "-minrate"@ != "-rc"@,
        "-minrate"@ != "-maxrate"@,
        "-minrate"@ != "-bufsize"@,
        "-minrate"@ != "-look_ahead"@,
        "-minrate"@ != "-quality"@,
        "-minrate"@ != "-profile"@,
        "-minrate"@ != "-x265-params"@,
        "-minrate"@ != "-x264-params"@,
        "-keyint_min"@ != "-c:v"@,
        "-keyint_min"@ != "-profile:v"@,
        "-keyint_min"@ != "-pix_fmt"@,
        "-keyint_min"@ != "-realtime"@,
        "-keyint_min"@ != "-allow_sw"@,
        "-keyint_min"@ != "-constant_bit_rate"@,
        "-keyint_min"@ != "-b:v"@,
        "-keyint_min"@ != "-bf"@,
        "-keyint_min"@ != "-g"@,
        "-keyint_min"@ != "-sc_threshold"@,
        "-keyint_min"@ != "-r"@,
        "-keyint_min"@ != "-preset"@,
        "-keyint_min"@ != "-tune"@,
        "-keyint_min"@ != "-rc"@,
        "-keyint_min"@ != "-maxrate"@,
        "-keyint_min"@ != "-bufsize"@,
        "-keyint_min"@ != "-look_ahead"@,
        "-keyint_min"@ != "-quality"@,
        "-keyint_min"@ != "-profile"@,
        "-keyint_min"@ != "-x265-params"@,
        "-keyint_min"@ != "-x264-params"@,
        "-keyint_min"@ != "-minrate"@,
        "-bf"@ != "-c:v"@,
        "-bf"@ != "-profile:v"@,
        "-bf"@ != "-pix_fmt"@,
        "-bf"@ != "-realtime"@,
        "-bf"@ != "-allow_sw"@,
        "-bf"@ != "-constant_bit_rate"@,
        "-bf"@ != "-b:v"@,
        "-bf"@ != "-g"@,
        "-bf"@ != "-keyint_min"@,
        "-bf"@ != "-sc_threshold"@,
        "-bf"@ != "-r"@,
        "-bf"@ != "-preset"@,
        "-bf"@ != "-tune"@,
        "-bf"@ != "-rc"@,
        "-bf"@ != "-maxrate"@,
        "-bf"@ != "-bufsize"@,
        "-bf"@ != "-look_ahead"@,
        "-bf"@ != "-quality"@,
        "-bf"@ != "-profile"@,
        "-bf"@ != "-x265-params"@,
        "-bf"@ != "-x264-params"@,
        "-bf"@ != "-minrate"@,
{
    reveal_strlit("-allow_sw");
    reveal_strlit("-b:v");
    reveal_strlit("-bf");
    reveal_strlit("-bufsize");
    reveal_strlit("-c:v");
    reveal_strlit("-constant_bit_rate");
    reveal_strlit("-g");
    reveal_strlit("-keyint_min");
    reveal_strlit("-look_ahead");
    reveal_strlit("-maxrate");
    reveal_strlit("-minrate");
    reveal_strlit("-pix_fmt");
    reveal_strlit("-preset");
    reveal_strlit("-profile");
    reveal_strlit("-profile:v");
    reveal_strlit("-quality");
    reveal_strlit("-r");
    reveal_strlit("-rc");
    reveal_strlit("-realtime");
    reveal_strlit("-sc_threshold");
    reveal_strlit("-tune");
    reveal_strlit("-x264-params");
    reveal_strlit("-x265-params");
    assert("-allow_sw"@.len() == 9);
    assert("-b:v"@.len() == 4);
    assert("-bf"@.len() == 3);
    assert("-bufsize"@.len() == 8);
    assert("-c:v"@.len() == 4);
    assert("-constant_bit_rate"@.len() == 18);
    assert("-g"@.len() == 2);
    assert("-keyint_min"@.len() == 11);
    assert("-look_ahead"@.len() == 11);
    assert("-maxrate"@.len() == 8);
    assert("-minrate"@.len() == 8);
    assert("-pix_fmt"@.len() == 8);
    assert("-preset"@.len() == 7);
    assert("-profile"@.len() == 8);
    assert("-profile:v"@.len() == 10);
    assert("-quality"@.len() == 8);
    assert("-r"@.len() == 2);
    assert("-rc"@.len() == 3);
    assert("-realtime"@.len() == 9);
    assert("-sc_threshold"@.len() == 13);
    assert("-tune"@.len() == 5);
    assert("-x264-params"@.len() == 12);
    assert("-x265-params"@.len() == 12);
    assert("-c:v"@[1] == 'c');
    assert("-b:v"@[1] == 'b');
    assert("-g"@[1] == 'g');
    assert("-r"@[1] == 'r');
    assert("-pix_fmt"@[1] == 'p');
    assert("-maxrate"@[1] == 'm');
    assert("-bufsize"@[1] == 'b');
    assert("-quality"@[1] == 'q');
    assert("-pix_fmt"@[2] == 'i');
    assert("-profile"@[2] == 'r');
    assert("-minrate"@[1] == 'm');
    assert("-profile"@[1] == 'p');
    assert("-maxrate"@[2] == 'a');
    assert("-minrate"@[2] == 'i');
    assert("-keyint_min"@[1] == 'k');
    assert("-look_ahead"@[1] == 'l');
    assert("-bf"@[1] == 'b');
    assert("-rc"@[1] == 'r');
}

/// `v` is empty or holds `x` alone.
pub open spec fn at_most(v: Seq<Seq<char>>, x: Seq<char>) -> bool {
    v.len() == 0 || v == seq![x]
}

/// The arguments make an encoder work with the figures: they name it once, and tell the
/// bitrate, the distance of key frames and the rate once. Where they bound the bitrate, the
/// bound is the bitrate; where they bound the distance from below, the bound is the distance.
pub open spec fn works_with(a: Seq<Seq<char>>, name: Seq<char>, f: FiguresModel) -> bool {
    &&& a.len() % 2 == 0
    &&& told(a, "-c:v"@) == seq![name]
    &&& told(a, "-b:v"@) == seq![f.bitrate]
    &&& told(a, "-g"@) == seq![f.gop]
    &&& told(a, "-r"@) == seq![f.fps]
    &&& told(a, "-pix_fmt"@) == seq!["yuv420p"@]
    &&& at_most(told(a, "-maxrate"@), f.bitrate)
    &&& at_most(told(a, "-minrate"@), f.bitrate)
    &&& at_most(told(a, "-bufsize"@), f.bitrate)
    &&& at_most(told(a, "-keyint_min"@), f.gop)
    &&& at_most(told(a, "-bf"@), "0"@)
}

#[verifier::rlimit(60)]
proof fn videotoolbox_works(name: Seq<char>, f: FiguresModel)
    requires
        name == "h264_videotoolbox"@ || name == "hevc_videotoolbox"@,
    ensures
        works_with(codec_args(name, f), name, f),
{
    names_differ();
    video_flags_differ();
    reveal_with_fuel(told_from, 16);
    let a = codec_args(name, f);
    assert(told(a, "-c:v"@).len() <= 1);
    assert(told(a, "-b:v"@).len() <= 1);
    assert(told(a, "-g"@).len() <= 1);
    assert(told(a, "-r"@).len() <= 1);
    assert(told(a, "-pix_fmt"@).len() <= 1);
    assert(told(a, "-maxrate"@).len() <= 1);
    assert(told(a, "-bufsize"@).len() <= 1);
    assert(told(a, "-minrate"@).len() <= 1);
    assert(told(a, "-keyint_min"@).len() <= 1);
    assert(told(a, "-bf"@).len() <= 1);
}

#[verifier::rlimit(60)]
proof fn nvenc_works(name: Seq<char>, f: FiguresModel)
    requires
        name == "h264_nvenc"@ || name == "hevc_nvenc"@,
    ensures
        works_with(codec_args(name, f), name, f),
{
    names_differ();
    video_flags_differ();
    reveal_with_fuel(told_from, 16);
    let a = codec_args(name, f);
    assert(told(a, "-c:v"@).len() <= 1);
    assert(told(a, "-b:v"@).len() <= 1);
    assert(told(a, "-g"@).len() <= 1);
    assert(told(a, "-r"@).len() <= 1);
    assert(told(a, "-pix_fmt"@).len() <= 1);
    assert(told(a, "-maxrate"@).len() <= 1);
    assert(told(a, "-bufsize"@).len() <= 1);
    assert(told(a, "-minrate"@).len() <= 1);
    assert(told(a, "-keyint_min"@).len() <= 1);
    assert(told(a, "-bf"@).len() <= 1);
}

#[verifier::rlimit(60)]
proof fn qsv_works(name: Seq<char>, f: FiguresModel)
    requires
        name == "h264_qsv"@ || name == "hevc_qsv"@,
    ensures
        works_with(codec_args(name, f), name, f),
{
    names_differ();
    video_flags_differ();
    reveal_with_fuel(told_from, 16);
    let a = codec_args(name, f);
    assert(told(a, "-c:v"@).len() <= 1);
    assert(told(a, "-b:v"@).len() <= 1);
    assert(told(a, "-g"@).len() <= 1);
    assert(told(a, "-r"@).len() <= 1);
    assert(told(a, "-pix_fmt"@).len() <= 1);
    assert(told(a, "-maxrate"@).len() <= 1);
    assert(told(a, "-bufsize"@).len() <= 1);
    assert(told(a, "-minrate"@).len() <= 1);
    assert(told(a, "-keyint_min"@).len() <= 1);
    assert(told(a, "-bf"@).len() <= 1);
}

#[verifier::rlimit(60)]
proof fn amf_works(name: Seq<char>, f: FiguresModel)
    requires
        name == "h264_amf"@ || name == "hevc_amf"@,
    ensures
        works_with(codec_args(name, f), name, f),
{
    names_differ();
    video_flags_differ();
    reveal_with_fuel(told_from, 16);
    let a = codec_args(name, f);
    assert(told(a, "-c:v"@).len() <= 1);
    assert(told(a, "-b:v"@).len() <= 1);
    assert(told(a, "-g"@).len() <= 1);
    assert(told(a, "-r"@).len() <= 1);
    assert(told(a, "-pix_fmt"@).len() <= 1);
    assert(told(a, "-maxrate"@).len() <= 1);
    assert(told(a, "-bufsize"@).len() <= 1);
    assert(told(a, "-minrate"@).len() <= 1);
    assert(told(a, "-keyint_min"@).len() <= 1);
    assert(told(a, "-bf"@).len() <= 1);
}

#[verifier::rlimit(60)]
proof fn x265_works(name: Seq<char>, f: FiguresModel)
    requires
        name == "libx265"@,
    ensures
        works_with(codec_args(name, f), name, f),
{
    names_differ();
    video_flags_differ();
    reveal_with_fuel(told_from, 16);
    let a = codec_args(name, f);
    assert(told(a, "-c:v"@).len() <= 1);
    assert(told(a, "-b:v"@).len() <= 1);
    assert(told(a, "-g"@).len() <= 1);
    assert(told(a, "-r"@).len() <= 1);
    assert(told(a, "-pix_fmt"@).len() <= 1);
    assert(told(a, "-maxrate"@).len() <= 1);
    assert(told(a, "-bufsize"@).len() <= 1);
    assert(told(a, "-minrate"@).len() <= 1);
    assert(told(a, "-keyint_min"@).len() <= 1);
    assert(told(a, "-bf"@).len() <= 1);
}

#[verifier::rlimit(60)]
proof fn x264_works(name: Seq<char>, f: FiguresModel)
    requires
        name == "libx264"@,
    ensures
        works_with(codec_args(name, f), name, f),
{
    names_differ();
    video_flags_differ();
    reveal_with_fuel(told_from, 16);
    let a = codec_args(name, f);
    assert(told(a, "-c:v"@).len() <= 1);
    assert(told(a, "-b:v"@).len() <= 1);
    assert(told(a, "-g"@).len() <= 1);
    assert(told(a, "-r"@).len() <= 1);
    assert(told(a, "-pix_fmt"@).len() <= 1);
    assert(told(a, "-maxrate"@).len() <= 1);
    assert(told(a, "-bufsize"@).len() <= 1);
    assert(told(a, "-minrate"@).len() <= 1);
    assert(told(a, "-keyint_min"@).len() <= 1);
    assert(told(a, "-bf"@).len() <= 1);
}

proof fn names_differ()
    ensures
        "h264_videotoolbox"@ != "hevc_videotoolbox"@,
        "h264_videotoolbox"@ != "h264_nvenc"@,
        "h264_videotoolbox"@ != "hevc_nvenc"@,
        "h264_videotoolbox"@ != "h264_qsv"@,
        "h264_videotoolbox"@ != "hevc_qsv"@,
        "h264_videotoolbox"@ != "h264_amf"@,
        "h264_videotoolbox"@ != "hevc_amf"@,
        "h264_videotoolbox"@ != "libx265"@,
        "h264_videotoolbox"@ != "libx264"@,
        "hevc_videotoolbox"@ != "h264_videotoolbox"@,
        "hevc_videotoolbox"@ != "h264_nvenc"@,
        "hevc_videotoolbox"@ != "hevc_nvenc"@,
        "hevc_videotoolbox"@ != "h264_qsv"@,
        "hevc_videotoolbox"@ != "hevc_qsv"@,
        "hevc_videotoolbox"@ != "h264_amf"@,
        "hevc_videotoolbox"@ != "hevc_amf"@,
        "hevc_videotoolbox"@ != "libx265"@,
        "hevc_videotoolbox"@ != "libx264"@,
        "h264_nvenc"@ != "h264_videotoolbox"@,
        "h264_nvenc"@ != "hevc_videotoolbox"@,
        "h264_nvenc"@ != "hevc_nvenc"@,
        "h264_nvenc"@ != "h264_qsv"@,
        "h264_nvenc"@ != "hevc_qsv"@,
        "h264_nvenc"@ != "h264_amf"@,
        "h264_nvenc"@ != "hevc_amf"@,
        "h264_nvenc"@ != "libx265"@,
        "h264_nvenc"@ != "libx264"@,
        "hevc_nvenc"@ != "h264_videotoolbox"@,
        "hevc_nvenc"@ != "hevc_videotoolbox"@,
        "hevc_nvenc"@ != "h264_nvenc"@,
        "hevc_nvenc"@ != "h264_qsv"@,
        "hevc_nvenc"@ != "hevc_qsv"@,
        "hevc_nvenc"@ != "h264_amf"@,
        "hevc_nvenc"@ != "hevc_amf"@,
        "hevc_nvenc"@ != "libx265"@,
        "hevc_nvenc"@ != "libx264"@,
        "h264_qsv"@ != "h264_videotoolbox"@,
        "h264_qsv"@ != "hevc_videotoolbox"@,
        "h264_qsv"@ != "h264_nvenc"@,
        "h264_qsv"@ != "hevc_nvenc"@,
        "h264_qsv"@ != "hevc_qsv"@,
        "h264_qsv"@ != "h264_amf"@,
        "h264_qsv"@ != "hevc_amf"@,
        "h264_qsv"@ != "libx265"@,
        "h264_qsv"@ != "libx264"@,
        "hevc_qsv"@ != "h264_videotoolbox"@,
        "hevc_qsv"@ != "hevc_videotoolbox"@,
        "hevc_qsv"@ != "h264_nvenc"@,
        "hevc_qsv"@ != "hevc_nvenc"@,
        "hevc_qsv"@ != "h264_qsv"@,
        "hevc_qsv"@ != "h264_amf"@,
        "hevc_qsv"@ != "hevc_amf"@,
        "hevc_qsv"@ != "libx265"@,
        "hevc_qsv"@ != "libx264"@,
        "h264_amf"@ != "h264_videotoolbox"@,
        "h264_amf"@ != "hevc_videotoolbox"@,
        "h264_amf"@ != "h264_nvenc"@,
        "h264_amf"@ != "hevc_nvenc"@,
        "h264_amf"@ != "h264_qsv"@,
        "h264_amf"@ != "hevc_qsv"@,
        "h264_amf"@ != "hevc_amf"@,
        "h264_amf"@ != "libx265"@,
        "h264_amf"@ != "libx264"@,
        "hevc_amf"@ != "h264_videotoolbox"@,
        "hevc_amf"@ != "hevc_videotoolbox"@,
        "hevc_amf"@ != "h264_nvenc"@,
        "hevc_amf"@ != "hevc_nvenc"@,
        "hevc_amf"@ != "h264_qsv"@,
        "hevc_amf"@ != "hevc_qsv"@,
        "hevc_amf"@ != "h264_amf"@,
        "hevc_amf"@ != "libx265"@,
        "hevc_amf"@ != "libx264"@,
        "libx265"@ != "h264_videotoolbox"@,
        "libx265"@ != "hevc_videotoolbox"@,
        "libx265"@ != "h264_nvenc"@,
        "libx265"@ != "hevc_nvenc"@,
        "libx265"@ != "h264_qsv"@,
        "libx265"@ != "hevc_qsv"@,
        "libx265"@ != "h264_amf"@,
        "libx265"@ != "hevc_amf"@,
        "libx265"@ != "libx264"@,
        "libx264"@ != "h264_videotoolbox"@,
        "libx264"@ != "hevc_videotoolbox"@,
        "libx264"@ != "h264_nvenc"@,
        "libx264"@ != "hevc_nvenc"@,
        "libx264"@ != "h264_qsv"@,
        "libx264"@ != "hevc_qsv"@,
        "libx264"@ != "h264_amf"@,
        "libx264"@ != "hevc_amf"@,
        "libx264"@ != "libx265"@,
{
    reveal_strlit("h264_amf");
    reveal_strlit("h264_nvenc");
    reveal_strlit("h264_qsv");
    reveal_strlit("h264_videotoolbox");
    reveal_strlit("hevc_amf");
    reveal_strlit("hevc_nvenc");
    reveal_strlit("hevc_qsv");
    reveal_strlit("hevc_videotoolbox");
    reveal_strlit("libx264");
    reveal_strlit("libx265");
    assert("h264_amf"@.len() == 8);
    assert("h264_nvenc"@.len() == 10);
    assert("h264_qsv"@.len() == 8);
    assert("h264_videotoolbox"@.len() == 17);
    assert("hevc_amf"@.len() == 8);
    assert("hevc_nvenc"@.len() == 10);
    assert("hevc_qsv"@.len() == 8);
    assert("hevc_videotoolbox"@.len() == 17);
    assert("libx264"@.len() == 7);
    assert("libx265"@.len() == 7);
    assert("h264_videotoolbox"@[1] == '2');
    assert("hevc_videotoolbox"@[1] == 'e');
    assert("h264_nvenc"@[1] == '2');
    assert("hevc_nvenc"@[1] == 'e');
    assert("h264_qsv"@[1] == '2');
    assert("hevc_qsv"@[1] == 'e');
    assert("h264_qsv"@[5] == 'q');
    assert("h264_amf"@[5] == 'a');
    assert("hevc_amf"@[1] == 'e');
    assert("h264_amf"@[1] == '2');
    assert("hevc_qsv"@[5] == 'q');
    assert("hevc_amf"@[5] == 'a');
    assert("libx265"@[6] == '5');
    assert("libx264"@[6] == '4');
}

/// Every known encoder is told the figures, and named by its own name.
pub proof fn every_encoder_is_named(name: Seq<char>, f: FiguresModel)
    requires
        known_encoders().contains(name),
    ensures
        works_with(codec_args(name, f), name, f),
        sets(codec_args(name, f), "-c:v"@, name),
{
    let a = codec_args(name, f);
    assert(a[0] == "-c:v"@);
    names_differ();
    if name == "h264_videotoolbox"@ || name == "hevc_videotoolbox"@ {
        videotoolbox_works(name, f);
    } else if name == "h264_nvenc"@ || name == "hevc_nvenc"@ {
        nvenc_works(name, f);
    } else if name == "h264_qsv"@ || name == "hevc_qsv"@ {
        qsv_works(name, f);
    } else if name == "h264_amf"@ || name == "hevc_amf"@ {
        amf_works(name, f);
    } else if name == "libx265"@ {
        x265_works(name, f);
    } else {
        x264_works(name, f);
    }
}

// ---------------------------------------------------------------------------
// The choice of an encoder
// ---------------------------------------------------------------------------

/// FFmpeg has the encoder, and it is not ruled out.
pub open spec fn at_hand(name: Seq<char>, e: EncodersModel) -> bool {
    e.available.contains(name) && (e.skip_videotoolbox ==> !finishes(name, "_videotoolbox"@))
}

/// What the names of the hardware encoders for a codec begin with.
pub open spec fn family(codec: Seq<char>) -> Seq<char> {
    if codec == "h265"@ {
        "hevc"@
    } else {
        "h264"@
    }
}

/// The software encoder for a codec.
pub open spec fn software(codec: Seq<char>) -> Seq<char> {
    if codec == "h265"@ {
        "libx265"@
    } else {
        "libx264"@
    }
}

proof fn names_in_parts()
    ensures
        "hevc"@ + "_videotoolbox"@ == "hevc_videotoolbox"@,
        "hevc"@ + "_nvenc"@ == "hevc_nvenc"@,
        "hevc"@ + "_qsv"@ == "hevc_qsv"@,
        "hevc"@ + "_amf"@ == "hevc_amf"@,
        "h264"@ + "_videotoolbox"@ == "h264_videotoolbox"@,
        "h264"@ + "_nvenc"@ == "h264_nvenc"@,
        "h264"@ + "_qsv"@ == "h264_qsv"@,
        "h264"@ + "_amf"@ == "h264_amf"@,
{
    reveal_strlit("hevc");
    reveal_strlit("h264");
    reveal_strlit("_videotoolbox");
    reveal_strlit("_nvenc");
    reveal_strlit("_qsv");
    reveal_strlit("_amf");
    reveal_strlit("hevc_videotoolbox");
    reveal_strlit("hevc_nvenc");
    reveal_strlit("hevc_qsv");
    reveal_strlit("hevc_amf");
    reveal_strlit("h264_videotoolbox");
    reveal_strlit("h264_nvenc");
    reveal_strlit("h264_qsv");
    reveal_strlit("h264_amf");
    assert("hevc"@ + "_videotoolbox"@ =~= "hevc_videotoolbox"@);
    assert("hevc"@ + "_nvenc"@ =~= "hevc_nvenc"@);
    assert("hevc"@ + "_qsv"@ =~= "hevc_qsv"@);
    assert("hevc"@ + "_amf"@ =~= "hevc_amf"@);
    assert("h264"@ + "_videotoolbox"@ =~= "h264_videotoolbox"@);
    assert("h264"@ + "_nvenc"@ =~= "h264_nvenc"@);
    assert("h264"@ + "_qsv"@ =~= "h264_qsv"@);
    assert("h264"@ + "_amf"@ =~= "h264_amf"@);
}

/// Without a wanted encoder that FFmpeg has, the one that is chosen is for the codec of the
/// plan. It is the hardware that stands first of those at hand: Apple's, and that on a Mac
/// alone, NVIDIA's, Intel's, AMD's; with no hardware at hand it is the software one.
#[verifier::rlimit(60)]
pub proof fn the_best_of_the_codec_is_chosen(p: PlanModel, e: EncodersModel)
    requires
        p.video_encoder == "auto"@ || p.video_encoder.len() == 0 || !e.available.contains(
            p.video_encoder,
        ),
    ensures
        ({
            let codec = lowered(p.video_codec);
            let apple = family(codec) + "_videotoolbox"@;
            let nvidia = family(codec) + "_nvenc"@;
            let intel = family(codec) + "_qsv"@;
            let amd = family(codec) + "_amf"@;
            chosen_encoder(p, e) == (if e.platform == Platform::MacOs && at_hand(apple, e) {
                apple
            } else if at_hand(nvidia, e) {
                nvidia
            } else if at_hand(intel, e) {
                intel
            } else if at_hand(amd, e) {
                amd
            } else {
                software(codec)
            })
        }),
{
    names_in_parts();
    reveal_with_fuel(first_usable, 7);
    let codec = lowered(p.video_codec);
    let v = candidates(codec, e.platform);
    let d1 = v.drop_first();
    let d2 = d1.drop_first();
    let d3 = d2.drop_first();
    let d4 = d3.drop_first();
    if e.platform == Platform::MacOs {
        assert(v[0] == family(codec) + "_videotoolbox"@);
        assert(d1[0] == v[1] && d2[0] == v[2] && d3[0] == v[3] && d4[0] == v[4]);
        assert(d4.drop_first().len() == 0);
    } else {
        assert(d1[0] == v[1] && d2[0] == v[2] && d3[0] == v[3]);
        assert(d4.len() == 0);
    }
}

/// A wanted encoder that FFmpeg has is chosen.
pub proof fn the_wanted_encoder_is_chosen(p: PlanModel, e: EncodersModel)
    requires
        p.video_encoder != "auto"@,
        p.video_encoder.len() > 0,
        e.available.contains(p.video_encoder),
    ensures
        chosen_encoder(p, e) == p.video_encoder,
{
}

/// A plan for H.265 without a wanted encoder that FFmpeg has never names an encoder of H.264,
/// and one for anything else never names an encoder of H.265.
#[verifier::rlimit(60)]
pub proof fn codecs_are_kept_apart(p: PlanModel, e: EncodersModel, f: FiguresModel)
    requires
        p.video_encoder == "auto"@ || p.video_encoder.len() == 0 || !e.available.contains(
            p.video_encoder,
        ),
    ensures
        ({
            let named = told(codec_args(chosen_encoder(p, e), f), "-c:v"@);
            &&& named.len() == 1
            &&& lowered(p.video_codec) == "h265"@ ==> begins(named[0], "hevc_"@) || named[0]
                == "libx265"@
            &&& lowered(p.video_codec) != "h265"@ ==> begins(named[0], "h264_"@) || named[0]
                == "libx264"@
        }),
{
    the_best_of_the_codec_is_chosen(p, e);
    names_in_parts();
    let k = known_encoders();
    assert(k[0] == "libx264"@ && k[1] == "libx265"@ && k[2] == "h264_videotoolbox"@);
    assert(k[3] == "hevc_videotoolbox"@ && k[4] == "h264_nvenc"@ && k[5] == "hevc_nvenc"@);
    assert(k[6] == "h264_qsv"@ && k[7] == "hevc_qsv"@ && k[8] == "h264_amf"@ && k[9] == "hevc_amf"@);
    let n = chosen_encoder(p, e);
    assert(known_encoders().contains(n));
    every_encoder_is_named(n, f);
    let fam = family(lowered(p.video_codec));
    reveal_strlit("hevc");
    reveal_strlit("h264");
    reveal_strlit("hevc_");
    reveal_strlit("h264_");
    reveal_strlit("_videotoolbox");
    reveal_strlit("_nvenc");
    reveal_strlit("_qsv");
    reveal_strlit("_amf");
    assert((fam + "_videotoolbox"@).take(5) =~= fam + seq!['_']);
    assert((fam + "_nvenc"@).take(5) =~= fam + seq!['_']);
    assert((fam + "_qsv"@).take(5) =~= fam + seq!['_']);
    assert((fam + "_amf"@).take(5) =~= fam + seq!['_']);
    assert("hevc_"@ =~= "hevc"@ + seq!['_']);
    assert("h264_"@ =~= "h264"@ + seq!['_']);
}

// ---------------------------------------------------------------------------
// The whole command
// ---------------------------------------------------------------------------

/// The name by which an encoder is asked for: its own, or that of x264 if it is not known.
pub open spec fn asked_for(name: Seq<char>) -> Seq<char> {
    if known_encoders().contains(name) {
        name
    } else {
        "libx264"@
    }
}

/// A value that there may be, as a list.
pub open spec fn if_any(v: Option<Seq<char>>) -> Seq<Seq<char>> {
    match v {
        Some(x) => seq![x],
        None => Seq::empty(),
    }
}

/// The arguments ask for the video of the plan: that of the first input, through the filter
/// if there is one, from the encoder, with the figures of the plan; and for the audio of the
/// first input if it has both, else of the second.
pub open spec fn asks_for_video(a: Seq<Seq<char>>, p: PlanModel, encoder: Seq<char>) -> bool {
    &&& a.len() % 2 == 0
    &&& told(a, "-map"@) == seq![
        "0:v:0"@,
        if p.source.combined_av {
            "0:a:0"@
        } else {
            "1:a:0"@
        },
    ]
    &&& told(a, "-vf"@) == if_any(p.video_filter)
    &&& told(a, "-c:v"@) == seq![asked_for(encoder)]
    &&& told(a, "-b:v"@) == seq![decimal(p.video_bitrate as nat)]
    &&& p.keyframe_seconds > 0 && p.fps > 0 ==> told(a, "-g"@) == seq![
        decimal((p.keyframe_seconds * p.fps) as nat),
    ]
    &&& told(a, "-r"@) == seq![decimal(p.fps as nat)]
    &&& told(a, "-pix_fmt"@) == seq!["yuv420p"@]
}

/// The arguments ask for the audio of the plan, through the filter if there is one, and for
/// the container of the protocol.
pub open spec fn asks_for_audio(a: Seq<Seq<char>>, p: PlanModel) -> bool {
    &&& a.len() % 2 == 0
    &&& told(a, "-af"@) == if_any(p.audio_filter)
    &&& told(a, "-c:a"@) == seq!["aac"@]
    &&& told(a, "-profile:a"@) == (if p.audio_codec == "aac_he"@ || p.audio_codec
        == "aac_he_v2"@ {
        seq![p.audio_codec]
    } else {
        Seq::empty()
    })
    &&& told(a, "-b:a"@) == seq![decimal(p.audio_bitrate as nat)]
    &&& told(a, "-ar"@) == seq![decimal(p.audio_sample_rate as nat)]
    &&& told(a, "-ac"@) == seq![decimal(p.audio_channels as nat)]
    &&& told(a, "-f"@) == (if p.protocol == "srt"@ {
        seq!["mpegts"@]
    } else if p.protocol == "rtmp"@ || p.protocol == "rtmps"@ {
        seq!["flv"@]
    } else {
        Seq::empty()
    })
}

/// The command is the program with the source first, then the video, then the operator's own
/// flags, then the audio, and the destination last.
pub open spec fn is_stream(
    c: Seq<Seq<char>>,
    ffmpeg: Seq<char>,
    p: PlanModel,
    e: EncodersModel,
    video: Seq<Seq<char>>,
    audio: Seq<Seq<char>>,
) -> bool {
    &&& c == seq![ffmpeg, "-hide_banner"@, "-loglevel"@, "info"@] + p.source.args + video
        + flags_of(p.encoder_extra_flags) + audio + seq![p.output_url]
    &&& asks_for_video(video, p, chosen_encoder(p, e))
    &&& asks_for_audio(audio, p)
}

#[verifier::rlimit(60)]
proof fn video_part_differs()
    ensures
        "-c:v"@ != "-profile:v"@,
        "-c:v"@ != "-pix_fmt"@,
        "-c:v"@ != "-realtime"@,
        "-c:v"@ != "-allow_sw"@,
        "-c:v"@ != "-constant_bit_rate"@,
        "-c:v"@ != "-b:v"@,
        "-c:v"@ != "-bf"@,
        "-c:v"@ != "-g"@,
        "-c:v"@ != "-keyint_min"@,
        "-c:v"@ != "-sc_threshold"@,
        "-c:v"@ != "-r"@,
        "-c:v"@ != "-preset"@,
        "-c:v"@ != "-tune"@,
        "-c:v"@ != "-rc"@,
        "-c:v"@ != "-maxrate"@,
        "-c:v"@ != "-bufsize"@,
        "-c:v"@ != "-look_ahead"@,
        "-c:v"@ != "-quality"@,
        "-c:v"@ != "-profile"@,
        "-c:v"@ != "-x265-params"@,
        "-c:v"@ != "-x264-params"@,
        "-c:v"@ != "-minrate"@,
        "-c:v"@ != "-map"@,
        "-c:v"@ != "-vf"@,
        "-b:v"@ != "-profile:v"@,
        "-b:v"@ != "-pix_fmt"@,
        "-b:v"@ != "-realtime"@,
        "-b:v"@ != "-allow_sw"@,
        "-b:v"@ != "-constant_bit_rate"@,
        "-b:v"@ != "-bf"@,
        "-b:v"@ != "-g"@,
        "-b:v"@ != "-keyint_min"@,
        "-b:v"@ != "-sc_threshold"@,
        "-b:v"@ != "-r"@,
        "-b:v"@ != "-preset"@,
        "-b:v"@ != "-tune"@,
        "-b:v"@ != "-rc"@,
        "-b:v"@ != "-maxrate"@,
        "-b:v"@ != "-bufsize"@,
        "-b:v"@ != "-look_ahead"@,
        "-b:v"@ != "-quality"@,
        "-b:v"@ != "-profile"@,
        "-b:v"@ != "-x265-params"@,
        "-b:v"@ != "-x264-params"@,
        "-b:v"@ != "-minrate"@,
        "-b:v"@ != "-map"@,
        "-b:v"@ != "-vf"@,
        "-g"@ != "-profile:v"@,
        "-g"@ != "-pix_fmt"@,
        "-g"@ != "-realtime"@,
        "-g"@ != "-allow_sw"@,
        "-g"@ != "-constant_bit_rate"@,
        "-g"@ != "-bf"@,
        "-g"@ != "-keyint_min"@,
        "-g"@ != "-sc_threshold"@,
        "-g"@ != "-r"@,
        "-g"@ != "-preset"@,
        "-g"@ != "-tune"@,
        "-g"@ != "-rc"@,
        "-g"@ != "-maxrate"@,
        "-g"@ != "-bufsize"@,
        "-g"@ != "-look_ahead"@,
        "-g"@ != "-quality"@,
        "-g"@ != "-profile"@,
        "-g"@ != "-x265-params"@,
        "-g"@ != "-x264-params"@,
        "-g"@ != "-minrate"@,
        "-g"@ != "-map"@,
        "-g"@ != "-vf"@,
        "-r"@ != "-profile:v"@,
        "-r"@ != "-pix_fmt"@,
        "-r"@ != "-realtime"@,
        "-r"@ != "-allow_sw"@,
        "-r"@ != "-constant_bit_rate"@,
        "-r"@ != "-bf"@,
        "-r"@ != "-keyint_min"@,
        "-r"@ != "-sc_threshold"@,
        "-r"@ != "-preset"@,
        "-r"@ != "-tune"@,
        "-r"@ != "-rc"@,
        "-r"@ != "-maxrate"@,
        "-r"@ != "-bufsize"@,
        "-r"@ != "-look_ahead"@,
        "-r"@ != "-quality"@,
        "-r"@ != "-profile"@,
        "-r"@ != "-x265-params"@,
        "-r"@ != "-x264-params"@,
        "-r"@ != "-minrate"@,
        "-r"@ != "-map"@,
        "-r"@ != "-vf"@,
        "-pix_fmt"@ != "-profile:v"@,
        "-pix_fmt"@ != "-realtime"@,
        "-pix_fmt"@ != "-allow_sw"@,
        "-pix_fmt"@ != "-constant_bit_rate"@,
        "-pix_fmt"@ != "-bf"@,
        "-pix_fmt"@ != "-keyint_min"@,
        "-pix_fmt"@ != "-sc_threshold"@,
        "-pix_fmt"@ != "-preset"@,
        "-pix_fmt"@ != "-tune"@,
        "-pix_fmt"@ != "-rc"@,
        "-pix_fmt"@ != "-maxrate"@,
        "-pix_fmt"@ != "-bufsize"@,
        "-pix_fmt"@ != "-look_ahead"@,
        "-pix_fmt"@ != "-quality"@,
        "-pix_fmt"@ != "-profile"@,
        "-pix_fmt"@ != "-x265-params"@,
        "-pix_fmt"@ != "-x264-params"@,
        "-pix_fmt"@ != "-minrate"@,
        "-pix_fmt"@ != "-map"@,
        "-pix_fmt"@ != "-vf"@,
        "-map"@ != "-profile:v"@,
        "-map"@ != "-realtime"@,
        "-map"@ != "-allow_sw"@,
        "-map"@ != "-constant_bit_rate"@,
        "-map"@ != "-bf"@,
        "-map"@ != "-keyint_min"@,
        "-map"@ != "-sc_threshold"@,
        "-map"@ != "-preset"@,
        "-map"@ != "-tune"@,
        "-map"@ != "-rc"@,
        "-map"@ != "-maxrate"@,
        "-map"@ != "-bufsize"@,
        "-map"@ != "-look_ahead"@,
        "-map"@ != "-quality"@,
        "-map"@ != "-profile"@,
        "-map"@ != "-x265-params"@,
        "-map"@ != "-x264-params"@,
        "-map"@ != "-minrate"@,
        "-map"@ != "-vf"@,
        "-vf"@ != "-profile:v"@,
        "-vf"@ != "-realtime"@,
        "-vf"@ != "-allow_sw"@,
        "-vf"@ != "-constant_bit_rate"@,
        "-vf"@ != "-bf"@,
        "-vf"@ != "-keyint_min"@,
        "-vf"@ != "-sc_threshold"@,
        "-vf"@ != "-preset"@,
        "-vf"@ != "-tune"@,
        "-vf"@ != "-rc"@,
        "-vf"@ != "-maxrate"@,
        "-vf"@ != "-bufsize"@,
        "-vf"@ != "-look_ahead"@,
        "-vf"@ != "-quality"@,
        "-vf"@ != "-profile"@,
        "-vf"@ != "-x265-params"@,
        "-vf"@ != "-x264-params"@,
        "-vf"@ != "-minrate"@,
{
    reveal_strlit("-c:v");
    reveal_strlit("-b:v");
    reveal_strlit("-g");
    reveal_strlit("-r");
    reveal_strlit("-pix_fmt");
    reveal_strlit("-map");
    reveal_strlit("-vf");
    reveal_strlit("-profile:v");
    reveal_strlit("-realtime");
    reveal_strlit("-allow_sw");
    reveal_strlit("-constant_bit_rate");
    reveal_strlit("-bf");
    reveal_strlit("-keyint_min");
    reveal_strlit("-sc_threshold");
    reveal_strlit("-preset");
    reveal_strlit("-tune");
    reveal_strlit("-rc");
    reveal_strlit("-maxrate");
    reveal_strlit("-bufsize");
    reveal_strlit("-look_ahead");
    reveal_strlit("-quality");
    reveal_strlit("-profile");
    reveal_strlit("-x265-params");
    reveal_strlit("-x264-params");
    reveal_strlit("-minrate");
    assert("-c:v"@.len() == 4);
    assert("-b:v"@.len() == 4);
    assert("-g"@.len() == 2);
    assert("-r"@.len() == 2);
    assert("-pix_fmt"@.len() == 8);
    assert("-map"@.len() == 4);
    assert("-vf"@.len() == 3);
    assert("-profile:v"@.len() == 10);
    assert("-realtime"@.len() == 9);
    assert("-allow_sw"@.len() == 9);
    assert("-constant_bit_rate"@.len() == 18);
    assert("-bf"@.len() == 3);
    assert("-keyint_min"@.len() == 11);
    assert("-sc_threshold"@.len() == 13);
    assert("-preset"@.len() == 7);
    assert("-tune"@.len() == 5);
    assert("-rc"@.len() == 3);
    assert("-maxrate"@.len() == 8);
    assert("-bufsize"@.len() == 8);
    assert("-look_ahead"@.len() == 11);
    assert("-quality"@.len() == 8);
    assert("-profile"@.len() == 8);
    assert("-x265-params"@.len() == 12);
    assert("-x264-params"@.len() == 12);
    assert("-minrate"@.len() == 8);
    assert("-c:v"@[1] == 'c');
    assert("-b:v"@[1] == 'b');
    assert("-map"@[1] == 'm');
    assert("-g"@[1] == 'g');
    assert("-r"@[1] == 'r');
    assert("-pix_fmt"@[1] == 'p');
    assert("-maxrate"@[1] == 'm');
    assert("-bufsize"@[1] == 'b');
    assert("-quality"@[1] == 'q');
    assert("-pix_fmt"@[2] == 'i');
    assert("-profile"@[2] == 'r');
    assert("-minrate"@[1] == 'm');
    assert("-vf"@[1] == 'v');
    assert("-bf"@[1] == 'b');
    assert("-rc"@[1] == 'r');
}

proof fn audio_part_differs()
    ensures
        "-af"@ != "-c:a"@,
        "-af"@ != "-profile:a"@,
        "-af"@ != "-b:a"@,
        "-af"@ != "-ar"@,
        "-af"@ != "-ac"@,
        "-af"@ != "-f"@,
        "-af"@ != "-mpegts_flags"@,
        "-af"@ != "-flush_packets"@,
        "-af"@ != "-flvflags"@,
        "-c:a"@ != "-profile:a"@,
        "-c:a"@ != "-b:a"@,
        "-c:a"@ != "-ar"@,
        "-c:a"@ != "-ac"@,
        "-c:a"@ != "-f"@,
        "-c:a"@ != "-mpegts_flags"@,
        "-c:a"@ != "-flush_packets"@,
        "-c:a"@ != "-flvflags"@,
        "-profile:a"@ != "-b:a"@,
        "-profile:a"@ != "-ar"@,
        "-profile:a"@ != "-ac"@,
        "-profile:a"@ != "-f"@,
        "-profile:a"@ != "-mpegts_flags"@,
        "-profile:a"@ != "-flush_packets"@,
        "-profile:a"@ != "-flvflags"@,
        "-b:a"@ != "-ar"@,
        "-b:a"@ != "-ac"@,
        "-b:a"@ != "-f"@,
        "-b:a"@ != "-mpegts_flags"@,
        "-b:a"@ != "-flush_packets"@,
        "-b:a"@ != "-flvflags"@,
        "-ar"@ != "-ac"@,
        "-ar"@ != "-f"@,
        "-ar"@ != "-mpegts_flags"@,
        "-ar"@ != "-flush_packets"@,
        "-ar"@ != "-flvflags"@,
        "-ac"@ != "-f"@,
        "-ac"@ != "-mpegts_flags"@,
        "-ac"@ != "-flush_packets"@,
        "-ac"@ != "-flvflags"@,
        "-f"@ != "-mpegts_flags"@,
        "-f"@ != "-flush_packets"@,
        "-f"@ != "-flvflags"@,
{
    reveal_strlit("-af");
    reveal_strlit("-c:a");
    reveal_strlit("-profile:a");
    reveal_strlit("-b:a");
    reveal_strlit("-ar");
    reveal_strlit("-ac");
    reveal_strlit("-f");
    reveal_strlit("-mpegts_flags");
    reveal_strlit("-flush_packets");
    reveal_strlit("-flvflags");
    assert("-af"@.len() == 3);
    assert("-c:a"@.len() == 4);
    assert("-profile:a"@.len() == 10);
    assert("-b:a"@.len() == 4);
    assert("-ar"@.len() == 3);
    assert("-ac"@.len() == 3);
    assert("-f"@.len() == 2);
    assert("-mpegts_flags"@.len() == 13);
    assert("-flush_packets"@.len() == 14);
    assert("-flvflags"@.len() == 9);
    assert("-af"@[2] == 'f');
    assert("-ar"@[2] == 'r');
    assert("-ac"@[2] == 'c');
    assert("-c:a"@[1] == 'c');
    assert("-b:a"@[1] == 'b');
}

proof fn unknown_is_x264(name: Seq<char>, f: FiguresModel)
    ensures
        works_with(codec_args(name, f), asked_for(name), f),
{
    let k = known_encoders();
    assert(k[0] == "libx264"@ && k[1] == "libx265"@ && k[2] == "h264_videotoolbox"@);
    assert(k[3] == "hevc_videotoolbox"@ && k[4] == "h264_nvenc"@ && k[5] == "hevc_nvenc"@);
    assert(k[6] == "h264_qsv"@ && k[7] == "hevc_qsv"@ && k[8] == "h264_amf"@ && k[9] == "hevc_amf"@);
    if k.contains(name) {
        every_encoder_is_named(name, f);
    } else {
        names_differ();
        every_encoder_is_named("libx264"@, f);
        assert(codec_args(name, f) == codec_args("libx264"@, f));
    }
}

/// The encoder's arguments map no stream and set no filter.
#[verifier::rlimit(60)]
proof fn encoders_map_nothing(name: Seq<char>, f: FiguresModel)
    ensures
        told(codec_args(name, f), "-map"@).len() == 0,
        told(codec_args(name, f), "-vf"@).len() == 0,
{
    video_part_differs();
    reveal_with_fuel(told_from, 16);
}

#[verifier::rlimit(40)]
proof fn video_is_asked_for(p: PlanModel, name: Seq<char>)
    ensures
        asks_for_video(
            mapping(p.source.combined_av) + option_args("-vf"@, p.video_filter) + codec_args(
                name,
                figures_of(p),
            ),
            p,
            name,
        ),
{
    let f = figures_of(p);
    let m = mapping(p.source.combined_av);
    let v = option_args("-vf"@, p.video_filter);
    let a = codec_args(name, f);
    unknown_is_x264(name, f);
    encoders_map_nothing(name, f);
    video_part_differs();
    assert forall|flag: Seq<char>| #[trigger] told(m + v + a, flag) == told(m, flag) + told(
        v,
        flag,
    ) + told(a, flag) by {
        told_in_parts(m, v, flag);
        told_in_parts(m + v, a, flag);
    }
    reveal_with_fuel(told_from, 4);
    let t = m + v + a;
    assert(told(m, "-map"@) =~= seq![m[1], m[3]]);
    assert(told(v, "-vf"@) =~= if_any(p.video_filter));
    assert(told(t, "-map"@) =~= seq![m[1], m[3]]);
    assert(told(t, "-vf"@) =~= told(v, "-vf"@));
    assert(m.len() == 4 && v.len() % 2 == 0 && t.len() == 4 + v.len() + a.len());
    assert(told(t, "-c:v"@) =~= told(a, "-c:v"@));
    assert(told(t, "-b:v"@) =~= told(a, "-b:v"@));
    assert(told(t, "-g"@) =~= told(a, "-g"@));
    assert(told(t, "-r"@) =~= told(a, "-r"@));
    assert(told(t, "-pix_fmt"@) =~= told(a, "-pix_fmt"@));
    if p.keyframe_seconds > 0 && p.fps > 0 {
        assert(p.keyframe_seconds * p.fps >= 1) by (nonlinear_arith)
            requires
                p.keyframe_seconds > 0,
                p.fps > 0,
        ;
        assert(gop_length(p.keyframe_seconds, p.fps) == p.keyframe_seconds * p.fps);
    }
}

#[verifier::rlimit(40)]
proof fn audio_is_asked_for(p: PlanModel)
    ensures
        asks_for_audio(
            option_args("-af"@, p.audio_filter) + audio_section(p) + container(p.protocol),
            p,
        ),
{
    let v = option_args("-af"@, p.audio_filter);
    let a = audio_section(p);
    let k = container(p.protocol);
    audio_part_differs();
    protocols_differ();
    assert forall|flag: Seq<char>| #[trigger] told(v + a + k, flag) == told(v, flag) + told(
        a,
        flag,
    ) + told(k, flag) by {
        told_in_parts(v, a, flag);
        told_in_parts(v + a, k, flag);
    }
    reveal_with_fuel(told_from, 7);
    let t = v + a + k;
    assert(told(t, "-af"@) =~= told(v, "-af"@));
    assert(told(t, "-c:a"@) =~= told(a, "-c:a"@));
    assert(told(t, "-profile:a"@) =~= told(a, "-profile:a"@));
    assert(told(t, "-b:a"@) =~= told(a, "-b:a"@));
    assert(told(t, "-ar"@) =~= told(a, "-ar"@));
    assert(told(t, "-ac"@) =~= told(a, "-ac"@));
    assert(told(t, "-f"@) =~= told(k, "-f"@));
}

proof fn protocols_differ()
    ensures
        "srt"@ != "rtmp"@,
        "srt"@ != "rtmps"@,
{
    reveal_strlit("srt");
    reveal_strlit("rtmp");
    reveal_strlit("rtmps");
    assert("srt"@.len() == 3);
    assert("rtmp"@.len() == 4);
    assert("rtmps"@.len() == 5);
}

/// The command for a plan that is not for a card asks for what the plan says, once: the
/// video, the audio, the container and the destination.
pub proof fn commands_do_the_plan(ffmpeg: Seq<char>, p: PlanModel, e: EncodersModel)
    requires
        p.protocol != "decklink"@,
    ensures
        exists|video: Seq<Seq<char>>, audio: Seq<Seq<char>>| #[trigger]
            is_stream(command(ffmpeg, p, e), ffmpeg, p, e, video, audio),
{
    let name = chosen_encoder(p, e);
    let video = mapping(p.source.combined_av) + option_args("-vf"@, p.video_filter) + codec_args(
        name,
        figures_of(p),
    );
    let audio = option_args("-af"@, p.audio_filter) + audio_section(p) + container(p.protocol);
    video_is_asked_for(p, name);
    audio_is_asked_for(p);
    assert(command(ffmpeg, p, e) =~= seq![ffmpeg, "-hide_banner"@, "-loglevel"@, "info"@]
        + p.source.args + video + flags_of(p.encoder_extra_flags) + audio + seq![p.output_url]);
    assert(is_stream(command(ffmpeg, p, e), ffmpeg, p, e, video, audio));
}

// ---------------------------------------------------------------------------
// How an encoder is tuned
// ---------------------------------------------------------------------------

#[verifier::rlimit(60)]
proof fn tuning_flags_differ()
    ensures
        "-preset"@ != "-c:v"@,
        "-preset"@ != "-profile:v"@,
        "-preset"@ != "-pix_fmt"@,
        "-preset"@ != "-realtime"@,
        "-preset"@ != "-allow_sw"@,
        "-preset"@ != "-constant_bit_rate"@,
        "-preset"@ != "-b:v"@,
        "-preset"@ != "-bf"@,
        "-preset"@ != "-g"@,
        "-preset"@ != "-keyint_min"@,
        "-preset"@ != "-sc_threshold"@,
        "-preset"@ != "-r"@,
        "-preset"@ != "-tune"@,
        "-preset"@ != "-rc"@,
        "-preset"@ != "-maxrate"@,
        "-preset"@ != "-bufsize"@,
        "-preset"@ != "-look_ahead"@,
        "-preset"@ != "-quality"@,
        "-preset"@ != "-profile"@,
        "-preset"@ != "-x265-params"@,
        "-preset"@ != "-x264-params"@,
        "-preset"@ != "-minrate"@,
        "-tune"@ != "-c:v"@,
        "-tune"@ != "-profile:v"@,
        "-tune"@ != "-pix_fmt"@,
        "-tune"@ != "-realtime"@,
        "-tune"@ != "-allow_sw"@,
        "-tune"@ != "-constant_bit_rate"@,
        "-tune"@ != "-b:v"@,
        "-tune"@ != "-bf"@,
        "-tune"@ != "-g"@,
        "-tune"@ != "-keyint_min"@,
        "-tune"@ != "-sc_threshold"@,
        "-tune"@ != "-r"@,
        "-tune"@ != "-rc"@,
        "-tune"@ != "-maxrate"@,
        "-tune"@ != "-bufsize"@,
        "-tune"@ != "-look_ahead"@,
        "-tune"@ != "-quality"@,
        "-tune"@ != "-profile"@,
        "-tune"@ != "-x265-params"@,
        "-tune"@ != "-x264-params"@,
        "-tune"@ != "-minrate"@,
        "-x265-params"@ != "-c:v"@,
        "-x265-params"@ != "-profile:v"@,
        "-x265-params"@ != "-pix_fmt"@,
        "-x265-params"@ != "-realtime"@,
        "-x265-params"@ != "-allow_sw"@,
        "-x265-params"@ != "-constant_bit_rate"@,
        "-x265-params"@ != "-b:v"@,
        "-x265-params"@ != "-bf"@,
        "-x265-params"@ != "-g"@,
        "-x265-params"@ != "-keyint_min"@,
        "-x265-params"@ != "-sc_threshold"@,
        "-x265-params"@ != "-r"@,
        "-x265-params"@ != "-rc"@,
        "-x265-params"@ != "-maxrate"@,
        "-x265-params"@ != "-bufsize"@,
        "-x265-params"@ != "-look_ahead"@,
        "-x265-params"@ != "-quality"@,
        "-x265-params"@ != "-profile"@,
        "-x265-params"@ != "-x264-params"@,
        "-x265-params"@ != "-minrate"@,
        "-x264-params"@ != "-c:v"@,
        "-x264-params"@ != "-profile:v"@,
        "-x264-params"@ != "-pix_fmt"@,
        "-x264-params"@ != "-realtime"@,
        "-x264-params"@ != "-allow_sw"@,
        "-x264-params"@ != "-constant_bit_rate"@,
        "-x264-params"@ != "-b:v"@,
        "-x264-params"@ != "-bf"@,
        "-x264-params"@ != "-g"@,
        "-x264-params"@ != "-keyint_min"@,
        "-x264-params"@ != "-sc_threshold"@,
        "-x264-params"@ != "-r"@,
        "-x264-params"@ != "-rc"@,
        "-x264-params"@ != "-maxrate"@,
        "-x264-params"@ != "-bufsize"@,
        "-x264-params"@ != "-look_ahead"@,
        "-x264-params"@ != "-quality"@,
        "-x264-params"@ != "-profile"@,
        "-x264-params"@ != "-minrate"@,
        "-rc"@ != "-c:v"@,
        "-rc"@ != "-profile:v"@,
        "-rc"@ != "-pix_fmt"@,
        "-rc"@ != "-realtime"@,
        "-rc"@ != "-allow_sw"@,
        "-rc"@ != "-constant_bit_rate"@,
        "-rc"@ != "-b:v"@,
        "-rc"@ != "-bf"@,
        "-rc"@ != "-g"@,
        "-rc"@ != "-keyint_min"@,
        "-rc"@ != "-sc_threshold"@,
        "-rc"@ != "-r"@,
        "-rc"@ != "-maxrate"@,
        "-rc"@ != "-bufsize"@,
        "-rc"@ != "-look_ahead"@,
        "-rc"@ != "-quality"@,
        "-rc"@ != "-profile"@,
        "-rc"@ != "-minrate"@,
        "-profile:v"@ != "-c:v"@,
        "-profile:v"@ != "-pix_fmt"@,
        "-profile:v"@ != "-realtime"@,
        "-profile:v"@ != "-allow_sw"@,
        "-profile:v"@ != "-constant_bit_rate"@,
        "-profile:v"@ != "-b:v"@,
        "-profile:v"@ != "-bf"@,
        "-profile:v"@ != "-g"@,
        "-profile:v"@ != "-keyint_min"@,
        "-profile:v"@ != "-sc_threshold"@,
        "-profile:v"@ != "-r"@,
        "-profile:v"@ != "-maxrate"@,
        "-profile:v"@ != "-bufsize"@,
        "-profile:v"@ != "-look_ahead"@,
        "-profile:v"@ != "-quality"@,
        "-profile:v"@ != "-profile"@,
        "-profile:v"@ != "-minrate"@,
        "-profile"@ != "-c:v"@,
        "-profile"@ != "-pix_fmt"@,
        "-profile"@ != "-realtime"@,
        "-profile"@ != "-allow_sw"@,
        "-profile"@ != "-constant_bit_rate"@,
        "-profile"@ != "-b:v"@,
        "-profile"@ != "-bf"@,
        "-profile"@ != "-g"@,
        "-profile"@ != "-keyint_min"@,
        "-profile"@ != "-sc_threshold"@,
        "-profile"@ != "-r"@,
        "-profile"@ != "-maxrate"@,
        "-profile"@ != "-bufsize"@,
        "-profile"@ != "-look_ahead"@,
        "-profile"@ != "-quality"@,
        "-profile"@ != "-minrate"@,
        "-realtime"@ != "-c:v"@,
        "-realtime"@ != "-pix_fmt"@,
        "-realtime"@ != "-allow_sw"@,
        "-realtime"@ != "-constant_bit_rate"@,
        "-realtime"@ != "-b:v"@,
        "-realtime"@ != "-bf"@,
        "-realtime"@ != "-g"@,
        "-realtime"@ != "-keyint_min"@,
        "-realtime"@ != "-sc_threshold"@,
        "-realtime"@ != "-r"@,
        "-realtime"@ != "-maxrate"@,
        "-realtime"@ != "-bufsize"@,
        "-realtime"@ != "-look_ahead"@,
        "-realtime"@ != "-quality"@,
        "-realtime"@ != "-minrate"@,
        "-sc_threshold"@ != "-c:v"@,
        "-sc_threshold"@ != "-pix_fmt"@,
        "-sc_threshold"@ != "-allow_sw"@,
        "-sc_threshold"@ != "-constant_bit_rate"@,
        "-sc_threshold"@ != "-b:v"@,
        "-sc_threshold"@ != "-bf"@,
        "-sc_threshold"@ != "-g"@,
        "-sc_threshold"@ != "-keyint_min"@,
        "-sc_threshold"@ != "-r"@,
        "-sc_threshold"@ != "-maxrate"@,
        "-sc_threshold"@ != "-bufsize"@,
        "-sc_threshold"@ != "-look_ahead"@,
        "-sc_threshold"@ != "-quality"@,
        "-sc_threshold"@ != "-minrate"@,
{
    reveal_strlit("-preset");
    reveal_strlit("-tune");
    reveal_strlit("-x265-params");
    reveal_strlit("-x264-params");
    reveal_strlit("-rc");
    reveal_strlit("-profile:v");
    reveal_strlit("-profile");
    reveal_strlit("-realtime");
    reveal_strlit("-sc_threshold");
    reveal_strlit("-c:v");
    reveal_strlit("-pix_fmt");
    reveal_strlit("-allow_sw");
    reveal_strlit("-constant_bit_rate");
    reveal_strlit("-b:v");
    reveal_strlit("-bf");
    reveal_strlit("-g");
    reveal_strlit("-keyint_min");
    reveal_strlit("-r");
    reveal_strlit("-maxrate");
    reveal_strlit("-bufsize");
    reveal_strlit("-look_ahead");
    reveal_strlit("-quality");
    reveal_strlit("-minrate");
    assert("-preset"@.len() == 7);
    assert("-tune"@.len() == 5);
    assert("-x265-params"@.len() == 12);
    assert("-x264-params"@.len() == 12);
    assert("-rc"@.len() == 3);
    assert("-profile:v"@.len() == 10);
    assert("-profile"@.len() == 8);
    assert("-realtime"@.len() == 9);
    assert("-sc_threshold"@.len() == 13);
    assert("-c:v"@.len() == 4);
    assert("-pix_fmt"@.len() == 8);
    assert("-allow_sw"@.len() == 9);
    assert("-constant_bit_rate"@.len() == 18);
    assert("-b:v"@.len() == 4);
    assert("-bf"@.len() == 3);
    assert("-g"@.len() == 2);
    assert("-keyint_min"@.len() == 11);
    assert("-r"@.len() == 2);
    assert("-maxrate"@.len() == 8);
    assert("-bufsize"@.len() == 8);
    assert("-look_ahead"@.len() == 11);
    assert("-quality"@.len() == 8);
    assert("-minrate"@.len() == 8);
    assert("-x265-params"@[4] == '5');
    assert("-x264-params"@[4] == '4');
    assert("-rc"@[1] == 'r');
    assert("-bf"@[1] == 'b');
    assert("-profile"@[2] == 'r');
    assert("-pix_fmt"@[2] == 'i');
    assert("-profile"@[1] == 'p');
    assert("-maxrate"@[1] == 'm');
    assert("-bufsize"@[1] == 'b');
    assert("-quality"@[1] == 'q');
    assert("-minrate"@[1] == 'm');
    assert("-realtime"@[1] == 'r');
    assert("-allow_sw"@[1] == 'a');
}

/// Every encoder is asked for the main profile, once, and for a constant rate where it has to be
/// asked; software is asked for speed and for no delay.
#[verifier::rlimit(60)]
pub proof fn encoders_are_tuned_for_live(name: Seq<char>, f: FiguresModel)
    ensures
        ({
            let a = codec_args(name, f);
            let amd = name == "h264_amf"@ || name == "hevc_amf"@;
            let nvidia = name == "h264_nvenc"@ || name == "hevc_nvenc"@;
            let apple = name == "h264_videotoolbox"@ || name == "hevc_videotoolbox"@;
            let intel = name == "h264_qsv"@ || name == "hevc_qsv"@;
            let hardware = amd || nvidia || apple || intel;
            &&& amd ==> told(a, "-profile"@) == seq!["main"@] && told(a, "-profile:v"@).len() == 0
            &&& !amd ==> told(a, "-profile:v"@) == seq!["main"@] && told(a, "-profile"@).len() == 0
            &&& amd || nvidia ==> told(a, "-rc"@) == seq!["cbr"@]
            &&& apple ==> told(a, "-realtime"@) == seq!["1"@]
            &&& nvidia ==> told(a, "-preset"@) == seq!["p4"@] && told(a, "-tune"@) == seq!["ll"@]
            &&& intel ==> told(a, "-preset"@) == seq!["veryfast"@]
            &&& !hardware ==> told(a, "-preset"@) == seq!["veryfast"@] && told(a, "-tune"@)
                == seq!["zerolatency"@] && told(a, "-sc_threshold"@) == seq!["0"@]
            &&& name == "libx265"@ ==> told(a, "-x265-params"@).len() == 1 && told(
                a,
                "-x264-params"@,
            ).len() == 0
            &&& !hardware && name != "libx265"@ ==> told(a, "-x264-params"@).len() == 1 && told(
                a,
                "-x265-params"@,
            ).len() == 0
        }),
{
    names_differ();
    tuning_flags_differ();
    reveal_with_fuel(told_from, 16);
    let a = codec_args(name, f);
    assert(told(a, "-preset"@).len() <= 1);
    assert(told(a, "-tune"@).len() <= 1);
    assert(told(a, "-x265-params"@).len() <= 1);
    assert(told(a, "-x264-params"@).len() <= 1);
    assert(told(a, "-rc"@).len() <= 1);
    assert(told(a, "-profile:v"@).len() <= 1);
    assert(told(a, "-profile"@).len() <= 1);
    assert(told(a, "-realtime"@).len() <= 1);
    assert(told(a, "-sc_threshold"@).len() <= 1);
}

/// The settings of x265 can be read, one after a colon: no pictures that depend on later ones,
/// key frames at the distance of the figures and no other, and a rate that stays within the
/// bitrate, in thousands.
#[verifier::rlimit(60)]
pub proof fn x265_settings_can_be_read(p: PlanModel)
    ensures
        ({
            let f = figures_of(p);
            let gop = decimal(gop_length(p.keyframe_seconds, p.fps) as nat);
            let rate = decimal((p.video_bitrate / 1000) as nat);
            pieces(x265_params(f), ':') == seq![
                "bframes=0"@,
                "no-scenecut=1"@,
                "keyint="@ + gop,
                "min-keyint="@ + gop,
                "vbv-maxrate="@ + rate,
                "vbv-bufsize="@ + rate,
                "repeat-headers=1"@,
                "hrd=1"@,
                "log-level=warning"@,
            ]
        }),
{
    let f = figures_of(p);
    let g = f.gop;
    let k = f.kilobits;
    decimal_is_digits(gop_length(p.keyframe_seconds, p.fps) as nat);
    decimal_is_digits((p.video_bitrate / 1000) as nat);
    assert(!is_digit(':'));
    let c = seq![':'];
    reveal_strlit("bframes=0");
    reveal_strlit("no-scenecut=1");
    reveal_strlit("keyint=");
    reveal_strlit("min-keyint=");
    reveal_strlit("vbv-maxrate=");
    reveal_strlit("vbv-bufsize=");
    reveal_strlit("repeat-headers=1");
    reveal_strlit("hrd=1");
    reveal_strlit("log-level=warning");
    reveal_strlit("bframes=0:no-scenecut=1:keyint=");
    reveal_strlit(":min-keyint=");
    reveal_strlit(":vbv-maxrate=");
    reveal_strlit(":vbv-bufsize=");
    reveal_strlit(":repeat-headers=1:hrd=1:log-level=warning");
    assert("bframes=0:no-scenecut=1:keyint="@ =~= "bframes=0"@ + c + "no-scenecut=1"@ + c
        + "keyint="@);
    assert(":min-keyint="@ =~= c + "min-keyint="@);
    assert(":vbv-maxrate="@ =~= c + "vbv-maxrate="@);
    assert(":vbv-bufsize="@ =~= c + "vbv-bufsize="@);
    assert(":repeat-headers=1:hrd=1:log-level=warning"@ =~= c + "repeat-headers=1"@ + c + "hrd=1"@
        + c + "log-level=warning"@);
    let a3 = "keyint="@ + g;
    let a4 = "min-keyint="@ + g;
    let a5 = "vbv-maxrate="@ + k;
    let a6 = "vbv-bufsize="@ + k;
    lacks_concat("keyint="@, g, ':');
    lacks_concat("min-keyint="@, g, ':');
    lacks_concat("vbv-maxrate="@, k, ':');
    lacks_concat("vbv-bufsize="@, k, ':');
    let r8 = "hrd=1"@ + c + "log-level=warning"@;
    let r7 = "repeat-headers=1"@ + c + r8;
    let r6 = a6 + c + r7;
    let r5 = a5 + c + r6;
    let r4 = a4 + c + r5;
    let r3 = a3 + c + r4;
    let r2 = "no-scenecut=1"@ + c + r3;
    let r1 = "bframes=0"@ + c + r2;
    assert(x265_params(f) =~= r1);
    first_piece_is("bframes=0"@, r2, ':');
    first_piece_is("no-scenecut=1"@, r3, ':');
    first_piece_is(a3, r4, ':');
    first_piece_is(a4, r5, ':');
    first_piece_is(a5, r6, ':');
    first_piece_is(a6, r7, ':');
    first_piece_is("repeat-headers=1"@, r8, ':');
    first_piece_is("hrd=1"@, "log-level=warning"@, ':');
    only_piece_is("log-level=warning"@, ':');
    assert(pieces(r1, ':') =~= seq![
        "bframes=0"@,
        "no-scenecut=1"@,
        a3,
        a4,
        a5,
        a6,
        "repeat-headers=1"@,
        "hrd=1"@,
        "log-level=warning"@,
    ]);
}

/// The settings of x264 can be read in the same way.
#[verifier::rlimit(60)]
pub proof fn x264_settings_can_be_read(p: PlanModel)
    ensures
        ({
            let f = figures_of(p);
            let gop = decimal(gop_length(p.keyframe_seconds, p.fps) as nat);
            pieces(x264_params(f), ':') == seq![
                "bframes=0"@,
                "scenecut=0"@,
                "keyint="@ + gop,
                "min-keyint="@ + gop,
                "nal-hrd=cbr"@,
            ]
        }),
{
    let f = figures_of(p);
    let g = f.gop;
    decimal_is_digits(gop_length(p.keyframe_seconds, p.fps) as nat);
    assert(!is_digit(':'));
    let c = seq![':'];
    reveal_strlit("bframes=0");
    reveal_strlit("scenecut=0");
    reveal_strlit("keyint=");
    reveal_strlit("min-keyint=");
    reveal_strlit("nal-hrd=cbr");
    reveal_strlit("bframes=0:scenecut=0:keyint=");
    reveal_strlit(":min-keyint=");
    reveal_strlit(":nal-hrd=cbr");
    assert("bframes=0:scenecut=0:keyint="@ =~= "bframes=0"@ + c + "scenecut=0"@ + c + "keyint="@);
    assert(":min-keyint="@ =~= c + "min-keyint="@);
    assert(":nal-hrd=cbr"@ =~= c + "nal-hrd=cbr"@);
    let a3 = "keyint="@ + g;
    let a4 = "min-keyint="@ + g;
    lacks_concat("keyint="@, g, ':');
    lacks_concat("min-keyint="@, g, ':');
    let r4 = a4 + c + "nal-hrd=cbr"@;
    let r3 = a3 + c + r4;
    let r2 = "scenecut=0"@ + c + r3;
    let r1 = "bframes=0"@ + c + r2;
    assert(x264_params(f) =~= r1);
    first_piece_is("bframes=0"@, r2, ':');
    first_piece_is("scenecut=0"@, r3, ':');
    first_piece_is(a3, r4, ':');
    first_piece_is(a4, "nal-hrd=cbr"@, ':');
    only_piece_is("nal-hrd=cbr"@, ':');
    assert(pieces(r1, ':') =~= seq!["bframes=0"@, "scenecut=0"@, a3, a4, "nal-hrd=cbr"@]);
}

/// Over SRT the stream is wrapped so that a receiver can join at any time, and sent at once;
/// over RTMP it is wrapped as FLV without what only a file needs.
pub proof fn containers_suit_the_line(protocol: Seq<char>)
    ensures
        protocol == "srt"@ ==> told(container(protocol), "-f"@) == seq!["mpegts"@] && told(
            container(protocol),
            "-mpegts_flags"@,
        ) == seq!["+resend_headers"@] && told(container(protocol), "-flush_packets"@) == seq![
            "1"@,
        ],
        protocol == "rtmp"@ || protocol == "rtmps"@ ==> told(container(protocol), "-f"@) == seq![
            "flv"@,
        ] && told(container(protocol), "-flvflags"@) == seq!["no_duration_filesize"@],
        protocol != "srt"@ && protocol != "rtmp"@ && protocol != "rtmps"@ ==> container(
            protocol,
        ).len() == 0,
{
    container_flags_differ();
    protocols_differ();
    reveal_with_fuel(told_from, 5);
    let a = container(protocol);
    if protocol == "srt"@ {
        assert(told(a, "-f"@) =~= seq![a[1]]);
        assert(told(a, "-mpegts_flags"@) =~= seq![a[3]]);
        assert(told(a, "-flush_packets"@) =~= seq![a[5]]);
    } else if protocol == "rtmp"@ || protocol == "rtmps"@ {
        assert(told(a, "-flvflags"@) =~= seq![a[1]]);
        assert(told(a, "-f"@) =~= seq![a[3]]);
    }
}

proof fn container_flags_differ()
    ensures
        "-f"@ != "-mpegts_flags"@,
        "-f"@ != "-flush_packets"@,
        "-f"@ != "-flvflags"@,
        "-mpegts_flags"@ != "-flush_packets"@,
        "-mpegts_flags"@ != "-flvflags"@,
        "-flush_packets"@ != "-flvflags"@,
{
    reveal_strlit("-f");
    reveal_strlit("-mpegts_flags");
    reveal_strlit("-flush_packets");
    reveal_strlit("-flvflags");
    assert("-f"@.len() == 2);
    assert("-mpegts_flags"@.len() == 13);
    assert("-flush_packets"@.len() == 14);
    assert("-flvflags"@.len() == 9);
}

} // verus!
