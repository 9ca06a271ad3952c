//! What holds of the pictures and sounds that are handed to FFmpeg, and of what is published
//! beside a stream.
use vstd::prelude::*;

use crate::attempt::{
    attempt_plan, attempted_plan, bridges_audio, feed_of, published, raw_shape, Feed, OmtOutput,
    RawFormat,
};
use crate::audio_bridge::{
    bridge_input, interleaved, interleaved_samples, sample_bytes, samples_per_channel, AudioBridge,
};
use crate::card_laws::rounding_is_near;
use crate::command::{
    own_audio_device, raw_audio_input, raw_plan, raw_video_input, rescaled, scaling, tee_command,
    unix_watchdog, windows_watchdog,
};
use crate::encoder::EncodersModel;
use crate::number::{decimal, rounded_ratio};
use crate::plan::{planned, Machine, PlanErrorModel, PlanModel};
use crate::raw_video::{
    omt_layout, pixel_bytes, pixel_name, sendable_bytes, sendable_samples, whole_rate, AudioError,
    NdiVideoFormat, PixelFormat,
};
use crate::reading::{told, told_from, told_in_parts};
use crate::scan::{begins, finishes};
use crate::sources::Platform;
use crate::state::EncoderModel;

verus! {

proof fn input_flags_differ()
    ensures
        "-f"@ != "-pix_fmt"@,
        "-f"@ != "-s"@,
        "-f"@ != "-r"@,
        "-f"@ != "-i"@,
        "-f"@ != "-ar"@,
        "-f"@ != "-ac"@,
        "-f"@ != "-channel_layout"@,
        "-f"@ != "-use_wallclock_as_timestamps"@,
        "-f"@ != "-map"@,
        "-f"@ != "-vf"@,
        "-pix_fmt"@ != "-s"@,
        "-pix_fmt"@ != "-r"@,
        "-pix_fmt"@ != "-i"@,
        "-pix_fmt"@ != "-ar"@,
        "-pix_fmt"@ != "-ac"@,
        "-pix_fmt"@ != "-channel_layout"@,
        "-pix_fmt"@ != "-use_wallclock_as_timestamps"@,
        "-pix_fmt"@ != "-map"@,
        "-pix_fmt"@ != "-vf"@,
        "-s"@ != "-r"@,
        "-s"@ != "-i"@,
        "-s"@ != "-ar"@,
        "-s"@ != "-ac"@,
        "-s"@ != "-channel_layout"@,
        "-s"@ != "-use_wallclock_as_timestamps"@,
        "-s"@ != "-map"@,
        "-s"@ != "-vf"@,
        "-r"@ != "-i"@,
        "-r"@ != "-ar"@,
        "-r"@ != "-ac"@,
        "-r"@ != "-channel_layout"@,
        "-r"@ != "-use_wallclock_as_timestamps"@,
        "-r"@ != "-map"@,
        "-r"@ != "-vf"@,
        "-i"@ != "-ar"@,
        "-i"@ != "-ac"@,
        "-i"@ != "-channel_layout"@,
        "-i"@ != "-use_wallclock_as_timestamps"@,
        "-i"@ != "-map"@,
        "-i"@ != "-vf"@,
        "-ar"@ != "-ac"@,
        "-ar"@ != "-channel_layout"@,
        "-ar"@ != "-use_wallclock_as_timestamps"@,
        "-ar"@ != "-map"@,
        "-ar"@ != "-vf"@,
        "-ac"@ != "-channel_layout"@,
        "-ac"@ != "-use_wallclock_as_timestamps"@,
        "-ac"@ != "-map"@,
        "-ac"@ != "-vf"@,
        "-channel_layout"@ != "-use_wallclock_as_timestamps"@,
        "-channel_layout"@ != "-map"@,
        "-channel_layout"@ != "-vf"@,
        "-use_wallclock_as_timestamps"@ != "-map"@,
        "-use_wallclock_as_timestamps"@ != "-vf"@,
        "-map"@ != "-vf"@,
{
    reveal_strlit("-f");
    reveal_strlit("-pix_fmt");
    reveal_strlit("-s");
    reveal_strlit("-r");
    reveal_strlit("-i");
    reveal_strlit("-ar");
    reveal_strlit("-ac");
    reveal_strlit("-channel_layout");
    reveal_strlit("-use_wallclock_as_timestamps");
    reveal_strlit("-map");
    reveal_strlit("-vf");
    assert("-f"@.len() == 2);
    assert("-pix_fmt"@.len() == 8);
    assert("-s"@.len() == 2);
    assert("-r"@.len() == 2);
    assert("-i"@.len() == 2);
    assert("-ar"@.len() == 3);
    assert("-ac"@.len() == 3);
    assert("-channel_layout"@.len() == 15);
    assert("-use_wallclock_as_timestamps"@.len() == 28);
    assert("-map"@.len() == 4);
    assert("-vf"@.len() == 3);
    assert("-f"@[1] == 'f');
    assert("-s"@[1] == 's');
    assert("-r"@[1] == 'r');
    assert("-i"@[1] == 'i');
    assert("-ar"@[2] == 'r');
    assert("-ac"@[2] == 'c');
    assert("-ar"@[1] == 'a');
    assert("-vf"@[1] == 'v');
    assert("-ac"@[1] == 'a');
}

// ---------------------------------------------------------------------------
// Raw video
// ---------------------------------------------------------------------------

/// Raw video is read from the standard input, in the size, the layout and the rate that it
/// was captured in. The rate is the nearest whole one.
pub proof fn raw_video_is_described(f: NdiVideoFormat)
    ensures
        ({
            let a = raw_video_input(f);
            &&& a.len() % 2 == 0
            &&& told(a, "-f"@) == seq!["rawvideo"@]
            &&& told(a, "-pix_fmt"@) == seq![f.ffmpeg_pix_fmt@]
            &&& told(a, "-s"@) == seq![decimal(f.width as nat) + "x"@ + decimal(f.height as nat)]
            &&& told(a, "-r"@) == seq![decimal(whole_rate(f.fps_num, f.fps_den) as nat)]
            &&& told(a, "-i"@) == seq!["pipe:0"@]
        }),
{
    input_flags_differ();
    reveal_with_fuel(told_from, 7);
    let a = raw_video_input(f);
    assert(told(a, "-f"@) =~= seq!["rawvideo"@]);
    assert(told(a, "-pix_fmt"@) =~= seq![a[3]]);
    assert(told(a, "-s"@) =~= seq![a[5]]);
    assert(told(a, "-r"@) =~= seq![a[7]]);
    assert(told(a, "-i"@) =~= seq![a[9]]);
}

/// The rate of captured video is the whole number nearest to its ratio, or thirty if it has
/// none.
pub proof fn raw_rates_are_near(num: u32, den: u32)
    ensures
        den == 0 ==> whole_rate(num, den) == 30,
        den > 0 ==> -(den as int) <= 2 * (whole_rate(num, den) * den - num) <= den,
{
    if den > 0 {
        rounding_is_near(num as nat, den as nat);
        let k = rounded_ratio(num as nat, den as nat);
        assert(k <= num + 1) by (nonlinear_arith)
            requires
                k == (2 * (num as nat) + den as nat) / (2 * (den as nat)),
                den > 0,
        ;
        assert(k <= u32::MAX) by (nonlinear_arith)
            requires
                k == (2 * (num as nat) + den as nat) / (2 * (den as nat)),
                den > 0,
                num <= u32::MAX,
        ;
    }
}

/// The audio beside raw video is that of the picked device if one is wanted, where it can be
/// captured; else that of the bridge, if there is one; else silence.
#[verifier::rlimit(60)]
pub proof fn raw_audio_is_found(
    s: EncoderModel,
    platform: Platform,
    bridge: Option<AudioBridge>,
    to_card: bool,
)
    ensures
        ({
            let a = raw_audio_input(s, platform, bridge, to_card);
            let own = s.audio_mode == "custom"@ && s.av_audio_name.len() > 0;
            let input = told(a, "-i"@);
            &&& a.len() % 2 == 0
            &&& own && platform == Platform::MacOs ==> input == seq![":"@ + s.av_audio_name] && told(
                a,
                "-f"@,
            ) == seq!["avfoundation"@]
            &&& own && platform == Platform::Windows ==> input == seq!["audio="@ + s.av_audio_name]
                && told(a, "-f"@) == seq!["dshow"@]
            &&& own && platform == Platform::Other || !own && bridge is None ==> told(a, "-f"@)
                == seq!["lavfi"@] && input == seq![
                "anullsrc=channel_layout=stereo:sample_rate=48000"@,
            ]
            &&& !own && bridge is Some ==> {
                &&& input == seq![
                    "tcp://127.0.0.1:"@ + decimal((bridge->0).port as nat) + "?listen=0"@,
                ]
                &&& told(a, "-f"@) == seq!["s16le"@]
                &&& told(a, "-ar"@) == seq![decimal(48_000)]
                &&& told(a, "-ac"@) == seq![decimal(2)]
                &&& told(a, "-use_wallclock_as_timestamps"@) == (if to_card {
                    seq!["1"@]
                } else {
                    Seq::empty()
                })
            }
        }),
{
    input_flags_differ();
    reveal_with_fuel(told_from, 8);
    let a = raw_audio_input(s, platform, bridge, to_card);
    if !own_audio_device(s) && bridge is Some {
        bridges_are_read((bridge->0).port, to_card);
    } else {
        assert(told(a, "-f"@) =~= seq![a[1]]);
        assert(told(a, "-i"@) =~= seq![a[3]]);
    }
}

#[verifier::rlimit(30)]
proof fn bridges_are_read(port: u16, stamped: bool)
    ensures
        ({
            let a = bridge_input(port, stamped);
            &&& a.len() % 2 == 0
            &&& told(a, "-i"@) == seq!["tcp://127.0.0.1:"@ + decimal(port as nat) + "?listen=0"@]
            &&& told(a, "-f"@) == seq!["s16le"@]
            &&& told(a, "-ar"@) == seq![decimal(48_000)]
            &&& told(a, "-ac"@) == seq![decimal(2)]
            &&& told(a, "-use_wallclock_as_timestamps"@) == (if stamped {
                seq!["1"@]
            } else {
                Seq::empty()
            })
        }),
{
    input_flags_differ();
    let a = bridge_input(port, stamped);
    let w = "-use_wallclock_as_timestamps"@;
    let stamps: Seq<Seq<char>> = if stamped {
        seq![w, "1"@]
    } else {
        Seq::empty()
    };
    let rest = a.skip(stamps.len() as int);
    assert(a =~= stamps + rest);
    reveal_with_fuel(told_from, 7);
    told_in_parts(stamps, rest, "-i"@);
    told_in_parts(stamps, rest, "-f"@);
    told_in_parts(stamps, rest, "-ar"@);
    told_in_parts(stamps, rest, "-ac"@);
    told_in_parts(stamps, rest, w);
    assert(rest.len() == 10);
    assert(rest[0] == "-f"@ && rest[2] == "-ar"@ && rest[4] == "-ac"@ && rest[6]
        == "-channel_layout"@ && rest[8] == "-i"@);
    assert(told(rest, "-i"@) =~= seq![rest[9]]);
    assert(told(rest, "-f"@) =~= seq![rest[1]]);
    assert(told(rest, "-ar"@) =~= seq![rest[3]]);
    assert(told(rest, "-ac"@) =~= seq![rest[5]]);
    assert(told(rest, w) =~= Seq::empty());
    assert(told(a, "-i"@) =~= seq![rest[9]]);
    assert(told(a, "-f"@) =~= seq![rest[1]]);
    assert(told(a, "-ar"@) =~= seq![rest[3]]);
    assert(told(a, "-ac"@) =~= seq![rest[5]]);
    assert(told(a, w) =~= told(stamps, w));
    if stamped {
        assert(told(stamps, w) =~= seq!["1"@]);
    } else {
        assert(told(stamps, w) =~= Seq::empty());
    }
}

/// A plan with captured video reads that video and its audio in place of the source's own, as
/// two inputs. What it makes of them is as planned; only the filter can differ, and that only
/// if the sizes do.
pub proof fn captured_video_takes_the_place(
    p: PlanModel,
    f: NdiVideoFormat,
    s: EncoderModel,
    platform: Platform,
    bridge: Option<AudioBridge>,
)
    ensures
        ({
            let q = raw_plan(p, f, s, platform, bridge);
            &&& q.source.args == raw_video_input(f) + raw_audio_input(
                s,
                platform,
                bridge,
                p.protocol == "decklink"@,
            )
            &&& !q.source.combined_av
            &&& q.source.id == p.source.id && q.source.label == p.source.label
            &&& f.width == p.width && f.height == p.height ==> q.video_filter == p.video_filter
            &&& q == PlanModel { source: q.source, video_filter: q.video_filter, ..p }
        }),
{
}

/// The filter with another scaling begins with it. A filter that does not scale first goes on
/// after it whole.
pub proof fn scaling_comes_first(f: Seq<char>, w: u32, h: u32)
    requires
        !begins(f, "scale="@),
    ensures
        rescaled(None, scaling(w, h)) == "scale="@ + decimal(w as nat) + ":"@ + decimal(h as nat)
            + ":flags=lanczos"@,
        rescaled(Some(f), scaling(w, h)) == rescaled(None, scaling(w, h)) + ","@ + f,
{
}

/// Whatever was captured, its size and its layout are those that FFmpeg is told; the sound of
/// OMT is not bridged.
pub proof fn captures_are_described(
    p: PlanModel,
    captured: RawFormat,
    s: EncoderModel,
    e: EncodersModel,
    bridge: Option<AudioBridge>,
)
    ensures
        ({
            let q = attempted_plan(p, Some(captured), s, e, bridge);
            let shape = raw_shape(Some(captured))->0;
            let a = q.source.args.take(10);
            &&& q.source.args.len() >= 10
            &&& told(a, "-s"@) == seq![decimal(shape.0 as nat) + "x"@ + decimal(shape.1 as nat)]
            &&& told(a, "-pix_fmt"@) == seq![shape.2@]
            &&& captured is Omt ==> q.source.args.skip(10) == raw_audio_input(
                s,
                e.platform,
                None,
                p.protocol == "decklink"@,
            )
            &&& captured is Ndi ==> q.source.args.skip(10) == raw_audio_input(
                s,
                e.platform,
                bridge,
                p.protocol == "decklink"@,
            )
            &&& attempted_plan(p, None, s, e, bridge) == p
        }),
{
    let f = match captured {
        RawFormat::Ndi(f) => f,
        RawFormat::Omt(f) => NdiVideoFormat {
            width: f.width,
            height: f.height,
            fps_num: f.fps_num,
            fps_den: f.fps_den,
            ffmpeg_pix_fmt: f.ffmpeg_pix_fmt,
        },
    };
    raw_video_is_described(f);
    let q = attempted_plan(p, Some(captured), s, e, bridge);
    let v = raw_video_input(f);
    assert(v.len() == 10);
    assert(q.source.args.take(10) =~= v);
    let b = if captured is Ndi {
        bridge
    } else {
        None
    };
    assert(q.source.args.skip(10) =~= raw_audio_input(
        s,
        e.platform,
        b,
        p.protocol == "decklink"@,
    ));
}

/// An attempt has a plan if and only if one can be made and its source is there; else it is
/// told why, and of a source that is not there, which it is.
pub proof fn attempts_need_their_source(s: EncoderModel, m: Machine, p: PlanModel)
    requires
        planned(s, m) == Ok::<PlanModel, PlanErrorModel>(p),
    ensures
        p.source.available ==> attempt_plan(s, m) == Ok::<PlanModel, Seq<char>>(p),
        !p.source.available ==> (attempt_plan(s, m) matches Err(t) && begins(
            t,
            "Source '"@ + p.source.label + "' is not available. "@,
        ) && finishes(t, p.source.notes)),
{
    if !p.source.available {
        let t = attempt_plan(s, m)->Err_0;
        let head = "Source '"@ + p.source.label + "' is not available. "@;
        assert(t =~= head + p.source.notes);
        assert(t.subrange(0, head.len() as int) =~= head);
        assert(t.subrange(head.len() as int, t.len() as int) =~= p.source.notes);
    }
}

/// Pictures from the network are captured by the program, others are read by FFmpeg. Sound is
/// bridged for NDI alone, unless it is muted or replaced.
pub proof fn feeds_follow_the_source(p: PlanModel, s: EncoderModel)
    ensures
        feed_of(p) == Feed::Ndi <==> p.source.id == "ndi"@,
        feed_of(p) == Feed::Omt <==> p.source.id == "omt"@,
        bridges_audio(p, s) <==> feed_of(p) == Feed::Ndi && s.audio_mode != "silent"@
            && s.audio_mode != "custom"@,
{
    feeds_differ();
}

proof fn feeds_differ()
    ensures
        "ndi"@ != "omt"@,
{
    reveal_strlit("ndi");
    reveal_strlit("omt");
    assert("ndi"@.len() == 3);
    assert("omt"@.len() == 3);
    assert("ndi"@[0] == 'n');
    assert("omt"@[0] == 'o');
}

// ---------------------------------------------------------------------------
// Pixels and samples
// ---------------------------------------------------------------------------

/// A layout has as many bytes a pixel as its name stands for.
pub proof fn layouts_have_their_bytes(pf: PixelFormat)
    ensures
        pixel_name(pf) != "rgba"@ ==> sendable_bytes(pixel_name(pf)) == Some(pixel_bytes(pf) as int),
        pixel_name(pf) == "rgba"@ ==> pixel_bytes(pf) == 4,
        pf is Uyvy || pf is Uyva <==> pixel_bytes(pf) == 2,
        pf is Rgba || pf is Rgbx <==> pixel_name(pf) == "rgba"@,
{
    layout_names_differ();
}

proof fn layout_names_differ()
    ensures
        "bgra"@ != "rgba"@,
        "bgra"@ != "uyvy422"@,
        "rgba"@ != "uyvy422"@,
{
    reveal_strlit("bgra");
    reveal_strlit("rgba");
    reveal_strlit("uyvy422");
    assert("bgra"@.len() == 4);
    assert("rgba"@.len() == 4);
    assert("uyvy422"@.len() == 7);
    assert("bgra"@[0] == 'b');
    assert("rgba"@[0] == 'r');
}

/// The layout that is taken for a picture of OMT is the one with the most bytes a pixel that
/// its data can fill.
pub proof fn omt_layouts_fit(width: i32, height: i32, len: nat)
    ensures
        omt_layout(width, height, len) is None <==> width <= 0 || height <= 0 || len == 0,
        omt_layout(width, height, len) matches Some(name) ==> (sendable_bytes(name) matches Some(
            bytes,
        ) && (len >= width * height * 2 ==> len >= width * height * bytes) && (len >= width
            * height * 4 ==> bytes == 4)),
{
    layout_names_differ();
}

/// A sample is written in two bytes, the low one first; a negative one as what it lacks to
/// sixty-five thousand five hundred and thirty-six.
pub proof fn samples_can_be_read(v: i16)
    ensures
        ({
            let b = sample_bytes(v);
            let n = b[0] + 256 * b[1];
            b.len() == 2 && v == (if n >= 32_768 {
                n - 65_536
            } else {
                n
            })
        }),
{
}

/// With two channels or more, the first and the second come out side by side; with one, it
/// comes out on both sides.
pub proof fn channels_come_out_in_order(planar: Seq<i16>, channels: i32, n: int, i: int)
    requires
        0 <= i < n <= samples_per_channel(planar.len(), channels),
        planar.len() > 0,
    ensures
        ({
            let out = interleaved(planar, channels, n);
            let per = if channels > 1 {
                planar.len() as int / channels as int
            } else {
                planar.len() as int
            };
            &&& out.subrange(4 * i, 4 * i + 2) == sample_bytes(planar[i])
            &&& channels <= 1 ==> out.subrange(4 * i + 2, 4 * i + 4) == sample_bytes(planar[i])
            &&& channels > 1 ==> out.subrange(4 * i + 2, 4 * i + 4) == sample_bytes(
                planar[per + i],
            )
        }),
{
    interleaved_samples(planar, channels, n, i);
}

/// Samples are sent if and only if they fill all channels evenly; then that many go to each.
pub proof fn samples_fill_the_channels(total: int, channels: i32)
    requires
        total >= 0,
    ensures
        match sendable_samples(total, channels) {
            Ok(n) => channels > 0 && n > 0 && n * channels == total,
            Err(AudioError::NoChannels) => channels <= 0,
            Err(AudioError::Uneven) => channels > 0 && total % (channels as int) != 0,
            Err(AudioError::Empty) => channels > 0 && total == 0,
        },
{
    if channels > 0 {
        vstd::arithmetic::div_mod::lemma_fundamental_div_mod(total, channels as int);
        let q = total / (channels as int);
        assert(channels * q == q * channels) by (nonlinear_arith);
        assert(q >= 0) by (nonlinear_arith)
            requires
                total >= 0,
                channels > 0,
                q == total / (channels as int),
        ;
        if q == 0 {
            assert(channels * q == 0) by (nonlinear_arith)
                requires
                    q == 0,
            ;
        }
    }
}

// ---------------------------------------------------------------------------
// Beside a stream
// ---------------------------------------------------------------------------

/// The second reading of a source gives its pictures alone, raw, in the size and at the rate
/// that was asked for, on the standard output.
#[verifier::rlimit(60)]
pub proof fn second_readings_give_pictures(
    ffmpeg: Seq<char>,
    input: Seq<Seq<char>>,
    w: u32,
    h: u32,
    fps: u32,
)
    ensures
        ({
            let c = tee_command(ffmpeg, input, w, h, fps);
            let a = c.skip(4 + input.len() as int);
            let size = decimal(w as nat) + ":"@ + decimal(h as nat);
            &&& c[0] == ffmpeg
            &&& c.subrange(4, 4 + input.len() as int) == input
            &&& c.last() == "pipe:1"@
            &&& told(a, "-map"@) == seq!["0:v:0"@]
            &&& told(a, "-pix_fmt"@) == seq!["bgra"@]
            &&& told(a, "-f"@) == seq!["rawvideo"@]
            &&& told(a, "-vf"@).len() == 1
            &&& begins(told(a, "-vf"@)[0], "scale="@ + size + ":"@)
            &&& finishes(told(a, "-vf"@)[0], ",fps="@ + decimal(fps as nat) + ",setsar=1"@)
        }),
{
    input_flags_differ();
    reveal_with_fuel(told_from, 6);
    let c = tee_command(ffmpeg, input, w, h, fps);
    let a = c.skip(4 + input.len() as int);
    let size = decimal(w as nat) + ":"@ + decimal(h as nat);
    assert(c.subrange(4, 4 + input.len() as int) =~= input);
    assert(a.len() == 9);
    assert(a[0] == "-map"@ && a[2] == "-vf"@ && a[4] == "-pix_fmt"@ && a[6] == "-f"@);
    assert(told(a, "-map"@) =~= seq![a[1]]);
    assert(told(a, "-vf"@) =~= seq![a[3]]);
    assert(told(a, "-pix_fmt"@) =~= seq![a[5]]);
    assert(told(a, "-f"@) =~= seq![a[7]]);
    let f = a[3];
    reveal_strlit(":");
    reveal_strlit(":force_original_aspect_ratio=decrease,pad=");
    reveal_strlit(":(ow-iw)/2:(oh-ih)/2,format=bgra,fps=");
    reveal_strlit(",fps=");
    let head = "scale="@ + size + ":"@;
    assert(f.subrange(0, head.len() as int) =~= head);
    let tail = ",fps="@ + decimal(fps as nat) + ",setsar=1"@;
    assert(f.subrange(f.len() - tail.len(), f.len() as int) =~= tail);
}

/// The watchdog waits while both programs run, and what it stops is FFmpeg, never the encoder.
#[verifier::rlimit(60)]
pub proof fn watchdogs_stop_ffmpeg(parent: u32, child: u32)
    ensures
        ({
            let p = decimal(parent as nat);
            let c = decimal(child as nat);
            let u = unix_watchdog(parent, child);
            let w = windows_watchdog(parent, child);
            &&& begins(
                u,
                "while kill -0 "@ + p + " 2>/dev/null && kill -0 "@ + c
                    + " 2>/dev/null; do sleep 1; done; if kill -0 "@ + p
                    + " 2>/dev/null; then exit 0; fi; kill -TERM -"@ + c,
            )
            &&& finishes(u, "kill -KILL -"@ + c + " 2>/dev/null"@)
            &&& begins(w, "while ((Get-Process -Id "@ + p)
            &&& finishes(w, "{ Stop-Process -Id "@ + c + " -Force -EA SilentlyContinue }"@)
        }),
{
    let p = decimal(parent as nat);
    let c = decimal(child as nat);
    let u = unix_watchdog(parent, child);
    let w = windows_watchdog(parent, child);
    let a = "while kill -0 "@ + p + " 2>/dev/null && kill -0 "@ + c
        + " 2>/dev/null; do sleep 1; done; if kill -0 "@ + p
        + " 2>/dev/null; then exit 0; fi; kill -TERM -"@ + c;
    assert(u.subrange(0, a.len() as int) =~= a);
    reveal_strlit("kill -KILL -");
    reveal_strlit(" 2>/dev/null; sleep 1; kill -KILL -");
    let b = "kill -KILL -"@ + c + " 2>/dev/null"@;
    assert(u.subrange(u.len() - b.len(), u.len() as int) =~= b);
    let d = "while ((Get-Process -Id "@ + p;
    assert(w.subrange(0, d.len() as int) =~= d);
    reveal_strlit("{ Stop-Process -Id ");
    reveal_strlit(" -EA SilentlyContinue)) { Stop-Process -Id ");
    let e = "{ Stop-Process -Id "@ + c + " -Force -EA SilentlyContinue }"@;
    assert(w.subrange(w.len() - e.len(), w.len() as int) =~= e);
}

/// The stream is published only if that is wanted: captured pictures as they are, others in the
/// size of the plan, from a second reading.
pub proof fn streams_are_published_as_wanted(
    o: Option<OmtOutput>,
    wanted: bool,
    p: PlanModel,
    raw: Option<(u32, u32, &'static str)>,
)
    requires
        published(o, wanted, p, raw),
    ensures
        o is Some <==> wanted,
        o matches Some(x) ==> {
            &&& x.tee <==> raw is None
            &&& raw matches Some(f) ==> x.width == f.0 && x.height == f.1 && x.pix_fmt@ == f.2@
            &&& raw is None ==> x.width == p.width && x.height == p.height && x.pix_fmt@ == "bgra"@
        },
{
}

} // verus!
