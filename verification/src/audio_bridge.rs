//! Audio handed to FFmpeg over a local connection: interleaved samples of 16 bits,
//! little-endian, two channels.
use vstd::prelude::*;
use vstd::string::*;

use crate::number::{decimal, show};
use crate::text::{arg, arg_owned, args, cat3, str_texts, texts};

verus! {

/// The sample rate that FFmpeg is told.
pub const BRIDGE_SAMPLE_RATE: u32 = 48000;

/// The number of channels that FFmpeg is told.
pub const BRIDGE_CHANNELS: u32 = 2;

/// The local end that FFmpeg connects to.
#[derive(Clone, Copy, Debug)]
pub struct AudioBridge {
    pub port: u16,
}

/// The arguments with which FFmpeg reads from a bridge. Stamping the audio with the
/// time of arrival lets a card's clock drift from the source's; on the network the
/// stamps would not go with those of the video.
pub open spec fn bridge_input(port: u16, use_wallclock: bool) -> Seq<Seq<char>> {
    let stamps = if use_wallclock {
        seq!["-use_wallclock_as_timestamps"@, "1"@]
    } else {
        Seq::empty()
    };
    stamps + seq![
        "-f"@,
        "s16le"@,
        "-ar"@,
        decimal(BRIDGE_SAMPLE_RATE as nat),
        "-ac"@,
        decimal(BRIDGE_CHANNELS as nat),
        "-channel_layout"@,
        "stereo"@,
        "-i"@,
        "tcp://127.0.0.1:"@ + decimal(port as nat) + "?listen=0"@,
    ]
}

impl AudioBridge {
    /// The port that FFmpeg connects to.
    pub fn port(&self) -> (r: u16)
        ensures
            r == self.port,
    {
        self.port
    }

    /// The arguments with which FFmpeg reads from the bridge.
    pub fn ffmpeg_input_args(&self, use_wallclock: bool) -> (r: Vec<String>)
        ensures
            texts(r@) == bridge_input(self.port, use_wallclock),
    {
        let mut v: Vec<String> = Vec::new();
        if use_wallclock {
            arg(&mut v, "-use_wallclock_as_timestamps");
            arg(&mut v, "1");
        }
        args(&mut v, &["-f", "s16le", "-ar"]);
        arg_owned(&mut v, show(BRIDGE_SAMPLE_RATE as u64));
        arg(&mut v, "-ac");
        arg_owned(&mut v, show(BRIDGE_CHANNELS as u64));
        args(&mut v, &["-channel_layout", "stereo", "-i"]);
        let port: String = show(self.port as u64);
        arg_owned(&mut v, cat3("tcp://127.0.0.1:", port.as_str(), "?listen=0"));
        assert(str_texts(["-f", "s16le", "-ar"]@) =~= seq!["-f"@, "s16le"@, "-ar"@]);
        assert(str_texts(["-channel_layout", "stereo", "-i"]@) =~= seq![
            "-channel_layout"@,
            "stereo"@,
            "-i"@,
        ]);
        assert(texts(v@) =~= bridge_input(self.port, use_wallclock));
        v
    }
}

// ---------------------------------------------------------------------------
// Samples
// ---------------------------------------------------------------------------

/// The two bytes of a sample, the lower one first.
pub open spec fn sample_bytes(v: i16) -> Seq<u8> {
    let n: int = if v < 0 {
        v + 65536
    } else {
        v as int
    };
    seq![(n % 256) as u8, (n / 256) as u8]
}

/// The number of channels of a source, which has at least one.
pub open spec fn channel_count(n: i32) -> int {
    if n < 1 {
        1
    } else {
        n as int
    }
}

/// The number of samples that each channel has.
pub open spec fn samples_per_channel(total: nat, channels: i32) -> int {
    total as int / channel_count(channels)
}

/// Where the second channel starts; a source with one channel plays it twice.
pub open spec fn right_start(total: nat, channels: i32) -> int {
    if channel_count(channels) > 1 {
        samples_per_channel(total, channels)
    } else {
        0
    }
}

/// The first `n` samples of the left and the right channel, in turn. Each channel's
/// samples stand together in `planar`, channel after channel.
pub open spec fn interleaved(planar: Seq<i16>, channels: i32, n: int) -> Seq<u8>
    decreases n,
{
    if n <= 0 {
        Seq::empty()
    } else {
        interleaved(planar, channels, n - 1) + sample_bytes(planar[n - 1]) + sample_bytes(
            planar[right_start(planar.len(), channels) + n - 1],
        )
    }
}

fn push_sample(out: &mut Vec<u8>, v: i16)
    ensures
        final(out)@ == old(out)@ + sample_bytes(v),
{
    let n: u32 = if v < 0 {
        (v as i32 + 65536) as u32
    } else {
        v as u32
    };
    out.push((n % 256) as u8);
    out.push((n / 256) as u8);
    assert(out@ =~= old(out)@ + sample_bytes(v));
}

proof fn channels_lie_inside(total: nat, channels: i32, s: int)
    requires
        0 <= s < samples_per_channel(total, channels),
    ensures
        s < total,
        0 <= right_start(total, channels) + s < total,
{
    let ch = channel_count(channels);
    let per = samples_per_channel(total, channels);
    assert(per * ch <= total) by (nonlinear_arith)
        requires
            per == total as int / ch,
            ch >= 1,
    ;
    assert(per <= per * ch) by (nonlinear_arith)
        requires
            ch >= 1,
            per >= 0,
    ;
    if ch > 1 {
        assert(per + per <= per * ch) by (nonlinear_arith)
            requires
                ch >= 2,
                per >= 0,
        ;
    }
}

/// The first two channels in turn, as FFmpeg reads them: of a source with one
/// channel, that one twice; of one with more, the first two.
pub fn interleave_s16le(planar: &Vec<i16>, src_num_channels: i32) -> (r: Vec<u8>)
    ensures
        r@ == interleaved(
            planar@,
            src_num_channels,
            samples_per_channel(planar@.len(), src_num_channels),
        ),
{
    let total: usize = planar.len();
    let channels: usize = if src_num_channels < 1 {
        1
    } else {
        src_num_channels as usize
    };
    let per: usize = total / channels;
    let right: usize = if channels > 1 {
        per
    } else {
        0
    };
    let mut out: Vec<u8> = Vec::new();
    let mut s: usize = 0;
    while s < per
        invariant
            s <= per,
            total == planar@.len(),
            per == samples_per_channel(planar@.len(), src_num_channels),
            right == right_start(planar@.len(), src_num_channels),
            out@ == interleaved(planar@, src_num_channels, s as int),
        decreases per - s,
    {
        proof {
            channels_lie_inside(planar@.len(), src_num_channels, s as int);
        }
        push_sample(&mut out, planar[s]);
        push_sample(&mut out, planar[right + s]);
        s += 1;
    }
    out
}

/// Four bytes come out for each sample of a channel, and they are those of the two
/// channels at that place.
pub proof fn interleaved_samples(planar: Seq<i16>, channels: i32, n: int, s: int)
    requires
        0 <= s < n <= samples_per_channel(planar.len(), channels),
    ensures
        interleaved(planar, channels, n).len() == 4 * n,
        interleaved(planar, channels, n).subrange(4 * s, 4 * s + 2) == sample_bytes(planar[s]),
        interleaved(planar, channels, n).subrange(4 * s + 2, 4 * s + 4) == sample_bytes(
            planar[right_start(planar.len(), channels) + s],
        ),
    decreases n,
{
    interleaved_len(planar, channels, n);
    interleaved_len(planar, channels, n - 1);
    let whole = interleaved(planar, channels, n);
    if s < n - 1 {
        interleaved_samples(planar, channels, n - 1, s);
        let front = interleaved(planar, channels, n - 1);
        assert(whole.subrange(4 * s, 4 * s + 2) =~= front.subrange(4 * s, 4 * s + 2));
        assert(whole.subrange(4 * s + 2, 4 * s + 4) =~= front.subrange(4 * s + 2, 4 * s + 4));
    } else {
        assert(whole.subrange(4 * s, 4 * s + 2) =~= sample_bytes(planar[s]));
        assert(whole.subrange(4 * s + 2, 4 * s + 4) =~= sample_bytes(
            planar[right_start(planar.len(), channels) + s],
        ));
    }
}

proof fn interleaved_len(planar: Seq<i16>, channels: i32, n: int)
    requires
        0 <= n,
    ensures
        interleaved(planar, channels, n).len() == 4 * n,
    decreases n,
{
    if n > 0 {
        interleaved_len(planar, channels, n - 1);
    }
}

} // verus!
