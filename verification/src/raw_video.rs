//! Raw video from the network: the format of the first frame, and what becomes of
//! each frame after it.
use vstd::prelude::*;
use vstd::string::*;

use crate::frame_pack::{pack_frame, packed};
use crate::number::{round_ratio, rounded_ratio};
use crate::text::same;

verus! {

/// How the pixels of an NDI frame are laid out.
#[derive(Clone, Copy, Debug, PartialEq, Eq, Structural)]
pub enum PixelFormat {
    Bgra,
    Bgrx,
    Rgba,
    Rgbx,
    Uyvy,
    Uyva,
    /// Any other layout.
    Other,
}

/// FFmpeg's name for a layout; that of four bytes from blue to alpha for one that
/// has none here.
pub open spec fn pixel_name(pf: PixelFormat) -> Seq<char> {
    match pf {
        PixelFormat::Bgra | PixelFormat::Bgrx | PixelFormat::Other => "bgra"@,
        PixelFormat::Rgba | PixelFormat::Rgbx => "rgba"@,
        PixelFormat::Uyvy | PixelFormat::Uyva => "uyvy422"@,
    }
}

/// FFmpeg's name for a layout.
pub fn pix_fmt_for_ffmpeg(pf: PixelFormat) -> (r: &'static str)
    ensures
        r@ == pixel_name(pf),
{
    match pf {
        PixelFormat::Bgra | PixelFormat::Bgrx | PixelFormat::Other => "bgra",
        PixelFormat::Rgba | PixelFormat::Rgbx => "rgba",
        PixelFormat::Uyvy | PixelFormat::Uyva => "uyvy422",
    }
}

/// The bytes that a pixel takes.
pub open spec fn pixel_bytes(pf: PixelFormat) -> nat {
    match pf {
        PixelFormat::Uyvy | PixelFormat::Uyva => 2,
        _ => 4,
    }
}

/// The bytes that a pixel takes.
pub fn bytes_per_pixel(pf: PixelFormat) -> (r: usize)
    ensures
        r == pixel_bytes(pf),
{
    match pf {
        PixelFormat::Uyvy | PixelFormat::Uyva => 2,
        _ => 4,
    }
}

/// A frame rate as a whole number; thirty if it has no denominator.
pub open spec fn whole_rate(num: u32, den: u32) -> u32 {
    if den == 0 {
        30
    } else {
        rounded_ratio(num as nat, den as nat) as u32
    }
}

fn to_whole_rate(num: u32, den: u32) -> (r: u32)
    ensures
        r == whole_rate(num, den),
{
    if den == 0 {
        30
    } else {
        round_ratio(num, den)
    }
}

/// The format of an NDI source, as FFmpeg has to be told it.
#[derive(Clone, Copy, Debug)]
pub struct NdiVideoFormat {
    pub width: u32,
    pub height: u32,
    pub fps_num: u32,
    pub fps_den: u32,
    /// FFmpeg's name for the layout of the pixels.
    pub ffmpeg_pix_fmt: &'static str,
}

impl NdiVideoFormat {
    /// The frame rate as a whole number.
    pub fn fps(&self) -> (r: u32)
        ensures
            r == whole_rate(self.fps_num, self.fps_den),
    {
        to_whole_rate(self.fps_num, self.fps_den)
    }
}

/// The format of an OMT source, as FFmpeg has to be told it.
#[derive(Clone, Copy, Debug)]
pub struct OmtVideoFormat {
    pub width: u32,
    pub height: u32,
    pub fps_num: u32,
    pub fps_den: u32,
    /// FFmpeg's name for the layout of the pixels.
    pub ffmpeg_pix_fmt: &'static str,
}

impl OmtVideoFormat {
    /// The frame rate as a whole number.
    pub fn fps(&self) -> (r: u32)
        ensures
            r == whole_rate(self.fps_num, self.fps_den),
    {
        to_whole_rate(self.fps_num, self.fps_den)
    }

    /// The format as one of an NDI source.
    pub fn as_ndi(&self) -> (r: NdiVideoFormat)
        ensures
            r.width == self.width,
            r.height == self.height,
            r.fps_num == self.fps_num,
            r.fps_den == self.fps_den,
            r.ffmpeg_pix_fmt@ == self.ffmpeg_pix_fmt@,
    {
        NdiVideoFormat {
            width: self.width,
            height: self.height,
            fps_num: self.fps_num,
            fps_den: self.fps_den,
            ffmpeg_pix_fmt: self.ffmpeg_pix_fmt,
        }
    }
}

// ---------------------------------------------------------------------------
// NDI frames
// ---------------------------------------------------------------------------

/// A frame as NDI hands it out.
#[derive(Debug)]
pub struct NdiFrame {
    pub width: i32,
    pub height: i32,
    pub frame_rate_n: i32,
    pub frame_rate_d: i32,
    pub pixel_format: PixelFormat,
    /// The bytes that a row takes; `None` for compressed data.
    pub line_stride: Option<i32>,
    pub data: Vec<u8>,
}

/// `n`, or `least` if it is less.
pub open spec fn at_least(n: i32, least: int) -> int {
    if n < least {
        least
    } else {
        n as int
    }
}

fn to_at_least(n: i32, least: u32) -> (r: u32)
    requires
        least <= 1,
    ensures
        r == at_least(n, least as int),
{
    if n < least as i32 {
        least
    } else {
        n as u32
    }
}

/// The frame's row length, if it has one that can be used.
pub open spec fn usable_stride(f: NdiFrame) -> Option<usize> {
    match f.line_stride {
        Some(s) => if s > 0 {
            Some(s as usize)
        } else {
            None
        },
        None => None,
    }
}

/// The frame shows something, so that the format can be learnt from it.
pub open spec fn shows_format(f: NdiFrame) -> bool {
    f.data@.len() > 0 && f.width > 0 && f.height > 0
}

impl NdiFrame {
    /// Whether the format can be learnt from the frame: before the first picture,
    /// frames without data may come.
    pub fn shows_format(&self) -> (r: bool)
        ensures
            r == shows_format(*self),
    {
        self.data.len() > 0 && self.width > 0 && self.height > 0
    }

    /// The format of the source. A rate that is not positive is taken as one.
    pub fn format(&self) -> (r: NdiVideoFormat)
        ensures
            r.width == at_least(self.width, 0),
            r.height == at_least(self.height, 0),
            r.fps_num == at_least(self.frame_rate_n, 1),
            r.fps_den == at_least(self.frame_rate_d, 1),
            r.ffmpeg_pix_fmt@ == pixel_name(self.pixel_format),
    {
        NdiVideoFormat {
            width: to_at_least(self.width, 0),
            height: to_at_least(self.height, 0),
            fps_num: to_at_least(self.frame_rate_n, 1),
            fps_den: to_at_least(self.frame_rate_d, 1),
            ffmpeg_pix_fmt: pix_fmt_for_ffmpeg(self.pixel_format),
        }
    }

    /// The frame's data with its rows tightly packed. Compressed data, and data
    /// whose row length is not positive, is left as it is.
    pub fn pack(&self) -> (r: Vec<u8>)
        requires
            at_least(self.width, 0) * pixel_bytes(self.pixel_format) <= usize::MAX,
            at_least(self.width, 0) * pixel_bytes(self.pixel_format) * at_least(self.height, 0)
                <= usize::MAX,
        ensures
            r@ == packed(
                self.data@,
                at_least(self.width, 0) as nat,
                at_least(self.height, 0) as nat,
                pixel_bytes(self.pixel_format),
                usable_stride(*self),
            ),
    {
        let width: usize = to_at_least(self.width, 0) as usize;
        let height: usize = to_at_least(self.height, 0) as usize;
        let stride: Option<usize> = match self.line_stride {
            Some(s) => if s > 0 {
                Some(s as usize)
            } else {
                None
            },
            None => None,
        };
        pack_frame(
            self.data.as_slice(),
            width,
            height,
            bytes_per_pixel(self.pixel_format),
            stride,
        )
    }
}

/// One picture for the preview is taken out of so many frames.
pub const PREVIEW_FRAME_STRIDE: u64 = 15;

/// Whether the frame with a number, counted from zero, is taken for the preview.
pub fn is_previewed(frame: u64) -> (r: bool)
    ensures
        r == (frame % PREVIEW_FRAME_STRIDE == 0),
{
    frame % PREVIEW_FRAME_STRIDE == 0
}

/// What became of handing a frame on.
#[derive(Clone, Copy, Debug, PartialEq, Eq, Structural)]
pub enum SendOutcome {
    /// The frame was taken.
    Sent,
    /// Nobody takes frames any more.
    Stopped,
    /// There was no room: try again.
    Retry,
}

/// What the place that takes frames said.
#[derive(Clone, Copy, Debug, PartialEq, Eq, Structural)]
pub enum SendResult {
    Taken,
    Closed,
    Full,
}

/// What to do after trying to hand a frame on. While there is no room, the frame is
/// tried again unless the capture is to stop, so that it never hangs.
pub fn after_try(result: SendResult, stop: bool) -> (r: SendOutcome)
    ensures
        r == (match result {
            SendResult::Taken => SendOutcome::Sent,
            SendResult::Closed => SendOutcome::Stopped,
            SendResult::Full => if stop {
                SendOutcome::Stopped
            } else {
                SendOutcome::Retry
            },
        }),
{
    match result {
        SendResult::Taken => SendOutcome::Sent,
        SendResult::Closed => SendOutcome::Stopped,
        SendResult::Full => if stop {
            SendOutcome::Stopped
        } else {
            SendOutcome::Retry
        },
    }
}

// ---------------------------------------------------------------------------
// OMT frames
// ---------------------------------------------------------------------------

/// The format of the source, learnt from a frame's size and the length of its
/// data: it is the layout with four bytes for a pixel if there are as many, else
/// the one with two. The frame rate is not told and taken as thirty. `None` if the
/// frame shows nothing.
pub open spec fn omt_layout(width: i32, height: i32, len: nat) -> Option<Seq<char>> {
    if width <= 0 || height <= 0 || len == 0 {
        None
    } else if len >= width * height * 4 {
        Some("bgra"@)
    } else if len >= width * height * 2 {
        Some("uyvy422"@)
    } else {
        Some("bgra"@)
    }
}

/// The format of the source, learnt from a frame.
pub fn probe_omt_frame(width: i32, height: i32, len: usize) -> (r: Option<OmtVideoFormat>)
    ensures
        match omt_layout(width, height, len as nat) {
            None => r is None,
            Some(name) => r matches Some(f) && f.width == width && f.height == height && f.fps_num
                == 30 && f.fps_den == 1 && f.ffmpeg_pix_fmt@ == name,
        },
{
    if width <= 0 || height <= 0 || len == 0 {
        return None;
    }
    assert(0 <= width * height <= 0x7FFF_FFFF * 0x7FFF_FFFF) by (nonlinear_arith)
        requires
            0 < width <= 0x7FFF_FFFF,
            0 < height <= 0x7FFF_FFFF,
    ;
    let area: u128 = (width as u128) * (height as u128);
    let name: &'static str = if len as u128 >= area * 4 {
        "bgra"
    } else if len as u128 >= area * 2 {
        "uyvy422"
    } else {
        "bgra"
    };
    Some(
        OmtVideoFormat {
            width: width as u32,
            height: height as u32,
            fps_num: 30,
            fps_den: 1,
            ffmpeg_pix_fmt: name,
        },
    )
}

/// What becomes of a frame after the first.
#[derive(Clone, Copy, Debug, PartialEq, Eq, Structural)]
pub enum FrameUse {
    /// It holds no picture.
    Empty,
    /// Its size is not the one that FFmpeg was told: it is skipped.
    Resized,
    /// It is sent.
    Send,
}

/// What becomes of a frame after the first: FFmpeg cannot take one of another size.
pub fn use_of_omt_frame(format: &OmtVideoFormat, width: i32, height: i32, len: usize) -> (r:
    FrameUse)
    ensures
        r == (if len == 0 {
            FrameUse::Empty
        } else if at_least(width, 0) != format.width || at_least(height, 0) != format.height {
            FrameUse::Resized
        } else {
            FrameUse::Send
        }),
{
    if len == 0 {
        FrameUse::Empty
    } else if to_at_least(width, 0) != format.width || to_at_least(height, 0) != format.height {
        FrameUse::Resized
    } else {
        FrameUse::Send
    }
}

// ---------------------------------------------------------------------------
// Sending
// ---------------------------------------------------------------------------

/// The bytes that a pixel takes in a layout that OMT can send.
pub open spec fn sendable_bytes(pix_fmt: Seq<char>) -> Option<int> {
    if pix_fmt == "bgra"@ {
        Some(4int)
    } else if pix_fmt == "uyvy422"@ {
        Some(2int)
    } else {
        None
    }
}

/// The bytes that a row takes when OMT sends it; `None` if OMT cannot send the
/// layout.
pub fn omt_stride(pix_fmt: &str, width: i32) -> (r: Option<i32>)
    requires
        i32::MIN <= width * 4 <= i32::MAX,
    ensures
        r == (match sendable_bytes(pix_fmt@) {
            Some(n) => Some((width * n) as i32),
            None => None,
        }),
{
    if same(pix_fmt, "bgra") {
        Some(width * 4)
    } else if same(pix_fmt, "uyvy422") {
        Some(width * 2)
    } else {
        None
    }
}

/// Whether a piece of audio holds any.
pub fn has_audio(num_channels: i32, num_samples: i32) -> (r: bool)
    ensures
        r == (num_channels > 0 && num_samples > 0),
{
    num_channels > 0 && num_samples > 0
}

/// Why audio cannot be sent.
#[derive(Clone, Copy, Debug, PartialEq, Eq, Structural)]
pub enum AudioError {
    /// There is no channel.
    NoChannels,
    /// The channels do not have the same number of samples.
    Uneven,
    /// There is no sample.
    Empty,
}

/// The samples of each channel, if the audio can be sent.
pub open spec fn sendable_samples(total: int, channels: i32) -> Result<int, AudioError> {
    if channels <= 0 {
        Err(AudioError::NoChannels)
    } else if total % (channels as int) != 0 {
        Err(AudioError::Uneven)
    } else if total / (channels as int) == 0 {
        Err(AudioError::Empty)
    } else {
        Ok(total / (channels as int))
    }
}

/// The samples of each channel, if the audio can be sent.
pub fn audio_layout(total: usize, num_channels: i32) -> (r: Result<i32, AudioError>)
    requires
        total <= i32::MAX,
    ensures
        match sendable_samples(total as int, num_channels) {
            Ok(n) => r matches Ok(k) && k == n,
            Err(e) => r matches Err(f) && f == e,
        },
{
    if num_channels <= 0 {
        return Err(AudioError::NoChannels);
    }
    let t: u32 = total as u32;
    let c: u32 = num_channels as u32;
    if t % c != 0 {
        return Err(AudioError::Uneven);
    }
    let per: u32 = t / c;
    if per == 0 {
        return Err(AudioError::Empty);
    }
    assert(per <= t) by (nonlinear_arith)
        requires
            per == t / c,
            c >= 1,
    ;
    Ok(per as i32)
}

} // verus!
