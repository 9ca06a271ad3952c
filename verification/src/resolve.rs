//! Which source the settings pick.
use vstd::prelude::*;
use vstd::string::*;

use crate::avf_modes::AvfMode;
use crate::device_scanner::{device_models, Device, DeviceList, DeviceModel};
use crate::number::{decimal, decimal_int, show, show_signed};
use crate::scan::{begins, starts_with};
use crate::snapshot::{SelectionModel, SourceSelection};
use crate::sources::{
    avfoundation, avfoundation_model, dshow_capture, dshow_model, gdigrab_desktop, gdigrab_model,
    ndi, ndi_model, omt, omt_model, or_default, pipe, pipe_model, rtmp_listen, rtmp_listen_model,
    size_text, srt_listen, srt_listen_model, show_size, test_pattern, test_pattern_model, Platform,
    Source, SourceModel,
};
use crate::text::{cat3, cat7, same};

verus! {

/// The place of the first device with an index.
pub open spec fn device_at(v: Seq<DeviceModel>, index: int) -> Option<int>
    decreases v.len(),
{
    if v.len() == 0 {
        None
    } else {
        match device_at(v.drop_last(), index) {
            Some(i) => Some(i),
            None => if v.last().index == index {
                Some(v.len() - 1)
            } else {
                None
            },
        }
    }
}

/// The place of the first device with a name.
pub open spec fn device_called(v: Seq<DeviceModel>, name: Seq<char>) -> Option<int>
    decreases v.len(),
{
    if v.len() == 0 {
        None
    } else {
        match device_called(v.drop_last(), name) {
            Some(i) => Some(i),
            None => if v.last().name == name {
                Some(v.len() - 1)
            } else {
                None
            },
        }
    }
}

fn find_device(v: &Vec<Device>, index: i32) -> (r: Option<usize>)
    ensures
        r is Some <==> device_at(device_models(v@), index as int) is Some,
        r matches Some(i) ==> i < v@.len() && device_at(device_models(v@), index as int) == Some(
            i as int,
        ),
{
    let ghost m = device_models(v@);
    let mut found: Option<usize> = None;
    let mut i: usize = 0;
    assert(m.take(0).len() == 0);
    while i < v.len()
        invariant
            i <= v@.len(),
            m == device_models(v@),
            found is Some <==> device_at(m.take(i as int), index as int) is Some,
            found matches Some(k) ==> k < i && device_at(m.take(i as int), index as int) == Some(
                k as int,
            ),
        decreases v@.len() - i,
    {
        assert(m.take(i + 1).drop_last() == m.take(i as int));
        if found.is_none() && v[i].index == index {
            found = Some(i);
        }
        i += 1;
    }
    assert(m.take(i as int) == m);
    found
}

/// The index to ask for modes: that of the device with the name in a list, or the
/// given one if there is none.
pub open spec fn probe_index(devs: Seq<DeviceModel>, name: Seq<char>, fallback: i32) -> int {
    if name.len() == 0 {
        fallback as int
    } else {
        match device_called(devs, name) {
            Some(i) => devs[i].index,
            None => fallback as int,
        }
    }
}

/// The index to ask for modes, as indices shift when devices come and go.
pub fn resolve_avf_index_for_probe(devs: &DeviceList, name: &str, fallback_index: i32) -> (r: i32)
    ensures
        r == probe_index(device_models(devs.video@), name@, fallback_index),
{
    if name.is_empty() {
        return fallback_index;
    }
    let ghost m = device_models(devs.video@);
    let mut found: Option<usize> = None;
    let mut i: usize = 0;
    assert(m.take(0).len() == 0);
    while i < devs.video.len()
        invariant
            i <= devs.video@.len(),
            m == device_models(devs.video@),
            found is Some <==> device_called(m.take(i as int), name@) is Some,
            found matches Some(k) ==> k < i && device_called(m.take(i as int), name@) == Some(
                k as int,
            ),
        decreases devs.video@.len() - i,
    {
        assert(m.take(i + 1).drop_last() == m.take(i as int));
        if found.is_none() && same(devs.video[i].name.as_str(), name) {
            found = Some(i);
        }
        i += 1;
    }
    assert(m.take(i as int) == m);
    match found {
        Some(k) => devs.video[k].index,
        None => fallback_index,
    }
}

// ---------------------------------------------------------------------------
// The picked devices
// ---------------------------------------------------------------------------

/// The audio device that is captured: the picked one in custom mode, none
/// otherwise.
pub open spec fn audio_index(s: SelectionModel) -> int {
    if s.audio_mode == "custom"@ {
        s.av_audio_index as int
    } else {
        -1
    }
}

/// The name of the picked video device; its index in brackets if it is not there.
pub open spec fn video_lookup(s: SelectionModel, video: Seq<DeviceModel>) -> Seq<char> {
    match device_at(video, s.av_video_index as int) {
        Some(i) => video[i].name,
        None => "video["@ + decimal_int(s.av_video_index as int) + "]"@,
    }
}

/// The name of the captured audio device; its index in brackets if it is not
/// there; nothing if none is captured.
pub open spec fn audio_lookup(s: SelectionModel, audio: Seq<DeviceModel>) -> Seq<char> {
    match device_at(audio, audio_index(s)) {
        Some(i) => audio[i].name,
        None => if audio_index(s) >= 0 {
            "audio["@ + decimal_int(audio_index(s)) + "]"@
        } else {
            Seq::empty()
        },
    }
}

/// The name of the video device that AVFoundation shows: the kept one goes first.
pub open spec fn avf_video_name(s: SelectionModel, video: Seq<DeviceModel>) -> Seq<char> {
    or_default(s.av_video_name, video_lookup(s, video))
}

/// The name of the audio device that AVFoundation shows: the kept one goes first.
pub open spec fn avf_audio_name(s: SelectionModel, audio: Seq<DeviceModel>) -> Seq<char> {
    let kept = if s.audio_mode == "custom"@ {
        s.av_audio_name
    } else {
        Seq::empty()
    };
    if kept.len() > 0 {
        kept
    } else if audio_index(s) >= 0 {
        audio_lookup(s, audio)
    } else {
        Seq::empty()
    }
}

/// A name, or nothing if it only stands for an index.
pub open spec fn real_name(name: Seq<char>, stand_in: Seq<char>) -> Seq<char> {
    if begins(name, stand_in) {
        Seq::empty()
    } else {
        name
    }
}

/// What a capture is described as.
pub open spec fn capture_description(
    video: Seq<char>,
    audio: Seq<char>,
    w: u32,
    h: u32,
    fps: u32,
) -> Seq<char> {
    video + " + "@ + or_default(audio, "no audio"@) + " @ "@ + size_text(w, h) + "/"@ + decimal(
        fps as nat,
    )
}

fn describe(video: &str, audio: &str, w: u32, h: u32, fps: u32) -> (r: String)
    ensures
        r@ == capture_description(video@, audio@, w, h, fps),
{
    let size: String = show_size(w, h);
    let rate: String = show(fps as u64);
    let shown: &str = if audio.is_empty() {
        "no audio"
    } else {
        audio
    };
    cat7(video, " + ", shown, " @ ", size.as_str(), "/", rate.as_str())
}

/// The source for the picked capture devices: AVFoundation on macOS, DirectShow or
/// the screen on Windows, colour bars elsewhere. `modes` are those of the device
/// that AVFoundation would open.
pub open spec fn capture_source(
    s: SelectionModel,
    w: u32,
    h: u32,
    fps: u32,
    platform: Platform,
    video: Seq<DeviceModel>,
    audio: Seq<DeviceModel>,
    modes: Seq<AvfMode>,
) -> SourceModel {
    match platform {
        Platform::MacOs => {
            let v = avf_video_name(s, video);
            let a = avf_audio_name(s, audio);
            avfoundation_model(
                w,
                h,
                fps,
                s.av_video_index,
                audio_index(s) as i32,
                real_name(v, "video["@),
                real_name(a, "audio["@),
                v,
                capture_description(v, a, w, h, fps),
                modes,
            )
        },
        Platform::Windows => {
            let v = video_lookup(s, video);
            let a = audio_lookup(s, audio);
            let screen = match device_at(video, s.av_video_index as int) {
                Some(i) => video[i].category == "screen"@,
                None => false,
            };
            if screen {
                gdigrab_model(w, h, fps, a, v, capture_description(v, a, w, h, fps))
            } else {
                dshow_model(w, h, fps, v, a, v, capture_description(v, a, w, h, fps))
            }
        },
        Platform::Other => test_pattern_model(w, h, fps),
    }
}

fn effective_audio_index(s: &SourceSelection) -> (r: i32)
    ensures
        r == audio_index(s@),
{
    if same(s.audio_mode.as_str(), "custom") {
        s.av_audio_index
    } else {
        -1
    }
}

fn lookup_video(s: &SourceSelection, devs: &DeviceList) -> (r: String)
    ensures
        r@ == video_lookup(s@, device_models(devs.video@)),
{
    match find_device(&devs.video, s.av_video_index) {
        Some(i) => devs.video[i].name.clone(),
        None => {
            let n: String = show_signed(s.av_video_index as i64);
            cat3("video[", n.as_str(), "]")
        },
    }
}

fn lookup_audio(s: &SourceSelection, devs: &DeviceList) -> (r: String)
    ensures
        r@ == audio_lookup(s@, device_models(devs.audio@)),
{
    let index: i32 = effective_audio_index(s);
    match find_device(&devs.audio, index) {
        Some(i) => devs.audio[i].name.clone(),
        None => if index >= 0 {
            let n: String = show_signed(index as i64);
            cat3("audio[", n.as_str(), "]")
        } else {
            String::new()
        },
    }
}

/// The name of the video device that AVFoundation would open, to ask it for its
/// modes; empty if it has none.
pub fn avf_device_name(s: &SourceSelection, devs: &DeviceList) -> (r: String)
    ensures
        r@ == real_name(avf_video_name(s@, device_models(devs.video@)), "video["@),
{
    let name: String = if s.av_video_name.as_str().is_empty() {
        lookup_video(s, devs)
    } else {
        s.av_video_name.clone()
    };
    if starts_with(name.as_str(), "video[") {
        String::new()
    } else {
        name
    }
}

/// The source for the picked capture devices.
pub fn resolve_capture_device(
    snap: &SourceSelection,
    width: u32,
    height: u32,
    fps: u32,
    platform: Platform,
    devs: &DeviceList,
    modes: &Vec<AvfMode>,
) -> (r: Source)
    ensures
        r@ == capture_source(
            snap@,
            width,
            height,
            fps,
            platform,
            device_models(devs.video@),
            device_models(devs.audio@),
            modes@,
        ),
{
    match platform {
        Platform::MacOs => {
            let v: String = if snap.av_video_name.as_str().is_empty() {
                lookup_video(snap, devs)
            } else {
                snap.av_video_name.clone()
            };
            let custom: bool = same(snap.audio_mode.as_str(), "custom");
            let index: i32 = effective_audio_index(snap);
            let a: String = if custom && !snap.av_audio_name.as_str().is_empty() {
                snap.av_audio_name.clone()
            } else if index >= 0 {
                lookup_audio(snap, devs)
            } else {
                String::new()
            };
            let v_clean: String = if starts_with(v.as_str(), "video[") {
                String::new()
            } else {
                v.clone()
            };
            let a_clean: String = if starts_with(a.as_str(), "audio[") {
                String::new()
            } else {
                a.clone()
            };
            let description: String = describe(v.as_str(), a.as_str(), width, height, fps);
            avfoundation(
                width,
                height,
                fps,
                snap.av_video_index,
                index,
                v_clean.as_str(),
                a_clean.as_str(),
                v.as_str(),
                description.as_str(),
                modes,
            )
        },
        Platform::Windows => {
            let v: String = lookup_video(snap, devs);
            let a: String = lookup_audio(snap, devs);
            let description: String = describe(v.as_str(), a.as_str(), width, height, fps);
            let screen: bool = match find_device(&devs.video, snap.av_video_index) {
                Some(i) => same(devs.video[i].category.as_str(), "screen"),
                None => false,
            };
            if screen {
                gdigrab_desktop(
                    width,
                    height,
                    fps,
                    a.as_str(),
                    v.as_str(),
                    description.as_str(),
                )
            } else {
                dshow_capture(
                    width,
                    height,
                    fps,
                    v.as_str(),
                    a.as_str(),
                    v.as_str(),
                    description.as_str(),
                )
            }
        },
        Platform::Other => test_pattern(width, height, fps),
    }
}

// ---------------------------------------------------------------------------
// The source
// ---------------------------------------------------------------------------

/// The source that the settings pick; `None` if the kind of source is not known.
pub open spec fn picked_source(
    s: SelectionModel,
    platform: Platform,
    video: Seq<DeviceModel>,
    audio: Seq<DeviceModel>,
    modes: Seq<AvfMode>,
) -> Option<SourceModel> {
    let d = s.dimensions;
    if s.source_id == "test_pattern"@ {
        Some(test_pattern_model(d.0, d.1, d.2))
    } else if s.source_id == "pipe"@ {
        Some(pipe_model(s.pipe_path))
    } else if s.source_id == "avfoundation"@ {
        Some(capture_source(s, d.0, d.1, d.2, platform, video, audio, modes))
    } else if s.source_id == "ndi"@ {
        Some(ndi_model(s.ndi_source_name))
    } else if s.source_id == "omt"@ {
        Some(omt_model(s.omt_source_name))
    } else if s.source_id == "srt_listen"@ {
        Some(
            srt_listen_model(
                s.relay_bind_host,
                s.relay_srt_port,
                s.relay_srt_latency_us,
                s.relay_srt_passphrase,
            ),
        )
    } else if s.source_id == "rtmp_listen"@ {
        Some(
            rtmp_listen_model(
                s.relay_bind_host,
                s.relay_rtmp_port,
                s.relay_rtmp_app,
                s.relay_rtmp_key,
            ),
        )
    } else {
        None
    }
}

/// The source that the settings pick; `None` if the kind of source is not known.
pub fn resolve_source(
    snap: &SourceSelection,
    platform: Platform,
    devs: &DeviceList,
    modes: &Vec<AvfMode>,
) -> (r: Option<Source>)
    ensures
        ({
            let m = picked_source(
                snap@,
                platform,
                device_models(devs.video@),
                device_models(devs.audio@),
                modes@,
            );
            (r is Some <==> m is Some) && (r matches Some(s) ==> m == Some(s@))
        }),
{
    let d: (u32, u32, u32) = snap.dimensions;
    let id: &str = snap.source_id.as_str();
    if same(id, "test_pattern") {
        Some(test_pattern(d.0, d.1, d.2))
    } else if same(id, "pipe") {
        Some(pipe(snap.pipe_path.as_str()))
    } else if same(id, "avfoundation") {
        Some(resolve_capture_device(snap, d.0, d.1, d.2, platform, devs, modes))
    } else if same(id, "ndi") {
        Some(ndi(snap.ndi_source_name.as_str()))
    } else if same(id, "omt") {
        Some(omt(snap.omt_source_name.as_str()))
    } else if same(id, "srt_listen") {
        Some(
            srt_listen(
                snap.relay_bind_host.as_str(),
                snap.relay_srt_port,
                snap.relay_srt_latency_us,
                snap.relay_srt_passphrase.as_str(),
            ),
        )
    } else if same(id, "rtmp_listen") {
        Some(
            rtmp_listen(
                snap.relay_bind_host.as_str(),
                snap.relay_rtmp_port,
                snap.relay_rtmp_app.as_str(),
                snap.relay_rtmp_key.as_str(),
            ),
        )
    } else {
        None
    }
}

} // verus!
