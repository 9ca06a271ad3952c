//! The encoders of one window, each with its own settings, stream and control port.
use vstd::prelude::*;
use vstd::string::*;

use crate::device_scanner::{
    default_audio, default_video, device_models, find_default_audio, find_default_video, Device,
    DeviceList, DeviceModel,
};
use crate::loading::{initial, no_figures};
use crate::state::{EncoderModel, EncoderState};
use crate::streamid::is_uuid_text;
use crate::supervisor::Session;

verus! {

/// The encoders of one window.
pub const TILE_COUNT: usize = 6;

/// The ports from one encoder's first control port to the next one's.
pub const PORTS_PER_TILE: u16 = 4;

/// One encoder.
#[derive(Debug)]
pub struct TileSlot {
    pub idx: u8,
    pub encoder: EncoderState,
    pub session: Session,
    /// The port of its control protocol.
    pub bmd_port: u16,
}

/// An encoder as it is at the start.
pub open spec fn is_new(e: EncoderState) -> bool {
    &&& e.valid()
    &&& e.stats@ == no_figures()
    &&& exists|u: Seq<char>, d: Seq<char>|
        is_uuid_text(u) && is_uuid_text(d) && e@ == #[trigger] initial(u, d)
}

/// `t` is the encoder at a place, as it is at the start.
pub open spec fn is_new_tile(t: TileSlot, i: int, port: u16) -> bool {
    &&& t.idx == i
    &&& t.bmd_port == port
    &&& is_new(t.encoder)
    &&& t.session.valid()
    &&& !t.session.running
    &&& !t.session.stop_requested
}

/// The encoders of one window.
#[derive(Debug)]
pub struct EncoderFleet {
    pub tiles: Vec<TileSlot>,
}

/// The first control port of the encoder at a place: the ports are apart, as far as
/// there are any.
pub open spec fn tile_port(start: u16, i: int) -> u16 {
    if start + i * PORTS_PER_TILE > u16::MAX {
        u16::MAX
    } else {
        (start + i * PORTS_PER_TILE) as u16
    }
}

/// The first control ports of the encoders.
pub fn tile_ports(start: u16) -> (r: Vec<u16>)
    ensures
        r@ == Seq::new(TILE_COUNT as nat, |i: int| tile_port(start, i)),
{
    let mut out: Vec<u16> = Vec::new();
    let mut i: usize = 0;
    while i < TILE_COUNT
        invariant
            i <= TILE_COUNT,
            out@ == Seq::new(i as nat, |j: int| tile_port(start, j)),
        decreases TILE_COUNT - i,
    {
        assert(i < 6);
        let p: u32 = start as u32 + (i as u32) * 4;
        let port: u16 = if p > 0xFFFF {
            0xFFFF
        } else {
            p as u16
        };
        out.push(port);
        i += 1;
        assert(out@ =~= Seq::new(i as nat, |j: int| tile_port(start, j)));
    }
    out
}

impl EncoderFleet {
    /// There is one encoder at each place.
    pub open spec fn valid(&self) -> bool {
        self.tiles@.len() == TILE_COUNT && forall|i: int|
            0 <= i < TILE_COUNT ==> (#[trigger] self.tiles@[i]).idx == i
                && self.tiles@[i].encoder.valid() && self.tiles@[i].session.valid()
    }

    /// New encoders with the given control ports.
    pub fn new(bmd_ports: &Vec<u16>) -> (r: EncoderFleet)
        requires
            bmd_ports@.len() == TILE_COUNT,
        ensures
            r.valid(),
            forall|i: int|
                0 <= i < TILE_COUNT ==> is_new_tile(#[trigger] r.tiles@[i], i, bmd_ports@[i]),
    {
        let mut tiles: Vec<TileSlot> = Vec::new();
        let mut i: usize = 0;
        while i < TILE_COUNT
            invariant
                i <= TILE_COUNT,
                bmd_ports@.len() == TILE_COUNT,
                tiles@.len() == i,
                forall|j: int|
                    0 <= j < i ==> is_new_tile(#[trigger] tiles@[j], j, bmd_ports@[j]),
            decreases TILE_COUNT - i,
        {
            tiles.push(
                TileSlot {
                    idx: i as u8,
                    encoder: EncoderState::new(),
                    session: Session::new(),
                    bmd_port: bmd_ports[i],
                },
            );
            i += 1;
        }
        EncoderFleet { tiles }
    }

    /// The encoder at a place, if there is one.
    pub fn tile(&self, idx: u8) -> (r: Option<&TileSlot>)
        requires
            self.valid(),
        ensures
            r is Some <==> idx < TILE_COUNT,
            r matches Some(t) ==> *t == self.tiles@[idx as int] && t.idx == idx,
    {
        if (idx as usize) < self.tiles.len() {
            Some(&self.tiles[idx as usize])
        } else {
            None
        }
    }

    /// All encoders, in order.
    pub fn tiles(&self) -> (r: &Vec<TileSlot>)
        ensures
            *r == self.tiles,
    {
        &self.tiles
    }

    /// The operator quits: every stream is stopped.
    pub fn shutdown_all(&mut self)
        ensures
            final(self).tiles@.len() == old(self).tiles@.len(),
            forall|i: int|
                0 <= i < old(self).tiles@.len() ==> (#[trigger] final(self).tiles@[i])
                    == (TileSlot {
                    session: Session { stop_requested: true, ..old(self).tiles@[i].session },
                    ..old(self).tiles@[i]
                }),
    {
        let mut i: usize = 0;
        while i < self.tiles.len()
            invariant
                i <= self.tiles@.len(),
                self.tiles@.len() == old(self).tiles@.len(),
                forall|j: int|
                    0 <= j < i ==> (#[trigger] self.tiles@[j]) == (TileSlot {
                        session: Session { stop_requested: true, ..old(self).tiles@[j].session },
                        ..old(self).tiles@[j]
                    }),
                forall|j: int|
                    i <= j < self.tiles@.len() ==> (#[trigger] self.tiles@[j]) == old(
                        self,
                    ).tiles@[j],
            decreases self.tiles@.len() - i,
        {
            self.tiles[i].session.stop();
            i += 1;
        }
    }
}

/// The encoder with the devices that are picked at the start, if there are any. A
/// missing camera is the first one; a missing microphone is none.
pub open spec fn with_default_devices(
    s: EncoderModel,
    video: Seq<DeviceModel>,
    audio: Seq<DeviceModel>,
) -> EncoderModel {
    let v = default_video(video);
    let a = default_audio(audio);
    if v is None && a is None {
        s
    } else {
        EncoderModel {
            av_video_index: match v {
                Some(i) => video[i].index as i32,
                None => 0,
            },
            av_video_name: match v {
                Some(i) => video[i].name,
                None => Seq::empty(),
            },
            av_audio_index: match a {
                Some(i) => audio[i].index as i32,
                None => -1i32 as i32,
            },
            av_audio_name: match a {
                Some(i) => audio[i].name,
                None => Seq::empty(),
            },
            ..s
        }
    }
}

/// Picks the devices at the start.
pub fn apply_default_devices_at_boot(encoder: &mut EncoderState, devs: &DeviceList)
    ensures
        final(encoder)@ == with_default_devices(
            old(encoder)@,
            device_models(devs.video@),
            device_models(devs.audio@),
        ),
        final(encoder).stats == old(encoder).stats,
{
    let v: Option<&Device> = find_default_video(devs);
    let a: Option<&Device> = find_default_audio(devs);
    if v.is_none() && a.is_none() {
        return;
    }
    let (vi, vn): (i32, String) = match v {
        Some(d) => (d.index, d.name.clone()),
        None => (0, String::new()),
    };
    let (ai, an): (i32, String) = match a {
        Some(d) => (d.index, d.name.clone()),
        None => (-1, String::new()),
    };
    encoder.apply_default_devices(vi, vn.as_str(), ai, an.as_str());
}

/// The control ports of two encoders, each with all the ports of its own, do not
/// meet, as long as there are enough ports.
pub proof fn tile_ports_are_apart(start: u16, i: int, j: int)
    requires
        0 <= i < j < TILE_COUNT,
        start + TILE_COUNT * PORTS_PER_TILE <= u16::MAX,
    ensures
        tile_port(start, i) + PORTS_PER_TILE <= tile_port(start, j),
{
}

} // verus!
