//! What holds of every video mode and quality level: the name of a mode says its size and its
//! rate, and a better level, a larger picture or a faster one never gets less.
use vstd::prelude::*;
use vstd::string::*;

use crate::number::decimal;
use crate::services::lookup;
use crate::settings::video_modes;
use crate::snapshot::{
    active_config, highest, mode_dimensions, quality_levels, resolution_of, standard_bitrate,
    standard_config,
};
use crate::state::EncoderModel;
use crate::xml::{
    config_for, default_profile, profile_named, ConfigModel, ProfileModel, ServiceModel,
};

verus! {

/// `text` is a rate in whole frames, or in whole frames and hundredths, and `fps` is the whole
/// number nearest to it.
pub open spec fn is_rate(text: Seq<char>, fps: int) -> bool {
    ||| fps >= 0 && text == decimal(fps as nat)
    ||| exists|k: nat, c: nat|
        10 <= c < 100 && text == #[trigger] (decimal(k) + "."@ + decimal(c)) && fps == (100 * k + c
            + 50) / 100
}

/// The name of a mode says its height and its rate, and the picture is as wide as sixteen
/// ninths of its height.
pub open spec fn is_told(mode: Seq<char>, d: (u32, u32, u32)) -> bool {
    &&& 9 * d.0 == 16 * d.1
    &&& exists|rate: Seq<char>| #[trigger]
        is_rate(rate, d.2 as int) && mode == decimal(d.1 as nat) + "p"@ + rate
}

proof fn numbers()
    ensures
        decimal(720) == seq!['7', '2', '0'],
        decimal(1080) == seq!['1', '0', '8', '0'],
        decimal(2160) == seq!['2', '1', '6', '0'],
        decimal(23) == seq!['2', '3'],
        decimal(24) == seq!['2', '4'],
        decimal(25) == seq!['2', '5'],
        decimal(29) == seq!['2', '9'],
        decimal(30) == seq!['3', '0'],
        decimal(50) == seq!['5', '0'],
        decimal(59) == seq!['5', '9'],
        decimal(60) == seq!['6', '0'],
        decimal(94) == seq!['9', '4'],
        decimal(97) == seq!['9', '7'],
        decimal(98) == seq!['9', '8'],
{
    reveal_with_fuel(decimal, 5);
    assert(decimal(720) =~= seq!['7', '2', '0']);
    assert(decimal(1080) =~= seq!['1', '0', '8', '0']);
    assert(decimal(2160) =~= seq!['2', '1', '6', '0']);
    assert(decimal(23) =~= seq!['2', '3']);
    assert(decimal(24) =~= seq!['2', '4']);
    assert(decimal(25) =~= seq!['2', '5']);
    assert(decimal(29) =~= seq!['2', '9']);
    assert(decimal(30) =~= seq!['3', '0']);
    assert(decimal(50) =~= seq!['5', '0']);
    assert(decimal(59) =~= seq!['5', '9']);
    assert(decimal(60) =~= seq!['6', '0']);
    assert(decimal(94) =~= seq!['9', '4']);
    assert(decimal(97) =~= seq!['9', '7']);
    assert(decimal(98) =~= seq!['9', '8']);
}

proof fn whole_rate_told(mode: Seq<char>, d: (u32, u32, u32))
    requires
        9 * d.0 == 16 * d.1,
        mode == decimal(d.1 as nat) + "p"@ + decimal(d.2 as nat),
    ensures
        is_told(mode, d),
{
    assert(is_rate(decimal(d.2 as nat), d.2 as int));
}

proof fn fine_rate_told(mode: Seq<char>, d: (u32, u32, u32), k: nat, c: nat)
    requires
        9 * d.0 == 16 * d.1,
        10 <= c < 100,
        d.2 == (100 * k + c + 50) / 100,
        mode == decimal(d.1 as nat) + "p"@ + (decimal(k) + "."@ + decimal(c)),
    ensures
        is_told(mode, d),
{
    let rate = decimal(k) + "."@ + decimal(c);
    assert(is_rate(rate, d.2 as int));
}

/// The size and the rate of every mode but `Auto` are those that its name says.
#[verifier::rlimit(60)]
pub proof fn mode_names_tell_dimensions(mode: Seq<char>)
    requires
        video_modes().contains(mode),
        mode != "Auto"@,
    ensures
        is_told(mode, mode_dimensions(mode)),
{
    numbers();
    reveal_strlit("p");
    reveal_strlit(".");
    reveal_strlit("2160p23.98");
    reveal_strlit("2160p24");
    reveal_strlit("2160p25");
    reveal_strlit("2160p29.97");
    reveal_strlit("2160p30");
    reveal_strlit("2160p50");
    reveal_strlit("2160p59.94");
    reveal_strlit("2160p60");
    reveal_strlit("1080p23.98");
    reveal_strlit("1080p24");
    reveal_strlit("1080p25");
    reveal_strlit("1080p29.97");
    reveal_strlit("1080p30");
    reveal_strlit("1080p50");
    reveal_strlit("1080p59.94");
    reveal_strlit("1080p60");
    reveal_strlit("720p25");
    reveal_strlit("720p30");
    reveal_strlit("720p50");
    reveal_strlit("720p60");
    let d = mode_dimensions(mode);
    large_modes(mode, d);
    middle_modes(mode, d);
    small_modes(mode, d);
}

proof fn large_modes(mode: Seq<char>, d: (u32, u32, u32))
    requires
        d == mode_dimensions(mode),
    ensures
        mode == "2160p23.98"@ || mode == "2160p24"@ || mode == "2160p25"@ || mode == "2160p29.97"@
            || mode == "2160p30"@ || mode == "2160p50"@ || mode == "2160p59.94"@ || mode
            == "2160p60"@ ==> is_told(mode, d),
{
    numbers();
    reveal_strlit("p");
    reveal_strlit(".");
    reveal_strlit("2160p23.98");
    reveal_strlit("2160p24");
    reveal_strlit("2160p25");
    reveal_strlit("2160p29.97");
    reveal_strlit("2160p30");
    reveal_strlit("2160p50");
    reveal_strlit("2160p59.94");
    reveal_strlit("2160p60");
    let h = decimal(2160) + "p"@;
    if mode == "2160p23.98"@ {
        assert(mode =~= h + (decimal(23) + "."@ + decimal(98)));
        fine_rate_told(mode, d, 23, 98);
    } else if mode == "2160p29.97"@ {
        assert(mode =~= h + (decimal(29) + "."@ + decimal(97)));
        fine_rate_told(mode, d, 29, 97);
    } else if mode == "2160p59.94"@ {
        assert(mode =~= h + (decimal(59) + "."@ + decimal(94)));
        fine_rate_told(mode, d, 59, 94);
    } else if mode == "2160p24"@ {
        assert(mode =~= h + decimal(24));
        whole_rate_told(mode, d);
    } else if mode == "2160p25"@ {
        assert(mode =~= h + decimal(25));
        whole_rate_told(mode, d);
    } else if mode == "2160p30"@ {
        assert(mode =~= h + decimal(30));
        whole_rate_told(mode, d);
    } else if mode == "2160p50"@ {
        assert(mode =~= h + decimal(50));
        whole_rate_told(mode, d);
    } else if mode == "2160p60"@ {
        assert(mode =~= h + decimal(60));
        whole_rate_told(mode, d);
    }
}

proof fn middle_modes(mode: Seq<char>, d: (u32, u32, u32))
    requires
        d == mode_dimensions(mode),
    ensures
        mode == "1080p23.98"@ || mode == "1080p24"@ || mode == "1080p25"@ || mode == "1080p29.97"@
            || mode == "1080p30"@ || mode == "1080p50"@ || mode == "1080p59.94"@ || mode
            == "1080p60"@ ==> is_told(mode, d),
{
    numbers();
    reveal_strlit("p");
    reveal_strlit(".");
    reveal_strlit("2160p23.98");
    reveal_strlit("2160p24");
    reveal_strlit("2160p25");
    reveal_strlit("2160p29.97");
    reveal_strlit("2160p30");
    reveal_strlit("2160p50");
    reveal_strlit("2160p59.94");
    reveal_strlit("2160p60");
    reveal_strlit("1080p23.98");
    reveal_strlit("1080p24");
    reveal_strlit("1080p25");
    reveal_strlit("1080p29.97");
    reveal_strlit("1080p30");
    reveal_strlit("1080p50");
    reveal_strlit("1080p59.94");
    reveal_strlit("1080p60");
    reveal_strlit("720p25");
    reveal_strlit("720p30");
    reveal_strlit("720p50");
    reveal_strlit("720p60");
    let h = decimal(1080) + "p"@;
    if mode == "1080p23.98"@ {
        assert(mode[0] == '1' && mode.len() == 10);
        assert(mode =~= h + (decimal(23) + "."@ + decimal(98)));
        fine_rate_told(mode, d, 23, 98);
    } else if mode == "1080p29.97"@ {
        assert(mode[0] == '1' && mode[5] == '2' && mode[6] == '9' && mode.len() == 10);
        assert(mode =~= h + (decimal(29) + "."@ + decimal(97)));
        fine_rate_told(mode, d, 29, 97);
    } else if mode == "1080p59.94"@ {
        assert(mode[0] == '1' && mode[5] == '5' && mode.len() == 10);
        assert(mode =~= h + (decimal(59) + "."@ + decimal(94)));
        fine_rate_told(mode, d, 59, 94);
    } else if mode == "1080p24"@ {
        assert(mode[0] == '1');
        assert(mode =~= h + decimal(24));
        whole_rate_told(mode, d);
    } else if mode == "1080p25"@ {
        assert(mode[0] == '1' && mode[6] == '5' && mode.len() == 7);
        assert(mode =~= h + decimal(25));
        whole_rate_told(mode, d);
    } else if mode == "1080p30"@ {
        assert(mode[0] == '1' && mode[5] == '3' && mode.len() == 7);
        assert(mode =~= h + decimal(30));
        whole_rate_told(mode, d);
    } else if mode == "1080p50"@ {
        assert(mode[0] == '1' && mode[5] == '5' && mode.len() == 7);
        assert(mode =~= h + decimal(50));
        whole_rate_told(mode, d);
    } else if mode == "1080p60"@ {
        assert(mode[0] == '1' && mode[5] == '6' && mode.len() == 7);
        assert(mode =~= h + decimal(60));
        whole_rate_told(mode, d);
    }
}

proof fn small_modes(mode: Seq<char>, d: (u32, u32, u32))
    requires
        d == mode_dimensions(mode),
    ensures
        mode == "720p25"@ || mode == "720p30"@ || mode == "720p50"@ || mode == "720p60"@ ==> is_told(
            mode,
            d,
        ),
{
    numbers();
    reveal_strlit("p");
    reveal_strlit("2160p23.98");
    reveal_strlit("2160p24");
    reveal_strlit("2160p25");
    reveal_strlit("2160p29.97");
    reveal_strlit("2160p30");
    reveal_strlit("2160p50");
    reveal_strlit("2160p59.94");
    reveal_strlit("2160p60");
    reveal_strlit("1080p23.98");
    reveal_strlit("1080p24");
    reveal_strlit("1080p25");
    reveal_strlit("1080p50");
    reveal_strlit("1080p59.94");
    reveal_strlit("1080p60");
    reveal_strlit("720p25");
    reveal_strlit("720p30");
    reveal_strlit("720p50");
    reveal_strlit("720p60");
    let h = decimal(720) + "p"@;
    if mode == "720p25"@ {
        assert(mode.len() == 6);
        assert(mode =~= h + decimal(25));
        whole_rate_told(mode, d);
    } else if mode == "720p30"@ {
        assert(mode.len() == 6 && mode[4] == '3');
        assert(mode =~= h + decimal(30));
        whole_rate_told(mode, d);
    } else if mode == "720p50"@ {
        assert(mode.len() == 6 && mode[4] == '5');
        assert(mode =~= h + decimal(50));
        whole_rate_told(mode, d);
    } else if mode == "720p60"@ {
        assert(mode.len() == 6 && mode[4] == '6');
        assert(mode =~= h + decimal(60));
        whole_rate_told(mode, d);
    }
}

/// `Auto`, and whatever is no mode, is taken for 1080p30.
pub proof fn other_modes_count_as_1080p30(mode: Seq<char>)
    requires
        mode == "Auto"@ || !video_modes().contains(mode),
    ensures
        mode_dimensions(mode) == mode_dimensions("1080p30"@),
        mode_dimensions(mode) == (1920u32, 1080u32, 30u32),
{
    let v = video_modes();
    assert(v[1] == "2160p23.98"@ && v[2] == "2160p24"@ && v[3] == "2160p25"@ && v[4]
        == "2160p29.97"@ && v[5] == "2160p30"@ && v[6] == "2160p50"@ && v[7] == "2160p59.94"@
        && v[8] == "2160p60"@ && v[9] == "1080p23.98"@ && v[10] == "1080p24"@ && v[11]
        == "1080p25"@ && v[12] == "1080p29.97"@ && v[13] == "1080p30"@ && v[14] == "1080p50"@
        && v[15] == "1080p59.94"@ && v[16] == "1080p60"@ && v[17] == "720p25"@ && v[18]
        == "720p30"@ && v[19] == "720p50"@ && v[20] == "720p60"@);
    reveal_strlit("Auto");
    reveal_strlit("1080p30");
    reveal_strlit("2160p23.98");
    reveal_strlit("2160p24");
    reveal_strlit("2160p25");
    reveal_strlit("2160p29.97");
    reveal_strlit("2160p30");
    reveal_strlit("2160p50");
    reveal_strlit("2160p59.94");
    reveal_strlit("2160p60");
    reveal_strlit("1080p23.98");
    reveal_strlit("1080p24");
    reveal_strlit("1080p25");
    reveal_strlit("1080p50");
    reveal_strlit("1080p59.94");
    reveal_strlit("1080p60");
    reveal_strlit("720p25");
    reveal_strlit("720p30");
    reveal_strlit("720p50");
    reveal_strlit("720p60");
    let t = "1080p30"@;
    assert("Auto"@.len() == 4);
    assert(t.len() == 7 && t[0] == '1' && t[5] == '3');
}

// ---------------------------------------------------------------------------
// Bitrates
// ---------------------------------------------------------------------------

/// The standard bitrates, in bits per second, for the large picture and for the small one: high,
/// medium and low at more than thirty frames a second, then the same at thirty or fewer.
pub open spec fn bitrate_table(large: bool) -> Seq<int> {
    if large {
        seq![9_000_000int, 7_600_000, 4_500_000, 6_000_000, 4_500_000, 3_000_000]
    } else {
        seq![6_000_000int, 4_500_000, 2_250_000, 4_000_000, 3_000_000, 1_500_000]
    }
}

/// Where no service is picked, each quality level has its bitrate in every mode, and what is
/// active is the picked level, or the highest if the level is none of the three. The encoding
/// has the rate of the mode and the codec of the settings.
#[verifier::rlimit(60)]
pub proof fn standard_encodings_are_in_the_table(s: EncoderModel)
    requires
        lookup(s.services, s.current_service_name) is None,
    ensures
        ({
            let d = mode_dimensions(s.video_mode);
            let t = bitrate_table(d.1 == 1080);
            let at: int = if d.2 > 30 {
                0
            } else {
                3
            };
            let level: int = if s.quality_level == "Streaming Medium"@ {
                1
            } else if s.quality_level == "Streaming Low"@ {
                2
            } else {
                0
            };
            &&& quality_levels(s).len() == 3
            &&& quality_levels(s)[0] == ("Streaming High"@, t[at] as u64)
            &&& quality_levels(s)[1] == ("Streaming Medium"@, t[at + 1] as u64)
            &&& quality_levels(s)[2] == ("Streaming Low"@, t[at + 2] as u64)
            &&& active_config(s) matches Some(c) && {
                &&& c.bitrate == t[at + level]
                &&& c.fps == d.2
                &&& c.resolution == (if d.1 == 1080 {
                    "1080p"@
                } else {
                    "720p"@
                })
                &&& c.codec == (if s.video_codec == "h264"@ {
                    "H264"@
                } else {
                    "H265"@
                })
                &&& c.audio_bitrate == 128_000
                &&& c.keyframe_interval == 2
            }
        }),
{
    levels_differ();
}

proof fn levels_differ()
    ensures
        "Streaming High"@ != "Streaming Medium"@,
        "Streaming High"@ != "Streaming Low"@,
        "Streaming Medium"@ != "Streaming Low"@,
        "1080p"@ != "720p"@,
{
    reveal_strlit("Streaming High");
    reveal_strlit("Streaming Medium");
    reveal_strlit("Streaming Low");
    reveal_strlit("1080p");
    reveal_strlit("720p");
    assert("Streaming High"@.len() == 14 && "Streaming Medium"@.len() == 16);
    assert("Streaming Low"@.len() == 13 && "1080p"@.len() == 5 && "720p"@.len() == 4);
}

/// A better level never gets less than a worse one.
pub proof fn better_levels_get_more(mode: Seq<char>)
    ensures
        ({
            let r = resolution_of(mode);
            let f = mode_dimensions(mode).2;
            standard_bitrate("Streaming High"@, r, f) matches Some(a) && standard_bitrate(
                "Streaming Medium"@,
                r,
                f,
            ) matches Some(b) && standard_bitrate("Streaming Low"@, r, f) matches Some(c) && a > b
                && b > c && c > 0
        }),
{
    levels_differ();
}

/// A rate that a mode can have.
pub open spec fn is_whole_rate(fps: u32) -> bool {
    fps == 24 || fps == 25 || fps == 30 || fps == 50 || fps == 60
}

/// A larger picture always gets more than a smaller one, and a faster one never less than a
/// slower.
pub proof fn larger_and_faster_pictures_get_more(level: Seq<char>, fast: u32, slow: u32)
    requires
        fast >= slow,
        is_whole_rate(fast),
        is_whole_rate(slow),
        level == "Streaming High"@ || level == "Streaming Medium"@ || level == "Streaming Low"@,
    ensures
        standard_bitrate(level, "1080p"@, fast) matches Some(a) && standard_bitrate(
            level,
            "1080p"@,
            slow,
        ) matches Some(b) && standard_bitrate(level, "720p"@, fast) matches Some(c)
            && standard_bitrate(level, "720p"@, slow) matches Some(d) && a >= b && c >= d && a > c
            && b > d,
{
    levels_differ();
}

/// The rates that have a standard bitrate are those that a mode can have.
pub proof fn every_rate_of_a_mode_has_a_bitrate(mode: Seq<char>, fps: u32)
    ensures
        is_whole_rate(mode_dimensions(mode).2),
        standard_bitrate("Streaming High"@, "1080p"@, fps) is Some <==> is_whole_rate(fps),
{
    levels_differ();
}

// ---------------------------------------------------------------------------
// The encoding of a service
// ---------------------------------------------------------------------------

proof fn highest_is_highest(v: Seq<ConfigModel>)
    requires
        v.len() > 0,
    ensures
        0 <= highest(v) < v.len(),
        forall|i: int| 0 <= i < v.len() ==> (#[trigger] v[i]).bitrate <= v[highest(v)].bitrate,
        forall|i: int| highest(v) < i < v.len() ==> (#[trigger] v[i]).bitrate < v[highest(v)].bitrate,
    decreases v.len(),
{
    if v.len() > 1 {
        let w = v.drop_last();
        highest_is_highest(w);
        assert forall|i: int| 0 <= i < w.len() implies w[i] == #[trigger] v[i] by {}
    }
}

proof fn config_found(v: Seq<ConfigModel>, r: Seq<char>, fps: u32)
    ensures
        match config_for(v, r, fps) {
            Some(i) => 0 <= i < v.len() && v[i].resolution == r && v[i].fps == fps && forall|j: int|
                0 <= j < i ==> (#[trigger] v[j]).resolution != r || v[j].fps != fps,
            None => forall|j: int|
                0 <= j < v.len() ==> (#[trigger] v[j]).resolution != r || v[j].fps != fps,
        },
    decreases v.len(),
{
    if v.len() > 0 {
        let w = v.drop_last();
        config_found(w, r, fps);
        assert forall|j: int| 0 <= j < w.len() implies w[j] == #[trigger] v[j] by {}
    }
}

proof fn profile_found(v: Seq<ProfileModel>, name: Seq<char>)
    ensures
        match profile_named(v, name) {
            Some(i) => 0 <= i < v.len() && v[i].name == name && forall|j: int|
                0 <= j < i ==> (#[trigger] v[j]).name != name,
            None => forall|j: int| 0 <= j < v.len() ==> (#[trigger] v[j]).name != name,
        },
    decreases v.len(),
{
    if v.len() > 0 {
        let w = v.drop_last();
        profile_found(w, name);
        assert forall|j: int| 0 <= j < w.len() implies w[j] == #[trigger] v[j] by {}
    }
}

/// The place in a list of the profile that a quality level picks.
pub open spec fn is_picked(svc: ServiceModel, quality: Seq<char>, i: int) -> bool {
    let v = svc.profiles;
    &&& 0 <= i < v.len()
    &&& if exists|j: int| 0 <= j < v.len() && (#[trigger] v[j]).name == quality {
        v[i].name == quality
    } else if exists|j: int| 0 <= j < v.len() && (#[trigger] v[j]).name == svc.default_profile {
        v[i].name == svc.default_profile
    } else {
        i == 0
    }
}

/// The encoding that a picked service asks for stands in its profile with the name of the
/// quality level, or else in the one with the default name, or else in its first. It is one for
/// the resolution and the rate of the mode; if the profile has none, none of the profile has a
/// higher bitrate. Without any in the profile the standard one is active.
#[verifier::rlimit(60)]
pub proof fn services_ask_for_their_encoding(s: EncoderModel, svc: ServiceModel)
    requires
        lookup(s.services, s.current_service_name) == Some(svc),
    ensures
        svc.profiles.len() > 0 ==> exists|i: int|
            {
                let d = mode_dimensions(s.video_mode);
                let r = if d.1 == 1080 {
                    "1080p"@
                } else {
                    "720p"@
                };
                let v = svc.profiles[i].configs;
                &&& #[trigger] is_picked(svc, s.quality_level, i)
                &&& v.len() > 0 ==> exists|k: int|
                    {
                        &&& 0 <= k < v.len()
                        &&& active_config(s) == Some(#[trigger] v[k])
                        &&& (v[k].resolution == r && v[k].fps == d.2) || ((forall|j: int|
                            0 <= j < v.len() ==> (#[trigger] v[j]).resolution != r || v[j].fps
                                != d.2) && forall|j: int|
                            0 <= j < v.len() ==> (#[trigger] v[j]).bitrate <= v[k].bitrate)
                    }
                &&& v.len() == 0 ==> active_config(s) == standard_config(s)
            },
        svc.profiles.len() == 0 ==> active_config(s) == standard_config(s),
{
    profile_found(svc.profiles, s.quality_level);
    profile_found(svc.profiles, svc.default_profile);
    if svc.profiles.len() > 0 {
        let i = match profile_named(svc.profiles, s.quality_level) {
            Some(i) => i,
            None => default_profile(svc)->0,
        };
        assert(is_picked(svc, s.quality_level, i));
        let d = mode_dimensions(s.video_mode);
        let v = svc.profiles[i].configs;
        config_found(v, resolution_of(s.video_mode), d.2);
        if v.len() > 0 {
            highest_is_highest(v);
            let k = match config_for(v, resolution_of(s.video_mode), d.2) {
                Some(k) => k,
                None => highest(v),
            };
            assert(active_config(s) == Some(v[k]));
        }
    }
}

} // verus!
