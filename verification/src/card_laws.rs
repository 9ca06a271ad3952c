//! What holds of every plan for a card: the picture has the size and the rate of the card's
//! mode that the settings pick.
use vstd::prelude::*;
use vstd::string::*;

use crate::command::{card_command, command};
use crate::decklink::{mode_models, ModeModel};
use crate::encoder::{sets, EncodersModel};
use crate::number::{decimal, rounded_ratio};
use crate::plan::{
    machine_source, mode_coded, planned, Machine, PlanErrorModel, PlanModel,
};
use crate::scan::is_blank;
use crate::state::EncoderModel;

verus! {

/// If the search for a format code gives a place, the mode there has that code and none
/// before it has; if it gives none, no mode has it.
pub proof fn the_first_mode_with_the_code_is_found(modes: Seq<ModeModel>, code: Seq<char>)
    ensures
        match mode_coded(modes, code) {
            Some(i) => {
                &&& 0 <= i < modes.len()
                &&& modes[i].format_code == code
                &&& forall|j: int| 0 <= j < i ==> (#[trigger] modes[j]).format_code != code
            },
            None => forall|j: int|
                0 <= j < modes.len() ==> (#[trigger] modes[j]).format_code != code,
        },
    decreases modes.len(),
{
    if modes.len() > 0 {
        let w = modes.drop_last();
        the_first_mode_with_the_code_is_found(w, code);
        assert forall|j: int| 0 <= j < w.len() implies w[j] == #[trigger] modes[j] by {}
    }
}

/// A plan for a card is made for the mode of the card that has the picked format code: its
/// size is the picture's, and the rate is the nearest whole number to the mode's. The picture
/// is scaled to that size and brought to the pixel format that the card is opened with.
pub proof fn card_plans_have_the_picked_mode(s: EncoderModel, m: Machine, p: PlanModel)
    requires
        s.destination_type == "decklink"@,
        planned(s, m) == Ok::<PlanModel, PlanErrorModel>(p),
    ensures
        p.decklink_format_code == s.decklink_format_code,
        exists|i: int|
            {
                &&& 0 <= i < m.card_modes@.len()
                &&& (#[trigger] mode_models(m.card_modes@)[i]).format_code
                    == s.decklink_format_code
                &&& p.width == m.card_modes@[i].width
                &&& p.height == m.card_modes@[i].height
                &&& m.card_modes@[i].fps_den > 0 ==> -(m.card_modes@[i].fps_den as int) <= 2 * (
                p.fps * m.card_modes@[i].fps_den - m.card_modes@[i].fps_num)
                    <= m.card_modes@[i].fps_den
                &&& forall|j: int|
                    0 <= j < i ==> (#[trigger] mode_models(m.card_modes@)[j]).format_code
                        != s.decklink_format_code
            },
        p.video_filter == Some(
            "scale="@ + decimal(p.width as nat) + ":"@ + decimal(p.height as nat) + ",format="@
                + p.decklink_pixel_format,
        ),
        s.decklink_pixel_format.len() > 0 ==> p.decklink_pixel_format == s.decklink_pixel_format,
        s.decklink_pixel_format.len() == 0 ==> p.decklink_pixel_format == "uyvy422"@,
        p.decklink_device_name == s.decklink_device_name,
        p.protocol == "decklink"@,
        machine_source(s, m) == Some(p.source),
        p.audio_output_mono <==> s.audio_channels == 1,
{
    let modes = mode_models(m.card_modes@);
    the_first_mode_with_the_code_is_found(modes, s.decklink_format_code);
    let i = mode_coded(modes, s.decklink_format_code)->0;
    assert(modes[i].format_code == s.decklink_format_code);
    let n = modes[i].fps_num as int;
    let d = modes[i].fps_den as int;
    if d > 0 {
        rounding_is_near(n as nat, d as nat);
        assert(rounded_ratio(n as nat, d as nat) <= n) by {
            let k = rounded_ratio(n as nat, d as nat) as int;
            assert(k <= n) by (nonlinear_arith)
                requires
                    d > 0,
                    n >= 0,
                    2 * (k * d - n) <= d,
                    k >= 0,
            {
                if k > n {
                    assert(k * d >= (n + 1) * d) by (nonlinear_arith)
                        requires
                            k >= n + 1,
                            d > 0,
                    ;
                    assert((n + 1) * d == n * d + d) by (nonlinear_arith);
                    assert(n * d >= n) by (nonlinear_arith)
                        requires
                            d >= 1,
                            n >= 0,
                    ;
                    if n == 0 {
                        assert(k * d >= d);
                    }
                }
            }
        }
    }
}

/// A rounded ratio is the whole number that is nearest to it.
pub proof fn rounding_is_near(n: nat, d: nat)
    requires
        d > 0,
    ensures
        -(d as int) <= 2 * (rounded_ratio(n, d) * d - n) <= d,
{
    let a = 2 * n + d;
    let b = 2 * d;
    let k = a / b;
    vstd::arithmetic::div_mod::lemma_fundamental_div_mod(a as int, b as int);
    vstd::arithmetic::div_mod::lemma_mod_bound(a as int, b as int);
    assert(b * k == 2 * (k * d)) by (nonlinear_arith)
        requires
            b == 2 * d,
    ;
}

/// A plan for a card is refused only for cause: FFmpeg cannot output to cards, no card or no
/// mode is picked, the card has no mode with the picked code, or the source is not known.
/// Otherwise there is one.
pub proof fn card_plans_are_refused_for_cause(s: EncoderModel, m: Machine)
    requires
        s.destination_type == "decklink"@,
    ensures
        planned(s, m) is Ok <==> {
            &&& m.card_output
            &&& !is_blank(s.decklink_device_name)
            &&& !is_blank(s.decklink_format_code)
            &&& exists|i: int|
                0 <= i < m.card_modes@.len() && (#[trigger] mode_models(
                    m.card_modes@,
                )[i]).format_code == s.decklink_format_code
            &&& machine_source(s, m) is Some
        },
{
    the_first_mode_with_the_code_is_found(mode_models(m.card_modes@), s.decklink_format_code);
    if mode_coded(mode_models(m.card_modes@), s.decklink_format_code) is Some {
        let i = mode_coded(mode_models(m.card_modes@), s.decklink_format_code)->0;
        assert(mode_models(m.card_modes@)[i].format_code == s.decklink_format_code);
    }
}

/// The command for a card reads the source, filters it as the plan says, and outputs to the
/// card of the plan in the mode of the plan.
pub proof fn card_commands_do_the_plan(ffmpeg: Seq<char>, p: PlanModel, e: EncodersModel)
    requires
        p.protocol == "decklink"@,
    ensures
        ({
            let c = command(ffmpeg, p, e);
            &&& sets(c, "-f"@, "decklink"@)
            &&& sets(c, "-format_code"@, p.decklink_format_code)
            &&& c.last() == p.decklink_device_name
            &&& p.decklink_pixel_format.len() > 0 ==> sets(
                c,
                "-pix_fmt"@,
                p.decklink_pixel_format,
            )
            &&& p.video_filter matches Some(f) ==> sets(c, "-vf"@, f)
            &&& p.audio_filter matches Some(f) ==> sets(c, "-af"@, f)
            &&& sets(c, "-ac"@, if p.audio_output_mono {
                "1"@
            } else {
                "2"@
            })
            &&& sets(c, "-c:v"@, "wrapped_avframe"@)
            &&& sets(c, "-c:a"@, "pcm_s16le"@)
            &&& sets(c, "-ar"@, "48000"@)
            &&& c.subrange(4, 4 + p.source.args.len() as int) == p.source.args
        }),
{
    let c = card_command(ffmpeg, p);
    let n = c.len() as int;
    assert(c[n - 15] == "-c:v"@ && c[n - 14] == "wrapped_avframe"@);
    assert(c[n - 13] == "-pix_fmt"@ && c[n - 11] == "-c:a"@ && c[n - 10] == "pcm_s16le"@);
    assert(c[n - 9] == "-ar"@ && c[n - 8] == "48000"@ && c[n - 7] == "-ac"@);
    assert(c[n - 5] == "-f"@ && c[n - 4] == "decklink"@);
    assert(c[n - 3] == "-format_code"@ && c[n - 2] == p.decklink_format_code);
    let a = p.source.args.len() as int;
    if p.video_filter is Some {
        assert(c[a + 8] == "-vf"@ && c[a + 9] == p.video_filter->0);
    }
    if p.audio_filter is Some {
        assert(c[n - 17] == "-af"@ && c[n - 16] == p.audio_filter->0);
    }
    assert(c.subrange(4, 4 + a) =~= p.source.args);
}

} // verus!
