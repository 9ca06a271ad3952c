//! What holds of the exchange with other devices: what one is told, it can send back; a value
//! goes to the setting of its name; and news says what the greeting said.
use vstd::prelude::*;

use crate::number::{decimal, lowered, same_ignoring_case};
use crate::protocol::{
    actions_of, after_block, answer_blocks, identity_values, leaves, news,
    preamble_blocks, relabelled, settings_read, stream_settings_values, stream_state_values,
    BlockModel, StreamAction, Todo,
};
use crate::scan::trimmed;
use crate::settings::video_modes;
use crate::snapshot::Snapshot;
use crate::state::EncoderModel;

verus! {

/// The last value that is given under a name.
pub open spec fn last_value(kvs: Seq<(Seq<char>, Seq<char>)>, key: Seq<char>) -> Option<Seq<char>>
    decreases kvs.len(),
{
    if kvs.len() == 0 {
        None
    } else if kvs.last().0 == key {
        Some(kvs.last().1)
    } else {
        last_value(kvs.drop_last(), key)
    }
}

/// The last output format that is given and known.
pub open spec fn last_mode(kvs: Seq<(Seq<char>, Seq<char>)>) -> Option<Seq<char>>
    decreases kvs.len(),
{
    if kvs.len() == 0 {
        None
    } else if kvs.last().0 == "Video Mode"@ && video_modes().contains(kvs.last().1) {
        Some(kvs.last().1)
    } else {
        last_mode(kvs.drop_last())
    }
}

proof fn last_value_is(kvs: Seq<(Seq<char>, Seq<char>)>, key: Seq<char>, i: int)
    requires
        0 <= i < kvs.len(),
        kvs[i].0 == key,
        forall|j: int| i < j < kvs.len() ==> (#[trigger] kvs[j]).0 != key,
    ensures
        last_value(kvs, key) == Some(kvs[i].1),
        key == "Video Mode"@ && video_modes().contains(kvs[i].1) ==> last_mode(kvs) == Some(
            kvs[i].1,
        ),
    decreases kvs.len(),
{
    if i < kvs.len() - 1 {
        let w = kvs.drop_last();
        assert(kvs[kvs.len() - 1].0 != key);
        assert forall|j: int| i < j < w.len() implies (#[trigger] w[j]).0 != key by {
            assert(w[j] == kvs[j]);
        }
        last_value_is(w, key, i);
    }
}

proof fn names_differ()
    ensures
        "Video Mode"@ != "Available Video Modes"@,
        "Video Mode"@ != "Current Platform"@,
        "Video Mode"@ != "Current Server"@,
        "Video Mode"@ != "Current Quality Level"@,
        "Video Mode"@ != "Stream Key"@,
        "Video Mode"@ != "Password"@,
        "Video Mode"@ != "Current URL"@,
        "Video Mode"@ != "Customizable URL"@,
        "Video Mode"@ != "Available Default Platforms"@,
        "Video Mode"@ != "Available Custom Platforms"@,
        "Video Mode"@ != "Available Servers"@,
        "Video Mode"@ != "Available Quality Levels"@,
        "Current Platform"@ != "Available Video Modes"@,
        "Current Platform"@ != "Current Server"@,
        "Current Platform"@ != "Current Quality Level"@,
        "Current Platform"@ != "Stream Key"@,
        "Current Platform"@ != "Password"@,
        "Current Platform"@ != "Current URL"@,
        "Current Platform"@ != "Customizable URL"@,
        "Current Platform"@ != "Available Default Platforms"@,
        "Current Platform"@ != "Available Custom Platforms"@,
        "Current Platform"@ != "Available Servers"@,
        "Current Platform"@ != "Available Quality Levels"@,
        "Current Quality Level"@ != "Available Video Modes"@,
        "Current Quality Level"@ != "Current Server"@,
        "Current Quality Level"@ != "Stream Key"@,
        "Current Quality Level"@ != "Password"@,
        "Current Quality Level"@ != "Current URL"@,
        "Current Quality Level"@ != "Customizable URL"@,
        "Current Quality Level"@ != "Available Default Platforms"@,
        "Current Quality Level"@ != "Available Custom Platforms"@,
        "Current Quality Level"@ != "Available Servers"@,
        "Current Quality Level"@ != "Available Quality Levels"@,
        "Stream Key"@ != "Available Video Modes"@,
        "Stream Key"@ != "Current Server"@,
        "Stream Key"@ != "Password"@,
        "Stream Key"@ != "Current URL"@,
        "Stream Key"@ != "Customizable URL"@,
        "Stream Key"@ != "Available Default Platforms"@,
        "Stream Key"@ != "Available Custom Platforms"@,
        "Stream Key"@ != "Available Servers"@,
        "Stream Key"@ != "Available Quality Levels"@,
        "Password"@ != "Available Video Modes"@,
        "Password"@ != "Current Server"@,
        "Password"@ != "Current URL"@,
        "Password"@ != "Customizable URL"@,
        "Password"@ != "Available Default Platforms"@,
        "Password"@ != "Available Custom Platforms"@,
        "Password"@ != "Available Servers"@,
        "Password"@ != "Available Quality Levels"@,
        "Current Server"@ != "Available Video Modes"@,
        "Current Server"@ != "Current URL"@,
        "Current Server"@ != "Customizable URL"@,
        "Current Server"@ != "Available Default Platforms"@,
        "Current Server"@ != "Available Custom Platforms"@,
        "Current Server"@ != "Available Servers"@,
        "Current Server"@ != "Available Quality Levels"@,
{
    reveal_strlit("Video Mode");
    reveal_strlit("Current Platform");
    reveal_strlit("Current Quality Level");
    reveal_strlit("Stream Key");
    reveal_strlit("Password");
    reveal_strlit("Current Server");
    reveal_strlit("Available Video Modes");
    reveal_strlit("Current URL");
    reveal_strlit("Customizable URL");
    reveal_strlit("Available Default Platforms");
    reveal_strlit("Available Custom Platforms");
    reveal_strlit("Available Servers");
    reveal_strlit("Available Quality Levels");
    assert("Video Mode"@.len() == 10);
    assert("Current Platform"@.len() == 16);
    assert("Current Quality Level"@.len() == 21);
    assert("Stream Key"@.len() == 10);
    assert("Password"@.len() == 8);
    assert("Current Server"@.len() == 14);
    assert("Available Video Modes"@.len() == 21);
    assert("Current URL"@.len() == 11);
    assert("Customizable URL"@.len() == 16);
    assert("Available Default Platforms"@.len() == 27);
    assert("Available Custom Platforms"@.len() == 26);
    assert("Available Servers"@.len() == 17);
    assert("Available Quality Levels"@.len() == 24);
    assert("Video Mode"@[0] == 'V');
    assert("Stream Key"@[0] == 'S');
    assert("Current Platform"@[2] == 'r');
    assert("Customizable URL"@[2] == 's');
    assert("Current Quality Level"@[0] == 'C');
    assert("Available Video Modes"@[0] == 'A');
}

/// Of a block of settings each value goes to the setting of its name, the last one if there
/// are more; no other setting is touched.
pub proof fn settings_are_read_by_name(kvs: Seq<(Seq<char>, Seq<char>)>)
    ensures
        settings_read(kvs).video_mode == last_mode(kvs),
        settings_read(kvs).current_service_name == last_value(kvs, "Current Platform"@),
        settings_read(kvs).quality_level == last_value(kvs, "Current Quality Level"@),
        settings_read(kvs).stream_key == last_value(kvs, "Stream Key"@),
        settings_read(kvs).passphrase == last_value(kvs, "Password"@),
        settings_read(kvs).current_server_name == last_value(kvs, "Current Server"@),
    decreases kvs.len(),
{
    names_differ();
    if kvs.len() > 0 {
        settings_are_read_by_name(kvs.drop_last());
    }
}

/// What a device is told of the settings, it can send back: each value is read as the setting
/// that it was told as.
#[verifier::rlimit(60)]
pub proof fn told_settings_are_read_back(n: Snapshot)
    ensures
        ({
            let u = settings_read(stream_settings_values(n));
            &&& video_modes().contains(n.video_mode@) ==> u.video_mode == Some(n.video_mode@)
            &&& u.quality_level == Some(n.quality_level@)
            &&& u.stream_key == Some(n.stream_key@)
            &&& u.passphrase == Some(n.passphrase@)
            &&& u.current_server_name == Some(n.current_server_name@)
            &&& n.current_service_name@.len() > 0 ==> u.current_service_name == Some(
                n.current_service_name@,
            )
        }),
{
    names_differ();
    let v = stream_settings_values(n);
    settings_are_read_by_name(v);
    last_value_is(v, "Video Mode"@, 1);
    last_value_is(v, "Current Platform"@, 2);
    last_value_is(v, "Current Server"@, 3);
    last_value_is(v, "Current Quality Level"@, 4);
    last_value_is(v, "Stream Key"@, 5);
    last_value_is(v, "Password"@, 6);
}

/// A device is told each figure and each part of the identity under its name.
pub proof fn told_values_have_their_names(n: Snapshot)
    ensures
        last_value(stream_state_values(n), "Status"@) == Some(n.stats.status@),
        last_value(stream_state_values(n), "Bitrate"@) == Some(decimal(n.stats.bitrate as nat)),
        last_value(stream_state_values(n), "Duration"@) == Some(n.stats.duration@),
        last_value(stream_state_values(n), "Cache Used"@) == Some(
            decimal(n.stats.cache_used as nat),
        ),
        last_value(identity_values(n), "Model"@) == Some(n.model@),
        last_value(identity_values(n), "Label"@) == Some(n.label@),
        last_value(identity_values(n), "Unique ID"@) == Some(n.unique_id@),
        last_value(stream_settings_values(n), "Current URL"@) == Some(n.current_url@),
{
    figure_names_differ();
    url_name_differs();
    let a = stream_state_values(n);
    last_value_is(a, "Status"@, 0);
    last_value_is(a, "Bitrate"@, 1);
    last_value_is(a, "Duration"@, 2);
    last_value_is(a, "Cache Used"@, 3);
    let b = identity_values(n);
    last_value_is(b, "Model"@, 0);
    last_value_is(b, "Label"@, 1);
    last_value_is(b, "Unique ID"@, 2);
    last_value_is(stream_settings_values(n), "Current URL"@, 7);
}

proof fn figure_names_differ()
    ensures
        "Status"@ != "Bitrate"@,
        "Status"@ != "Duration"@,
        "Status"@ != "Cache Used"@,
        "Status"@ != "Model"@,
        "Status"@ != "Label"@,
        "Status"@ != "Unique ID"@,
        "Bitrate"@ != "Duration"@,
        "Bitrate"@ != "Cache Used"@,
        "Bitrate"@ != "Model"@,
        "Bitrate"@ != "Label"@,
        "Bitrate"@ != "Unique ID"@,
        "Duration"@ != "Cache Used"@,
        "Duration"@ != "Model"@,
        "Duration"@ != "Label"@,
        "Duration"@ != "Unique ID"@,
        "Cache Used"@ != "Model"@,
        "Cache Used"@ != "Label"@,
        "Cache Used"@ != "Unique ID"@,
        "Model"@ != "Label"@,
        "Model"@ != "Unique ID"@,
        "Label"@ != "Unique ID"@,
{
    reveal_strlit("Status");
    reveal_strlit("Bitrate");
    reveal_strlit("Duration");
    reveal_strlit("Cache Used");
    reveal_strlit("Model");
    reveal_strlit("Label");
    reveal_strlit("Unique ID");
    assert("Status"@.len() == 6);
    assert("Bitrate"@.len() == 7);
    assert("Duration"@.len() == 8);
    assert("Cache Used"@.len() == 10);
    assert("Model"@.len() == 5);
    assert("Label"@.len() == 5);
    assert("Unique ID"@.len() == 9);
    assert("Model"@[0] == 'M');
    assert("Label"@[0] == 'L');
}

proof fn url_name_differs()
    ensures
        "Current URL"@ != "Available Video Modes"@,
        "Current URL"@ != "Video Mode"@,
        "Current URL"@ != "Current Platform"@,
        "Current URL"@ != "Current Server"@,
        "Current URL"@ != "Current Quality Level"@,
        "Current URL"@ != "Stream Key"@,
        "Current URL"@ != "Password"@,
        "Current URL"@ != "Customizable URL"@,
        "Current URL"@ != "Available Default Platforms"@,
        "Current URL"@ != "Available Custom Platforms"@,
        "Current URL"@ != "Available Servers"@,
        "Current URL"@ != "Available Quality Levels"@,
{
    reveal_strlit("Current URL");
    reveal_strlit("Available Video Modes");
    reveal_strlit("Video Mode");
    reveal_strlit("Current Platform");
    reveal_strlit("Current Server");
    reveal_strlit("Current Quality Level");
    reveal_strlit("Stream Key");
    reveal_strlit("Password");
    reveal_strlit("Customizable URL");
    reveal_strlit("Available Default Platforms");
    reveal_strlit("Available Custom Platforms");
    reveal_strlit("Available Servers");
    reveal_strlit("Available Quality Levels");
    assert("Current URL"@.len() == 11);
    assert("Available Video Modes"@.len() == 21);
    assert("Video Mode"@.len() == 10);
    assert("Current Platform"@.len() == 16);
    assert("Current Server"@.len() == 14);
    assert("Current Quality Level"@.len() == 21);
    assert("Stream Key"@.len() == 10);
    assert("Password"@.len() == 8);
    assert("Customizable URL"@.len() == 16);
    assert("Available Default Platforms"@.len() == 27);
    assert("Available Custom Platforms"@.len() == 26);
    assert("Available Servers"@.len() == 17);
    assert("Available Quality Levels"@.len() == 24);
}

/// The label that is sent is the new label, the last one if there are more; nothing else of
/// the encoder changes.
pub proof fn labels_are_taken(s: EncoderModel, kvs: Seq<(Seq<char>, Seq<char>)>)
    ensures
        relabelled(s, kvs) == (EncoderModel {
            label: match last_value(kvs, "Label"@) {
                Some(v) => v,
                None => s.label,
            },
            ..s
        }),
    decreases kvs.len(),
{
    if kvs.len() > 0 {
        labels_are_taken(s, kvs.drop_last());
    }
}

/// A device that is told who the encoder is and sends it back changes nothing.
pub proof fn told_identities_change_nothing(s: EncoderModel, n: Snapshot)
    requires
        n.label@ == s.label,
    ensures
        after_block(s, BlockModel { header: "IDENTITY"@, kvs: identity_values(n) }) == s,
{
    told_values_have_their_names(n);
    labels_are_taken(s, identity_values(n));
}

/// Only an identity and settings change the encoder.
pub proof fn other_blocks_change_nothing(s: EncoderModel, b: BlockModel)
    requires
        b.header != "IDENTITY"@,
        b.header != "STREAM SETTINGS"@,
    ensures
        after_block(s, b) == s,
{
}

/// What two lists ask for is what the one asks for and then what the other does.
pub proof fn actions_add_up(a: Seq<(Seq<char>, Seq<char>)>, b: Seq<(Seq<char>, Seq<char>)>)
    ensures
        actions_of(a + b) == actions_of(a) + actions_of(b),
    decreases b.len(),
{
    if b.len() == 0 {
        assert(a + b =~= a);
        assert(actions_of(a) + actions_of(b) =~= actions_of(a));
    } else {
        actions_add_up(a, b.drop_last());
        assert((a + b).drop_last() =~= a + b.drop_last());
        assert(actions_of(a + b) =~= actions_of(a) + actions_of(b));
    }
}

/// What a device asks for is done in the order in which it asks: a start starts, a stop stops,
/// in whatever case they are written, and nothing else does anything.
pub proof fn actions_are_taken_in_order(
    kvs: Seq<(Seq<char>, Seq<char>)>,
    word: Seq<char>,
    other: (Seq<char>, Seq<char>),
)
    requires
        other.0 != "Action"@ || (lowered(trimmed(other.1)) != "start"@ && lowered(trimmed(other.1))
            != "stop"@),
    ensures
        actions_of(Seq::empty()).len() == 0,
        lowered(trimmed(word)) == "start"@ ==> actions_of(kvs.push(("Action"@, word)))
            == actions_of(kvs).push(StreamAction::Start),
        lowered(trimmed(word)) == "stop"@ ==> actions_of(kvs.push(("Action"@, word)))
            == actions_of(kvs).push(StreamAction::Stop),
        actions_of(kvs.push(other)) == actions_of(kvs),
{
    start_is_no_stop();
    assert(kvs.push(("Action"@, word)).drop_last() =~= kvs);
    assert(kvs.push(other).drop_last() =~= kvs);
}

proof fn start_is_no_stop()
    ensures
        "start"@ != "stop"@,
{
    reveal_strlit("start");
    reveal_strlit("stop");
    assert("start"@.len() == 5);
    assert("stop"@.len() == 4);
}

/// News of a part says what the greeting would say of it now, under the same header.
pub proof fn news_is_part_of_the_greeting(header: Seq<char>, n: Snapshot)
    ensures
        news(header, n) matches Some(b) ==> b.header == header && preamble_blocks(n).contains(b),
        news(header, n) is Some <==> header == "STREAM SETTINGS"@ || header == "STREAM STATE"@
            || header == "IDENTITY"@ || header == "AUDIO SETTINGS"@,
{
    let v = preamble_blocks(n);
    if header == "STREAM SETTINGS"@ {
        assert(v[6] == news(header, n)->0);
    } else if header == "STREAM STATE"@ {
        assert(v[8] == news(header, n)->0);
    } else if header == "IDENTITY"@ {
        assert(v[1] == news(header, n)->0);
    } else if header == "AUDIO SETTINGS"@ {
        assert(v[9] == news(header, n)->0);
    }
}

/// A block that is done is acknowledged; one that is not is refused, and the reason is told.
pub proof fn answers_tell_success(message: Seq<char>)
    ensures
        answer_blocks(None).len() == 1,
        answer_blocks(None)[0].header == "ACK"@,
        answer_blocks(Some(message)).len() == 2,
        answer_blocks(Some(message))[0].header == "NACK"@,
        answer_blocks(Some(message))[1].header == "ERROR"@,
        last_value(answer_blocks(Some(message))[1].kvs, "Message"@) == Some(message),
{
    last_value_is(answer_blocks(Some(message))[1].kvs, "Message"@, 0);
}

/// What is left to do after a block: nothing of a setting, the actions of a state, a reset if
/// one is asked for when shutting down.
pub proof fn blocks_leave_their_work(b: BlockModel, t: Todo)
    requires
        leaves(b, t),
    ensures
        b.header == "IDENTITY"@ || b.header == "STREAM SETTINGS"@ || b.header == "STREAM XML"@
            || b.header == "NETWORK INTERFACE 0"@ || b.header == "UI SETTINGS"@ || b.header
            == "AUDIO SETTINGS"@ ==> t is Done,
        b.header == "STREAM STATE"@ ==> (t matches Todo::Stream(a) && a@ == actions_of(b.kvs)),
        t is Stream ==> b.header == "STREAM STATE"@,
        t is Reset <==> b.header == "SHUTDOWN"@ && exists|i: int|
            0 <= i < b.kvs.len() && (#[trigger] b.kvs[i]).0 == "Action"@ && same_ignoring_case(
                trimmed(b.kvs[i].1),
                "factory reset"@,
            ),
        b.header == "SHUTDOWN"@ ==> t is Done || t is Reset,
{
    headers_differ();
}

proof fn headers_differ()
    ensures
        "IDENTITY"@ != "STREAM SETTINGS"@,
        "IDENTITY"@ != "STREAM STATE"@,
        "IDENTITY"@ != "SHUTDOWN"@,
        "IDENTITY"@ != "STREAM XML"@,
        "IDENTITY"@ != "NETWORK INTERFACE 0"@,
        "IDENTITY"@ != "UI SETTINGS"@,
        "IDENTITY"@ != "AUDIO SETTINGS"@,
        "STREAM SETTINGS"@ != "STREAM STATE"@,
        "STREAM SETTINGS"@ != "SHUTDOWN"@,
        "STREAM SETTINGS"@ != "STREAM XML"@,
        "STREAM SETTINGS"@ != "NETWORK INTERFACE 0"@,
        "STREAM SETTINGS"@ != "UI SETTINGS"@,
        "STREAM SETTINGS"@ != "AUDIO SETTINGS"@,
        "STREAM STATE"@ != "SHUTDOWN"@,
        "STREAM STATE"@ != "STREAM XML"@,
        "STREAM STATE"@ != "NETWORK INTERFACE 0"@,
        "STREAM STATE"@ != "UI SETTINGS"@,
        "STREAM STATE"@ != "AUDIO SETTINGS"@,
        "SHUTDOWN"@ != "STREAM XML"@,
        "SHUTDOWN"@ != "NETWORK INTERFACE 0"@,
        "SHUTDOWN"@ != "UI SETTINGS"@,
        "SHUTDOWN"@ != "AUDIO SETTINGS"@,
        "STREAM XML"@ != "NETWORK INTERFACE 0"@,
        "STREAM XML"@ != "UI SETTINGS"@,
        "STREAM XML"@ != "AUDIO SETTINGS"@,
        "NETWORK INTERFACE 0"@ != "UI SETTINGS"@,
        "NETWORK INTERFACE 0"@ != "AUDIO SETTINGS"@,
        "UI SETTINGS"@ != "AUDIO SETTINGS"@,
{
    reveal_strlit("IDENTITY");
    reveal_strlit("STREAM SETTINGS");
    reveal_strlit("STREAM STATE");
    reveal_strlit("SHUTDOWN");
    reveal_strlit("STREAM XML");
    reveal_strlit("NETWORK INTERFACE 0");
    reveal_strlit("UI SETTINGS");
    reveal_strlit("AUDIO SETTINGS");
    assert("IDENTITY"@.len() == 8);
    assert("STREAM SETTINGS"@.len() == 15);
    assert("STREAM STATE"@.len() == 12);
    assert("SHUTDOWN"@.len() == 8);
    assert("STREAM XML"@.len() == 10);
    assert("NETWORK INTERFACE 0"@.len() == 19);
    assert("UI SETTINGS"@.len() == 11);
    assert("AUDIO SETTINGS"@.len() == 14);
    assert("IDENTITY"@[0] == 'I');
    assert("SHUTDOWN"@[0] == 'S');
}

} // verus!
