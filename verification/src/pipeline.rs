//! How the services work together on the bus: laws that span more than one
//! service.

use crate::common::event::owner;
use crate::common::ServiceId;
use crate::common::{EventKind, MediaAction};
use crate::gateway::ClientCommand;
use crate::media::runner::media_state_kind;
use crate::media::types::title_of;
use crate::media::MediaModel;
use crate::settings::types::{validate_spec, Validation};
use crate::text::{decimal, digits_value, parse_u8_spec, trim_end_spec, trim_start_spec, unsigned_digits};
use crate::voice::Intent;
use vstd::prelude::*;
use vstd::utf8::*;

verus! {

broadcast use vstd::utf8::is_ascii_chars_encode_utf8;

/// Every command a client sends is owned by a service, and the first to
/// handle it is voice for a transcript, nav for a destination and settings
/// for a setting.
pub proof fn client_commands_reach_their_owner(command: ClientCommand)
    ensures
        owner(command.command_kind()) == Some(
            match command {
                ClientCommand::Voice { .. } => ServiceId::Voice,
                ClientCommand::SetDestination { .. } => ServiceId::Nav,
                ClientCommand::SetSetting { .. } => ServiceId::Settings,
            },
        ),
{
}

/// Every command voice publishes is owned by media, nav or settings, never by
/// voice itself, so a transcript is interpreted exactly once.
pub proof fn voice_commands_go_to_domain_services(intent: Intent)
    ensures
        owner(intent.command_kind()) is Some,
        owner(intent.command_kind()) != Some(ServiceId::Voice),
{
}

/// The setting that "mute" asks for is one the settings service accepts as
/// it is.
pub proof fn mute_is_an_accepted_setting()
    ensures
        validate_spec("volume"@, "0"@) == Validation::Accepted("0"@),
{
    reveal_strlit("0");
    reveal_strlit("volume");
    let d = "0"@;
    assert(d == seq!['0']);
    assert(decimal(0) == d);
    assert(is_ascii_chars(d));
    let b = encode_utf8(d);
    assert(b.len() == 1 && b[0] == 0x30);
    assert(trim_start_spec(d) == d);
    assert(trim_end_spec(d) == d);
    assert(unsigned_digits(b) == b);
    assert(b.drop_last().len() == 0);
    assert(digits_value(b.drop_last()) == 0);
    assert(digits_value(b) == 0);
    assert(parse_u8_spec(b) == Some(0u8));
}

/// The flow behind the "play" button: once voice turns the transcript into a
/// play command, media — with tracks loaded — starts playing and announces
/// that it plays the selected track, which it keeps.
pub proof fn play_announces_the_selected_track(m: MediaModel)
    requires
        m.wf(),
        m.playlist.len() > 0,
    ensures
        m.apply(MediaAction::Play).0.index == m.index,
        m.apply(MediaAction::Play).1 matches Ok(state) && media_state_kind(state)
            == (EventKind::MediaState { playing: true, track: title_of(m.current()) }),
{
}

} // verus!
