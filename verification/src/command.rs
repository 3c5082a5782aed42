//! The remote's OSC commands and the addresses that select them.

use vstd::prelude::*;
use crate::text::same_text;

verus! {

/// The audio profiles that the remote can select in Zoom.
#[derive(Clone, Copy, Debug, PartialEq, Eq, Structural)]
pub enum AudioProfile {
    NoiseRemoval,
    Isolation,
    Original,
    LivePerformance,
}

/// The actions that the remote performs in Zoom.
#[derive(Clone, Copy, Debug, PartialEq, Eq, Structural)]
pub enum Command {
    /// Share the content of the second camera.
    StartCameraShare,
    /// Stop the current share.
    StopShare,
    /// Make the microphone muted (`true`) or unmuted (`false`).
    SetAudioMuted(bool),
    /// Make the video on (`true`) or off (`false`).
    SetVideoEnabled(bool),
    /// Select an audio profile.
    SetAudioProfile(AudioProfile),
}

/// The name of a profile, as it appears in its OSC address and in messages.
pub open spec fn spec_profile_name(profile: AudioProfile) -> Seq<char> {
    match profile {
        AudioProfile::NoiseRemoval => "noise-removal"@,
        AudioProfile::Isolation => "isolation"@,
        AudioProfile::Original => "original"@,
        AudioProfile::LivePerformance => "live-performance"@,
    }
}

/// The name of a profile, as it appears in its OSC address and in messages.
pub fn profile_name(profile: AudioProfile) -> (name: &'static str)
    ensures
        name@ == spec_profile_name(profile),
{
    match profile {
        AudioProfile::NoiseRemoval => "noise-removal",
        AudioProfile::Isolation => "isolation",
        AudioProfile::Original => "original",
        AudioProfile::LivePerformance => "live-performance",
    }
}

/// Error text for an address that names no command.
pub open spec fn unknown_command_message(address: Seq<char>) -> Seq<char> {
    "comando OSC desconhecido: "@ + address
}

/// The command that an OSC address selects: each command has its path, and
/// the first six also have a ZoomOSC-style alias.
pub open spec fn spec_execute(address: Seq<char>) -> Result<Command, Seq<char>> {
    if address == "/zoom/share/camera/start"@ || address == "/zoom/me/startCameraShare"@ {
        Ok(Command::StartCameraShare)
    } else if address == "/zoom/share/stop"@ || address == "/zoom/me/stopShare"@ {
        Ok(Command::StopShare)
    } else if address == "/zoom/audio/mute"@ || address == "/zoom/me/mute"@ {
        Ok(Command::SetAudioMuted(true))
    } else if address == "/zoom/audio/unmute"@ || address == "/zoom/me/unmute"@ {
        Ok(Command::SetAudioMuted(false))
    } else if address == "/zoom/video/on"@ || address == "/zoom/me/startVideo"@ {
        Ok(Command::SetVideoEnabled(true))
    } else if address == "/zoom/video/off"@ || address == "/zoom/me/stopVideo"@ {
        Ok(Command::SetVideoEnabled(false))
    } else if address == "/zoom/audio/profile/noise-removal"@ {
        Ok(Command::SetAudioProfile(AudioProfile::NoiseRemoval))
    } else if address == "/zoom/audio/profile/isolation"@ {
        Ok(Command::SetAudioProfile(AudioProfile::Isolation))
    } else if address == "/zoom/audio/profile/original"@ {
        Ok(Command::SetAudioProfile(AudioProfile::Original))
    } else if address == "/zoom/audio/profile/live-performance"@ {
        Ok(Command::SetAudioProfile(AudioProfile::LivePerformance))
    } else {
        Err(unknown_command_message(address))
    }
}

/// Resolves an OSC address to the command that the remote carries out, or
/// to the error text for an unknown address.
pub fn execute(command: &str) -> (res: Result<Command, String>)
    ensures
        match res {
            Ok(selected) => spec_execute(command@) == Ok::<Command, Seq<char>>(selected),
            Err(message) => spec_execute(command@) == Err::<Command, Seq<char>>(message@),
        },
{
    if same_text(command, "/zoom/share/camera/start") || same_text(command, "/zoom/me/startCameraShare") {
        Ok(Command::StartCameraShare)
    } else if same_text(command, "/zoom/share/stop") || same_text(command, "/zoom/me/stopShare") {
        Ok(Command::StopShare)
    } else if same_text(command, "/zoom/audio/mute") || same_text(command, "/zoom/me/mute") {
        Ok(Command::SetAudioMuted(true))
    } else if same_text(command, "/zoom/audio/unmute") || same_text(command, "/zoom/me/unmute") {
        Ok(Command::SetAudioMuted(false))
    } else if same_text(command, "/zoom/video/on") || same_text(command, "/zoom/me/startVideo") {
        Ok(Command::SetVideoEnabled(true))
    } else if same_text(command, "/zoom/video/off") || same_text(command, "/zoom/me/stopVideo") {
        Ok(Command::SetVideoEnabled(false))
    } else if same_text(command, "/zoom/audio/profile/noise-removal") {
        Ok(Command::SetAudioProfile(AudioProfile::NoiseRemoval))
    } else if same_text(command, "/zoom/audio/profile/isolation") {
        Ok(Command::SetAudioProfile(AudioProfile::Isolation))
    } else if same_text(command, "/zoom/audio/profile/original") {
        Ok(Command::SetAudioProfile(AudioProfile::Original))
    } else if same_text(command, "/zoom/audio/profile/live-performance") {
        Ok(Command::SetAudioProfile(AudioProfile::LivePerformance))
    } else {
        let mut message = "comando OSC desconhecido: ".to_owned();
        message.append(command);
        Err(message)
    }
}

/// The ZoomOSC-style aliases select the same commands as the paths they
/// stand for, and an address selects one of the remote's commands only if
/// it lies under `/zoom/`.
pub proof fn aliases_select_the_same_commands(address: Seq<char>)
    ensures
        spec_execute("/zoom/me/startCameraShare"@) == spec_execute("/zoom/share/camera/start"@),
        spec_execute("/zoom/me/stopShare"@) == spec_execute("/zoom/share/stop"@),
        spec_execute("/zoom/me/mute"@) == spec_execute("/zoom/audio/mute"@),
        spec_execute("/zoom/me/unmute"@) == spec_execute("/zoom/audio/unmute"@),
        spec_execute("/zoom/me/startVideo"@) == spec_execute("/zoom/video/on"@),
        spec_execute("/zoom/me/stopVideo"@) == spec_execute("/zoom/video/off"@),
        spec_execute(address) is Ok ==> "/zoom/"@.is_prefix_of(address),
{
    reveal_strlit("/zoom/");
    reveal_strlit("/zoom/share/camera/start");
    assert("/zoom/share/camera/start"@.len() == 24);
    assert("/zoom/share/camera/start"@[6] == 's' && "/zoom/share/camera/start"@[9] == 'r');
    reveal_strlit("/zoom/me/startCameraShare");
    assert("/zoom/me/startCameraShare"@.len() == 25);
    assert("/zoom/me/startCameraShare"@[6] == 'm' && "/zoom/me/startCameraShare"@[9] == 's');
    reveal_strlit("/zoom/share/stop");
    assert("/zoom/share/stop"@.len() == 16);
    assert("/zoom/share/stop"@[6] == 's' && "/zoom/share/stop"@[9] == 'r');
    reveal_strlit("/zoom/me/stopShare");
    assert("/zoom/me/stopShare"@.len() == 18);
    assert("/zoom/me/stopShare"@[6] == 'm' && "/zoom/me/stopShare"@[9] == 's');
    reveal_strlit("/zoom/audio/mute");
    assert("/zoom/audio/mute"@.len() == 16);
    assert("/zoom/audio/mute"@[6] == 'a' && "/zoom/audio/mute"@[9] == 'i');
    reveal_strlit("/zoom/me/mute");
    assert("/zoom/me/mute"@.len() == 13);
    assert("/zoom/me/mute"@[6] == 'm' && "/zoom/me/mute"@[9] == 'm');
    reveal_strlit("/zoom/audio/unmute");
    assert("/zoom/audio/unmute"@.len() == 18);
    assert("/zoom/audio/unmute"@[6] == 'a' && "/zoom/audio/unmute"@[9] == 'i');
    reveal_strlit("/zoom/me/unmute");
    assert("/zoom/me/unmute"@.len() == 15);
    assert("/zoom/me/unmute"@[6] == 'm' && "/zoom/me/unmute"@[9] == 'u');
    reveal_strlit("/zoom/video/on");
    assert("/zoom/video/on"@.len() == 14);
    assert("/zoom/video/on"@[6] == 'v' && "/zoom/video/on"@[9] == 'e');
    reveal_strlit("/zoom/me/startVideo");
    assert("/zoom/me/startVideo"@.len() == 19);
    assert("/zoom/me/startVideo"@[6] == 'm' && "/zoom/me/startVideo"@[9] == 's');
    reveal_strlit("/zoom/video/off");
    assert("/zoom/video/off"@.len() == 15);
    assert("/zoom/video/off"@[6] == 'v' && "/zoom/video/off"@[9] == 'e');
    reveal_strlit("/zoom/me/stopVideo");
    assert("/zoom/me/stopVideo"@.len() == 18);
    assert("/zoom/me/stopVideo"@[13] == 'V' && "/zoom/me/stopShare"@[13] == 'S');
    assert("/zoom/me/stopVideo"@[6] == 'm' && "/zoom/me/stopVideo"@[9] == 's');
    reveal_strlit("/zoom/audio/profile/noise-removal");
    assert("/zoom/audio/profile/noise-removal"@.len() == 33);
    assert("/zoom/audio/profile/noise-removal"@[6] == 'a' && "/zoom/audio/profile/noise-removal"@[9] == 'i');
    reveal_strlit("/zoom/audio/profile/isolation");
    assert("/zoom/audio/profile/isolation"@.len() == 29);
    assert("/zoom/audio/profile/isolation"@[6] == 'a' && "/zoom/audio/profile/isolation"@[9] == 'i');
    reveal_strlit("/zoom/audio/profile/original");
    assert("/zoom/audio/profile/original"@.len() == 28);
    assert("/zoom/audio/profile/original"@[6] == 'a' && "/zoom/audio/profile/original"@[9] == 'i');
    reveal_strlit("/zoom/audio/profile/live-performance");
    assert("/zoom/audio/profile/live-performance"@.len() == 36);
    assert("/zoom/audio/profile/live-performance"@[6] == 'a' && "/zoom/audio/profile/live-performance"@[9] == 'i');
}

} // verus!
