//! The decisions behind each remote command, as a state machine. The
//! application performs each action in Zoom and hands back its outcome; the
//! machine decides what comes next, until it finishes with a verdict.

use vstd::prelude::*;
use crate::command::{AudioProfile, Command};
use crate::keys::{
    KeyStroke, COMMAND_SHIFT, KEY_A, KEY_ESCAPE, KEY_RETURN, KEY_S, KEY_V, send_command_shift_a,
    send_command_shift_s, send_command_shift_v, send_escape, send_return,
};
use crate::labels::{Problem, Target};

verus! {

/// The verdict of a finished command.
#[derive(Clone, Copy, Debug, PartialEq, Eq, Structural)]
pub enum Verdict {
    /// The command was carried out.
    Success,
    /// A step of the application failed; its error is the command's error.
    StepFailed,
    /// The command failed for this reason.
    Failed(Problem),
}

/// What the application does next. Searches start at Zoom's application
/// element unless they say otherwise.
#[derive(Clone, Copy, Debug, PartialEq, Eq, Structural)]
pub enum Action {
    /// Check that the remote may use the Accessibility interface.
    RequireAccessibility,
    /// Bring Zoom to the front.
    ActivateZoom,
    /// Connect to Zoom's accessibility tree.
    ConnectZoom,
    /// Press and release a key.
    SendKey(KeyStroke),
    /// Wait this many milliseconds.
    Pause(u64),
    /// Press the first element whose text contains a label of the target.
    FindAndPress(Target),
    /// Repeat the search of the focused window and of the application until
    /// it presses something or this many milliseconds have passed.
    WaitAndPress(Target, u64),
    /// Press the first element whose title is a label of the target.
    FindExactTitleAndPress(Target),
    /// Repeat that search until it presses something or this many
    /// milliseconds have passed.
    WaitExactTitleAndPress(Target, u64),
    /// Tell whether some element's title is a label of the target.
    TreeContainsTitle(Target),
    /// Press the share button of the focused window.
    PressShareInFocusedWindow,
    /// Press a share button anywhere in the application.
    PressShareInApplication,
    /// Click an element with a label of the target in the microphone menu,
    /// retrying for this many milliseconds.
    ClickInAudioMenu(Target, u64),
    /// Tell whether the meeting window shows a label of the target, retrying
    /// for this many milliseconds.
    MeetingShows(Target, u64),
    /// Write the accessibility tree to the log, for diagnosis.
    DumpTree,
    /// The command is over.
    Finish(Verdict),
}

/// How the application's last action went.
#[derive(Clone, Copy, Debug, PartialEq, Eq, Structural)]
pub enum Outcome {
    /// The action was carried out (also what starts a command).
    Done,
    /// The action failed; the application keeps its error.
    Error,
    /// A search found (and pressed) its target, or did not.
    Found(bool),
    /// There was no focused window to search.
    NoWindow,
}

/// Where a command stands: which outcome the machine awaits.
#[derive(Clone, Copy, Debug, PartialEq, Eq, Structural)]
pub enum Stage {
    Start(Command),
    AwaitAccess(Command),
    AwaitActivate(Command),
    AwaitConnect(Command),
    AwaitShareToggle,
    AwaitMutedProbe(bool),
    AwaitUnmutedProbe(bool, bool),
    AwaitMuteToggle,
    AwaitVideoOffProbe(bool),
    AwaitVideoOnProbe(bool, bool),
    AwaitVideoToggle,
    AwaitCameraSearch,
    AwaitShortcut,
    AwaitCameraWait,
    AwaitSwitch(u8),
    SectionPause(u8),
    AwaitCameraRetry(u8),
    CameraMissing,
    CameraSettle,
    AwaitFocusedShare,
    AwaitApplicationShare,
    AwaitReturnKey,
    ReturnPause,
    AwaitSettingsEllipsis,
    AwaitSettings,
    SettingsMissing,
    SettingsPause,
    AwaitAudioSection,
    AudioSectionMissing,
    AudioSectionPause,
    AwaitLiveProfile,
    LiveProfileMissing,
    AwaitMeetingWindow(AudioProfile),
    MeetingPause(AudioProfile),
    AwaitAudioOptions(AudioProfile),
    AwaitPinControls(AudioProfile),
    PinPause(AudioProfile),
    AwaitAudioOptionsRetry(AudioProfile),
    AudioMenuMissing,
    AwaitProfileClick(AudioProfile),
    ProfileMissingDump(AudioProfile),
    ProfilePause(AudioProfile),
    AwaitMenuProbe(AudioProfile, bool),
    AwaitEscape(AudioProfile, bool),
    AwaitConfirmation(AudioProfile),
    Finished(Verdict),
}

/// The action succeeded.
pub open spec fn done(outcome: Outcome) -> bool {
    outcome == Outcome::Done
}

/// The search found its target.
pub open spec fn found(outcome: Outcome) -> bool {
    outcome == Outcome::Found(true)
}

/// Command+Shift+S.
pub open spec fn share_key() -> KeyStroke {
    KeyStroke { key_code: KEY_S, flags: COMMAND_SHIFT }
}

/// Command+Shift+A.
pub open spec fn microphone_key() -> KeyStroke {
    KeyStroke { key_code: KEY_A, flags: COMMAND_SHIFT }
}

/// Command+Shift+V.
pub open spec fn video_key() -> KeyStroke {
    KeyStroke { key_code: KEY_V, flags: COMMAND_SHIFT }
}

/// Return.
pub open spec fn return_key() -> KeyStroke {
    KeyStroke { key_code: KEY_RETURN, flags: 0 }
}

/// Escape.
pub open spec fn escape_key() -> KeyStroke {
    KeyStroke { key_code: KEY_ESCAPE, flags: 0 }
}

/// The microphone decision: with the muted state shown by Zoom (the button
/// offers to unmute) and the unmuted state shown (the button offers to
/// mute), whether the microphone key must be pressed; an error when Zoom
/// shows neither.
pub open spec fn spec_audio_decision(muted: bool, currently_muted: bool, currently_unmuted: bool) -> Result<bool, Problem> {
    if !currently_muted && !currently_unmuted {
        Err(Problem::MicrophoneStateUnknown)
    } else {
        Ok(muted != currently_muted)
    }
}

/// The video decision, as [`spec_audio_decision`] for the camera video.
pub open spec fn spec_video_decision(enabled: bool, currently_off: bool, currently_on: bool) -> Result<bool, Problem> {
    if !currently_off && !currently_on {
        Err(Problem::VideoStateUnknown)
    } else {
        Ok(enabled != currently_on)
    }
}

/// Decides what the mute and unmute commands do, given which of the two
/// microphone buttons Zoom shows: nothing when the microphone is already as
/// requested, the microphone key otherwise, and an error when Zoom shows
/// neither button.
pub fn set_audio_muted(muted: bool, currently_muted: bool, currently_unmuted: bool) -> (res: Result<Option<KeyStroke>, Problem>)
    ensures
        res == match spec_audio_decision(muted, currently_muted, currently_unmuted) {
            Ok(true) => Ok(Some(microphone_key())),
            Ok(false) => Ok(None),
            Err(problem) => Err::<Option<KeyStroke>, Problem>(problem),
        },
{
    if !currently_muted && !currently_unmuted {
        return Err(Problem::MicrophoneStateUnknown);
    }
    if muted != currently_muted {
        Ok(Some(send_command_shift_a()))
    } else {
        Ok(None)
    }
}

/// Decides what the video commands do, given which of the two video buttons
/// Zoom shows (see [`set_audio_muted`]).
pub fn set_video_enabled(enabled: bool, currently_off: bool, currently_on: bool) -> (res: Result<Option<KeyStroke>, Problem>)
    ensures
        res == match spec_video_decision(enabled, currently_off, currently_on) {
            Ok(true) => Ok(Some(video_key())),
            Ok(false) => Ok(None),
            Err(problem) => Err::<Option<KeyStroke>, Problem>(problem),
        },
{
    if !currently_off && !currently_on {
        return Err(Problem::VideoStateUnknown);
    }
    if enabled != currently_on {
        Ok(Some(send_command_shift_v()))
    } else {
        Ok(None)
    }
}

/// Finishing with a verdict.
pub open spec fn finish(verdict: Verdict) -> (Stage, Action) {
    (Stage::Finished(verdict), Action::Finish(verdict))
}

/// The first search of a command, once Zoom is connected.
pub open spec fn after_connect(command: Command) -> (Stage, Action) {
    match command {
        Command::StartCameraShare => (Stage::AwaitCameraSearch, Action::FindAndPress(Target::CameraOption)),
        Command::StopShare => (Stage::AwaitShareToggle, Action::SendKey(share_key())),
        Command::SetAudioMuted(muted) => (Stage::AwaitMutedProbe(muted), Action::TreeContainsTitle(Target::MutedMicrophone)),
        Command::SetVideoEnabled(enabled) => (Stage::AwaitVideoOffProbe(enabled), Action::TreeContainsTitle(Target::VideoOff)),
        Command::SetAudioProfile(AudioProfile::LivePerformance) => (
            Stage::AwaitSettingsEllipsis,
            Action::FindExactTitleAndPress(Target::SettingsEllipsis),
        ),
        Command::SetAudioProfile(profile) => (
            Stage::AwaitMeetingWindow(profile),
            Action::FindExactTitleAndPress(Target::MeetingWindow),
        ),
    }
}

/// What follows a toggle decision.
pub open spec fn after_decision(decision: Result<bool, Problem>, toggled: Stage, key: KeyStroke) -> (Stage, Action) {
    match decision {
        Err(problem) => finish(Verdict::Failed(problem)),
        Ok(true) => (toggled, Action::SendKey(key)),
        Ok(false) => finish(Verdict::Success),
    }
}

/// What follows the microphone menu check: the failure of a profile that
/// was not in the menu, or the check that the meeting shows the profile.
pub open spec fn after_menu(profile: AudioProfile, missing: bool) -> (Stage, Action) {
    if missing {
        finish(Verdict::Failed(Problem::ProfileNotInMenu(profile)))
    } else {
        (Stage::AwaitConfirmation(profile), Action::MeetingShows(Target::Profile(profile), 2000))
    }
}

/// The next search for the camera option after `section` presses of the
/// section switch found nothing.
pub open spec fn after_camera_retry(section: u8) -> (Stage, Action) {
    if section < 3 {
        (Stage::AwaitSwitch((section + 1) as u8), Action::FindAndPress(Target::SwitchSection))
    } else {
        (Stage::CameraMissing, Action::DumpTree)
    }
}

/// The machine's transition: from a stage and the outcome of the last
/// action, the next stage and the next action.
pub open spec fn transition(stage: Stage, outcome: Outcome) -> (Stage, Action) {
    match stage {
        Stage::Start(command) => (Stage::AwaitAccess(command), Action::RequireAccessibility),
        Stage::AwaitAccess(command) => if done(outcome) {
            (Stage::AwaitActivate(command), Action::ActivateZoom)
        } else {
            finish(Verdict::StepFailed)
        },
        Stage::AwaitActivate(command) => if !done(outcome) {
            finish(Verdict::StepFailed)
        } else if command == Command::StopShare {
            (Stage::AwaitShareToggle, Action::SendKey(share_key()))
        } else {
            (Stage::AwaitConnect(command), Action::ConnectZoom)
        },
        Stage::AwaitConnect(command) => if done(outcome) {
            after_connect(command)
        } else {
            finish(Verdict::StepFailed)
        },
        Stage::AwaitShareToggle => if done(outcome) {
            finish(Verdict::Success)
        } else {
            finish(Verdict::StepFailed)
        },
        Stage::AwaitMutedProbe(muted) => (
            Stage::AwaitUnmutedProbe(muted, found(outcome)),
            Action::TreeContainsTitle(Target::UnmutedMicrophone),
        ),
        Stage::AwaitUnmutedProbe(muted, currently_muted) => after_decision(
            spec_audio_decision(muted, currently_muted, found(outcome)),
            Stage::AwaitMuteToggle,
            microphone_key(),
        ),
        Stage::AwaitMuteToggle => if done(outcome) {
            finish(Verdict::Success)
        } else {
            finish(Verdict::StepFailed)
        },
        Stage::AwaitVideoOffProbe(enabled) => (
            Stage::AwaitVideoOnProbe(enabled, found(outcome)),
            Action::TreeContainsTitle(Target::VideoOn),
        ),
        Stage::AwaitVideoOnProbe(enabled, currently_off) => after_decision(
            spec_video_decision(enabled, currently_off, found(outcome)),
            Stage::AwaitVideoToggle,
            video_key(),
        ),
        Stage::AwaitVideoToggle => if done(outcome) {
            finish(Verdict::Success)
        } else {
            finish(Verdict::StepFailed)
        },
        Stage::AwaitCameraSearch => if found(outcome) {
            (Stage::CameraSettle, Action::Pause(250))
        } else {
            (Stage::AwaitShortcut, Action::SendKey(share_key()))
        },
        Stage::AwaitShortcut => if done(outcome) {
            (Stage::AwaitCameraWait, Action::WaitAndPress(Target::CameraOption, 2000))
        } else {
            finish(Verdict::StepFailed)
        },
        Stage::AwaitCameraWait => if found(outcome) {
            (Stage::CameraSettle, Action::Pause(250))
        } else {
            (Stage::AwaitSwitch(1), Action::FindAndPress(Target::SwitchSection))
        },
        Stage::AwaitSwitch(section) => if found(outcome) {
            (Stage::SectionPause(section), Action::Pause(350))
        } else {
            (Stage::CameraMissing, Action::DumpTree)
        },
        Stage::SectionPause(section) => (
            Stage::AwaitCameraRetry(section),
            Action::FindAndPress(Target::CameraOption),
        ),
        Stage::AwaitCameraRetry(section) => if found(outcome) {
            (Stage::CameraSettle, Action::Pause(250))
        } else {
            after_camera_retry(section)
        },
        Stage::CameraMissing => finish(Verdict::Failed(Problem::CameraOptionMissing)),
        Stage::CameraSettle => (Stage::AwaitFocusedShare, Action::PressShareInFocusedWindow),
        Stage::AwaitFocusedShare => if outcome == Outcome::NoWindow {
            finish(Verdict::Failed(Problem::ShareWindowGone))
        } else if found(outcome) {
            finish(Verdict::Success)
        } else {
            (Stage::AwaitApplicationShare, Action::PressShareInApplication)
        },
        Stage::AwaitApplicationShare => if found(outcome) {
            finish(Verdict::Success)
        } else {
            (Stage::AwaitReturnKey, Action::SendKey(return_key()))
        },
        Stage::AwaitReturnKey => if done(outcome) {
            (Stage::ReturnPause, Action::Pause(500))
        } else {
            finish(Verdict::StepFailed)
        },
        Stage::ReturnPause => finish(Verdict::Success),
        Stage::AwaitSettingsEllipsis => if found(outcome) {
            (Stage::SettingsPause, Action::Pause(500))
        } else {
            (Stage::AwaitSettings, Action::FindExactTitleAndPress(Target::Settings))
        },
        Stage::AwaitSettings => if found(outcome) {
            (Stage::SettingsPause, Action::Pause(500))
        } else {
            (Stage::SettingsMissing, Action::DumpTree)
        },
        Stage::SettingsMissing => finish(Verdict::Failed(Problem::SettingsUnavailable)),
        Stage::SettingsPause => (
            Stage::AwaitAudioSection,
            Action::WaitExactTitleAndPress(Target::AudioSection, 5000),
        ),
        Stage::AwaitAudioSection => if found(outcome) {
            (Stage::AudioSectionPause, Action::Pause(400))
        } else {
            (Stage::AudioSectionMissing, Action::DumpTree)
        },
        Stage::AudioSectionMissing => finish(Verdict::Failed(Problem::AudioSectionUnavailable)),
        Stage::AudioSectionPause => (
            Stage::AwaitLiveProfile,
            Action::WaitExactTitleAndPress(Target::Profile(AudioProfile::LivePerformance), 5000),
        ),
        Stage::AwaitLiveProfile => if found(outcome) {
            finish(Verdict::Success)
        } else {
            (Stage::LiveProfileMissing, Action::DumpTree)
        },
        Stage::LiveProfileMissing => finish(Verdict::Failed(Problem::LiveProfileUnavailable)),
        Stage::AwaitMeetingWindow(profile) => (Stage::MeetingPause(profile), Action::Pause(300)),
        Stage::MeetingPause(profile) => (
            Stage::AwaitAudioOptions(profile),
            Action::WaitAndPress(Target::AudioOptions, 1000),
        ),
        Stage::AwaitAudioOptions(profile) => if found(outcome) {
            (Stage::AwaitProfileClick(profile), Action::ClickInAudioMenu(Target::Profile(profile), 3000))
        } else {
            (Stage::AwaitPinControls(profile), Action::FindExactTitleAndPress(Target::PinControls))
        },
        Stage::AwaitPinControls(profile) => if found(outcome) {
            (Stage::PinPause(profile), Action::Pause(400))
        } else {
            (Stage::AudioMenuMissing, Action::DumpTree)
        },
        Stage::PinPause(profile) => (
            Stage::AwaitAudioOptionsRetry(profile),
            Action::WaitAndPress(Target::AudioOptions, 3000),
        ),
        Stage::AwaitAudioOptionsRetry(profile) => if found(outcome) {
            (Stage::AwaitProfileClick(profile), Action::ClickInAudioMenu(Target::Profile(profile), 3000))
        } else {
            (Stage::AudioMenuMissing, Action::DumpTree)
        },
        Stage::AudioMenuMissing => finish(Verdict::Failed(Problem::AudioMenuUnavailable)),
        Stage::AwaitProfileClick(profile) => if found(outcome) {
            (Stage::ProfilePause(profile), Action::Pause(150))
        } else {
            (Stage::ProfileMissingDump(profile), Action::DumpTree)
        },
        Stage::ProfileMissingDump(profile) => (
            Stage::AwaitMenuProbe(profile, true),
            Action::TreeContainsTitle(Target::MenuWindow),
        ),
        Stage::ProfilePause(profile) => (
            Stage::AwaitMenuProbe(profile, false),
            Action::TreeContainsTitle(Target::MenuWindow),
        ),
        Stage::AwaitMenuProbe(profile, missing) => if found(outcome) {
            (Stage::AwaitEscape(profile, missing), Action::SendKey(escape_key()))
        } else {
            after_menu(profile, missing)
        },
        Stage::AwaitEscape(profile, missing) => after_menu(profile, missing),
        Stage::AwaitConfirmation(profile) => if found(outcome) {
            finish(Verdict::Success)
        } else {
            finish(Verdict::Failed(Problem::ProfileNotConfirmed(profile)))
        },
        Stage::Finished(verdict) => finish(verdict),
    }
}

fn is_done(outcome: Outcome) -> (res: bool)
    ensures
        res == done(outcome),
{
    match outcome {
        Outcome::Done => true,
        _ => false,
    }
}

fn is_found(outcome: Outcome) -> (res: bool)
    ensures
        res == found(outcome),
{
    match outcome {
        Outcome::Found(hit) => hit,
        _ => false,
    }
}

fn finish_with(verdict: Verdict) -> (res: (Stage, Action))
    ensures
        res == finish(verdict),
{
    (Stage::Finished(verdict), Action::Finish(verdict))
}

fn next_after_connect(command: Command) -> (res: (Stage, Action))
    ensures
        res == after_connect(command),
{
    match command {
        Command::StartCameraShare => (Stage::AwaitCameraSearch, Action::FindAndPress(Target::CameraOption)),
        Command::StopShare => (Stage::AwaitShareToggle, Action::SendKey(send_command_shift_s())),
        Command::SetAudioMuted(muted) => (Stage::AwaitMutedProbe(muted), Action::TreeContainsTitle(Target::MutedMicrophone)),
        Command::SetVideoEnabled(enabled) => (Stage::AwaitVideoOffProbe(enabled), Action::TreeContainsTitle(Target::VideoOff)),
        Command::SetAudioProfile(AudioProfile::LivePerformance) => (
            Stage::AwaitSettingsEllipsis,
            Action::FindExactTitleAndPress(Target::SettingsEllipsis),
        ),
        Command::SetAudioProfile(profile) => (
            Stage::AwaitMeetingWindow(profile),
            Action::FindExactTitleAndPress(Target::MeetingWindow),
        ),
    }
}

fn next_after_decision(decision: Result<Option<KeyStroke>, Problem>, toggled: Stage) -> (res: (Stage, Action))
    ensures
        decision matches Err(problem) ==> res == finish(Verdict::Failed(problem)),
        decision matches Ok(Some(key)) ==> res == (toggled, Action::SendKey(key)),
        decision matches Ok(None) ==> res == finish(Verdict::Success),
{
    match decision {
        Err(problem) => finish_with(Verdict::Failed(problem)),
        Ok(Some(key)) => (toggled, Action::SendKey(key)),
        Ok(None) => finish_with(Verdict::Success),
    }
}

fn next_after_menu(profile: AudioProfile, missing: bool) -> (res: (Stage, Action))
    ensures
        res == after_menu(profile, missing),
{
    if missing {
        finish_with(Verdict::Failed(Problem::ProfileNotInMenu(profile)))
    } else {
        (Stage::AwaitConfirmation(profile), Action::MeetingShows(Target::Profile(profile), 2000))
    }
}

fn next_after_camera_retry(section: u8) -> (res: (Stage, Action))
    ensures
        res == after_camera_retry(section),
{
    if section < 3 {
        (Stage::AwaitSwitch(section + 1), Action::FindAndPress(Target::SwitchSection))
    } else {
        (Stage::CameraMissing, Action::DumpTree)
    }
}

/// One run of a command: the application asks for the next action with the
/// outcome of the last one until the action is `Finish`.
pub struct Workflow {
    stage: Stage,
}

impl Workflow {
    /// The stage the command is in.
    pub closed spec fn stage(&self) -> Stage {
        self.stage
    }

    /// A run of `command`, not yet started.
    pub fn new(command: Command) -> (workflow: Workflow)
        ensures
            workflow.stage() == Stage::Start(command),
    {
        Workflow { stage: Stage::Start(command) }
    }

    /// Whether the command is over.
    pub fn is_finished(&self) -> (res: bool)
        ensures
            res == self.stage() is Finished,
    {
        match self.stage {
            Stage::Finished(_) => true,
            _ => false,
        }
    }

    /// Takes the outcome of the last action (`Outcome::Done` to start) and
    /// gives the next action, moving to the next stage.
    pub fn step(&mut self, outcome: Outcome) -> (action: Action)
        ensures
            (final(self).stage(), action) == transition(old(self).stage(), outcome),
    {
        let (next, action) = match self.stage {
            Stage::Start(command) => (Stage::AwaitAccess(command), Action::RequireAccessibility),
            Stage::AwaitAccess(command) => if is_done(outcome) {
                (Stage::AwaitActivate(command), Action::ActivateZoom)
            } else {
                finish_with(Verdict::StepFailed)
            },
            Stage::AwaitActivate(command) => if !is_done(outcome) {
                finish_with(Verdict::StepFailed)
            } else if command == Command::StopShare {
                (Stage::AwaitShareToggle, Action::SendKey(send_command_shift_s()))
            } else {
                (Stage::AwaitConnect(command), Action::ConnectZoom)
            },
            Stage::AwaitConnect(command) => if is_done(outcome) {
                next_after_connect(command)
            } else {
                finish_with(Verdict::StepFailed)
            },
            Stage::AwaitShareToggle => if is_done(outcome) {
                finish_with(Verdict::Success)
            } else {
                finish_with(Verdict::StepFailed)
            },
            Stage::AwaitMutedProbe(muted) => (
                Stage::AwaitUnmutedProbe(muted, is_found(outcome)),
                Action::TreeContainsTitle(Target::UnmutedMicrophone),
            ),
            Stage::AwaitUnmutedProbe(muted, currently_muted) => next_after_decision(
                set_audio_muted(muted, currently_muted, is_found(outcome)),
                Stage::AwaitMuteToggle,
            ),
            Stage::AwaitMuteToggle => if is_done(outcome) {
                finish_with(Verdict::Success)
            } else {
                finish_with(Verdict::StepFailed)
            },
            Stage::AwaitVideoOffProbe(enabled) => (
                Stage::AwaitVideoOnProbe(enabled, is_found(outcome)),
                Action::TreeContainsTitle(Target::VideoOn),
            ),
            Stage::AwaitVideoOnProbe(enabled, currently_off) => next_after_decision(
                set_video_enabled(enabled, currently_off, is_found(outcome)),
                Stage::AwaitVideoToggle,
            ),
            Stage::AwaitVideoToggle => if is_done(outcome) {
                finish_with(Verdict::Success)
            } else {
                finish_with(Verdict::StepFailed)
            },
            Stage::AwaitCameraSearch => if is_found(outcome) {
                (Stage::CameraSettle, Action::Pause(250))
            } else {
                (Stage::AwaitShortcut, Action::SendKey(send_command_shift_s()))
            },
            Stage::AwaitShortcut => if is_done(outcome) {
                (Stage::AwaitCameraWait, Action::WaitAndPress(Target::CameraOption, 2000))
            } else {
                finish_with(Verdict::StepFailed)
            },
            Stage::AwaitCameraWait => if is_found(outcome) {
                (Stage::CameraSettle, Action::Pause(250))
            } else {
                (Stage::AwaitSwitch(1), Action::FindAndPress(Target::SwitchSection))
            },
            Stage::AwaitSwitch(section) => if is_found(outcome) {
                (Stage::SectionPause(section), Action::Pause(350))
            } else {
                (Stage::CameraMissing, Action::DumpTree)
            },
            Stage::SectionPause(section) => (
                Stage::AwaitCameraRetry(section),
                Action::FindAndPress(Target::CameraOption),
            ),
            Stage::AwaitCameraRetry(section) => if is_found(outcome) {
                (Stage::CameraSettle, Action::Pause(250))
            } else {
                next_after_camera_retry(section)
            },
            Stage::CameraMissing => finish_with(Verdict::Failed(Problem::CameraOptionMissing)),
            Stage::CameraSettle => (Stage::AwaitFocusedShare, Action::PressShareInFocusedWindow),
            Stage::AwaitFocusedShare => match outcome {
                Outcome::NoWindow => finish_with(Verdict::Failed(Problem::ShareWindowGone)),
                Outcome::Found(true) => finish_with(Verdict::Success),
                _ => (Stage::AwaitApplicationShare, Action::PressShareInApplication),
            },
            Stage::AwaitApplicationShare => if is_found(outcome) {
                finish_with(Verdict::Success)
            } else {
                (Stage::AwaitReturnKey, Action::SendKey(send_return()))
            },
            Stage::AwaitReturnKey => if is_done(outcome) {
                (Stage::ReturnPause, Action::Pause(500))
            } else {
                finish_with(Verdict::StepFailed)
            },
            Stage::ReturnPause => finish_with(Verdict::Success),
            Stage::AwaitSettingsEllipsis => if is_found(outcome) {
                (Stage::SettingsPause, Action::Pause(500))
            } else {
                (Stage::AwaitSettings, Action::FindExactTitleAndPress(Target::Settings))
            },
            Stage::AwaitSettings => if is_found(outcome) {
                (Stage::SettingsPause, Action::Pause(500))
            } else {
                (Stage::SettingsMissing, Action::DumpTree)
            },
            Stage::SettingsMissing => finish_with(Verdict::Failed(Problem::SettingsUnavailable)),
            Stage::SettingsPause => (
                Stage::AwaitAudioSection,
                Action::WaitExactTitleAndPress(Target::AudioSection, 5000),
            ),
            Stage::AwaitAudioSection => if is_found(outcome) {
                (Stage::AudioSectionPause, Action::Pause(400))
            } else {
                (Stage::AudioSectionMissing, Action::DumpTree)
            },
            Stage::AudioSectionMissing => finish_with(Verdict::Failed(Problem::AudioSectionUnavailable)),
            Stage::AudioSectionPause => (
                Stage::AwaitLiveProfile,
                Action::WaitExactTitleAndPress(Target::Profile(AudioProfile::LivePerformance), 5000),
            ),
            Stage::AwaitLiveProfile => if is_found(outcome) {
                finish_with(Verdict::Success)
            } else {
                (Stage::LiveProfileMissing, Action::DumpTree)
            },
            Stage::LiveProfileMissing => finish_with(Verdict::Failed(Problem::LiveProfileUnavailable)),
            Stage::AwaitMeetingWindow(profile) => (Stage::MeetingPause(profile), Action::Pause(300)),
            Stage::MeetingPause(profile) => (
                Stage::AwaitAudioOptions(profile),
                Action::WaitAndPress(Target::AudioOptions, 1000),
            ),
            Stage::AwaitAudioOptions(profile) => if is_found(outcome) {
                (Stage::AwaitProfileClick(profile), Action::ClickInAudioMenu(Target::Profile(profile), 3000))
            } else {
                (Stage::AwaitPinControls(profile), Action::FindExactTitleAndPress(Target::PinControls))
            },
            Stage::AwaitPinControls(profile) => if is_found(outcome) {
                (Stage::PinPause(profile), Action::Pause(400))
            } else {
                (Stage::AudioMenuMissing, Action::DumpTree)
            },
            Stage::PinPause(profile) => (
                Stage::AwaitAudioOptionsRetry(profile),
                Action::WaitAndPress(Target::AudioOptions, 3000),
            ),
            Stage::AwaitAudioOptionsRetry(profile) => if is_found(outcome) {
                (Stage::AwaitProfileClick(profile), Action::ClickInAudioMenu(Target::Profile(profile), 3000))
            } else {
                (Stage::AudioMenuMissing, Action::DumpTree)
            },
            Stage::AudioMenuMissing => finish_with(Verdict::Failed(Problem::AudioMenuUnavailable)),
            Stage::AwaitProfileClick(profile) => if is_found(outcome) {
                (Stage::ProfilePause(profile), Action::Pause(150))
            } else {
                (Stage::ProfileMissingDump(profile), Action::DumpTree)
            },
            Stage::ProfileMissingDump(profile) => (
                Stage::AwaitMenuProbe(profile, true),
                Action::TreeContainsTitle(Target::MenuWindow),
            ),
            Stage::ProfilePause(profile) => (
                Stage::AwaitMenuProbe(profile, false),
                Action::TreeContainsTitle(Target::MenuWindow),
            ),
            Stage::AwaitMenuProbe(profile, missing) => if is_found(outcome) {
                (Stage::AwaitEscape(profile, missing), Action::SendKey(send_escape()))
            } else {
                next_after_menu(profile, missing)
            },
            Stage::AwaitEscape(profile, missing) => next_after_menu(profile, missing),
            Stage::AwaitConfirmation(profile) => if is_found(outcome) {
                finish_with(Verdict::Success)
            } else {
                finish_with(Verdict::Failed(Problem::ProfileNotConfirmed(profile)))
            },
            Stage::Finished(verdict) => finish_with(verdict),
        };
        self.stage = next;
        action
    }
}

/// A run of the stop-share command, which toggles sharing off once Zoom is
/// in front.
pub fn stop_share() -> (workflow: Workflow)
    ensures
        workflow.stage() == Stage::Start(Command::StopShare),
{
    Workflow::new(Command::StopShare)
}

/// How many more steps the command can take before it finishes.
pub open spec fn camera_retry_rank(section: u8) -> nat {
    if section >= 3 {
        6
    } else {
        (6 + 3 * (3 - section)) as nat
    }
}

/// The steps that a command's own part can take once Zoom is connected.
pub open spec fn command_rank(command: Command) -> nat {
    match command {
        Command::StartCameraShare => 17,
        Command::StopShare => 1,
        Command::SetAudioMuted(_) => 3,
        Command::SetVideoEnabled(_) => 3,
        Command::SetAudioProfile(AudioProfile::LivePerformance) => 7,
        Command::SetAudioProfile(_) => 11,
    }
}

/// An upper bound on the steps left before the command finishes.
pub open spec fn rank(stage: Stage) -> nat {
    match stage {
        Stage::Start(command) => command_rank(command) + 4,
        Stage::AwaitAccess(command) => command_rank(command) + 3,
        Stage::AwaitActivate(command) => command_rank(command) + 2,
        Stage::AwaitConnect(command) => command_rank(command) + 1,
        Stage::AwaitShareToggle => 1,
        Stage::AwaitMutedProbe(_) => 3,
        Stage::AwaitUnmutedProbe(_, _) => 2,
        Stage::AwaitMuteToggle => 1,
        Stage::AwaitVideoOffProbe(_) => 3,
        Stage::AwaitVideoOnProbe(_, _) => 2,
        Stage::AwaitVideoToggle => 1,
        Stage::AwaitCameraSearch => 17,
        Stage::AwaitShortcut => 16,
        Stage::AwaitCameraWait => 15,
        Stage::AwaitSwitch(section) => camera_retry_rank(section) + 2,
        Stage::SectionPause(section) => camera_retry_rank(section) + 1,
        Stage::AwaitCameraRetry(section) => camera_retry_rank(section),
        Stage::CameraMissing => 1,
        Stage::CameraSettle => 5,
        Stage::AwaitFocusedShare => 4,
        Stage::AwaitApplicationShare => 3,
        Stage::AwaitReturnKey => 2,
        Stage::ReturnPause => 1,
        Stage::AwaitSettingsEllipsis => 7,
        Stage::AwaitSettings => 6,
        Stage::SettingsMissing => 1,
        Stage::SettingsPause => 5,
        Stage::AwaitAudioSection => 4,
        Stage::AudioSectionMissing => 1,
        Stage::AudioSectionPause => 3,
        Stage::AwaitLiveProfile => 2,
        Stage::LiveProfileMissing => 1,
        Stage::AwaitMeetingWindow(_) => 11,
        Stage::MeetingPause(_) => 10,
        Stage::AwaitAudioOptions(_) => 9,
        Stage::AwaitPinControls(_) => 8,
        Stage::PinPause(_) => 7,
        Stage::AwaitAudioOptionsRetry(_) => 6,
        Stage::AudioMenuMissing => 1,
        Stage::AwaitProfileClick(_) => 5,
        Stage::ProfileMissingDump(_) => 4,
        Stage::ProfilePause(_) => 4,
        Stage::AwaitMenuProbe(_, _) => 3,
        Stage::AwaitEscape(_, _) => 2,
        Stage::AwaitConfirmation(_) => 1,
        Stage::Finished(_) => 0,
    }
}

/// Every step of an unfinished command brings it closer to its end,
/// whatever the outcome; a finished command stays finished and repeats its
/// verdict.
pub proof fn every_step_makes_progress(stage: Stage, outcome: Outcome)
    ensures
        !(stage is Finished) ==> rank(transition(stage, outcome).0) < rank(stage),
        stage matches Stage::Finished(verdict) ==> transition(stage, outcome) == finish(verdict),
{
    match stage {
        Stage::Start(_) => {},
        Stage::AwaitAccess(_) => {},
        Stage::AwaitActivate(_) => {},
        Stage::AwaitConnect(_) => {},
        Stage::AwaitShareToggle => {},
        Stage::AwaitMutedProbe(_) => {},
        Stage::AwaitUnmutedProbe(_, _) => {},
        Stage::AwaitMuteToggle => {},
        Stage::AwaitVideoOffProbe(_) => {},
        Stage::AwaitVideoOnProbe(_, _) => {},
        Stage::AwaitVideoToggle => {},
        Stage::AwaitCameraSearch => {},
        Stage::AwaitShortcut => {},
        Stage::AwaitCameraWait => {},
        Stage::AwaitSwitch(_) => {},
        Stage::SectionPause(_) => {},
        Stage::AwaitCameraRetry(_) => {},
        Stage::CameraMissing => {},
        Stage::CameraSettle => {},
        Stage::AwaitFocusedShare => {},
        Stage::AwaitApplicationShare => {},
        Stage::AwaitReturnKey => {},
        Stage::ReturnPause => {},
        Stage::AwaitSettingsEllipsis => {},
        Stage::AwaitSettings => {},
        Stage::SettingsMissing => {},
        Stage::SettingsPause => {},
        Stage::AwaitAudioSection => {},
        Stage::AudioSectionMissing => {},
        Stage::AudioSectionPause => {},
        Stage::AwaitLiveProfile => {},
        Stage::LiveProfileMissing => {},
        Stage::AwaitMeetingWindow(_) => {},
        Stage::MeetingPause(_) => {},
        Stage::AwaitAudioOptions(_) => {},
        Stage::AwaitPinControls(_) => {},
        Stage::PinPause(_) => {},
        Stage::AwaitAudioOptionsRetry(_) => {},
        Stage::AudioMenuMissing => {},
        Stage::AwaitProfileClick(_) => {},
        Stage::ProfileMissingDump(_) => {},
        Stage::ProfilePause(_) => {},
        Stage::AwaitMenuProbe(_, _) => {},
        Stage::AwaitEscape(_, _) => {},
        Stage::AwaitConfirmation(_) => {},
        Stage::Finished(_) => {},
    }
}

/// A command announces its end exactly when it reaches it: the action is
/// `Finish` with a verdict just when the next stage is finished with that
/// verdict.
pub proof fn finish_announces_the_end(stage: Stage, outcome: Outcome)
    ensures
        (transition(stage, outcome).1 is Finish) <==> (transition(stage, outcome).0 is Finished),
        transition(stage, outcome).1 matches Action::Finish(verdict) ==> transition(stage, outcome).0
            == Stage::Finished(verdict),
{
    match stage {
        Stage::Start(_) => {},
        Stage::AwaitAccess(_) => {},
        Stage::AwaitActivate(_) => {},
        Stage::AwaitConnect(_) => {},
        Stage::AwaitShareToggle => {},
        Stage::AwaitMutedProbe(_) => {},
        Stage::AwaitUnmutedProbe(_, _) => {},
        Stage::AwaitMuteToggle => {},
        Stage::AwaitVideoOffProbe(_) => {},
        Stage::AwaitVideoOnProbe(_, _) => {},
        Stage::AwaitVideoToggle => {},
        Stage::AwaitCameraSearch => {},
        Stage::AwaitShortcut => {},
        Stage::AwaitCameraWait => {},
        Stage::AwaitSwitch(_) => {},
        Stage::SectionPause(_) => {},
        Stage::AwaitCameraRetry(_) => {},
        Stage::CameraMissing => {},
        Stage::CameraSettle => {},
        Stage::AwaitFocusedShare => {},
        Stage::AwaitApplicationShare => {},
        Stage::AwaitReturnKey => {},
        Stage::ReturnPause => {},
        Stage::AwaitSettingsEllipsis => {},
        Stage::AwaitSettings => {},
        Stage::SettingsMissing => {},
        Stage::SettingsPause => {},
        Stage::AwaitAudioSection => {},
        Stage::AudioSectionMissing => {},
        Stage::AudioSectionPause => {},
        Stage::AwaitLiveProfile => {},
        Stage::LiveProfileMissing => {},
        Stage::AwaitMeetingWindow(_) => {},
        Stage::MeetingPause(_) => {},
        Stage::AwaitAudioOptions(_) => {},
        Stage::AwaitPinControls(_) => {},
        Stage::PinPause(_) => {},
        Stage::AwaitAudioOptionsRetry(_) => {},
        Stage::AudioMenuMissing => {},
        Stage::AwaitProfileClick(_) => {},
        Stage::ProfileMissingDump(_) => {},
        Stage::ProfilePause(_) => {},
        Stage::AwaitMenuProbe(_, _) => {},
        Stage::AwaitEscape(_, _) => {},
        Stage::AwaitConfirmation(_) => {},
        Stage::Finished(_) => {},
    }
}

/// The stage reached after feeding the outcomes one by one.
pub open spec fn run(stage: Stage, outcomes: Seq<Outcome>) -> Stage
    decreases outcomes.len(),
{
    if outcomes.len() == 0 {
        stage
    } else {
        run(transition(stage, outcomes[0]).0, outcomes.drop_first())
    }
}

/// Every command ends: whatever Zoom does, a command is finished after at
/// most `rank` steps (at most 21 for any command), and stays finished.
pub proof fn every_command_ends(stage: Stage, outcomes: Seq<Outcome>)
    requires
        outcomes.len() >= rank(stage),
    ensures
        run(stage, outcomes) is Finished,
    decreases outcomes.len(),
{
    if outcomes.len() > 0 {
        every_step_makes_progress(stage, outcomes[0]);
        every_command_ends(transition(stage, outcomes[0]).0, outcomes.drop_first());
    }
}

/// No command starts from a rank above 21.
pub proof fn commands_are_short(command: Command)
    ensures
        rank(Stage::Start(command)) <= 21,
{
}

/// The command has passed the Accessibility check.
pub open spec fn authorized(stage: Stage) -> bool {
    !(stage is Start) && !(stage is AwaitAccess)
}

/// An action that works on Zoom or on the keyboard (everything but the
/// Accessibility check, waiting, and finishing).
pub open spec fn touches_zoom(action: Action) -> bool {
    !(action is RequireAccessibility) && !(action is Pause) && !(action is Finish)
}

/// Nothing happens in Zoom before the Accessibility permission is confirmed:
/// a running command becomes authorized only through a successful check, an
/// authorized command stays so, and only an authorized command, or one whose
/// check has just succeeded, acts on Zoom.
pub proof fn zoom_waits_for_accessibility(stage: Stage, outcome: Outcome)
    ensures
        !authorized(stage) && authorized(transition(stage, outcome).0) && !(transition(
            stage,
            outcome,
        ).0 is Finished) ==> stage is AwaitAccess && outcome == Outcome::Done,
        authorized(stage) ==> authorized(transition(stage, outcome).0),
        touches_zoom(transition(stage, outcome).1) ==> authorized(stage) || (stage is AwaitAccess
            && outcome == Outcome::Done),
{
}

/// The stage awaits a step whose failure ends the command.
pub open spec fn awaits_required_step(stage: Stage) -> bool {
    ||| stage is AwaitAccess
    ||| stage is AwaitActivate
    ||| stage is AwaitConnect
    ||| stage is AwaitShareToggle
    ||| stage is AwaitMuteToggle
    ||| stage is AwaitVideoToggle
    ||| stage is AwaitShortcut
    ||| stage is AwaitReturnKey
}

/// When the Accessibility check, bringing Zoom to the front, connecting to
/// it, or sending a keyboard shortcut fails, the command ends at once with
/// that step's error.
pub proof fn failed_steps_end_the_command(stage: Stage, outcome: Outcome)
    requires
        awaits_required_step(stage),
        outcome != Outcome::Done,
    ensures
        transition(stage, outcome) == finish(Verdict::StepFailed),
{
}

/// The share shortcut is sent by the stop-share command once Zoom is in
/// front, and by the camera share only when its first search did not find
/// the camera option (the shortcut would close an open share dialog).
pub proof fn share_shortcut_only_when_needed(stage: Stage, outcome: Outcome)
    ensures
        transition(stage, outcome).1 == Action::SendKey(share_key()) ==> (stage == Stage::AwaitActivate(
            Command::StopShare,
        ) && outcome == Outcome::Done) || (stage == Stage::AwaitConnect(Command::StopShare)
            && outcome == Outcome::Done) || (stage == Stage::AwaitCameraSearch && outcome
            != Outcome::Found(true)),
{
}

/// The microphone commands are absolute and idempotent. With the microphone
/// muted or not, Zoom shows exactly one of its two buttons; the decision
/// presses the toggle exactly when the microphone is not as requested, so
/// that afterwards it is as requested, and deciding again then does nothing.
pub proof fn mute_is_absolute_and_idempotent(muted: bool, microphone_muted: bool)
    ensures
        spec_audio_decision(muted, microphone_muted, !microphone_muted) == Ok::<bool, Problem>(
            muted != microphone_muted,
        ),
        ({
            let toggled = spec_audio_decision(muted, microphone_muted, !microphone_muted)->Ok_0;
            let after = if toggled {
                !microphone_muted
            } else {
                microphone_muted
            };
            after == muted && spec_audio_decision(muted, after, !after) == Ok::<bool, Problem>(false)
        }),
{
}

/// The video commands are absolute and idempotent, as the microphone
/// commands are.
pub proof fn video_is_absolute_and_idempotent(enabled: bool, video_on: bool)
    ensures
        spec_video_decision(enabled, !video_on, video_on) == Ok::<bool, Problem>(enabled != video_on),
        ({
            let toggled = spec_video_decision(enabled, !video_on, video_on)->Ok_0;
            let after = if toggled {
                !video_on
            } else {
                video_on
            };
            after == enabled && spec_video_decision(enabled, !after, after) == Ok::<bool, Problem>(false)
        }),
{
}

/// The microphone and video commands fail exactly when Zoom shows neither of
/// the two buttons.
pub proof fn unknown_state_is_an_error(requested: bool, first_shown: bool, second_shown: bool)
    ensures
        spec_audio_decision(requested, first_shown, second_shown) is Err <==> !first_shown && !second_shown,
        spec_video_decision(requested, first_shown, second_shown) is Err <==> !first_shown && !second_shown,
{
}

} // verus!
