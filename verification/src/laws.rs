//! What the commands achieve, stated over whole runs of the state machine:
//! the camera option once pressed is shared, the microphone and video
//! commands press their key exactly when Zoom shows the other state, an
//! audio profile command only ever selects its own profile, and the labels
//! that tell the states apart.

use vstd::prelude::*;
use crate::command::{AudioProfile, Command};
use crate::keys::KeyStroke;
use crate::labels::{spec_aliases, Problem, Target};
use crate::workflow::{Action, Outcome, Stage, Verdict, transition};

verus! {

/// The actions of a run: what the machine asks for, step by step, when fed
/// the outcomes in turn.
pub open spec fn trace(stage: Stage, outcomes: Seq<Outcome>) -> Seq<Action>
    decreases outcomes.len(),
{
    if outcomes.len() == 0 {
        Seq::empty()
    } else {
        seq![transition(stage, outcomes[0]).1] + trace(transition(stage, outcomes[0]).0, outcomes.drop_first())
    }
}

/// A run gives one action per outcome.
pub proof fn trace_has_one_action_per_outcome(stage: Stage, outcomes: Seq<Outcome>)
    ensures
        trace(stage, outcomes).len() == outcomes.len(),
    decreases outcomes.len(),
{
    if outcomes.len() > 0 {
        trace_has_one_action_per_outcome(transition(stage, outcomes[0]).0, outcomes.drop_first());
    }
}

/// The stage that a run reaches.
pub open spec fn reached(stage: Stage, outcomes: Seq<Outcome>) -> Stage
    decreases outcomes.len(),
{
    if outcomes.len() == 0 {
        stage
    } else {
        reached(transition(stage, outcomes[0]).0, outcomes.drop_first())
    }
}

// ----- The camera share -----

/// The stages after the camera option was pressed: the share button is
/// being pressed, or the command is over without having missed the option.
pub open spec fn sharing(stage: Stage) -> bool {
    match stage {
        Stage::CameraSettle => true,
        Stage::AwaitFocusedShare => true,
        Stage::AwaitApplicationShare => true,
        Stage::AwaitReturnKey => true,
        Stage::ReturnPause => true,
        Stage::Finished(verdict) => verdict != Verdict::Failed(Problem::CameraOptionMissing),
        _ => false,
    }
}

/// An action that searches for something to press, or that looks further
/// for the camera option.
pub open spec fn searches_again(action: Action) -> bool {
    ||| action is FindAndPress
    ||| action is WaitAndPress
    ||| action is FindExactTitleAndPress
    ||| action is WaitExactTitleAndPress
    ||| action == Action::Finish(Verdict::Failed(Problem::CameraOptionMissing))
}

/// Whenever the machine has asked to find and press the camera option (the
/// first search, the wait after the shortcut, or a retry after a section
/// switch) and the option was found and pressed, the next action is the
/// pause before pressing Share, and the run is then in its sharing part.
pub proof fn found_camera_option_is_shared(stage: Stage, outcome: Outcome)
    ensures
        ({
            let asked = transition(stage, outcome);
            (asked.1 == Action::FindAndPress(Target::CameraOption) || asked.1 matches Action::WaitAndPress(
                Target::CameraOption,
                _,
            )) ==> transition(asked.0, Outcome::Found(true)).1 == Action::Pause(250) && sharing(
                transition(asked.0, Outcome::Found(true)).0,
            )
        }),
{
}

/// Once sharing, the machine never searches again, never presses the
/// section switch and never reports the camera option as missing; pressing
/// Share in the focused window ends the command successfully.
pub proof fn sharing_goes_forward(stage: Stage, outcome: Outcome)
    requires
        sharing(stage),
    ensures
        sharing(transition(stage, outcome).0),
        !searches_again(transition(stage, outcome).1),
        transition(stage, outcome).1 == Action::PressShareInFocusedWindow ==> transition(
            transition(stage, outcome).0,
            Outcome::Found(true),
        ).1 == Action::Finish(Verdict::Success),
{
}

/// The whole rest of a run from a sharing stage, whatever Zoom does: no
/// search, no section switch, and no "camera option missing" error.
pub proof fn sharing_run_never_looks_back(stage: Stage, outcomes: Seq<Outcome>)
    requires
        sharing(stage),
    ensures
        sharing(reached(stage, outcomes)),
        forall|i: int| 0 <= i < outcomes.len() ==> !searches_again(#[trigger] trace(stage, outcomes)[i]),
    decreases outcomes.len(),
{
    if outcomes.len() > 0 {
        sharing_goes_forward(stage, outcomes[0]);
        let next = transition(stage, outcomes[0]).0;
        sharing_run_never_looks_back(next, outcomes.drop_first());
        trace_has_one_action_per_outcome(next, outcomes.drop_first());
        assert(trace(stage, outcomes) == seq![transition(stage, outcomes[0]).1] + trace(
            next,
            outcomes.drop_first(),
        ));
        assert forall|i: int| 0 <= i < outcomes.len() implies !searches_again(
            #[trigger] trace(stage, outcomes)[i],
        ) by {
            if i > 0 {
                assert(trace(stage, outcomes)[i] == trace(next, outcomes.drop_first())[i - 1]);
            }
        }
    }
}

/// A run fed `first` and then `second` is the run of `first` followed by
/// the run of `second` from where the first ended.
pub proof fn runs_compose(stage: Stage, first: Seq<Outcome>, second: Seq<Outcome>)
    ensures
        trace(stage, first + second) == trace(stage, first) + trace(reached(stage, first), second),
        reached(stage, first + second) == reached(reached(stage, first), second),
    decreases first.len(),
{
    if first.len() == 0 {
        assert(first + second =~= second);
        assert(trace(stage, first) =~= Seq::<Action>::empty());
        assert(Seq::<Action>::empty() + trace(stage, second) =~= trace(stage, second));
    } else {
        let next = transition(stage, first[0]).0;
        runs_compose(next, first.drop_first(), second);
        assert((first + second).drop_first() =~= first.drop_first() + second);
        assert((first + second)[0] == first[0]);
        assert(trace(stage, first + second) =~= seq![transition(stage, first[0]).1] + trace(
            next,
            first.drop_first() + second,
        ));
        assert(trace(stage, first) =~= seq![transition(stage, first[0]).1] + trace(
            next,
            first.drop_first(),
        ));
    }
}

/// The outcomes of a camera share up to its wait after the shortcut: the
/// start, the Accessibility check, Zoom brought to the front and connected,
/// the first search missing the camera option, and the shortcut sent.
pub open spec fn shortcut_opening() -> Seq<Outcome> {
    seq![Outcome::Done, Outcome::Done, Outcome::Done, Outcome::Done, Outcome::Found(false), Outcome::Done]
}

/// The outcomes of the wait missing the camera option and then `switches`
/// rounds in which the section switch is pressed and the camera option is
/// still missing.
pub open spec fn missing_in_sections(switches: nat) -> Seq<Outcome>
    decreases switches,
{
    if switches == 0 {
        seq![Outcome::Found(false)]
    } else {
        missing_in_sections((switches - 1) as nat) + seq![
            Outcome::Found(true),
            Outcome::Done,
            Outcome::Found(false),
        ]
    }
}

proof fn lemma_missing_in_sections(switches: nat)
    requires
        switches <= 3,
    ensures
        reached(Stage::AwaitCameraWait, missing_in_sections(switches)) == if switches < 3 {
            Stage::AwaitSwitch((switches + 1) as u8)
        } else {
            Stage::CameraMissing
        },
        trace(Stage::AwaitCameraWait, missing_in_sections(switches)).last() == if switches < 3 {
            Action::FindAndPress(Target::SwitchSection)
        } else {
            Action::DumpTree
        },
        trace(Stage::AwaitCameraWait, missing_in_sections(switches)).len() > 0,
    decreases switches,
{
    if switches == 0 {
        reveal_with_fuel(trace, 2);
        reveal_with_fuel(reached, 2);
    } else {
        let before = missing_in_sections((switches - 1) as nat);
        let round = seq![Outcome::Found(true), Outcome::Done, Outcome::Found(false)];
        lemma_missing_in_sections((switches - 1) as nat);
        runs_compose(Stage::AwaitCameraWait, before, round);
        let mid = reached(Stage::AwaitCameraWait, before);
        reveal_with_fuel(trace, 4);
        reveal_with_fuel(reached, 4);
        trace_has_one_action_per_outcome(mid, round);
    }
}

/// The section switch: when the camera option is found neither at once nor
/// after the shortcut, the share dialog's section switch is pressed and the
/// camera option searched again, up to three times; only when it is still
/// missing after the third switch does the command give up, by writing the
/// tree to the log and failing with the missing camera option.
pub proof fn sections_are_cycled_three_times(switches: nat)
    requires
        switches <= 3,
    ensures
        ({
            let outcomes = shortcut_opening() + missing_in_sections(switches);
            let actions = trace(Stage::Start(Command::StartCameraShare), outcomes);
            &&& switches < 3 ==> actions.last() == Action::FindAndPress(Target::SwitchSection)
            &&& switches == 3 ==> actions.last() == Action::DumpTree && transition(
                reached(Stage::Start(Command::StartCameraShare), outcomes),
                Outcome::Done,
            ).1 == Action::Finish(Verdict::Failed(Problem::CameraOptionMissing))
        }),
{
    let start = Stage::Start(Command::StartCameraShare);
    reveal_with_fuel(reached, 7);
    assert(reached(start, shortcut_opening()) == Stage::AwaitCameraWait);
    runs_compose(start, shortcut_opening(), missing_in_sections(switches));
    lemma_missing_in_sections(switches);
}

/// When the section switch is not found, the command gives up on the camera
/// option at once.
pub proof fn missing_switch_ends_the_search(stage: Stage, outcome: Outcome)
    ensures
        ({
            let asked = transition(stage, outcome);
            let after = transition(asked.0, Outcome::Found(false));
            asked.1 == Action::FindAndPress(Target::SwitchSection) ==> after.1 == Action::DumpTree
                && transition(after.0, Outcome::Done).1 == Action::Finish(
                Verdict::Failed(Problem::CameraOptionMissing),
            )
        }),
{
}

// ----- Microphone and video -----

/// The Command and Shift flags together.
proof fn command_shift_flags()
    ensures
        crate::keys::COMMAND_SHIFT == 0x0012_0000,
{
    assert(0x0010_0000u64 | 0x0002_0000u64 == 0x0012_0000u64) by (bit_vector);
}

/// Command+Shift+A, the microphone toggle.
pub open spec fn microphone_toggle() -> Action {
    Action::SendKey(KeyStroke { key_code: 0, flags: 0x0012_0000 })
}

/// Command+Shift+V, the video toggle.
pub open spec fn video_toggle() -> Action {
    Action::SendKey(KeyStroke { key_code: 9, flags: 0x0012_0000 })
}

/// The microphone commands through the whole run once Zoom is connected:
/// the machine first asks whether Zoom shows an "unmute" button (the
/// microphone is muted), then whether it shows a "mute" button (it is on).
/// When exactly one is shown, it presses Command+Shift+A exactly when the
/// microphone is not as requested, and otherwise succeeds without a key;
/// when neither is shown it fails.
pub proof fn microphone_run_follows_the_buttons(muted: bool, shows_unmute: bool, shows_mute: bool)
    ensures
        ({
            let first = transition(Stage::AwaitConnect(Command::SetAudioMuted(muted)), Outcome::Done);
            let second = transition(first.0, Outcome::Found(shows_unmute));
            let last = transition(second.0, Outcome::Found(shows_mute));
            &&& first.1 == Action::TreeContainsTitle(Target::MutedMicrophone)
            &&& second.1 == Action::TreeContainsTitle(Target::UnmutedMicrophone)
            &&& shows_unmute != shows_mute ==> (last.1 == microphone_toggle() <==> muted != shows_unmute)
            &&& shows_unmute != shows_mute && muted == shows_unmute ==> last.1 == Action::Finish(Verdict::Success)
            &&& !shows_unmute && !shows_mute ==> last.1 == Action::Finish(
                Verdict::Failed(Problem::MicrophoneStateUnknown),
            )
            &&& last.1 == microphone_toggle() ==> transition(last.0, Outcome::Done).1 == Action::Finish(
                Verdict::Success,
            )
        }),
{
    command_shift_flags();
}

/// The video commands through the whole run once Zoom is connected: the
/// machine first asks whether Zoom shows a "start video" button (the video
/// is off), then whether it shows a "stop video" button (it is on). When
/// exactly one is shown, it presses Command+Shift+V exactly when the video is
/// not as requested, and otherwise succeeds without a key; when neither is
/// shown it fails.
pub proof fn video_run_follows_the_buttons(enabled: bool, shows_start: bool, shows_stop: bool)
    ensures
        ({
            let first = transition(Stage::AwaitConnect(Command::SetVideoEnabled(enabled)), Outcome::Done);
            let second = transition(first.0, Outcome::Found(shows_start));
            let last = transition(second.0, Outcome::Found(shows_stop));
            &&& first.1 == Action::TreeContainsTitle(Target::VideoOff)
            &&& second.1 == Action::TreeContainsTitle(Target::VideoOn)
            &&& shows_start != shows_stop ==> (last.1 == video_toggle() <==> enabled == shows_start)
            &&& shows_start != shows_stop && enabled != shows_start ==> last.1 == Action::Finish(Verdict::Success)
            &&& !shows_start && !shows_stop ==> last.1 == Action::Finish(
                Verdict::Failed(Problem::VideoStateUnknown),
            )
            &&& last.1 == video_toggle() ==> transition(last.0, Outcome::Done).1 == Action::Finish(
                Verdict::Success,
            )
        }),
{
    command_shift_flags();
}

/// The titles that mark the microphone as muted are those that offer to
/// unmute it, and the titles that mark it as on offer to mute it; neither
/// list holds a title of the other.
pub proof fn microphone_labels_tell_the_states_apart()
    ensures
        spec_aliases(Target::MutedMicrophone).contains("unmute audio"@),
        spec_aliases(Target::MutedMicrophone).contains("ativar áudio"@),
        !spec_aliases(Target::MutedMicrophone).contains("mute audio"@),
        !spec_aliases(Target::MutedMicrophone).contains("desativar áudio"@),
        spec_aliases(Target::UnmutedMicrophone).contains("mute audio"@),
        spec_aliases(Target::UnmutedMicrophone).contains("desativar áudio"@),
        !spec_aliases(Target::UnmutedMicrophone).contains("unmute audio"@),
        !spec_aliases(Target::UnmutedMicrophone).contains("ativar áudio"@),
{
    reveal_strlit("ativar áudio");
    reveal_strlit("ativar audio");
    reveal_strlit("ativar som");
    reveal_strlit("unmute audio");
    reveal_strlit("unmute my audio");
    reveal_strlit("desativar áudio");
    reveal_strlit("desativar audio");
    reveal_strlit("desativar som");
    reveal_strlit("mute audio");
    reveal_strlit("mute my audio");
    let muted = spec_aliases(Target::MutedMicrophone);
    let on = spec_aliases(Target::UnmutedMicrophone);
    assert(muted[3] == "unmute audio"@);
    assert(muted[0] == "ativar áudio"@);
    assert(on[3] == "mute audio"@);
    assert(on[0] == "desativar áudio"@);
    assert forall|i: int| 0 <= i < muted.len() implies muted[i][0] == 'a' || muted[i][0] == 'u' by {
    }
    assert forall|i: int| 0 <= i < on.len() implies on[i][0] == 'd' || on[i][0] == 'm' by {
    }
}

/// The titles that mark the video as off offer to start it, and those that
/// mark it as on offer to stop it; neither list holds a title of the other.
pub proof fn video_labels_tell_the_states_apart()
    ensures
        spec_aliases(Target::VideoOff).contains("start video"@),
        spec_aliases(Target::VideoOff).contains("iniciar vídeo"@),
        !spec_aliases(Target::VideoOff).contains("stop video"@),
        !spec_aliases(Target::VideoOff).contains("parar vídeo"@),
        !spec_aliases(Target::VideoOff).contains("interromper vídeo"@),
        spec_aliases(Target::VideoOn).contains("stop video"@),
        spec_aliases(Target::VideoOn).contains("parar vídeo"@),
        spec_aliases(Target::VideoOn).contains("interromper vídeo"@),
        !spec_aliases(Target::VideoOn).contains("start video"@),
        !spec_aliases(Target::VideoOn).contains("iniciar vídeo"@),
{
    reveal_strlit("iniciar vídeo");
    reveal_strlit("iniciar video");
    reveal_strlit("start video");
    reveal_strlit("start my video");
    reveal_strlit("interromper vídeo");
    reveal_strlit("interromper video");
    reveal_strlit("parar vídeo");
    reveal_strlit("parar video");
    reveal_strlit("stop video");
    reveal_strlit("stop my video");
    let off = spec_aliases(Target::VideoOff);
    let on = spec_aliases(Target::VideoOn);
    assert(off[2] == "start video"@);
    assert(off[0] == "iniciar vídeo"@);
    assert(on[4] == "stop video"@);
    assert(on[2] == "parar vídeo"@);
    assert(on[0] == "interromper vídeo"@);
    assert forall|i: int| 0 <= i < off.len() implies off[i][0] == 'i' && off[i][1] == 'n' && off[i][2] == 'i'
        || off[i][0] == 's' && off[i][1] == 't' && off[i][2] == 'a' by {
    }
    assert forall|i: int| 0 <= i < on.len() implies on[i][0] == 'i' && on[i][1] == 'n' && on[i][2] == 't'
        || on[i][0] == 'p' || on[i][0] == 's' && on[i][1] == 't' && on[i][2] == 'o' by {
    }
}

// ----- Audio profiles -----

/// The control that an action looks for, if it looks for one.
pub open spec fn action_target(action: Action) -> Option<Target> {
    match action {
        Action::FindAndPress(target) => Some(target),
        Action::WaitAndPress(target, _) => Some(target),
        Action::FindExactTitleAndPress(target) => Some(target),
        Action::WaitExactTitleAndPress(target, _) => Some(target),
        Action::TreeContainsTitle(target) => Some(target),
        Action::ClickInAudioMenu(target, _) => Some(target),
        Action::MeetingShows(target, _) => Some(target),
        _ => None,
    }
}

/// A control of Zoom's settings window.
pub open spec fn in_settings(target: Target) -> bool {
    target == Target::SettingsEllipsis || target == Target::Settings || target == Target::AudioSection
}

/// The action concerns no other profile than `profile`, and goes to the
/// settings window only for the live-performance profile.
pub open spec fn keeps_to_profile(action: Action, profile: AudioProfile) -> bool {
    &&& match action_target(action) {
        Some(Target::Profile(named)) => named == profile,
        Some(target) => in_settings(target) ==> profile == AudioProfile::LivePerformance,
        None => true,
    }
    &&& match action {
        Action::Finish(Verdict::Failed(Problem::ProfileNotInMenu(named))) => named == profile,
        Action::Finish(Verdict::Failed(Problem::ProfileNotConfirmed(named))) => named == profile,
        _ => true,
    }
}

/// The stages that a run of the profile command can be in.
spec fn profile_stage(stage: Stage, profile: AudioProfile) -> bool {
    let live = profile == AudioProfile::LivePerformance;
    match stage {
        Stage::Start(command) => command == Command::SetAudioProfile(profile),
        Stage::AwaitAccess(command) => command == Command::SetAudioProfile(profile),
        Stage::AwaitActivate(command) => command == Command::SetAudioProfile(profile),
        Stage::AwaitConnect(command) => command == Command::SetAudioProfile(profile),
        Stage::AwaitSettingsEllipsis => live,
        Stage::AwaitSettings => live,
        Stage::SettingsMissing => live,
        Stage::SettingsPause => live,
        Stage::AwaitAudioSection => live,
        Stage::AudioSectionMissing => live,
        Stage::AudioSectionPause => live,
        Stage::AwaitLiveProfile => live,
        Stage::LiveProfileMissing => live,
        Stage::AwaitMeetingWindow(named) => named == profile && !live,
        Stage::MeetingPause(named) => named == profile && !live,
        Stage::AwaitAudioOptions(named) => named == profile && !live,
        Stage::AwaitPinControls(named) => named == profile && !live,
        Stage::PinPause(named) => named == profile && !live,
        Stage::AwaitAudioOptionsRetry(named) => named == profile && !live,
        Stage::AudioMenuMissing => !live,
        Stage::AwaitProfileClick(named) => named == profile && !live,
        Stage::ProfileMissingDump(named) => named == profile && !live,
        Stage::ProfilePause(named) => named == profile && !live,
        Stage::AwaitMenuProbe(named, _) => named == profile && !live,
        Stage::AwaitEscape(named, _) => named == profile && !live,
        Stage::AwaitConfirmation(named) => named == profile && !live,
        Stage::Finished(verdict) => match verdict {
            Verdict::Failed(Problem::ProfileNotInMenu(named)) => named == profile,
            Verdict::Failed(Problem::ProfileNotConfirmed(named)) => named == profile,
            _ => true,
        },
        _ => false,
    }
}

proof fn profile_step(stage: Stage, outcome: Outcome, profile: AudioProfile)
    requires
        profile_stage(stage, profile),
    ensures
        profile_stage(transition(stage, outcome).0, profile),
        keeps_to_profile(transition(stage, outcome).1, profile),
{
    match stage {
        Stage::Start(_) => {},
        Stage::AwaitAccess(_) => {},
        Stage::AwaitActivate(_) => {},
        Stage::AwaitConnect(_) => {},
        Stage::AwaitShareToggle => {},
        Stage::AwaitMutedProbe(_) => {},
        Stage::AwaitUnmutedProbe(_, _) => {},
        Stage::AwaitMuteToggle => {},
        Stage::AwaitVideoOffProbe(_) => {},
        Stage::AwaitVideoOnProbe(_, _) => {},
        Stage::AwaitVideoToggle => {},
        Stage::AwaitCameraSearch => {},
        Stage::AwaitShortcut => {},
        Stage::AwaitCameraWait => {},
        Stage::AwaitSwitch(_) => {},
        Stage::SectionPause(_) => {},
        Stage::AwaitCameraRetry(_) => {},
        Stage::CameraMissing => {},
        Stage::CameraSettle => {},
        Stage::AwaitFocusedShare => {},
        Stage::AwaitApplicationShare => {},
        Stage::AwaitReturnKey => {},
        Stage::ReturnPause => {},
        Stage::AwaitSettingsEllipsis => {},
        Stage::AwaitSettings => {},
        Stage::SettingsMissing => {},
        Stage::SettingsPause => {},
        Stage::AwaitAudioSection => {},
        Stage::AudioSectionMissing => {},
        Stage::AudioSectionPause => {},
        Stage::AwaitLiveProfile => {},
        Stage::LiveProfileMissing => {},
        Stage::AwaitMeetingWindow(_) => {},
        Stage::MeetingPause(_) => {},
        Stage::AwaitAudioOptions(_) => {},
        Stage::AwaitPinControls(_) => {},
        Stage::PinPause(_) => {},
        Stage::AwaitAudioOptionsRetry(_) => {},
        Stage::AudioMenuMissing => {},
        Stage::AwaitProfileClick(_) => {},
        Stage::ProfileMissingDump(_) => {},
        Stage::ProfilePause(_) => {},
        Stage::AwaitMenuProbe(_, _) => {},
        Stage::AwaitEscape(_, _) => {},
        Stage::AwaitConfirmation(_) => {},
        Stage::Finished(_) => {},
    }
}

proof fn profile_run(stage: Stage, outcomes: Seq<Outcome>, profile: AudioProfile)
    requires
        profile_stage(stage, profile),
    ensures
        forall|i: int| 0 <= i < outcomes.len() ==> keeps_to_profile(#[trigger] trace(stage, outcomes)[i], profile),
    decreases outcomes.len(),
{
    if outcomes.len() > 0 {
        profile_step(stage, outcomes[0], profile);
        let next = transition(stage, outcomes[0]).0;
        profile_run(next, outcomes.drop_first(), profile);
        trace_has_one_action_per_outcome(next, outcomes.drop_first());
        assert(trace(stage, outcomes) == seq![transition(stage, outcomes[0]).1] + trace(
            next,
            outcomes.drop_first(),
        ));
        assert forall|i: int| 0 <= i < outcomes.len() implies keeps_to_profile(
            #[trigger] trace(stage, outcomes)[i],
            profile,
        ) by {
            if i > 0 {
                assert(trace(stage, outcomes)[i] == trace(next, outcomes.drop_first())[i - 1]);
            }
        }
    }
}

/// An audio profile command only ever selects its own profile: whatever
/// Zoom does, every action of its run that names a profile names the
/// requested one, its profile errors name it too, and it opens the settings
/// window only for the live-performance profile. Once Zoom is connected, it
/// goes to the settings exactly for that profile, and to the meeting
/// window's microphone menu for the others.
pub proof fn profile_command_keeps_to_its_profile(profile: AudioProfile, outcomes: Seq<Outcome>)
    ensures
        forall|i: int|
            0 <= i < outcomes.len() ==> keeps_to_profile(
                #[trigger] trace(Stage::Start(Command::SetAudioProfile(profile)), outcomes)[i],
                profile,
            ),
        (transition(Stage::AwaitConnect(Command::SetAudioProfile(profile)), Outcome::Done).1
            == Action::FindExactTitleAndPress(Target::SettingsEllipsis)) <==> profile
            == AudioProfile::LivePerformance,
        profile != AudioProfile::LivePerformance ==> transition(
            Stage::AwaitConnect(Command::SetAudioProfile(profile)),
            Outcome::Done,
        ).1 == Action::FindExactTitleAndPress(Target::MeetingWindow),
{
    profile_run(Stage::Start(Command::SetAudioProfile(profile)), outcomes, profile);
}

// ----- Shortcuts and labels -----

/// The shortcuts are Zoom's: Command+Shift+S (key code 1) for sharing,
/// Command+Shift+A (key code 0) for the microphone, Command+Shift+V (key
/// code 9) for the video, Return (36) and Escape (53) without modifiers.
pub proof fn shortcuts_are_zooms()
    ensures
        crate::workflow::share_key() == (KeyStroke { key_code: 1, flags: 0x0012_0000 }),
        crate::workflow::microphone_key() == (KeyStroke { key_code: 0, flags: 0x0012_0000 }),
        crate::workflow::video_key() == (KeyStroke { key_code: 9, flags: 0x0012_0000 }),
        crate::workflow::return_key() == (KeyStroke { key_code: 36, flags: 0 }),
        crate::workflow::escape_key() == (KeyStroke { key_code: 53, flags: 0 }),
{
    command_shift_flags();
}

/// Each profile is found by its own English name in Zoom's menus, the
/// camera option by "second camera", and the section switch by "switch".
pub proof fn profiles_are_found_by_their_names()
    ensures
        spec_aliases(Target::Profile(AudioProfile::NoiseRemoval)).contains("Noise removal"@),
        spec_aliases(Target::Profile(AudioProfile::Isolation)).contains("Personalized audio isolation"@),
        spec_aliases(Target::Profile(AudioProfile::Original)).contains("Original sound for musicians"@),
        spec_aliases(Target::Profile(AudioProfile::LivePerformance)).contains("Live performance audio"@),
        spec_aliases(Target::CameraOption).contains("second camera"@),
        spec_aliases(Target::CameraOption).contains("content from 2nd camera"@),
        spec_aliases(Target::SwitchSection).contains("switch"@),
        spec_aliases(Target::SwitchSection).contains("mudar"@),
        spec_aliases(Target::MenuWindow).contains("Menu window"@),
{
    assert(spec_aliases(Target::Profile(AudioProfile::NoiseRemoval))[2] == "Noise removal"@);
    assert(spec_aliases(Target::Profile(AudioProfile::Isolation))[1] == "Personalized audio isolation"@);
    assert(spec_aliases(Target::Profile(AudioProfile::Original))[2] == "Original sound for musicians"@);
    assert(spec_aliases(Target::Profile(AudioProfile::LivePerformance))[2] == "Live performance audio"@);
    assert(spec_aliases(Target::CameraOption)[6] == "second camera"@);
    assert(spec_aliases(Target::CameraOption)[0] == "content from 2nd camera"@);
    assert(spec_aliases(Target::SwitchSection)[1] == "switch"@);
    assert(spec_aliases(Target::SwitchSection)[0] == "mudar"@);
    assert(spec_aliases(Target::MenuWindow)[0] == "Menu window"@);
}

} // verus!
