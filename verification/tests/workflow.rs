use zoomosc_lite::command::{AudioProfile, Command};
use zoomosc_lite::keys::{
    send_command_shift_a, send_command_shift_s, send_command_shift_v, send_escape, send_return,
    KeyStroke, COMMAND_SHIFT,
};
use zoomosc_lite::labels::{aliases, problem_message, Problem, Target};
use zoomosc_lite::workflow::{
    set_audio_muted, set_video_enabled, stop_share, Action, Outcome, Verdict, Workflow,
};

/// Feeds the outcomes in turn and collects the actions, the first one
/// being asked for with `Outcome::Done`.
fn drive(mut workflow: Workflow, outcomes: &[Outcome]) -> Vec<Action> {
    let mut actions = vec![workflow.step(Outcome::Done)];
    for outcome in outcomes {
        actions.push(workflow.step(*outcome));
    }
    actions
}

const DONE: Outcome = Outcome::Done;
const HIT: Outcome = Outcome::Found(true);
const MISS: Outcome = Outcome::Found(false);

#[test]
fn keys_are_the_zoom_shortcuts() {
    assert_eq!(COMMAND_SHIFT, 0x0012_0000);
    assert_eq!(send_command_shift_s(), KeyStroke { key_code: 1, flags: COMMAND_SHIFT });
    assert_eq!(send_command_shift_a(), KeyStroke { key_code: 0, flags: COMMAND_SHIFT });
    assert_eq!(send_command_shift_v(), KeyStroke { key_code: 9, flags: COMMAND_SHIFT });
    assert_eq!(send_return(), KeyStroke { key_code: 36, flags: 0 });
    assert_eq!(send_escape(), KeyStroke { key_code: 53, flags: 0 });
}

#[test]
fn mute_decisions() {
    assert_eq!(set_audio_muted(true, false, true), Ok(Some(send_command_shift_a())));
    assert_eq!(set_audio_muted(true, true, false), Ok(None));
    assert_eq!(set_audio_muted(false, true, false), Ok(Some(send_command_shift_a())));
    assert_eq!(set_audio_muted(false, false, true), Ok(None));
    assert_eq!(set_audio_muted(true, false, false), Err(Problem::MicrophoneStateUnknown));
}

#[test]
fn video_decisions() {
    assert_eq!(set_video_enabled(true, true, false), Ok(Some(send_command_shift_v())));
    assert_eq!(set_video_enabled(true, false, true), Ok(None));
    assert_eq!(set_video_enabled(false, false, true), Ok(Some(send_command_shift_v())));
    assert_eq!(set_video_enabled(false, true, false), Ok(None));
    assert_eq!(set_video_enabled(false, false, false), Err(Problem::VideoStateUnknown));
}

#[test]
fn muting_twice_presses_once() {
    // The microphone starts on; the second run sees it muted.
    let first = drive(Workflow::new(Command::SetAudioMuted(true)), &[DONE, DONE, DONE, MISS, HIT, DONE]);
    assert_eq!(
        first,
        vec![
            Action::RequireAccessibility,
            Action::ActivateZoom,
            Action::ConnectZoom,
            Action::TreeContainsTitle(Target::MutedMicrophone),
            Action::TreeContainsTitle(Target::UnmutedMicrophone),
            Action::SendKey(send_command_shift_a()),
            Action::Finish(Verdict::Success),
        ]
    );
    let second = drive(Workflow::new(Command::SetAudioMuted(true)), &[DONE, DONE, DONE, HIT, MISS]);
    assert_eq!(second.last(), Some(&Action::Finish(Verdict::Success)));
    assert!(!second.contains(&Action::SendKey(send_command_shift_a())));
}

#[test]
fn unknown_video_state_fails() {
    let actions = drive(Workflow::new(Command::SetVideoEnabled(true)), &[DONE, DONE, DONE, MISS, MISS]);
    assert_eq!(actions.last(), Some(&Action::Finish(Verdict::Failed(Problem::VideoStateUnknown))));
}

#[test]
fn stop_share_sends_the_shortcut() {
    let mut workflow = stop_share();
    assert_eq!(workflow.step(DONE), Action::RequireAccessibility);
    assert_eq!(workflow.step(DONE), Action::ActivateZoom);
    assert_eq!(workflow.step(DONE), Action::SendKey(send_command_shift_s()));
    assert!(!workflow.is_finished());
    assert_eq!(workflow.step(DONE), Action::Finish(Verdict::Success));
    assert!(workflow.is_finished());
    assert_eq!(workflow.step(Outcome::Error), Action::Finish(Verdict::Success));
}

#[test]
fn missing_accessibility_ends_every_command() {
    for command in [
        Command::StartCameraShare,
        Command::StopShare,
        Command::SetAudioMuted(false),
        Command::SetVideoEnabled(false),
        Command::SetAudioProfile(AudioProfile::Original),
    ] {
        let actions = drive(Workflow::new(command), &[Outcome::Error]);
        assert_eq!(actions, vec![Action::RequireAccessibility, Action::Finish(Verdict::StepFailed)]);
    }
}

#[test]
fn camera_found_at_once_skips_the_shortcut() {
    let actions = drive(Workflow::new(Command::StartCameraShare), &[DONE, DONE, DONE, HIT, DONE, HIT]);
    assert_eq!(
        actions,
        vec![
            Action::RequireAccessibility,
            Action::ActivateZoom,
            Action::ConnectZoom,
            Action::FindAndPress(Target::CameraOption),
            Action::Pause(250),
            Action::PressShareInFocusedWindow,
            Action::Finish(Verdict::Success),
        ]
    );
}

#[test]
fn camera_share_cycles_sections_three_times() {
    let actions = drive(
        Workflow::new(Command::StartCameraShare),
        &[DONE, DONE, DONE, MISS, DONE, MISS, HIT, DONE, MISS, HIT, DONE, MISS, HIT, DONE, MISS, DONE],
    );
    let switches = actions
        .iter()
        .filter(|a| **a == Action::FindAndPress(Target::SwitchSection))
        .count();
    assert_eq!(switches, 3);
    assert_eq!(&actions[4], &Action::SendKey(send_command_shift_s()));
    assert_eq!(&actions[5], &Action::WaitAndPress(Target::CameraOption, 2000));
    assert_eq!(actions[actions.len() - 2], Action::DumpTree);
    assert_eq!(actions.last(), Some(&Action::Finish(Verdict::Failed(Problem::CameraOptionMissing))));
}

#[test]
fn camera_share_falls_back_to_return() {
    let actions = drive(
        Workflow::new(Command::StartCameraShare),
        &[DONE, DONE, DONE, MISS, DONE, HIT, DONE, MISS, MISS, DONE, DONE],
    );
    let tail = &actions[actions.len() - 5..];
    assert_eq!(
        tail,
        &[
            Action::PressShareInFocusedWindow,
            Action::PressShareInApplication,
            Action::SendKey(send_return()),
            Action::Pause(500),
            Action::Finish(Verdict::Success),
        ]
    );
}

#[test]
fn camera_share_without_window_fails() {
    let actions = drive(Workflow::new(Command::StartCameraShare), &[DONE, DONE, DONE, HIT, DONE, Outcome::NoWindow]);
    assert_eq!(actions.last(), Some(&Action::Finish(Verdict::Failed(Problem::ShareWindowGone))));
}

#[test]
fn live_performance_goes_through_settings() {
    let actions = drive(
        Workflow::new(Command::SetAudioProfile(AudioProfile::LivePerformance)),
        &[DONE, DONE, DONE, MISS, HIT, DONE, HIT, DONE, HIT],
    );
    assert_eq!(
        actions[3..].to_vec(),
        vec![
            Action::FindExactTitleAndPress(Target::SettingsEllipsis),
            Action::FindExactTitleAndPress(Target::Settings),
            Action::Pause(500),
            Action::WaitExactTitleAndPress(Target::AudioSection, 5000),
            Action::Pause(400),
            Action::WaitExactTitleAndPress(Target::Profile(AudioProfile::LivePerformance), 5000),
            Action::Finish(Verdict::Success),
        ]
    );
}

#[test]
fn menu_profile_is_selected_and_confirmed() {
    let profile = AudioProfile::Isolation;
    let actions = drive(
        Workflow::new(Command::SetAudioProfile(profile)),
        &[DONE, DONE, DONE, MISS, DONE, HIT, HIT, DONE, HIT, DONE, HIT],
    );
    assert_eq!(
        actions[3..].to_vec(),
        vec![
            Action::FindExactTitleAndPress(Target::MeetingWindow),
            Action::Pause(300),
            Action::WaitAndPress(Target::AudioOptions, 1000),
            Action::ClickInAudioMenu(Target::Profile(profile), 3000),
            Action::Pause(150),
            Action::TreeContainsTitle(Target::MenuWindow),
            Action::SendKey(send_escape()),
            Action::MeetingShows(Target::Profile(profile), 2000),
            Action::Finish(Verdict::Success),
        ]
    );
}

#[test]
fn profile_missing_from_menu_closes_the_menu_and_fails() {
    let profile = AudioProfile::Original;
    let actions = drive(
        Workflow::new(Command::SetAudioProfile(profile)),
        &[DONE, DONE, DONE, HIT, DONE, MISS, HIT, DONE, HIT, MISS, DONE, HIT, DONE],
    );
    assert_eq!(
        actions[6..].to_vec(),
        vec![
            Action::FindExactTitleAndPress(Target::PinControls),
            Action::Pause(400),
            Action::WaitAndPress(Target::AudioOptions, 3000),
            Action::ClickInAudioMenu(Target::Profile(profile), 3000),
            Action::DumpTree,
            Action::TreeContainsTitle(Target::MenuWindow),
            Action::SendKey(send_escape()),
            Action::Finish(Verdict::Failed(Problem::ProfileNotInMenu(profile))),
        ]
    );
}

#[test]
fn problem_messages() {
    assert_eq!(
        problem_message(Problem::ProfileNotInMenu(AudioProfile::NoiseRemoval)),
        "perfil de áudio indisponível no menu: noise-removal"
    );
    assert_eq!(
        problem_message(Problem::ProfileNotConfirmed(AudioProfile::Original)),
        "a seleção do perfil não foi confirmada: original"
    );
    assert_eq!(
        problem_message(Problem::MicrophoneStateUnknown),
        "não foi possível determinar o estado atual do microfone"
    );
    assert_eq!(
        problem_message(Problem::CameraOptionMissing),
        "a opção Conteúdo da segunda câmara não foi encontrada"
    );
}

#[test]
fn alias_lists() {
    assert_eq!(aliases(Target::SwitchSection), vec!["mudar", "switch"]);
    assert_eq!(aliases(Target::MenuWindow), vec!["Menu window"]);
    assert_eq!(aliases(Target::CameraOption).len(), 7);
    assert_eq!(
        aliases(Target::Profile(AudioProfile::LivePerformance)),
        vec!["Áudio de performance ao vivo", "Áudio de apresentação ao vivo", "Live performance audio"]
    );
}

#[test]
fn every_command_ends_whatever_happens() {
    for command in [
        Command::StartCameraShare,
        Command::StopShare,
        Command::SetAudioMuted(true),
        Command::SetVideoEnabled(true),
        Command::SetAudioProfile(AudioProfile::NoiseRemoval),
        Command::SetAudioProfile(AudioProfile::LivePerformance),
    ] {
        for outcome in [DONE, Outcome::Error, HIT, MISS, Outcome::NoWindow] {
            let mut workflow = Workflow::new(command);
            let mut steps = 0;
            let mut action = workflow.step(Outcome::Done);
            while !matches!(action, Action::Finish(_)) {
                action = workflow.step(outcome);
                steps += 1;
                assert!(steps <= 21);
            }
        }
    }
}
