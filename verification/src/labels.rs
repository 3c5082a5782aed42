//! The labels by which the remote finds Zoom's controls, in English and
//! Portuguese, and the error texts of its commands.

use vstd::prelude::*;
use crate::command::{AudioProfile, profile_name, spec_profile_name};
use crate::text::texts;

verus! {

/// The controls and windows that the remote looks for.
#[derive(Clone, Copy, Debug, PartialEq, Eq, Structural)]
pub enum Target {
    /// The "content from the second camera" option of the share dialog.
    CameraOption,
    /// The button that switches between the sections of the share dialog.
    SwitchSection,
    /// The button shown while the microphone is muted.
    MutedMicrophone,
    /// The button shown while the microphone is on.
    UnmutedMicrophone,
    /// The button shown while the video is off.
    VideoOff,
    /// The button shown while the video is on.
    VideoOn,
    /// The "Settings..." menu item.
    SettingsEllipsis,
    /// The "Settings" button.
    Settings,
    /// The Audio section of the settings.
    AudioSection,
    /// The entry of an audio profile.
    Profile(AudioProfile),
    /// The meeting window.
    MeetingWindow,
    /// The arrow that opens the microphone menu.
    AudioOptions,
    /// The option that keeps the meeting controls visible.
    PinControls,
    /// The pop-up menu of the microphone button.
    MenuWindow,
}

/// The labels of each target.
pub open spec fn spec_aliases(target: Target) -> Seq<Seq<char>> {
    match target {
        Target::CameraOption => seq![
            "content from 2nd camera"@,
            "content from second camera"@,
            "conteúdo da segunda câmara"@,
            "conteudo da segunda camara"@,
            "conteúdo da 2.ª câmara"@,
            "segunda câmera"@,
            "second camera"@,
        ],
        Target::SwitchSection => seq!["mudar"@, "switch"@],
        Target::MutedMicrophone => seq![
            "ativar áudio"@,
            "ativar audio"@,
            "ativar som"@,
            "unmute audio"@,
            "unmute my audio"@,
        ],
        Target::UnmutedMicrophone => seq![
            "desativar áudio"@,
            "desativar audio"@,
            "desativar som"@,
            "mute audio"@,
            "mute my audio"@,
        ],
        Target::VideoOff => seq![
            "iniciar vídeo"@,
            "iniciar video"@,
            "start video"@,
            "start my video"@,
        ],
        Target::VideoOn => seq![
            "interromper vídeo"@,
            "interromper video"@,
            "parar vídeo"@,
            "parar video"@,
            "stop video"@,
            "stop my video"@,
        ],
        Target::SettingsEllipsis => seq!["Configurações..."@, "Settings..."@],
        Target::Settings => seq!["Configurações"@, "Settings"@],
        Target::AudioSection => seq!["Áudio"@, "Audio"@],
        Target::Profile(AudioProfile::NoiseRemoval) => seq![
            "Remoção de ruído"@,
            "Remoção de ruído do Zoom"@,
            "Noise removal"@,
            "Zoom background noise removal"@,
        ],
        Target::Profile(AudioProfile::Isolation) => seq![
            "Isolamento de áudio personalizado"@,
            "Personalized audio isolation"@,
        ],
        Target::Profile(AudioProfile::Original) => seq![
            "Áudio original para músicos"@,
            "Som original para músicos"@,
            "Original sound for musicians"@,
        ],
        Target::Profile(AudioProfile::LivePerformance) => seq![
            "Áudio de performance ao vivo"@,
            "Áudio de apresentação ao vivo"@,
            "Live performance audio"@,
        ],
        Target::MeetingWindow => seq!["Reunião Zoom"@, "Zoom Meeting"@],
        Target::AudioOptions => seq![
            "Opções de áudio"@,
            "Opções do áudio"@,
            "Mais opções de áudio"@,
            "Audio options"@,
            "More audio options"@,
            "Select audio device"@,
        ],
        Target::PinControls => seq![
            "Sempre Exibir Controles De Reunião"@,
            "Mostrar sempre controlos da reunião"@,
            "Always Show Meeting Controls"@,
        ],
        Target::MenuWindow => seq!["Menu window"@],
    }
}

/// The labels of a target (see [`spec_aliases`]).
pub fn aliases(target: Target) -> (list: Vec<&'static str>)
    ensures
        texts(list@) == spec_aliases(target),
{
    let list: Vec<&'static str> = match target {
        Target::CameraOption => vec![
            "content from 2nd camera",
            "content from second camera",
            "conteúdo da segunda câmara",
            "conteudo da segunda camara",
            "conteúdo da 2.ª câmara",
            "segunda câmera",
            "second camera",
        ],
        Target::SwitchSection => vec!["mudar", "switch"],
        Target::MutedMicrophone => vec![
            "ativar áudio",
            "ativar audio",
            "ativar som",
            "unmute audio",
            "unmute my audio",
        ],
        Target::UnmutedMicrophone => vec![
            "desativar áudio",
            "desativar audio",
            "desativar som",
            "mute audio",
            "mute my audio",
        ],
        Target::VideoOff => vec!["iniciar vídeo", "iniciar video", "start video", "start my video"],
        Target::VideoOn => vec![
            "interromper vídeo",
            "interromper video",
            "parar vídeo",
            "parar video",
            "stop video",
            "stop my video",
        ],
        Target::SettingsEllipsis => vec!["Configurações...", "Settings..."],
        Target::Settings => vec!["Configurações", "Settings"],
        Target::AudioSection => vec!["Áudio", "Audio"],
        Target::Profile(AudioProfile::NoiseRemoval) => vec![
            "Remoção de ruído",
            "Remoção de ruído do Zoom",
            "Noise removal",
            "Zoom background noise removal",
        ],
        Target::Profile(AudioProfile::Isolation) => vec![
            "Isolamento de áudio personalizado",
            "Personalized audio isolation",
        ],
        Target::Profile(AudioProfile::Original) => vec![
            "Áudio original para músicos",
            "Som original para músicos",
            "Original sound for musicians",
        ],
        Target::Profile(AudioProfile::LivePerformance) => vec![
            "Áudio de performance ao vivo",
            "Áudio de apresentação ao vivo",
            "Live performance audio",
        ],
        Target::MeetingWindow => vec!["Reunião Zoom", "Zoom Meeting"],
        Target::AudioOptions => vec![
            "Opções de áudio",
            "Opções do áudio",
            "Mais opções de áudio",
            "Audio options",
            "More audio options",
            "Select audio device",
        ],
        Target::PinControls => vec![
            "Sempre Exibir Controles De Reunião",
            "Mostrar sempre controlos da reunião",
            "Always Show Meeting Controls",
        ],
        Target::MenuWindow => vec!["Menu window"],
    };
    assert(texts(list@) =~= spec_aliases(target));
    list
}

/// Why a command failed, apart from a failed step of the application.
#[derive(Clone, Copy, Debug, PartialEq, Eq, Structural)]
pub enum Problem {
    MicrophoneStateUnknown,
    VideoStateUnknown,
    CameraOptionMissing,
    ShareWindowGone,
    SettingsUnavailable,
    AudioSectionUnavailable,
    LiveProfileUnavailable,
    AudioMenuUnavailable,
    ProfileNotInMenu(AudioProfile),
    ProfileNotConfirmed(AudioProfile),
}

/// The error text of each problem.
pub open spec fn spec_problem_message(problem: Problem) -> Seq<char> {
    match problem {
        Problem::MicrophoneStateUnknown => "não foi possível determinar o estado atual do microfone"@,
        Problem::VideoStateUnknown => "não foi possível determinar o estado atual do vídeo"@,
        Problem::CameraOptionMissing => "a opção Conteúdo da segunda câmara não foi encontrada"@,
        Problem::ShareWindowGone => "a janela de partilha deixou de estar acessível"@,
        Problem::SettingsUnavailable => "não foi possível abrir as Configurações do Zoom"@,
        Problem::AudioSectionUnavailable => "não foi possível abrir a secção Áudio"@,
        Problem::LiveProfileUnavailable => "perfil de áudio indisponível: live-performance"@,
        Problem::AudioMenuUnavailable => "não foi possível abrir o menu expandido do microfone"@,
        Problem::ProfileNotInMenu(profile) => "perfil de áudio indisponível no menu: "@
            + spec_profile_name(profile),
        Problem::ProfileNotConfirmed(profile) => "a seleção do perfil não foi confirmada: "@
            + spec_profile_name(profile),
    }
}

/// The error text of a problem (see [`spec_problem_message`]).
pub fn problem_message(problem: Problem) -> (message: String)
    ensures
        message@ == spec_problem_message(problem),
{
    match problem {
        Problem::MicrophoneStateUnknown => "não foi possível determinar o estado atual do microfone".to_owned(),
        Problem::VideoStateUnknown => "não foi possível determinar o estado atual do vídeo".to_owned(),
        Problem::CameraOptionMissing => "a opção Conteúdo da segunda câmara não foi encontrada".to_owned(),
        Problem::ShareWindowGone => "a janela de partilha deixou de estar acessível".to_owned(),
        Problem::SettingsUnavailable => "não foi possível abrir as Configurações do Zoom".to_owned(),
        Problem::AudioSectionUnavailable => "não foi possível abrir a secção Áudio".to_owned(),
        Problem::LiveProfileUnavailable => "perfil de áudio indisponível: live-performance".to_owned(),
        Problem::AudioMenuUnavailable => "não foi possível abrir o menu expandido do microfone".to_owned(),
        Problem::ProfileNotInMenu(profile) => {
            let mut message = "perfil de áudio indisponível no menu: ".to_owned();
            message.append(profile_name(profile));
            message
        },
        Problem::ProfileNotConfirmed(profile) => {
            let mut message = "a seleção do perfil não foi confirmada: ".to_owned();
            message.append(profile_name(profile));
            message
        },
    }
}

} // verus!
