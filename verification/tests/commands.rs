use zoomosc_lite::command::{execute, profile_name, AudioProfile, Command};

#[test]
fn canonical_paths_select_their_commands() {
    assert_eq!(execute("/zoom/share/camera/start"), Ok(Command::StartCameraShare));
    assert_eq!(execute("/zoom/share/stop"), Ok(Command::StopShare));
    assert_eq!(execute("/zoom/audio/mute"), Ok(Command::SetAudioMuted(true)));
    assert_eq!(execute("/zoom/audio/unmute"), Ok(Command::SetAudioMuted(false)));
    assert_eq!(execute("/zoom/video/on"), Ok(Command::SetVideoEnabled(true)));
    assert_eq!(execute("/zoom/video/off"), Ok(Command::SetVideoEnabled(false)));
    assert_eq!(
        execute("/zoom/audio/profile/noise-removal"),
        Ok(Command::SetAudioProfile(AudioProfile::NoiseRemoval))
    );
    assert_eq!(
        execute("/zoom/audio/profile/isolation"),
        Ok(Command::SetAudioProfile(AudioProfile::Isolation))
    );
    assert_eq!(
        execute("/zoom/audio/profile/original"),
        Ok(Command::SetAudioProfile(AudioProfile::Original))
    );
    assert_eq!(
        execute("/zoom/audio/profile/live-performance"),
        Ok(Command::SetAudioProfile(AudioProfile::LivePerformance))
    );
}

#[test]
fn zoomosc_aliases_are_equivalent() {
    let pairs = [
        ("/zoom/me/startCameraShare", "/zoom/share/camera/start"),
        ("/zoom/me/stopShare", "/zoom/share/stop"),
        ("/zoom/me/mute", "/zoom/audio/mute"),
        ("/zoom/me/unmute", "/zoom/audio/unmute"),
        ("/zoom/me/startVideo", "/zoom/video/on"),
        ("/zoom/me/stopVideo", "/zoom/video/off"),
    ];
    for (alias, path) in pairs {
        assert_eq!(execute(alias), execute(path));
        assert!(execute(alias).is_ok());
    }
}

#[test]
fn unknown_address_is_reported() {
    assert_eq!(
        execute("/zoom/audio/volume"),
        Err("comando OSC desconhecido: /zoom/audio/volume".to_owned())
    );
}

#[test]
fn addresses_are_case_sensitive() {
    assert!(execute("/ZOOM/VIDEO/ON").is_err());
    assert!(execute("/zoom/video/on/").is_err());
    assert!(execute("").is_err());
}

#[test]
fn profile_names_match_their_paths() {
    assert_eq!(profile_name(AudioProfile::NoiseRemoval), "noise-removal");
    assert_eq!(profile_name(AudioProfile::Isolation), "isolation");
    assert_eq!(profile_name(AudioProfile::Original), "original");
    assert_eq!(profile_name(AudioProfile::LivePerformance), "live-performance");
}
