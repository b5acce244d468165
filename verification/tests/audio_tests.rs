use desk_shell::audio::api_error;
use desk_shell::audio::AudioApiStep;
use desk_shell::audio::AudioError;
use desk_shell::audio::AudioState;
use desk_shell::audio::VolumeScalar;
use desk_shell::audio::audio_state_from_parts;
use desk_shell::audio::notification_state;
use desk_shell::audio::notify_percent;
use desk_shell::audio::query_percent;
use desk_shell::audio::scalar_for_percent;

#[test]
fn query_percent_rounds_to_nearest() {
    assert_eq!(query_percent(VolumeScalar(0)), 0);
    assert_eq!(query_percent(VolumeScalar(49)), 0);
    assert_eq!(query_percent(VolumeScalar(50)), 1);
    assert_eq!(query_percent(VolumeScalar(3000)), 30);
    assert_eq!(query_percent(VolumeScalar(5700)), 57);
    assert_eq!(query_percent(VolumeScalar(10000)), 100);
}

#[test]
fn query_clamps_pathological_scalar_but_notify_does_not() {
    // A scalar slightly above full scale: the query path clamps it to 100,
    // the notification path passes 101 through.
    assert_eq!(query_percent(VolumeScalar(10050)), 100);
    assert_eq!(notify_percent(VolumeScalar(10050)), 101);
}

#[test]
fn set_volume_57_reads_back_57() {
    let s = scalar_for_percent(57);
    assert_eq!(s, VolumeScalar(5700));
    let st = audio_state_from_parts(s, false);
    assert_eq!(st, AudioState { volume_percent: 57, is_muted: false });
}

#[test]
fn set_volume_above_100_is_capped() {
    let s = scalar_for_percent(250);
    assert_eq!(s, VolumeScalar(10000));
    assert_eq!(query_percent(s), 100);
}

#[test]
fn notification_state_is_unclamped() {
    let st = notification_state(VolumeScalar(3000), false);
    assert_eq!(st.volume_percent, 30);
    assert!(!st.is_muted);
    let st = notification_state(VolumeScalar(10050), true);
    assert_eq!(st.volume_percent, 101);
    assert!(st.is_muted);
}

#[test]
fn audio_error_messages() {
    let e = AudioError::WinApi("boom".to_string());
    assert_eq!(e.message(), "Windows API error: boom");
    let e = AudioError::ComInit("denied".to_string());
    assert_eq!(e.message(), "COM initialization failed: denied");
}

#[test]
fn api_errors_name_the_failing_step() {
    let e = api_error(AudioApiStep::CreateEnumerator, "0x80004005");
    assert_eq!(e, AudioError::WinApi("CoCreateInstance: 0x80004005".to_string()));
    let e = api_error(AudioApiStep::DefaultDevice, "no device");
    assert_eq!(e, AudioError::WinApi("GetDefaultAudioEndpoint: no device".to_string()));
    let e = api_error(AudioApiStep::Activate, "E_NOINTERFACE");
    assert_eq!(e, AudioError::WinApi("Activate: E_NOINTERFACE".to_string()));
    let e = api_error(AudioApiStep::GetVolumeScalar, "x");
    assert_eq!(e, AudioError::WinApi("GetMasterVolumeLevelScalar: x".to_string()));
    let e = api_error(AudioApiStep::GetMute, "x");
    assert_eq!(e, AudioError::WinApi("GetMute: x".to_string()));
    let e = api_error(AudioApiStep::SetVolumeScalar, "x");
    assert_eq!(e, AudioError::WinApi("SetMasterVolumeLevelScalar: x".to_string()));
    let e = api_error(AudioApiStep::SetMute, "x");
    assert_eq!(e, AudioError::WinApi("SetMute: x".to_string()));
}
