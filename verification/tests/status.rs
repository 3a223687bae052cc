use whisperia::config::Config;
use whisperia::state::AppState;
use whisperia::status::{AppStatus, Phase};

fn idle_store() -> AppState<f32> {
    AppState::new(Config::default())
}

#[test]
fn new_status_is_idle_without_result() {
    let status = AppStatus::new();
    assert!(matches!(status.phase, Phase::Idle));
    assert_eq!(status.last_result, None);
    assert!(!status.is_recording());
    assert!(!status.is_transcribing());
}

#[test]
fn complete_sets_idle_and_text_from_every_phase() {
    let phases = vec![
        Phase::Idle,
        Phase::Recording,
        Phase::Transcribing,
        Phase::Error("boom".to_string()),
    ];
    for phase in phases {
        let mut store = idle_store();
        store.set_phase(phase);
        store.complete("hello".to_string());
        let status = store.get_status();
        assert!(matches!(status.phase, Phase::Idle));
        assert_eq!(status.last_result, Some("hello".to_string()));
    }
}

#[test]
fn fail_keeps_last_result() {
    let mut store = idle_store();
    store.complete("first".to_string());
    store.fail("no input device".to_string());
    let status = store.get_status();
    assert!(matches!(&status.phase, Phase::Error(message) if message == "no input device"));
    assert_eq!(status.last_result, Some("first".to_string()));
}

#[test]
fn set_phase_keeps_last_result() {
    let mut store = idle_store();
    store.set_result("kept".to_string());
    store.set_phase(Phase::Recording);
    let status = store.get_status();
    assert!(status.is_recording());
    assert_eq!(status.last_result, Some("kept".to_string()));
}

#[test]
fn lowering_a_flag_only_ends_its_own_phase() {
    let mut store = idle_store();
    store.set_recording(true);
    assert!(store.get_status().is_recording());
    store.set_transcribing(false);
    assert!(store.get_status().is_recording());
    store.set_recording(false);
    assert!(matches!(store.get_status().phase, Phase::Idle));
    store.set_transcribing(true);
    assert!(store.get_status().is_transcribing());
    assert!(store.is_busy());
    store.set_recording(false);
    assert!(store.get_status().is_transcribing());
    store.set_transcribing(false);
    assert!(!store.is_busy());
}

#[test]
fn audio_slot_holds_one_buffer_and_empties_on_take() {
    let mut store = idle_store();
    assert_eq!(store.take_audio(), None);
    store.store_audio(vec![0.5, -0.5]);
    store.store_audio(vec![0.25]);
    assert_eq!(store.take_audio(), Some(vec![0.25]));
    assert_eq!(store.take_audio(), None);
}

#[test]
fn update_config_replaces_settings_only() {
    let mut store = idle_store();
    store.set_result("text".to_string());
    let mut config = Config::default();
    config.language = "en".to_string();
    store.update_config(config);
    assert_eq!(store.get_config().language, "en");
    assert_eq!(store.get_status().last_result, Some("text".to_string()));
}
