use whisperia::overlay::{setup_hotkeys, setup_tray, AppEvent, Overlay, OverlayState};
use whisperia::config::{Config, DEFAULT_OPACITY_BITS};
use whisperia::text::{chars_of, decimal, has_part, has_suffix, same_text};
use whisperia::transcript::{assemble, trim, trim_marked};

#[test]
fn decimal_writes_numbers_without_padding() {
    assert_eq!(decimal(0), "0");
    assert_eq!(decimal(7), "7");
    assert_eq!(decimal(10), "10");
    assert_eq!(decimal(1234567890), "1234567890");
    assert_eq!(decimal(u64::MAX), "18446744073709551615");
}

#[test]
fn same_text_compares_whole_texts() {
    assert!(same_text("quit", "quit"));
    assert!(same_text("", ""));
    assert!(!same_text("quit", "Quit"));
    assert!(!same_text("quit", "quit "));
}

#[test]
fn chars_of_counts_characters_not_bytes() {
    assert_eq!(chars_of("olá"), vec!['o', 'l', 'á']);
    assert_eq!(chars_of(""), Vec::<char>::new());
}

#[test]
fn suffix_and_part_are_found() {
    assert!(has_suffix("model.bin", ".bin"));
    assert!(has_suffix("model.bin", ""));
    assert!(has_suffix(".bin", ".bin"));
    assert!(!has_suffix("bin", ".bin"));
    assert!(!has_suffix("model.bin ", ".bin"));
    assert!(has_suffix("ação", "ção"));
    assert!(has_part("whisper-large-v3", "large"));
    assert!(has_part("large", "large"));
    assert!(has_part("abc", ""));
    assert!(has_part("", ""));
    assert!(!has_part("", "a"));
    assert!(!has_part("larg", "large"));
    assert!(has_part("xxlargexx", "large"));
    assert!(has_part("aab", "ab"));
    assert!(!has_part("whisper-Large", "large"));
}

#[test]
fn trim_removes_white_space_at_both_ends() {
    assert_eq!(trim("  hello world \n"), "hello world");
    assert_eq!(trim("hello"), "hello");
    assert_eq!(trim(" \t\n "), "");
    assert_eq!(trim(""), "");
    assert_eq!(trim("\u{a0}olá\u{2003}"), "olá");
    assert_eq!(trim(" a b "), "a b");
}

#[test]
fn trim_marked_goes_by_the_marks_alone() {
    assert_eq!(trim_marked("xxabxx", &vec![true, true, false, false, true, true]), "ab");
    assert_eq!(trim_marked("  ab  ", &vec![false; 6]), "  ab  ");
    assert_eq!(trim_marked("a b c", &vec![true, false, true, false, true]), " b ");
    assert_eq!(trim_marked("abc", &vec![true, true, true]), "");
    assert_eq!(trim_marked("abc", &vec![false, true, false]), "abc");
    assert_eq!(trim_marked("", &Vec::new()), "");
    assert_eq!(trim_marked("éa", &vec![true, false]), "a");
}

#[test]
fn segments_are_joined_with_spaces_and_trimmed() {
    let segments = vec!["hello".to_string(), "world".to_string()];
    assert_eq!(assemble(&segments), "hello world");
    let padded = vec![" Olá,".to_string(), " tudo bem? ".to_string()];
    assert_eq!(assemble(&padded), "Olá,  tudo bem?");
    assert_eq!(assemble(&Vec::new()), "");
    assert_eq!(assemble(&vec![String::new(), String::new()]), "");
    assert_eq!(assemble(&vec!["one".to_string()]), "one");
}

#[test]
fn default_settings() {
    let config = Config::default();
    assert_eq!(config.shortcut, "Super+Shift+T");
    assert_eq!(config.language, "pt");
    assert!(config.auto_paste);
    assert_eq!(config.model.model_type, "local");
    assert_eq!(config.model.local_model, "base");
    assert!(config.model.use_quantized);
    assert_eq!(config.api.provider, "openai");
    assert_eq!(config.api.api_key, "");
    assert_eq!(config.api.model, "whisper-1");
    assert_eq!(config.ui.theme, "glass");
    assert_eq!(config.ui.opacity_bits, DEFAULT_OPACITY_BITS);
    assert_eq!(f32::from_bits(config.ui.opacity_bits), 0.9f32);
    assert_eq!(config.ui.position, "cursor");
    assert_eq!(config.ui.auto_hide_delay, 3000);
    assert_eq!(config.clone(), config);
}

#[test]
fn model_file_is_named_after_the_model() {
    let mut config = Config::default();
    assert_eq!(config.model_file_name(), "ggml-base.bin");
    config.model.local_model = "large-v3".to_string();
    assert_eq!(config.model_file_name(), "ggml-large-v3.bin");
    config.model.local_model = String::new();
    assert_eq!(config.model_file_name(), "ggml-.bin");
}

#[test]
fn menu_entries_map_to_events() {
    assert_eq!(AppEvent::from_menu_id("transcribe"), Some(AppEvent::StartRecording));
    assert_eq!(AppEvent::from_menu_id("settings"), Some(AppEvent::OpenSettings));
    assert_eq!(AppEvent::from_menu_id("quit"), Some(AppEvent::Quit));
    assert_eq!(AppEvent::from_menu_id("Quit"), None);
    assert_eq!(AppEvent::from_menu_id(""), None);
}

#[test]
fn overlay_handle_accepts_every_command() {
    let overlay = Overlay::new().unwrap();
    assert_eq!(overlay.show(OverlayState::Listening), Ok(()));
    assert_eq!(overlay.update(OverlayState::Result("text".to_string())), Ok(()));
    assert_eq!(overlay.update(OverlayState::Hidden), Ok(()));
    assert_eq!(overlay.hide_overlay(), Ok(()));
}

#[test]
fn switched_off_front_ends_set_up_without_error() {
    let (events, inbox) = std::sync::mpsc::channel::<AppEvent>();
    assert_eq!(setup_tray(events.clone()), Ok(()));
    assert_eq!(setup_hotkeys(events, "Super+Shift+T"), Ok(()));
    assert!(inbox.try_recv().is_err());
}
