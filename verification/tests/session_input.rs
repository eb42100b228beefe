use chalkak::clipboard::ClipboardError;
use chalkak::config::{app_config_path, ConfigPathError};
use chalkak::constraints::normalize_crop_box;
use chalkak::error::AppError;
use chalkak::navigation::{
    normalize_key_name, EditorNavigationBindingConfigFile, EditorNavigationBindings, KeyChord,
    KeybindingError, ModifierState, ZoomScrollModifier,
};
use chalkak::ocr::{ocr_language_for_locale, parse_ocr_language, resolve_ocr_language, OcrLanguage};
use chalkak::session::{CaptureArtifact, RuntimeSession};
use chalkak::startup::{StartupCaptureMode, StartupConfig};
use chalkak::state::{AppEvent, AppState, StateTransition};
use chalkak::text_input::{resolve_text_input, TextInputAction, TextInputEvent};

fn artifact(id: &str) -> CaptureArtifact {
    CaptureArtifact {
        capture_id: id.to_string(),
        temp_path: format!("/tmp/{id}.png"),
        width: 320,
        height: 180,
        screen_x: 0,
        screen_y: 0,
        screen_width: 320,
        screen_height: 180,
        created_at: 0,
    }
}

#[test]
fn runtime_session_keeps_multiple_captures_and_tracks_latest_active() {
    let mut runtime = RuntimeSession::default();

    runtime.push_capture(artifact("one"));
    runtime.push_capture(artifact("two"));

    assert_eq!(runtime.ids_for_display(), vec!["one", "two"]);
    assert!(runtime
        .active_capture()
        .is_some_and(|item| item.capture_id == "two"));
}

#[test]
fn runtime_session_remove_capture_clears_active_capture() {
    let mut runtime = RuntimeSession::default();
    runtime.push_capture(artifact("one"));
    runtime.remove_capture("one");
    assert!(runtime.ids_for_display().is_empty());
    assert!(runtime.active_capture().is_none());
}

#[test]
fn lifecycle_cleanup_runtime_session_keeps_all_capture_ids() {
    let mut runtime = RuntimeSession::default();
    runtime.push_capture(artifact("one"));
    runtime.push_capture(artifact("two"));
    assert_eq!(runtime.ids_for_display(), vec!["one", "two"]);
}

#[test]
fn runtime_session_switches_active_capture_on_request() {
    let mut runtime = RuntimeSession::default();
    runtime.push_capture(artifact("one"));
    runtime.push_capture(artifact("two"));
    assert!(runtime.set_active_capture("one"));
    assert!(runtime
        .active_capture()
        .is_some_and(|item| item.capture_id == "one"));
    assert!(!runtime.set_active_capture("missing"));
    assert_eq!(runtime.captures_for_display().len(), 2);
}

#[test]
fn runtime_session_labels_the_active_capture() {
    let mut runtime = RuntimeSession::default();
    assert_eq!(runtime.latest_label_text(), "No capture yet");
    runtime.push_capture(artifact("one"));
    assert_eq!(runtime.latest_label_text(), "one (320x180)");
}

#[test]
fn startup_config_parses_capture_modes() {
    let full = StartupConfig::from_iter(&["--full"]);
    assert!(matches!(full.capture, StartupCaptureMode::Full));

    let region = StartupConfig::from_iter(&["--capture-region"]);
    assert!(matches!(region.capture, StartupCaptureMode::Region));

    let window = StartupConfig::from_iter(&["--capture-window"]);
    assert!(matches!(window.capture, StartupCaptureMode::Window));
}

#[test]
fn startup_config_enables_launchpad_flag() {
    let config = StartupConfig::from_iter(&["--launchpad"]);
    assert!(config.show_launchpad);
}

#[test]
fn startup_config_last_capture_flag_wins() {
    let config = StartupConfig::from_iter(&["--full", "--region", "--window"]);
    assert!(matches!(config.capture, StartupCaptureMode::Window));
}

#[test]
fn app_config_path_prefers_xdg_config_home() {
    let path = app_config_path(
        "chalkak",
        "theme.json",
        Some("/tmp/config-root"),
        Some("/tmp/home"),
    )
    .expect("path should resolve");

    assert_eq!(path, "/tmp/config-root/chalkak/theme.json");
}

#[test]
fn app_config_path_falls_back_to_home_dot_config() {
    let path = app_config_path("chalkak", "theme.json", None, Some("/tmp/home"))
        .expect("path should resolve");

    assert_eq!(path, "/tmp/home/.config/chalkak/theme.json");
}

#[test]
fn app_config_path_errors_when_home_missing_and_xdg_unset() {
    let error = app_config_path("chalkak", "theme.json", None, None).unwrap_err();
    assert_eq!(error, ConfigPathError::MissingHomeDirectory);
}

#[test]
fn command_error_contains_command_name() {
    let err = ClipboardError::CommandFailed {
        status: "exit status 1".to_string(),
    };
    assert!(err.message().contains("wl-copy"));
}

#[test]
fn parse_ocr_language_accepts_known_values() {
    assert_eq!(parse_ocr_language("korean"), Some(OcrLanguage::Korean));
    assert_eq!(parse_ocr_language("ko"), Some(OcrLanguage::Korean));
    assert_eq!(parse_ocr_language("en"), Some(OcrLanguage::English));
    assert_eq!(parse_ocr_language("English"), Some(OcrLanguage::English));
    assert_eq!(parse_ocr_language("chinese"), Some(OcrLanguage::Chinese));
    assert_eq!(parse_ocr_language("zh"), Some(OcrLanguage::Chinese));
    assert_eq!(parse_ocr_language("KOREAN"), Some(OcrLanguage::Korean));
}

#[test]
fn parse_ocr_language_returns_none_for_unknown() {
    assert_eq!(parse_ocr_language("klingon"), None);
    assert_eq!(parse_ocr_language(""), None);
}

#[test]
fn ocr_language_follows_the_system_locale() {
    assert_eq!(ocr_language_for_locale("ko_KR.UTF-8"), OcrLanguage::Korean);
    assert_eq!(ocr_language_for_locale("en_US.UTF-8"), OcrLanguage::English);
    assert_eq!(ocr_language_for_locale("zh_CN.UTF-8"), OcrLanguage::Chinese);
    assert_eq!(
        resolve_ocr_language(Some("korean"), OcrLanguage::English),
        OcrLanguage::Korean
    );
    assert_eq!(
        resolve_ocr_language(None, OcrLanguage::English),
        OcrLanguage::English
    );
    assert_eq!(OcrLanguage::Korean.as_str(), "korean");
    assert_eq!(OcrLanguage::Korean.display_name(), "Korean");
    assert_eq!(
        OcrLanguage::Korean.rec_model_filename(),
        "korean_PP-OCRv5_mobile_rec_infer.mnn"
    );
    assert_eq!(OcrLanguage::Korean.keys_filename(), "ppocr_keys_korean.txt");
}

#[test]
fn resolve_text_input_without_focus_is_no_target() {
    let event = resolve_text_input(TextInputEvent::Character('a'), false);
    assert_eq!(event, TextInputAction::NoTextTarget);
}

#[test]
fn resolve_text_input_applies_text_priority_rules() {
    assert_eq!(
        resolve_text_input(TextInputEvent::Enter, true),
        TextInputAction::InsertLineBreak
    );
    assert_eq!(
        resolve_text_input(TextInputEvent::ShiftEnter, true),
        TextInputAction::InsertLineBreak
    );
    assert_eq!(
        resolve_text_input(TextInputEvent::CtrlEnter, true),
        TextInputAction::Commit
    );
    assert_eq!(
        resolve_text_input(TextInputEvent::CursorLeft, true),
        TextInputAction::MoveCursor
    );
    assert_eq!(
        resolve_text_input(TextInputEvent::CursorRight, true),
        TextInputAction::MoveCursor
    );
    assert_eq!(
        resolve_text_input(TextInputEvent::CursorUp, true),
        TextInputAction::MoveCursor
    );
    assert_eq!(
        resolve_text_input(TextInputEvent::CursorDown, true),
        TextInputAction::MoveCursor
    );
    assert_eq!(
        resolve_text_input(TextInputEvent::Escape, true),
        TextInputAction::ExitFocus
    );
    assert_eq!(
        resolve_text_input(TextInputEvent::CtrlC, true),
        TextInputAction::CopyRequested
    );
    assert_eq!(
        resolve_text_input(TextInputEvent::Character('x'), true),
        TextInputAction::InsertCharacter('x')
    );
    assert_eq!(
        resolve_text_input(TextInputEvent::Backspace, true),
        TextInputAction::DeleteBackward
    );
}

#[test]
fn default_navigation_bindings_match_the_standard_shortcuts() {
    let bindings = EditorNavigationBindings::default();
    assert_eq!(bindings.pan_hold_key_name(), "space");
    assert_eq!(bindings.zoom_scroll_modifier(), ZoomScrollModifier::Control);
    let ctrl = ModifierState {
        ctrl: true,
        ..Default::default()
    };
    let shift = ModifierState {
        shift: true,
        ..Default::default()
    };
    assert!(bindings.matches_zoom_in_shortcut(Some("plus"), ctrl));
    assert!(bindings.matches_zoom_out_shortcut(Some("minus"), ctrl));
    assert!(bindings.matches_actual_size_shortcut(Some("0"), ctrl));
    assert!(bindings.matches_fit_shortcut(Some("1"), shift));
    assert!(bindings.matches_fit_shortcut(Some("exclam"), shift));
    assert!(!bindings.matches_zoom_in_shortcut(Some("plus"), shift));
    assert!(bindings.matches_pan_hold_key_name(Some("Space")));
    assert!(bindings.matches_zoom_scroll_modifier(ctrl));
    assert_eq!(
        bindings.zoom_in_shortcuts(),
        "ctrl+plus, ctrl+equal, ctrl+kp_add"
    );
    assert_eq!(bindings.fit_shortcuts(), "shift+1");
}

#[test]
fn key_chords_parse_normalize_and_match() {
    assert_eq!(normalize_key_name("  Control_L "), Some("control".to_string()));
    assert_eq!(normalize_key_name("   "), None);
    assert_eq!(normalize_key_name("Exclam"), Some("1".to_string()));

    let chord = KeyChord::parse("Ctrl+Plus").expect("chord should parse");
    assert!(chord.ctrl);
    assert!(!chord.shift);
    assert_eq!(chord.key_name, "plus");
    assert_eq!(chord.as_string(), "ctrl+plus");
    let ctrl = ModifierState {
        ctrl: true,
        ..Default::default()
    };
    assert!(chord.matches(Some("plus"), ctrl));
    assert!(!chord.matches(Some("minus"), ctrl));
    assert!(!chord.matches(None, ctrl));

    assert!(KeyChord::parse("ctrl+").is_none());
    assert!(KeyChord::parse("ctrl+a+b").is_none());

    let empty: Vec<String> = Vec::new();
    assert!(EditorNavigationBindings::parse_shortcuts("zoom_in_shortcuts", &empty).is_err());
    let bad = vec!["ctrl+".to_string()];
    assert!(EditorNavigationBindings::parse_shortcuts("zoom_in_shortcuts", &bad).is_err());
    let good = vec!["alt+kp_add".to_string()];
    let parsed = EditorNavigationBindings::parse_shortcuts("zoom_in_shortcuts", &good)
        .expect("chord list should parse");
    assert_eq!(parsed.len(), 1);
    assert!(parsed[0].alt);
}

#[test]
fn invalid_pan_hold_key_is_rejected() {
    let config = EditorNavigationBindingConfigFile {
        pan_hold_key: "   ".to_string(),
        zoom_scroll_modifier: ZoomScrollModifier::Control,
        zoom_in_shortcuts: vec!["ctrl+plus".to_string()],
        zoom_out_shortcuts: vec!["ctrl+minus".to_string()],
        actual_size_shortcuts: vec!["ctrl+0".to_string()],
        fit_shortcuts: vec!["shift+1".to_string()],
    };
    let err = EditorNavigationBindings::from_file_config(config).unwrap_err();
    assert!(matches!(err, KeybindingError::InvalidPanHoldKey { .. }));

    let config = EditorNavigationBindingConfigFile {
        pan_hold_key: "ctrl".to_string(),
        zoom_scroll_modifier: ZoomScrollModifier::Alt,
        zoom_in_shortcuts: vec!["alt+kp_add".to_string()],
        zoom_out_shortcuts: vec!["alt+kp_subtract".to_string()],
        actual_size_shortcuts: vec!["alt+0".to_string()],
        fit_shortcuts: vec!["alt+1".to_string()],
    };
    let bindings = EditorNavigationBindings::from_file_config(config).expect("config should parse");
    assert_eq!(bindings.pan_hold_key_name(), "control");
    assert!(bindings.matches_pan_hold_key_name(Some("control_l")));
    assert!(bindings.matches_pan_hold_key_name(Some("control_r")));
    assert!(bindings.matches_pan_hold_key_name(Some("ctrl")));
    let alt = ModifierState {
        alt: true,
        ..Default::default()
    };
    assert!(bindings.matches_zoom_in_shortcut(Some("kp_add"), alt));
    assert!(bindings.matches_zoom_scroll_modifier(alt));
}

#[test]
fn clipboard_error_messages_name_their_subject() {
    let open = ClipboardError::OpenFile {
        path: "/tmp/shot.png".to_string(),
        message: "denied".to_string(),
    };
    assert!(open.message().contains("/tmp/shot.png"));
    let io = ClipboardError::CommandIo {
        command: "wl-copy".to_string(),
        message: "not found".to_string(),
    };
    assert!(io.message().contains("wl-copy"));
}

#[test]
fn app_state_transitions_record_their_parts() {
    let t = StateTransition::new(Some(AppState::Idle), AppEvent::OpenPreview, AppState::Preview);
    assert_eq!(t.from, Some(AppState::Idle));
    assert_eq!(t.event, AppEvent::OpenPreview);
    assert_eq!(t.to, AppState::Preview);
    assert_eq!(AppState::default(), AppState::Idle);
    let err = AppError::internal("boom");
    assert!(matches!(err, AppError::Internal { .. }));
}

#[test]
fn parsers_trim_unicode_whitespace() {
    assert_eq!(
        normalize_key_name("\u{00A0}Space\u{2003}"),
        Some("space".to_string())
    );
    assert_eq!(
        chalkak::theme::parse_hex_rgb("\u{00A0}#12ab34\u{3000}"),
        Some((0x12, 0xab, 0x34))
    );
}

#[test]
fn normalize_crop_box_is_order_independent() {
    let a = normalize_crop_box(10, 20, 60, 80, 100, 100);
    let b = normalize_crop_box(60, 80, 10, 20, 100, 100);
    assert_eq!(a, b);
    assert_eq!(a, Some((10, 20, 50, 60)));
    assert_eq!(normalize_crop_box(5, 5, 5, 9, 100, 100), None);
}
