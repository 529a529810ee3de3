use okcvm_desktop::state::{AppConfig, AppState, BackendStatus};
use okcvm_desktop::system::theme::Theme;

#[test]
fn test_app_state_default() {
    let state = AppState::new();
    assert_eq!(state.get_backend_status(), BackendStatus::Stopped);
    assert_eq!(state.get_backend_port(), None);
}

#[test]
fn test_backend_status_update() {
    let mut state = AppState::new();
    state.set_backend_status(BackendStatus::Running { port: 8080, pid: Some(1234) });
    assert!(matches!(state.get_backend_status(), BackendStatus::Running { port: 8080, .. }));
}

#[test]
fn test_backend_url() {
    let mut state = AppState::new();
    assert_eq!(state.get_backend_url(), None);

    state.set_backend_port(Some(8080));
    assert_eq!(state.get_backend_url(), Some("http://127.0.0.1:8080".to_string()));
}

#[test]
fn default_state_equals_new() {
    let state = AppState::default();
    assert_eq!(state.get_backend_status(), BackendStatus::Stopped);
    assert_eq!(state.get_backend_port(), None);
    assert_eq!(state.get_backend_url(), None);
    assert_eq!(BackendStatus::default(), BackendStatus::Stopped);
}

#[test]
fn setters_leave_the_other_fields() {
    let mut state = AppState::new();
    state.set_backend_port(Some(1));
    state.set_backend_status(BackendStatus::Failed { error: "boom".to_string() });
    assert_eq!(state.get_backend_port(), Some(1));
    state.set_backend_port(None);
    assert_eq!(
        state.get_backend_status(),
        BackendStatus::Failed { error: "boom".to_string() }
    );
    assert_eq!(state.get_config().window.width, 1400);
}

#[test]
fn status_clone_is_equal() {
    let all = vec![
        BackendStatus::Starting,
        BackendStatus::Running { port: 9, pid: None },
        BackendStatus::Stopping,
        BackendStatus::Stopped,
        BackendStatus::Failed { error: "x".to_string() },
    ];
    for status in &all {
        assert_eq!(&status.clone(), status);
        assert_eq!(status.is_running(), matches!(status, BackendStatus::Running { .. }));
    }
}

#[test]
fn url_for_edge_ports() {
    let mut state = AppState::new();
    state.set_backend_port(Some(0));
    assert_eq!(state.get_backend_url(), Some("http://127.0.0.1:0".to_string()));
    state.set_backend_port(Some(65535));
    assert_eq!(state.get_backend_url(), Some("http://127.0.0.1:65535".to_string()));
}

#[test]
fn default_configuration_values() {
    let config = AppConfig::default();
    assert_eq!(config.window.width, 1400);
    assert_eq!(config.window.height, 900);
    assert_eq!(config.window.x, None);
    assert_eq!(config.window.y, None);
    assert!(!config.window.maximized);
    assert_eq!(config.appearance.theme, "system");
    assert_eq!(config.appearance.font_size, 14);
    assert_eq!(config.shortcuts.toggle_window, "CmdOrCtrl+Shift+K");
    assert_eq!(config.shortcuts.new_chat, "CmdOrCtrl+Shift+N");
    assert!(config.backend.auto_start);
    assert_eq!(config.backend.port, None);
    assert!(config.updates.auto_check);
    assert_eq!(config.updates.channel, "stable");
}

#[test]
fn configuration_is_replaced_and_updated() {
    let mut state = AppState::new();
    let mut config = state.get_config();
    config.appearance.theme = "dark".to_string();
    config.backend.port = Some(8123);
    state.set_config(config);
    assert_eq!(state.get_config().appearance.theme, "dark");
    assert_eq!(state.get_config().backend.port, Some(8123));

    state.update_config(|config: &mut AppConfig| {
        config.window.maximized = true;
    });
    let config = state.get_config();
    assert!(config.window.maximized);
    assert_eq!(config.appearance.theme, "dark");
    assert_eq!(state.get_backend_status(), BackendStatus::Stopped);
}

#[test]
fn theme_names() {
    assert_eq!(Theme::Light.as_str(), "light");
    assert_eq!(Theme::Dark.as_str(), "dark");
}
