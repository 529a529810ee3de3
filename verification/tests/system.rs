use okcvm_desktop::system::shortcuts::{toggle_action, Shortcut, WindowAction};
use okcvm_desktop::system::theme::{
    style_is_dark, theme_from_gtk_name, theme_from_macos_style, theme_from_windows_setting, Theme,
};
use okcvm_desktop::system::tray::{
    about_message, menu_action, status_title, tray_action, TrayAction, TrayClick,
};

#[test]
fn dark_if_picks_the_theme() {
    assert_eq!(Theme::dark_if(true), Theme::Dark);
    assert_eq!(Theme::dark_if(false), Theme::Light);
}

#[test]
fn macos_style_is_trimmed_and_lowered() {
    assert_eq!(theme_from_macos_style("Dark\n"), Theme::Dark);
    assert_eq!(theme_from_macos_style("  DARK  "), Theme::Dark);
    assert_eq!(theme_from_macos_style("dark"), Theme::Dark);
    assert_eq!(theme_from_macos_style(""), Theme::Light);
    assert_eq!(theme_from_macos_style("Light\n"), Theme::Light);
    assert_eq!(theme_from_macos_style("darker"), Theme::Light);
}

#[test]
fn style_must_read_dark_exactly() {
    assert!(style_is_dark("dark"));
    assert!(!style_is_dark("Dark"));
    assert!(!style_is_dark("dark "));
    assert!(!style_is_dark(""));
}

#[test]
fn windows_setting_is_dark_on_zero() {
    let dark = "HKEY_CURRENT_USER\\...\\Personalize\n    AppsUseLightTheme    REG_DWORD    0x0\n";
    let light = "HKEY_CURRENT_USER\\...\\Personalize\n    AppsUseLightTheme    REG_DWORD    0x1\n";
    assert_eq!(theme_from_windows_setting(dark), Theme::Dark);
    assert_eq!(theme_from_windows_setting(light), Theme::Light);
    assert_eq!(theme_from_windows_setting(""), Theme::Light);
    assert_eq!(theme_from_windows_setting("0x"), Theme::Light);
}

#[test]
fn gtk_name_is_dark_when_it_says_so() {
    assert_eq!(theme_from_gtk_name("Adwaita:dark"), Theme::Dark);
    assert_eq!(theme_from_gtk_name("Adwaita-DARK"), Theme::Dark);
    assert_eq!(theme_from_gtk_name("Yaru-Dark"), Theme::Dark);
    assert_eq!(theme_from_gtk_name("Adwaita"), Theme::Light);
    assert_eq!(theme_from_gtk_name(""), Theme::Light);
    assert_eq!(theme_from_gtk_name("dar k"), Theme::Light);
}

#[test]
fn menu_items_map_to_actions() {
    assert_eq!(menu_action("open"), TrayAction::ShowMainWindow);
    assert_eq!(menu_action("new_chat"), TrayAction::NewChat);
    assert_eq!(menu_action("restart"), TrayAction::RestartBackend);
    assert_eq!(menu_action("preferences"), TrayAction::OpenPreferences);
    assert_eq!(menu_action("about"), TrayAction::ShowAbout);
    assert_eq!(menu_action("quit"), TrayAction::Quit);
    assert_eq!(menu_action("status"), TrayAction::Nothing);
    assert_eq!(menu_action("Open"), TrayAction::Nothing);
    assert_eq!(menu_action(""), TrayAction::Nothing);
}

#[test]
fn clicks_map_to_actions() {
    assert_eq!(tray_action(&TrayClick::Left), TrayAction::ShowMainWindow);
    assert_eq!(tray_action(&TrayClick::Double), TrayAction::ShowMainWindow);
    assert_eq!(tray_action(&TrayClick::Other), TrayAction::Nothing);
    assert_eq!(tray_action(&TrayClick::MenuItem { id: "quit".to_string() }), TrayAction::Quit);
    assert_eq!(tray_action(&TrayClick::MenuItem { id: "nope".to_string() }), TrayAction::Nothing);
}

#[test]
fn status_item_titles() {
    assert_eq!(status_title(true), "✓ 后端运行中");
    assert_eq!(status_title(false), "✗ 后端已停止");
}

#[test]
fn about_text_names_the_version() {
    assert_eq!(
        about_message("1.2.3"),
        "OKCVM Desktop\n\n版本: 1.2.3\n\nOK Computer in a Box: Your Self-Hosted Agent Workflow Layer"
    );
}

#[test]
fn shortcut_keys() {
    assert_eq!(Shortcut::ToggleWindow.keys(), "CmdOrCtrl+Shift+K");
    assert_eq!(Shortcut::NewChat.keys(), "CmdOrCtrl+Shift+N");
}

#[test]
fn toggling_hides_reveals_or_reports() {
    assert_eq!(toggle_action(Ok(true)), WindowAction::Hide);
    assert_eq!(toggle_action(Ok(false)), WindowAction::Reveal);
    assert_eq!(
        toggle_action(Err("window closed".to_string())),
        WindowAction::Report { line: "Failed to check window visibility: window closed".to_string() }
    );
}
