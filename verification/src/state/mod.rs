//! The lifecycle state store and the application's configuration.

pub mod app_state;

pub use app_state::{
    AppConfig, AppState, AppearanceConfig, BackendConfig, BackendStatus, ShortcutsConfig,
    UpdatesConfig, WindowConfig,
};
