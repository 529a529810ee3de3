//! The lifecycle state store: the backend's status, its assigned port and
//! the application's configuration, held as one plain value.
//!
//! The store has no locking of its own. Whoever shares it between tasks
//! wraps it in a lock and calls the setters under the write guard; every
//! contract below speaks of the value seen under that guard.

use crate::utils::text::{decimal, push_decimal};
use vstd::prelude::*;
use vstd::string::*;

verus! {

/// What the supervisor knows of the backend process. Exactly one variant
/// holds at a time.
#[derive(Debug, PartialEq)]
pub enum BackendStatus {
    /// A start was requested and has not been confirmed healthy yet.
    Starting,
    /// The process answered its health check on `port`.
    Running { port: u16, pid: Option<u32> },
    /// A stop was requested and the process has not been released yet.
    Stopping,
    /// The supervisor owns no process.
    Stopped,
    /// The last start attempt gave up; `error` says why.
    Failed { error: String },
}

impl BackendStatus {
    /// Whether this is `Running`, whatever the port and pid.
    pub open spec fn running(self) -> bool {
        self is Running
    }

    /// Whether the lifecycle has a step from this status to `next`: from
    /// `Stopped` over `Starting`, `Running` and `Stopping` back to `Stopped`;
    /// from `Starting` to `Failed` and from `Failed` to `Starting` again; and
    /// from `Running` straight to `Stopped`, when the process ends by itself.
    pub open spec fn steps_to(self, next: BackendStatus) -> bool {
        ||| self is Stopped && next is Starting
        ||| self is Starting && next is Running
        ||| self is Running && next is Stopping
        ||| self is Stopping && next is Stopped
        ||| self is Starting && next is Failed
        ||| self is Failed && next is Starting
        ||| self is Running && next is Stopped
    }

    /// Whether this is `Running`, whatever the port and pid.
    pub fn is_running(&self) -> (yes: bool)
        ensures
            yes == self.running(),
    {
        match self {
            BackendStatus::Running { .. } => true,
            _ => false,
        }
    }
}

impl Clone for BackendStatus {
    fn clone(&self) -> (copy: Self)
        ensures
            copy == *self,
    {
        match self {
            BackendStatus::Starting => BackendStatus::Starting,
            BackendStatus::Running { port, pid } => BackendStatus::Running {
                port: *port,
                pid: *pid,
            },
            BackendStatus::Stopping => BackendStatus::Stopping,
            BackendStatus::Stopped => BackendStatus::Stopped,
            BackendStatus::Failed { error } => BackendStatus::Failed { error: error.clone() },
        }
    }
}

impl Default for BackendStatus {
    fn default() -> (status: Self)
        ensures
            status == BackendStatus::Stopped,
    {
        BackendStatus::Stopped
    }
}

/// Size and position of the main window.
#[derive(Debug)]
pub struct WindowConfig {
    pub width: u32,
    pub height: u32,
    pub x: Option<i32>,
    pub y: Option<i32>,
    pub maximized: bool,
}

impl WindowConfig {
    /// A 1400 by 900 window, not maximized, at no fixed position.
    pub open spec fn is_default(self) -> bool {
        &&& self.width == 1400
        &&& self.height == 900
        &&& self.x is None
        &&& self.y is None
        &&& !self.maximized
    }
}

impl Clone for WindowConfig {
    fn clone(&self) -> (copy: Self)
        ensures
            copy == *self,
    {
        WindowConfig {
            width: self.width,
            height: self.height,
            x: self.x,
            y: self.y,
            maximized: self.maximized,
        }
    }
}

impl Default for WindowConfig {
    fn default() -> (config: Self)
        ensures
            config.is_default(),
    {
        WindowConfig { width: 1400, height: 900, x: None, y: None, maximized: false }
    }
}

/// Theme and font size.
#[derive(Debug)]
pub struct AppearanceConfig {
    /// One of "light", "dark" and "system".
    pub theme: String,
    pub font_size: u32,
}

impl AppearanceConfig {
    /// The system theme at font size 14.
    pub open spec fn is_default(self) -> bool {
        &&& self.theme@ == "system"@
        &&& self.font_size == 14
    }
}

impl Clone for AppearanceConfig {
    fn clone(&self) -> (copy: Self)
        ensures
            copy == *self,
    {
        AppearanceConfig { theme: self.theme.clone(), font_size: self.font_size }
    }
}

impl Default for AppearanceConfig {
    fn default() -> (config: Self)
        ensures
            config.is_default(),
    {
        AppearanceConfig { theme: "system".to_owned(), font_size: 14 }
    }
}

/// The global keyboard shortcuts.
#[derive(Debug)]
pub struct ShortcutsConfig {
    pub toggle_window: String,
    pub new_chat: String,
}

impl ShortcutsConfig {
    /// Shift-K toggles the window and Shift-N opens a chat, each with the
    /// platform's command key.
    pub open spec fn is_default(self) -> bool {
        &&& self.toggle_window@ == "CmdOrCtrl+Shift+K"@
        &&& self.new_chat@ == "CmdOrCtrl+Shift+N"@
    }
}

impl Clone for ShortcutsConfig {
    fn clone(&self) -> (copy: Self)
        ensures
            copy == *self,
    {
        ShortcutsConfig {
            toggle_window: self.toggle_window.clone(),
            new_chat: self.new_chat.clone(),
        }
    }
}

impl Default for ShortcutsConfig {
    fn default() -> (config: Self)
        ensures
            config.is_default(),
    {
        ShortcutsConfig {
            toggle_window: "CmdOrCtrl+Shift+K".to_owned(),
            new_chat: "CmdOrCtrl+Shift+N".to_owned(),
        }
    }
}

/// How the backend is launched.
#[derive(Debug)]
pub struct BackendConfig {
    /// Whether the backend starts with the application.
    pub auto_start: bool,
    /// A fixed port, or `None` to have one discovered.
    pub port: Option<u16>,
}

impl BackendConfig {
    /// Started automatically, on a discovered port.
    pub open spec fn is_default(self) -> bool {
        &&& self.auto_start
        &&& self.port is None
    }
}

impl Clone for BackendConfig {
    fn clone(&self) -> (copy: Self)
        ensures
            copy == *self,
    {
        BackendConfig { auto_start: self.auto_start, port: self.port }
    }
}

impl Default for BackendConfig {
    fn default() -> (config: Self)
        ensures
            config.is_default(),
    {
        BackendConfig { auto_start: true, port: None }
    }
}

/// How updates are looked for.
#[derive(Debug)]
pub struct UpdatesConfig {
    pub auto_check: bool,
    /// One of "stable" and "beta".
    pub channel: String,
}

impl UpdatesConfig {
    /// Checked automatically, on the stable channel.
    pub open spec fn is_default(self) -> bool {
        &&& self.auto_check
        &&& self.channel@ == "stable"@
    }
}

impl Clone for UpdatesConfig {
    fn clone(&self) -> (copy: Self)
        ensures
            copy == *self,
    {
        UpdatesConfig { auto_check: self.auto_check, channel: self.channel.clone() }
    }
}

impl Default for UpdatesConfig {
    fn default() -> (config: Self)
        ensures
            config.is_default(),
    {
        UpdatesConfig { auto_check: true, channel: "stable".to_owned() }
    }
}

/// The application's whole configuration.
#[derive(Debug)]
pub struct AppConfig {
    pub window: WindowConfig,
    pub appearance: AppearanceConfig,
    pub shortcuts: ShortcutsConfig,
    pub backend: BackendConfig,
    pub updates: UpdatesConfig,
}

impl AppConfig {
    /// Every section at its default.
    pub open spec fn is_default(self) -> bool {
        &&& self.window.is_default()
        &&& self.appearance.is_default()
        &&& self.shortcuts.is_default()
        &&& self.backend.is_default()
        &&& self.updates.is_default()
    }
}

impl Clone for AppConfig {
    fn clone(&self) -> (copy: Self)
        ensures
            copy == *self,
    {
        AppConfig {
            window: self.window.clone(),
            appearance: self.appearance.clone(),
            shortcuts: self.shortcuts.clone(),
            backend: self.backend.clone(),
            updates: self.updates.clone(),
        }
    }
}

impl Default for AppConfig {
    fn default() -> (config: Self)
        ensures
            config.is_default(),
    {
        AppConfig {
            window: WindowConfig::default(),
            appearance: AppearanceConfig::default(),
            shortcuts: ShortcutsConfig::default(),
            backend: BackendConfig::default(),
            updates: UpdatesConfig::default(),
        }
    }
}

/// The text of the backend's base URL on `port`: the loopback address and
/// the port in decimal.
pub open spec fn backend_url_text(port: u16) -> Seq<char> {
    "http://127.0.0.1:"@ + decimal(port as nat)
}

/// The backend's base URL on `port`.
pub fn backend_url(port: u16) -> (url: String)
    ensures
        url@ == backend_url_text(port),
{
    let mut url = "http://127.0.0.1:".to_owned();
    push_decimal(&mut url, port as u64);
    url
}

/// The state shared between the supervisor and its callers.
pub struct AppState {
    backend_status: BackendStatus,
    backend_port: Option<u16>,
    config: AppConfig,
}

impl AppState {
    /// The recorded status.
    pub closed spec fn status(self) -> BackendStatus {
        self.backend_status
    }

    /// The recorded port.
    pub closed spec fn port(self) -> Option<u16> {
        self.backend_port
    }

    /// The recorded configuration.
    pub closed spec fn config(self) -> AppConfig {
        self.config
    }

    /// A port is recorded exactly while the status is `Running`, and it is
    /// the port of that status. It holds of a new store and after each
    /// completed supervisor operation but a stop whose signal failed; between
    /// the two writes of one operation it may not.
    pub open spec fn port_follows_status(self) -> bool {
        match self.status() {
            BackendStatus::Running { port, .. } => self.port() == Some(port),
            _ => self.port() is None,
        }
    }

    /// While the port follows the status, a port is recorded, and so a
    /// URL is handed out, exactly while the status is `Running`.
    pub proof fn port_recorded_while_running(self)
        requires
            self.port_follows_status(),
        ensures
            self.port() is Some <==> self.status().running(),
    {
    }

    /// A store with status `Stopped`, no port, and the default configuration.
    pub fn new() -> (state: Self)
        ensures
            state.status() == BackendStatus::Stopped,
            state.port() is None,
            state.config().is_default(),
            state.port_follows_status(),
    {
        AppState {
            backend_status: BackendStatus::default(),
            backend_port: None,
            config: AppConfig::default(),
        }
    }

    /// A copy of the recorded status.
    pub fn get_backend_status(&self) -> (status: BackendStatus)
        ensures
            status == self.status(),
    {
        self.backend_status.clone()
    }

    /// Replaces the status; port and configuration stay.
    pub fn set_backend_status(&mut self, status: BackendStatus)
        ensures
            final(self).status() == status,
            final(self).port() == old(self).port(),
            final(self).config() == old(self).config(),
    {
        self.backend_status = status;
    }

    /// The recorded port.
    pub fn get_backend_port(&self) -> (port: Option<u16>)
        ensures
            port == self.port(),
    {
        self.backend_port
    }

    /// Replaces the port; status and configuration stay.
    pub fn set_backend_port(&mut self, port: Option<u16>)
        ensures
            final(self).port() == port,
            final(self).status() == old(self).status(),
            final(self).config() == old(self).config(),
    {
        self.backend_port = port;
    }

    /// The backend's base URL, present exactly when a port is recorded.
    /// Where the port follows the status, that is exactly while the status
    /// is `Running`.
    pub fn get_backend_url(&self) -> (url: Option<String>)
        ensures
            match self.port() {
                Some(port) => url is Some && url->Some_0@ == backend_url_text(port),
                None => url is None,
            },
            self.port_follows_status() ==> (url is Some <==> self.status().running()),
    {
        match self.backend_port {
            Some(port) => Some(backend_url(port)),
            None => None,
        }
    }

    /// A copy of the recorded configuration.
    pub fn get_config(&self) -> (config: AppConfig)
        ensures
            config == self.config(),
    {
        self.config.clone()
    }

    /// Replaces the configuration; status and port stay.
    pub fn set_config(&mut self, config: AppConfig)
        ensures
            final(self).config() == config,
            final(self).status() == old(self).status(),
            final(self).port() == old(self).port(),
    {
        self.config = config;
    }

    /// Lets `change` work on the configuration in place; status and port
    /// stay.
    pub fn update_config<F: FnOnce(&mut AppConfig)>(&mut self, change: F)
        requires
            forall|config: &mut AppConfig|
                *config == old(self).config() ==> call_requires(change, (config,)),
        ensures
            exists|config: &mut AppConfig|
                {
                    &&& *config == old(self).config()
                    &&& *final(config) == final(self).config()
                    &&& call_ensures(change, (config,), ())
                },
            final(self).status() == old(self).status(),
            final(self).port() == old(self).port(),
    {
        change(&mut self.config);
    }
}

impl Default for AppState {
    fn default() -> (state: Self)
        ensures
            state.status() == BackendStatus::Stopped,
            state.port() is None,
            state.config().is_default(),
    {
        AppState::new()
    }
}

} // verus!
