//! The desktop's colour theme, and how it is read off what each platform
//! reports.

use vstd::prelude::*;
use vstd::string::*;

verus! {

/// A colour theme.
#[derive(Debug, Clone, Copy, PartialEq, Eq, Structural)]
pub enum Theme {
    Light,
    Dark,
}

impl Theme {
    /// The name under which the theme is announced.
    pub open spec fn name_text(self) -> Seq<char> {
        match self {
            Theme::Light => "light"@,
            Theme::Dark => "dark"@,
        }
    }

    /// The theme's name: "light" or "dark".
    pub fn as_str(&self) -> (name: &'static str)
        ensures
            name@ == self.name_text(),
    {
        match self {
            Theme::Light => "light",
            Theme::Dark => "dark",
        }
    }

    /// The dark theme where `dark` holds, the light one otherwise.
    pub fn dark_if(dark: bool) -> (theme: Theme)
        ensures
            theme == if dark {
                Theme::Dark
            } else {
                Theme::Light
            },
    {
        if dark {
            Theme::Dark
        } else {
            Theme::Light
        }
    }
}

/// The lower-case form of a text, as `str::to_lowercase` gives it.
pub uninterp spec fn lowercase_text(text: Seq<char>) -> Seq<char>;

/// A text without its leading and trailing white space, as `str::trim`
/// gives it.
pub uninterp spec fn trimmed_text(text: Seq<char>) -> Seq<char>;

/// Whether `pattern` occurs in `text` as a run of consecutive characters.
/// The empty pattern occurs in every text.
pub open spec fn contains_text(text: Seq<char>, pattern: Seq<char>) -> bool {
    exists|start: int|
        0 <= start && start + pattern.len() <= text.len() && #[trigger] text.subrange(
            start,
            start + pattern.len(),
        ) == pattern
}

/// `str::to_lowercase`: the result is the lower-case form of the text, a
/// function of the text alone. Nothing more is claimed of it.
#[verifier::external_body]
fn lowercase(text: &str) -> (lower: String)
    ensures
        lower@ == lowercase_text(text@),
{
    text.to_lowercase()
}

/// `str::trim`: the result is the text without leading and trailing white
/// space, a function of the text alone. Nothing more is claimed of it.
#[verifier::external_body]
fn trimmed<'a>(text: &'a str) -> (inner: &'a str)
    ensures
        inner@ == trimmed_text(text@),
{
    text.trim()
}

/// `str::contains` with a string pattern: whether the pattern is a
/// substring of the text.
#[verifier::external_body]
fn has_substring(text: &str, pattern: &str) -> (found: bool)
    ensures
        found == contains_text(text@, pattern@),
{
    text.contains(pattern)
}

/// Whether an interface style, trimmed and in lower case, is the dark one:
/// exactly "dark".
pub fn style_is_dark(style: &str) -> (dark: bool)
    ensures
        dark == (style@ == "dark"@),
{
    let dark = "dark".to_owned();
    style.to_owned() == dark
}

/// The theme that the macOS interface style stands for. `output` is what
/// reading the global `AppleInterfaceStyle` default printed; it is dark
/// when, trimmed and in lower case, it reads "dark".
pub fn theme_from_macos_style(output: &str) -> (theme: Theme)
    ensures
        theme == if lowercase_text(trimmed_text(output@)) == "dark"@ {
            Theme::Dark
        } else {
            Theme::Light
        },
{
    let style = lowercase(trimmed(output));
    Theme::dark_if(style_is_dark(style.as_str()))
}

/// The theme that the Windows personalisation setting stands for. `output`
/// is what querying `AppsUseLightTheme` printed; it is dark when the value
/// "0x0" occurs in it.
pub fn theme_from_windows_setting(output: &str) -> (theme: Theme)
    ensures
        theme == if contains_text(output@, "0x0"@) {
            Theme::Dark
        } else {
            Theme::Light
        },
{
    Theme::dark_if(has_substring(output, "0x0"))
}

/// The theme that a GTK theme name stands for: dark when the name, in
/// lower case, has "dark" in it.
pub fn theme_from_gtk_name(name: &str) -> (theme: Theme)
    ensures
        theme == if contains_text(lowercase_text(name@), "dark"@) {
            Theme::Dark
        } else {
            Theme::Light
        },
{
    let lower = lowercase(name);
    Theme::dark_if(has_substring(lower.as_str(), "dark"))
}

} // verus!
