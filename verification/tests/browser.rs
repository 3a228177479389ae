use cef::browser::{reload_command, BrowserSettings, ReloadCommand, State};
use cef::color::Color;

#[test]
fn state_codes() {
    assert_eq!(State::from_unchecked(0), State::Default);
    assert_eq!(State::from_unchecked(1), State::Enabled);
    assert_eq!(State::from_unchecked(2), State::Disabled);
    assert_eq!(State::Disabled.to_raw(), 2);
    assert_eq!(State::default(), State::Default);
}

#[test]
fn default_settings() {
    let s = BrowserSettings::new();
    assert_eq!(s.windowless_frame_rate, 0);
    assert_eq!(s.standard_font_family, "");
    assert_eq!(s.javascript, State::Default);
    assert_eq!(s.background_color, Color(0));
    assert_eq!(BrowserSettings::default(), s);
}

#[test]
fn settings_round_trip() {
    let mut s = BrowserSettings::new();
    s.windowless_frame_rate = 60;
    s.standard_font_family = "Times".to_string();
    s.default_encoding = "UTF-8".to_string();
    s.javascript = State::Enabled;
    s.webgl = State::Disabled;
    s.minimum_font_size = 9;
    s.background_color = Color(0xFFFF_FFFF);
    s.accept_language_list = "en-US,en".to_string();
    let raw = s.into_raw();
    assert_eq!(raw.javascript, 1);
    assert_eq!(raw.webgl, 2);
    assert_eq!(raw.plugins, 0);
    assert_eq!(raw.background_color, 0xFFFF_FFFF);
    assert_eq!(raw.standard_font_family, "Times");
    assert_eq!(BrowserSettings::from_raw(&raw), s);
}

#[test]
fn reload_ignoring_cache_uses_the_ignore_cache_entry_point() {
    assert_eq!(reload_command(true), ReloadCommand::ReloadIgnoreCache);
    assert_eq!(reload_command(false), ReloadCommand::Reload);
}
