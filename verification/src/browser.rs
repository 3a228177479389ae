use vstd::prelude::*;
use crate::color::Color;

verus! {

/// Represents the state of a setting.
#[derive(Debug, PartialEq, Eq, Clone, Copy)]
pub enum State {
    /// Use the default state for the setting.
    Default,
    /// Enable or allow the setting.
    Enabled,
    /// Disable or disallow the setting.
    Disabled,
}

/// The `cef_state_t` code of a setting state.
pub open spec fn state_code(state: State) -> u32 {
    match state {
        State::Default => 0,
        State::Enabled => 1,
        State::Disabled => 2,
    }
}

/// The setting state with a known `cef_state_t` code.
pub open spec fn state_of_code(code: u32) -> State {
    if code == 0 {
        State::Default
    } else if code == 1 {
        State::Enabled
    } else {
        State::Disabled
    }
}

impl State {
    /// The state with the given `cef_state_t` code, which must be a known one.
    pub fn from_unchecked(state: u32) -> (s: State)
        requires
            state <= 2,
        ensures
            s == state_of_code(state),
            state_code(s) == state,
    {
        match state {
            0 => State::Default,
            1 => State::Enabled,
            _ => State::Disabled,
        }
    }

    /// The `cef_state_t` code of this state.
    pub fn to_raw(&self) -> (code: u32)
        ensures
            code == state_code(*self),
    {
        match self {
            State::Default => 0,
            State::Enabled => 1,
            State::Disabled => 2,
        }
    }
}

impl Default for State {
    fn default() -> (s: State)
        ensures
            s == State::Default,
    {
        State::Default
    }
}

/// The fields of a `cef_browser_settings_t`, strings already decoded.
#[derive(Debug, Clone, PartialEq, Eq)]
pub struct RawBrowserSettings {
    pub windowless_frame_rate: i32,
    pub standard_font_family: String,
    pub fixed_font_family: String,
    pub serif_font_family: String,
    pub sans_serif_font_family: String,
    pub cursive_font_family: String,
    pub fantasy_font_family: String,
    pub default_font_size: i32,
    pub default_fixed_font_size: i32,
    pub minimum_font_size: i32,
    pub minimum_logical_font_size: i32,
    pub default_encoding: String,
    pub remote_fonts: u32,
    pub javascript: u32,
    pub javascript_close_windows: u32,
    pub javascript_access_clipboard: u32,
    pub javascript_dom_paste: u32,
    pub plugins: u32,
    pub universal_access_from_file_urls: u32,
    pub file_access_from_file_urls: u32,
    pub web_security: u32,
    pub image_loading: u32,
    pub image_shrink_standalone_to_fit: u32,
    pub text_area_resize: u32,
    pub tab_to_links: u32,
    pub local_storage: u32,
    pub databases: u32,
    pub application_cache: u32,
    pub webgl: u32,
    pub background_color: u32,
    pub accept_language_list: String,
}

/// Browser initialization settings. Use [BrowserSettings::new] to get the recommended
/// default values. The consequences of using custom values may not be well
/// tested. Many of these and other settings can also configured using command-
/// line switches.
#[derive(Debug, Clone, PartialEq, Eq)]
pub struct BrowserSettings {
    pub windowless_frame_rate: i32,
    pub standard_font_family: String,
    pub fixed_font_family: String,
    pub serif_font_family: String,
    pub sans_serif_font_family: String,
    pub cursive_font_family: String,
    pub fantasy_font_family: String,
    pub default_font_size: i32,
    pub default_fixed_font_size: i32,
    pub minimum_font_size: i32,
    pub minimum_logical_font_size: i32,
    pub default_encoding: String,
    pub remote_fonts: State,
    pub javascript: State,
    pub javascript_close_windows: State,
    pub javascript_access_clipboard: State,
    pub javascript_dom_paste: State,
    pub plugins: State,
    pub universal_access_from_file_urls: State,
    pub file_access_from_file_urls: State,
    pub web_security: State,
    pub image_loading: State,
    pub image_shrink_standalone_to_fit: State,
    pub text_area_resize: State,
    pub tab_to_links: State,
    pub local_storage: State,
    pub databases: State,
    pub application_cache: State,
    pub webgl: State,
    pub background_color: Color,
    pub accept_language_list: String,
}

/// Every setting state of a raw settings record is a known `cef_state_t` code.
pub open spec fn raw_browser_settings_valid(raw: RawBrowserSettings) -> bool {
    &&& raw.remote_fonts <= 2
    &&& raw.javascript <= 2
    &&& raw.javascript_close_windows <= 2
    &&& raw.javascript_access_clipboard <= 2
    &&& raw.javascript_dom_paste <= 2
    &&& raw.plugins <= 2
    &&& raw.universal_access_from_file_urls <= 2
    &&& raw.file_access_from_file_urls <= 2
    &&& raw.web_security <= 2
    &&& raw.image_loading <= 2
    &&& raw.image_shrink_standalone_to_fit <= 2
    &&& raw.text_area_resize <= 2
    &&& raw.tab_to_links <= 2
    &&& raw.local_storage <= 2
    &&& raw.databases <= 2
    &&& raw.application_cache <= 2
    &&& raw.webgl <= 2
}

/// The settings that a valid raw settings record describes, field by field.
pub open spec fn settings_of_raw(raw: RawBrowserSettings) -> BrowserSettings {
    BrowserSettings {
        windowless_frame_rate: raw.windowless_frame_rate,
        standard_font_family: raw.standard_font_family,
        fixed_font_family: raw.fixed_font_family,
        serif_font_family: raw.serif_font_family,
        sans_serif_font_family: raw.sans_serif_font_family,
        cursive_font_family: raw.cursive_font_family,
        fantasy_font_family: raw.fantasy_font_family,
        default_font_size: raw.default_font_size,
        default_fixed_font_size: raw.default_fixed_font_size,
        minimum_font_size: raw.minimum_font_size,
        minimum_logical_font_size: raw.minimum_logical_font_size,
        default_encoding: raw.default_encoding,
        remote_fonts: state_of_code(raw.remote_fonts),
        javascript: state_of_code(raw.javascript),
        javascript_close_windows: state_of_code(raw.javascript_close_windows),
        javascript_access_clipboard: state_of_code(raw.javascript_access_clipboard),
        javascript_dom_paste: state_of_code(raw.javascript_dom_paste),
        plugins: state_of_code(raw.plugins),
        universal_access_from_file_urls: state_of_code(raw.universal_access_from_file_urls),
        file_access_from_file_urls: state_of_code(raw.file_access_from_file_urls),
        web_security: state_of_code(raw.web_security),
        image_loading: state_of_code(raw.image_loading),
        image_shrink_standalone_to_fit: state_of_code(raw.image_shrink_standalone_to_fit),
        text_area_resize: state_of_code(raw.text_area_resize),
        tab_to_links: state_of_code(raw.tab_to_links),
        local_storage: state_of_code(raw.local_storage),
        databases: state_of_code(raw.databases),
        application_cache: state_of_code(raw.application_cache),
        webgl: state_of_code(raw.webgl),
        background_color: Color(raw.background_color),
        accept_language_list: raw.accept_language_list,
    }
}

/// The raw record of a settings value, field by field.
pub open spec fn raw_of_settings(s: BrowserSettings) -> RawBrowserSettings {
    RawBrowserSettings {
        windowless_frame_rate: s.windowless_frame_rate,
        standard_font_family: s.standard_font_family,
        fixed_font_family: s.fixed_font_family,
        serif_font_family: s.serif_font_family,
        sans_serif_font_family: s.sans_serif_font_family,
        cursive_font_family: s.cursive_font_family,
        fantasy_font_family: s.fantasy_font_family,
        default_font_size: s.default_font_size,
        default_fixed_font_size: s.default_fixed_font_size,
        minimum_font_size: s.minimum_font_size,
        minimum_logical_font_size: s.minimum_logical_font_size,
        default_encoding: s.default_encoding,
        remote_fonts: state_code(s.remote_fonts),
        javascript: state_code(s.javascript),
        javascript_close_windows: state_code(s.javascript_close_windows),
        javascript_access_clipboard: state_code(s.javascript_access_clipboard),
        javascript_dom_paste: state_code(s.javascript_dom_paste),
        plugins: state_code(s.plugins),
        universal_access_from_file_urls: state_code(s.universal_access_from_file_urls),
        file_access_from_file_urls: state_code(s.file_access_from_file_urls),
        web_security: state_code(s.web_security),
        image_loading: state_code(s.image_loading),
        image_shrink_standalone_to_fit: state_code(s.image_shrink_standalone_to_fit),
        text_area_resize: state_code(s.text_area_resize),
        tab_to_links: state_code(s.tab_to_links),
        local_storage: state_code(s.local_storage),
        databases: state_code(s.databases),
        application_cache: state_code(s.application_cache),
        webgl: state_code(s.webgl),
        background_color: s.background_color.0,
        accept_language_list: s.accept_language_list,
    }
}

impl BrowserSettings {
    /// The recommended default settings: every number 0, every string empty,
    /// every setting in its default state and a transparent background.
    pub fn new() -> (s: BrowserSettings)
        ensures
            s.windowless_frame_rate == 0,
            s.standard_font_family@ == Seq::<char>::empty(),
            s.fixed_font_family@ == Seq::<char>::empty(),
            s.serif_font_family@ == Seq::<char>::empty(),
            s.sans_serif_font_family@ == Seq::<char>::empty(),
            s.cursive_font_family@ == Seq::<char>::empty(),
            s.fantasy_font_family@ == Seq::<char>::empty(),
            s.default_font_size == 0,
            s.default_fixed_font_size == 0,
            s.minimum_font_size == 0,
            s.minimum_logical_font_size == 0,
            s.default_encoding@ == Seq::<char>::empty(),
            s.remote_fonts == State::Default,
            s.javascript == State::Default,
            s.javascript_close_windows == State::Default,
            s.javascript_access_clipboard == State::Default,
            s.javascript_dom_paste == State::Default,
            s.plugins == State::Default,
            s.universal_access_from_file_urls == State::Default,
            s.file_access_from_file_urls == State::Default,
            s.web_security == State::Default,
            s.image_loading == State::Default,
            s.image_shrink_standalone_to_fit == State::Default,
            s.text_area_resize == State::Default,
            s.tab_to_links == State::Default,
            s.local_storage == State::Default,
            s.databases == State::Default,
            s.application_cache == State::Default,
            s.webgl == State::Default,
            s.background_color.0 == 0,
            s.accept_language_list@ == Seq::<char>::empty(),
    {
        BrowserSettings {
            windowless_frame_rate: 0,
            standard_font_family: String::new(),
            fixed_font_family: String::new(),
            serif_font_family: String::new(),
            sans_serif_font_family: String::new(),
            cursive_font_family: String::new(),
            fantasy_font_family: String::new(),
            default_font_size: 0,
            default_fixed_font_size: 0,
            minimum_font_size: 0,
            minimum_logical_font_size: 0,
            default_encoding: String::new(),
            remote_fonts: State::Default,
            javascript: State::Default,
            javascript_close_windows: State::Default,
            javascript_access_clipboard: State::Default,
            javascript_dom_paste: State::Default,
            plugins: State::Default,
            universal_access_from_file_urls: State::Default,
            file_access_from_file_urls: State::Default,
            web_security: State::Default,
            image_loading: State::Default,
            image_shrink_standalone_to_fit: State::Default,
            text_area_resize: State::Default,
            tab_to_links: State::Default,
            local_storage: State::Default,
            databases: State::Default,
            application_cache: State::Default,
            webgl: State::Default,
            background_color: Color::wrap(0),
            accept_language_list: String::new(),
        }
    }

    /// Reads browser settings from their CEF representation.
    pub fn from_raw(raw: &RawBrowserSettings) -> (s: BrowserSettings)
        requires
            raw_browser_settings_valid(*raw),
        ensures
            s == settings_of_raw(*raw),
            s.windowless_frame_rate == raw.windowless_frame_rate,
            s.standard_font_family == raw.standard_font_family,
            s.fixed_font_family == raw.fixed_font_family,
            s.serif_font_family == raw.serif_font_family,
            s.sans_serif_font_family == raw.sans_serif_font_family,
            s.cursive_font_family == raw.cursive_font_family,
            s.fantasy_font_family == raw.fantasy_font_family,
            s.default_font_size == raw.default_font_size,
            s.default_fixed_font_size == raw.default_fixed_font_size,
            s.minimum_font_size == raw.minimum_font_size,
            s.minimum_logical_font_size == raw.minimum_logical_font_size,
            s.default_encoding == raw.default_encoding,
            s.remote_fonts == state_of_code(raw.remote_fonts),
            s.javascript == state_of_code(raw.javascript),
            s.javascript_close_windows == state_of_code(raw.javascript_close_windows),
            s.javascript_access_clipboard == state_of_code(raw.javascript_access_clipboard),
            s.javascript_dom_paste == state_of_code(raw.javascript_dom_paste),
            s.plugins == state_of_code(raw.plugins),
            s.universal_access_from_file_urls == state_of_code(raw.universal_access_from_file_urls),
            s.file_access_from_file_urls == state_of_code(raw.file_access_from_file_urls),
            s.web_security == state_of_code(raw.web_security),
            s.image_loading == state_of_code(raw.image_loading),
            s.image_shrink_standalone_to_fit == state_of_code(raw.image_shrink_standalone_to_fit),
            s.text_area_resize == state_of_code(raw.text_area_resize),
            s.tab_to_links == state_of_code(raw.tab_to_links),
            s.local_storage == state_of_code(raw.local_storage),
            s.databases == state_of_code(raw.databases),
            s.application_cache == state_of_code(raw.application_cache),
            s.webgl == state_of_code(raw.webgl),
            s.background_color.0 == raw.background_color,
            s.accept_language_list == raw.accept_language_list,
    {
        BrowserSettings {
            windowless_frame_rate: raw.windowless_frame_rate,
            standard_font_family: raw.standard_font_family.clone(),
            fixed_font_family: raw.fixed_font_family.clone(),
            serif_font_family: raw.serif_font_family.clone(),
            sans_serif_font_family: raw.sans_serif_font_family.clone(),
            cursive_font_family: raw.cursive_font_family.clone(),
            fantasy_font_family: raw.fantasy_font_family.clone(),
            default_font_size: raw.default_font_size,
            default_fixed_font_size: raw.default_fixed_font_size,
            minimum_font_size: raw.minimum_font_size,
            minimum_logical_font_size: raw.minimum_logical_font_size,
            default_encoding: raw.default_encoding.clone(),
            remote_fonts: State::from_unchecked(raw.remote_fonts),
            javascript: State::from_unchecked(raw.javascript),
            javascript_close_windows: State::from_unchecked(raw.javascript_close_windows),
            javascript_access_clipboard: State::from_unchecked(raw.javascript_access_clipboard),
            javascript_dom_paste: State::from_unchecked(raw.javascript_dom_paste),
            plugins: State::from_unchecked(raw.plugins),
            universal_access_from_file_urls: State::from_unchecked(raw.universal_access_from_file_urls),
            file_access_from_file_urls: State::from_unchecked(raw.file_access_from_file_urls),
            web_security: State::from_unchecked(raw.web_security),
            image_loading: State::from_unchecked(raw.image_loading),
            image_shrink_standalone_to_fit: State::from_unchecked(raw.image_shrink_standalone_to_fit),
            text_area_resize: State::from_unchecked(raw.text_area_resize),
            tab_to_links: State::from_unchecked(raw.tab_to_links),
            local_storage: State::from_unchecked(raw.local_storage),
            databases: State::from_unchecked(raw.databases),
            application_cache: State::from_unchecked(raw.application_cache),
            webgl: State::from_unchecked(raw.webgl),
            background_color: Color::wrap(raw.background_color),
            accept_language_list: raw.accept_language_list.clone(),
        }
    }

    /// The CEF representation of these settings.
    pub fn into_raw(&self) -> (raw: RawBrowserSettings)
        ensures
            raw == raw_of_settings(*self),
            raw.windowless_frame_rate == self.windowless_frame_rate,
            raw.standard_font_family == self.standard_font_family,
            raw.fixed_font_family == self.fixed_font_family,
            raw.serif_font_family == self.serif_font_family,
            raw.sans_serif_font_family == self.sans_serif_font_family,
            raw.cursive_font_family == self.cursive_font_family,
            raw.fantasy_font_family == self.fantasy_font_family,
            raw.default_font_size == self.default_font_size,
            raw.default_fixed_font_size == self.default_fixed_font_size,
            raw.minimum_font_size == self.minimum_font_size,
            raw.minimum_logical_font_size == self.minimum_logical_font_size,
            raw.default_encoding == self.default_encoding,
            raw.remote_fonts == state_code(self.remote_fonts),
            raw.javascript == state_code(self.javascript),
            raw.javascript_close_windows == state_code(self.javascript_close_windows),
            raw.javascript_access_clipboard == state_code(self.javascript_access_clipboard),
            raw.javascript_dom_paste == state_code(self.javascript_dom_paste),
            raw.plugins == state_code(self.plugins),
            raw.universal_access_from_file_urls == state_code(self.universal_access_from_file_urls),
            raw.file_access_from_file_urls == state_code(self.file_access_from_file_urls),
            raw.web_security == state_code(self.web_security),
            raw.image_loading == state_code(self.image_loading),
            raw.image_shrink_standalone_to_fit == state_code(self.image_shrink_standalone_to_fit),
            raw.text_area_resize == state_code(self.text_area_resize),
            raw.tab_to_links == state_code(self.tab_to_links),
            raw.local_storage == state_code(self.local_storage),
            raw.databases == state_code(self.databases),
            raw.application_cache == state_code(self.application_cache),
            raw.webgl == state_code(self.webgl),
            raw.background_color == self.background_color.0,
            raw.accept_language_list == self.accept_language_list,
    {
        RawBrowserSettings {
            windowless_frame_rate: self.windowless_frame_rate,
            standard_font_family: self.standard_font_family.clone(),
            fixed_font_family: self.fixed_font_family.clone(),
            serif_font_family: self.serif_font_family.clone(),
            sans_serif_font_family: self.sans_serif_font_family.clone(),
            cursive_font_family: self.cursive_font_family.clone(),
            fantasy_font_family: self.fantasy_font_family.clone(),
            default_font_size: self.default_font_size,
            default_fixed_font_size: self.default_fixed_font_size,
            minimum_font_size: self.minimum_font_size,
            minimum_logical_font_size: self.minimum_logical_font_size,
            default_encoding: self.default_encoding.clone(),
            remote_fonts: self.remote_fonts.to_raw(),
            javascript: self.javascript.to_raw(),
            javascript_close_windows: self.javascript_close_windows.to_raw(),
            javascript_access_clipboard: self.javascript_access_clipboard.to_raw(),
            javascript_dom_paste: self.javascript_dom_paste.to_raw(),
            plugins: self.plugins.to_raw(),
            universal_access_from_file_urls: self.universal_access_from_file_urls.to_raw(),
            file_access_from_file_urls: self.file_access_from_file_urls.to_raw(),
            web_security: self.web_security.to_raw(),
            image_loading: self.image_loading.to_raw(),
            image_shrink_standalone_to_fit: self.image_shrink_standalone_to_fit.to_raw(),
            text_area_resize: self.text_area_resize.to_raw(),
            tab_to_links: self.tab_to_links.to_raw(),
            local_storage: self.local_storage.to_raw(),
            databases: self.databases.to_raw(),
            application_cache: self.application_cache.to_raw(),
            webgl: self.webgl.to_raw(),
            background_color: self.background_color.get(),
            accept_language_list: self.accept_language_list.clone(),
        }
    }
}

impl Default for BrowserSettings {
    fn default() -> (s: BrowserSettings)
        ensures
            s.windowless_frame_rate == 0,
            s.standard_font_family@ == Seq::<char>::empty(),
            s.fixed_font_family@ == Seq::<char>::empty(),
            s.serif_font_family@ == Seq::<char>::empty(),
            s.sans_serif_font_family@ == Seq::<char>::empty(),
            s.cursive_font_family@ == Seq::<char>::empty(),
            s.fantasy_font_family@ == Seq::<char>::empty(),
            s.default_font_size == 0,
            s.default_fixed_font_size == 0,
            s.minimum_font_size == 0,
            s.minimum_logical_font_size == 0,
            s.default_encoding@ == Seq::<char>::empty(),
            s.remote_fonts == State::Default,
            s.javascript == State::Default,
            s.javascript_close_windows == State::Default,
            s.javascript_access_clipboard == State::Default,
            s.javascript_dom_paste == State::Default,
            s.plugins == State::Default,
            s.universal_access_from_file_urls == State::Default,
            s.file_access_from_file_urls == State::Default,
            s.web_security == State::Default,
            s.image_loading == State::Default,
            s.image_shrink_standalone_to_fit == State::Default,
            s.text_area_resize == State::Default,
            s.tab_to_links == State::Default,
            s.local_storage == State::Default,
            s.databases == State::Default,
            s.application_cache == State::Default,
            s.webgl == State::Default,
            s.background_color.0 == 0,
            s.accept_language_list@ == Seq::<char>::empty(),
    {
        BrowserSettings::new()
    }
}

/// Writing settings to their CEF representation gives a valid record, and
/// reading that record back gives the same settings.
pub proof fn lemma_browser_settings_round_trip(s: BrowserSettings)
    ensures
        raw_browser_settings_valid(raw_of_settings(s)),
        settings_of_raw(raw_of_settings(s)) == s,
{
}

/// Each field of the CEF settings record is the setting of the same name, a
/// state as its `cef_state_t` code and the background color as its packed
/// value; reading a record takes each setting from the field of the same name.
pub proof fn lemma_browser_settings_fields(s: BrowserSettings, raw: RawBrowserSettings)
    ensures
        raw_of_settings(s).windowless_frame_rate == s.windowless_frame_rate,
        raw_of_settings(s).standard_font_family == s.standard_font_family,
        raw_of_settings(s).fixed_font_family == s.fixed_font_family,
        raw_of_settings(s).serif_font_family == s.serif_font_family,
        raw_of_settings(s).sans_serif_font_family == s.sans_serif_font_family,
        raw_of_settings(s).cursive_font_family == s.cursive_font_family,
        raw_of_settings(s).fantasy_font_family == s.fantasy_font_family,
        raw_of_settings(s).default_font_size == s.default_font_size,
        raw_of_settings(s).default_fixed_font_size == s.default_fixed_font_size,
        raw_of_settings(s).minimum_font_size == s.minimum_font_size,
        raw_of_settings(s).minimum_logical_font_size == s.minimum_logical_font_size,
        raw_of_settings(s).default_encoding == s.default_encoding,
        raw_of_settings(s).remote_fonts == state_code(s.remote_fonts),
        raw_of_settings(s).javascript == state_code(s.javascript),
        raw_of_settings(s).javascript_close_windows == state_code(s.javascript_close_windows),
        raw_of_settings(s).javascript_access_clipboard == state_code(s.javascript_access_clipboard),
        raw_of_settings(s).javascript_dom_paste == state_code(s.javascript_dom_paste),
        raw_of_settings(s).plugins == state_code(s.plugins),
        raw_of_settings(s).universal_access_from_file_urls == state_code(s.universal_access_from_file_urls),
        raw_of_settings(s).file_access_from_file_urls == state_code(s.file_access_from_file_urls),
        raw_of_settings(s).web_security == state_code(s.web_security),
        raw_of_settings(s).image_loading == state_code(s.image_loading),
        raw_of_settings(s).image_shrink_standalone_to_fit == state_code(s.image_shrink_standalone_to_fit),
        raw_of_settings(s).text_area_resize == state_code(s.text_area_resize),
        raw_of_settings(s).tab_to_links == state_code(s.tab_to_links),
        raw_of_settings(s).local_storage == state_code(s.local_storage),
        raw_of_settings(s).databases == state_code(s.databases),
        raw_of_settings(s).application_cache == state_code(s.application_cache),
        raw_of_settings(s).webgl == state_code(s.webgl),
        raw_of_settings(s).background_color == s.background_color.0,
        raw_of_settings(s).accept_language_list == s.accept_language_list,
        settings_of_raw(raw).windowless_frame_rate == raw.windowless_frame_rate,
        settings_of_raw(raw).standard_font_family == raw.standard_font_family,
        settings_of_raw(raw).fixed_font_family == raw.fixed_font_family,
        settings_of_raw(raw).serif_font_family == raw.serif_font_family,
        settings_of_raw(raw).sans_serif_font_family == raw.sans_serif_font_family,
        settings_of_raw(raw).cursive_font_family == raw.cursive_font_family,
        settings_of_raw(raw).fantasy_font_family == raw.fantasy_font_family,
        settings_of_raw(raw).default_font_size == raw.default_font_size,
        settings_of_raw(raw).default_fixed_font_size == raw.default_fixed_font_size,
        settings_of_raw(raw).minimum_font_size == raw.minimum_font_size,
        settings_of_raw(raw).minimum_logical_font_size == raw.minimum_logical_font_size,
        settings_of_raw(raw).default_encoding == raw.default_encoding,
        settings_of_raw(raw).remote_fonts == state_of_code(raw.remote_fonts),
        settings_of_raw(raw).javascript == state_of_code(raw.javascript),
        settings_of_raw(raw).javascript_close_windows == state_of_code(raw.javascript_close_windows),
        settings_of_raw(raw).javascript_access_clipboard == state_of_code(raw.javascript_access_clipboard),
        settings_of_raw(raw).javascript_dom_paste == state_of_code(raw.javascript_dom_paste),
        settings_of_raw(raw).plugins == state_of_code(raw.plugins),
        settings_of_raw(raw).universal_access_from_file_urls == state_of_code(raw.universal_access_from_file_urls),
        settings_of_raw(raw).file_access_from_file_urls == state_of_code(raw.file_access_from_file_urls),
        settings_of_raw(raw).web_security == state_of_code(raw.web_security),
        settings_of_raw(raw).image_loading == state_of_code(raw.image_loading),
        settings_of_raw(raw).image_shrink_standalone_to_fit == state_of_code(raw.image_shrink_standalone_to_fit),
        settings_of_raw(raw).text_area_resize == state_of_code(raw.text_area_resize),
        settings_of_raw(raw).tab_to_links == state_of_code(raw.tab_to_links),
        settings_of_raw(raw).local_storage == state_of_code(raw.local_storage),
        settings_of_raw(raw).databases == state_of_code(raw.databases),
        settings_of_raw(raw).application_cache == state_of_code(raw.application_cache),
        settings_of_raw(raw).webgl == state_of_code(raw.webgl),
        settings_of_raw(raw).background_color.0 == raw.background_color,
        settings_of_raw(raw).accept_language_list == raw.accept_language_list,
{
}

/// The `cef_state_t` codes: default 0, enabled 1, disabled 2, and each code
/// read back gives its state.
pub proof fn lemma_state_codes()
    ensures
        state_code(State::Default) == 0,
        state_code(State::Enabled) == 1,
        state_code(State::Disabled) == 2,
        state_of_code(0) == State::Default,
        state_of_code(1) == State::Enabled,
        state_of_code(2) == State::Disabled,
{
}

/// Which CEF reload entry point a reload request uses.
#[derive(Debug, PartialEq, Eq, Clone, Copy)]
pub enum ReloadCommand {
    /// Reload the current page.
    Reload,
    /// Reload the current page ignoring any cached data.
    ReloadIgnoreCache,
}

/// The entry point for reloading the current page, optionally ignoring any
/// cached data.
pub fn reload_command(ignore_cache: bool) -> (cmd: ReloadCommand)
    ensures
        cmd == (if ignore_cache { ReloadCommand::ReloadIgnoreCache } else { ReloadCommand::Reload }),
{
    if ignore_cache {
        ReloadCommand::ReloadIgnoreCache
    } else {
        ReloadCommand::Reload
    }
}

} // verus!
