use vstd::prelude::*;

verus! {

/// The fields of a `cef_popup_features_t`: each optional coordinate comes with
/// a flag that says whether it was set.
#[derive(Debug, Clone, Copy, PartialEq, Eq, Default)]
pub struct RawPopupFeatures {
    pub x: i32,
    pub x_set: i32,
    pub y: i32,
    pub y_set: i32,
    pub width: i32,
    pub width_set: i32,
    pub height: i32,
    pub height_set: i32,
    pub menu_bar_visible: i32,
    pub status_bar_visible: i32,
    pub tool_bar_visible: i32,
    pub scrollbars_visible: i32,
}

/// Popup window features.
#[derive(Debug, Clone, Copy, PartialEq, Eq)]
pub struct PopupFeatures {
    pub x: Option<i32>,
    pub y: Option<i32>,
    pub width: Option<i32>,
    pub height: Option<i32>,
    pub menu_bar_visible: bool,
    pub status_bar_visible: bool,
    pub tool_bar_visible: bool,
    pub scroll_bars_visible: bool,
}

/// A coordinate that is present exactly when its flag is set.
pub open spec fn optional_field(value: i32, set: i32) -> Option<i32> {
    if set == 0 { None } else { Some(value) }
}

fn optional(value: i32, set: i32) -> (r: Option<i32>)
    ensures
        r == optional_field(value, set),
{
    if set == 0 { None } else { Some(value) }
}

impl PopupFeatures {
    /// Reads the popup features that CEF reports.
    pub fn new(popup_features: &RawPopupFeatures) -> (f: PopupFeatures)
        ensures
            f.x == optional_field(popup_features.x, popup_features.x_set),
            f.y == optional_field(popup_features.y, popup_features.y_set),
            f.width == optional_field(popup_features.width, popup_features.width_set),
            f.height == optional_field(popup_features.height, popup_features.height_set),
            f.menu_bar_visible == (popup_features.menu_bar_visible != 0),
            f.status_bar_visible == (popup_features.status_bar_visible != 0),
            f.tool_bar_visible == (popup_features.tool_bar_visible != 0),
            f.scroll_bars_visible == (popup_features.scrollbars_visible != 0),
    {
        PopupFeatures {
            x: optional(popup_features.x, popup_features.x_set),
            y: optional(popup_features.y, popup_features.y_set),
            width: optional(popup_features.width, popup_features.width_set),
            height: optional(popup_features.height, popup_features.height_set),
            menu_bar_visible: popup_features.menu_bar_visible != 0,
            status_bar_visible: popup_features.status_bar_visible != 0,
            tool_bar_visible: popup_features.tool_bar_visible != 0,
            scroll_bars_visible: popup_features.scrollbars_visible != 0,
        }
    }
}

} // verus!
