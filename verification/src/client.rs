//! Values and decisions of the client handlers: rendering, audio, context
//! menus, downloads and popups.

pub mod audio_handler;
pub mod context_menu_handler;
pub mod download_handler;
pub mod drag_handler;
pub mod focus_handler;
pub mod js_dialog_handler;
pub mod life_span_handler;
pub mod render_handler;
pub mod request_handler;
