use vstd::prelude::*;

verus! {

/// Result codes for `MediaRouter::create_route`.
#[derive(Debug, Clone, Copy, PartialEq, Eq)]
pub enum MediaRouteCreateResult {
    UnknownError,
    /// The route was created.
    Success,
    TimedOut,
    RouteNotFound,
    SinkNotFound,
    InvalidOrigin,
    NoSupportedProvider,
    Cancelled,
    RouteAlreadyExists,
}

/// The `cef_media_route_create_result_t` code of a value of [MediaRouteCreateResult].
pub open spec fn media_route_create_result_code(v: MediaRouteCreateResult) -> u32 {
    match v {
        MediaRouteCreateResult::UnknownError => 0,
        MediaRouteCreateResult::Success => 1,
        MediaRouteCreateResult::TimedOut => 2,
        MediaRouteCreateResult::RouteNotFound => 3,
        MediaRouteCreateResult::SinkNotFound => 4,
        MediaRouteCreateResult::InvalidOrigin => 5,
        MediaRouteCreateResult::NoSupportedProvider => 7,
        MediaRouteCreateResult::Cancelled => 8,
        MediaRouteCreateResult::RouteAlreadyExists => 9,
    }
}

/// Each value of [MediaRouteCreateResult] has its code from CEF's header.
pub proof fn lemma_media_route_create_result_codes()
    ensures
        media_route_create_result_code(MediaRouteCreateResult::UnknownError) == 0,
        media_route_create_result_code(MediaRouteCreateResult::Success) == 1,
        media_route_create_result_code(MediaRouteCreateResult::TimedOut) == 2,
        media_route_create_result_code(MediaRouteCreateResult::RouteNotFound) == 3,
        media_route_create_result_code(MediaRouteCreateResult::SinkNotFound) == 4,
        media_route_create_result_code(MediaRouteCreateResult::InvalidOrigin) == 5,
        media_route_create_result_code(MediaRouteCreateResult::NoSupportedProvider) == 7,
        media_route_create_result_code(MediaRouteCreateResult::Cancelled) == 8,
        media_route_create_result_code(MediaRouteCreateResult::RouteAlreadyExists) == 9,
{
}

/// Whether `c` is a `cef_media_route_create_result_t` code.
pub open spec fn is_media_route_create_result_code(c: u32) -> bool {
    c == 0 || c == 1 || c == 2 || c == 3 || c == 4 || c == 5 || c == 7 || c == 8 || c == 9
}

impl MediaRouteCreateResult {
    /// The value with a known `cef_media_route_create_result_t` code.
    pub fn from_unchecked(c: u32) -> (v: MediaRouteCreateResult)
        requires
            is_media_route_create_result_code(c),
        ensures
            media_route_create_result_code(v) == c,
    {
        match c {
            0 => MediaRouteCreateResult::UnknownError,
            1 => MediaRouteCreateResult::Success,
            2 => MediaRouteCreateResult::TimedOut,
            3 => MediaRouteCreateResult::RouteNotFound,
            4 => MediaRouteCreateResult::SinkNotFound,
            5 => MediaRouteCreateResult::InvalidOrigin,
            7 => MediaRouteCreateResult::NoSupportedProvider,
            8 => MediaRouteCreateResult::Cancelled,
            _ => MediaRouteCreateResult::RouteAlreadyExists,
        }
    }

    /// The `cef_media_route_create_result_t` code of this value.
    pub fn to_raw(&self) -> (c: u32)
        ensures
            c == media_route_create_result_code(*self),
    {
        match self {
            MediaRouteCreateResult::UnknownError => 0,
            MediaRouteCreateResult::Success => 1,
            MediaRouteCreateResult::TimedOut => 2,
            MediaRouteCreateResult::RouteNotFound => 3,
            MediaRouteCreateResult::SinkNotFound => 4,
            MediaRouteCreateResult::InvalidOrigin => 5,
            MediaRouteCreateResult::NoSupportedProvider => 7,
            MediaRouteCreateResult::Cancelled => 8,
            MediaRouteCreateResult::RouteAlreadyExists => 9,
        }
    }
}

/// Connection state for a `MediaRoute` object.
#[derive(Debug, Clone, Copy, PartialEq, Eq)]
pub enum MediaRouteConnectionState {
    Unknown,
    Connecting,
    Connected,
    Closed,
    Terminated,
}

/// The `cef_media_route_connection_state_t` code of a value of [MediaRouteConnectionState].
pub open spec fn media_route_connection_state_code(v: MediaRouteConnectionState) -> u32 {
    match v {
        MediaRouteConnectionState::Unknown => 0,
        MediaRouteConnectionState::Connecting => 1,
        MediaRouteConnectionState::Connected => 2,
        MediaRouteConnectionState::Closed => 3,
        MediaRouteConnectionState::Terminated => 4,
    }
}

/// Each value of [MediaRouteConnectionState] has its code from CEF's header.
pub proof fn lemma_media_route_connection_state_codes()
    ensures
        media_route_connection_state_code(MediaRouteConnectionState::Unknown) == 0,
        media_route_connection_state_code(MediaRouteConnectionState::Connecting) == 1,
        media_route_connection_state_code(MediaRouteConnectionState::Connected) == 2,
        media_route_connection_state_code(MediaRouteConnectionState::Closed) == 3,
        media_route_connection_state_code(MediaRouteConnectionState::Terminated) == 4,
{
}

impl MediaRouteConnectionState {
    /// The value with a known `cef_media_route_connection_state_t` code.
    pub fn from_unchecked(c: u32) -> (v: MediaRouteConnectionState)
        requires
            c < 5,
        ensures
            media_route_connection_state_code(v) == c,
    {
        match c {
            0 => MediaRouteConnectionState::Unknown,
            1 => MediaRouteConnectionState::Connecting,
            2 => MediaRouteConnectionState::Connected,
            3 => MediaRouteConnectionState::Closed,
            _ => MediaRouteConnectionState::Terminated,
        }
    }

    /// The `cef_media_route_connection_state_t` code of this value.
    pub fn to_raw(&self) -> (c: u32)
        ensures
            c == media_route_connection_state_code(*self),
    {
        match self {
            MediaRouteConnectionState::Unknown => 0,
            MediaRouteConnectionState::Connecting => 1,
            MediaRouteConnectionState::Connected => 2,
            MediaRouteConnectionState::Closed => 3,
            MediaRouteConnectionState::Terminated => 4,
        }
    }
}

/// Icon types for a `MediaSink` object.
#[derive(Debug, Clone, Copy, PartialEq, Eq)]
pub enum MediaSinkIconType {
    Cast,
    CastAudioGroup,
    CastAudio,
    Meeting,
    Hangout,
    Education,
    WiredDisplay,
    Generic,
}

/// The `cef_media_sink_icon_type_t` code of a value of [MediaSinkIconType].
pub open spec fn media_sink_icon_type_code(v: MediaSinkIconType) -> u32 {
    match v {
        MediaSinkIconType::Cast => 0,
        MediaSinkIconType::CastAudioGroup => 1,
        MediaSinkIconType::CastAudio => 2,
        MediaSinkIconType::Meeting => 3,
        MediaSinkIconType::Hangout => 4,
        MediaSinkIconType::Education => 5,
        MediaSinkIconType::WiredDisplay => 6,
        MediaSinkIconType::Generic => 7,
    }
}

/// Each value of [MediaSinkIconType] has its code from CEF's header.
pub proof fn lemma_media_sink_icon_type_codes()
    ensures
        media_sink_icon_type_code(MediaSinkIconType::Cast) == 0,
        media_sink_icon_type_code(MediaSinkIconType::CastAudioGroup) == 1,
        media_sink_icon_type_code(MediaSinkIconType::CastAudio) == 2,
        media_sink_icon_type_code(MediaSinkIconType::Meeting) == 3,
        media_sink_icon_type_code(MediaSinkIconType::Hangout) == 4,
        media_sink_icon_type_code(MediaSinkIconType::Education) == 5,
        media_sink_icon_type_code(MediaSinkIconType::WiredDisplay) == 6,
        media_sink_icon_type_code(MediaSinkIconType::Generic) == 7,
{
}

impl MediaSinkIconType {
    /// The value with a known `cef_media_sink_icon_type_t` code.
    pub fn from_unchecked(c: u32) -> (v: MediaSinkIconType)
        requires
            c < 8,
        ensures
            media_sink_icon_type_code(v) == c,
    {
        match c {
            0 => MediaSinkIconType::Cast,
            1 => MediaSinkIconType::CastAudioGroup,
            2 => MediaSinkIconType::CastAudio,
            3 => MediaSinkIconType::Meeting,
            4 => MediaSinkIconType::Hangout,
            5 => MediaSinkIconType::Education,
            6 => MediaSinkIconType::WiredDisplay,
            _ => MediaSinkIconType::Generic,
        }
    }

    /// The `cef_media_sink_icon_type_t` code of this value.
    pub fn to_raw(&self) -> (c: u32)
        ensures
            c == media_sink_icon_type_code(*self),
    {
        match self {
            MediaSinkIconType::Cast => 0,
            MediaSinkIconType::CastAudioGroup => 1,
            MediaSinkIconType::CastAudio => 2,
            MediaSinkIconType::Meeting => 3,
            MediaSinkIconType::Hangout => 4,
            MediaSinkIconType::Education => 5,
            MediaSinkIconType::WiredDisplay => 6,
            MediaSinkIconType::Generic => 7,
        }
    }
}

/// The fields of a `cef_media_sink_device_info_t`, strings already decoded.
#[derive(Debug, Clone, PartialEq, Eq)]
pub struct RawMediaSinkDeviceInfo {
    pub ip_address: String,
    pub port: i32,
    pub model_name: String,
}

/// Device information for a media sink.
#[derive(Debug, Clone, PartialEq, Eq, Hash)]
pub struct MediaSinkDeviceInfo {
    pub ip_address: String,
    pub port: i32,
    pub model_name: String,
}

impl MediaSinkDeviceInfo {
    /// Reads the device information that CEF reports.
    pub fn from_raw(info: &RawMediaSinkDeviceInfo) -> (d: MediaSinkDeviceInfo)
        ensures
            d.ip_address == info.ip_address,
            d.port == info.port,
            d.model_name == info.model_name,
    {
        MediaSinkDeviceInfo {
            ip_address: info.ip_address.clone(),
            port: info.port,
            model_name: info.model_name.clone(),
        }
    }
}

} // verus!
