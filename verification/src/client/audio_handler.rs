use vstd::prelude::*;

verus! {

/// A speaker position that an audio channel can be mapped to.
#[derive(PartialEq, Eq, Clone, Copy, Debug)]
pub enum Speaker {
    FrontLeft,
    FrontRight,
    FrontCenter,
    LowFrequency,
    SideLeft,
    SideRight,
    BackLeft,
    BackRight,
    BackCenter,
    FrontLeftOfCenter,
    FrontRightOfCenter,
    StereoLeft,
    StereoRight,
    RearLeft,
    RearRight,
    RearCenter,
}

/// Enumerates the various representations of the ordering of audio channels.
#[derive(PartialEq, Eq, Clone, Copy, Debug)]
pub enum ChannelLayout {
    LayoutNone,
    LayoutUnsupported,
    /// Front C
    LayoutMono,
    /// Front L, Front R
    LayoutStereo,
    /// Front L, Front R, Back C
    Layout2_1,
    /// Front L, Front R, Front C
    LayoutSurround,
    /// Front L, Front R, Front C, Back C
    Layout4_0,
    /// Front L, Front R, Side L, Side R
    Layout2_2,
    /// Front L, Front R, Back L, Back R
    LayoutQuad,
    /// Front L, Front R, Front C, Side L, Side R
    Layout5_0,
    /// Front L, Front R, Front C, LFE, Side L, Side R
    Layout5_1,
    /// Front L, Front R, Front C, Back L, Back R
    Layout5_0Back,
    /// Front L, Front R, Front C, LFE, Back L, Back R
    Layout5_1Back,
    /// Front L, Front R, Front C, Side L, Side R, Back L, Back R
    Layout7_0,
    /// Front L, Front R, Front C, LFE, Side L, Side R, Back L, Back R
    Layout7_1,
    /// Front L, Front R, Front C, LFE, Side L, Side R, Front LofC, Front RofC
    Layout7_1Wide,
    /// Stereo L, Stereo R
    LayoutStereoDownmix,
    /// Stereo L, Stereo R, LFE
    Layout2point1,
    /// Stereo L, Stereo R, Front C, LFE
    Layout3_1,
    /// Stereo L, Stereo R, Front C, Rear C, LFE
    Layout4_1,
    /// Stereo L, Stereo R, Front C, Side L, Side R, Back C
    Layout6_0,
    /// Stereo L, Stereo R, Side L, Side R, Front LofC, Front RofC
    Layout6_0Front,
    /// Stereo L, Stereo R, Front C, Rear L, Rear R, Rear C
    LayoutHexagonal,
    /// Stereo L, Stereo R, Front C, LFE, Side L, Side R, Rear Center
    Layout6_1,
    /// Stereo L, Stereo R, Front C, LFE, Back L, Back R, Rear Center
    Layout6_1Back,
    /// Stereo L, Stereo R, Side L, Side R, Front LofC, Front RofC, LFE
    Layout6_1Front,
    /// Front L, Front R, Front C, Side L, Side R, Front LofC, Front RofC
    Layout7_0Front,
    /// Front L, Front R, Front C, LFE, Back L, Back R, Front LofC, Front RofC
    Layout7_1WideBack,
    /// Front L, Front R, Front C, Side L, Side R, Rear L, Back R, Back C.
    LayoutOctagonal,
    /// Channels are not explicitly mapped to speakers.
    LayoutDiscrete,
    /// Front L, Front R, Front C. Front C contains the keyboard mic audio.
    LayoutStereoAndKeyboardMic,
    /// Front L, Front R, Side L, Side R, LFE
    Layout4_1QuadSide,
    /// Actual channel layout is specified in the bitstream.
    LayoutBitstream,
}

/// The speakers that the channels of a layout are mapped to, in channel
/// order; empty where the channels are not mapped to speakers.
pub open spec fn layout_speakers(layout: ChannelLayout) -> Seq<Speaker> {
    match layout {
        ChannelLayout::LayoutNone => seq![],
        ChannelLayout::LayoutUnsupported => seq![],
        ChannelLayout::LayoutMono => seq![Speaker::FrontCenter],
        ChannelLayout::LayoutStereo => seq![Speaker::FrontLeft, Speaker::FrontRight],
        ChannelLayout::Layout2_1 => seq![Speaker::FrontLeft, Speaker::FrontRight, Speaker::BackCenter],
        ChannelLayout::LayoutSurround => seq![Speaker::FrontLeft, Speaker::FrontRight, Speaker::FrontCenter],
        ChannelLayout::Layout4_0 => seq![Speaker::FrontLeft, Speaker::FrontRight, Speaker::FrontCenter, Speaker::BackCenter],
        ChannelLayout::Layout2_2 => seq![Speaker::FrontLeft, Speaker::FrontRight, Speaker::SideLeft, Speaker::SideRight],
        ChannelLayout::LayoutQuad => seq![Speaker::FrontLeft, Speaker::FrontRight, Speaker::BackLeft, Speaker::BackRight],
        ChannelLayout::Layout5_0 => seq![Speaker::FrontLeft, Speaker::FrontRight, Speaker::FrontCenter, Speaker::SideLeft, Speaker::SideRight],
        ChannelLayout::Layout5_1 => seq![Speaker::FrontLeft, Speaker::FrontRight, Speaker::FrontCenter, Speaker::LowFrequency, Speaker::SideLeft, Speaker::SideRight],
        ChannelLayout::Layout5_0Back => seq![Speaker::FrontLeft, Speaker::FrontRight, Speaker::FrontCenter, Speaker::BackLeft, Speaker::BackRight],
        ChannelLayout::Layout5_1Back => seq![Speaker::FrontLeft, Speaker::FrontRight, Speaker::FrontCenter, Speaker::LowFrequency, Speaker::BackLeft, Speaker::BackRight],
        ChannelLayout::Layout7_0 => seq![Speaker::FrontLeft, Speaker::FrontRight, Speaker::FrontCenter, Speaker::SideLeft, Speaker::SideRight, Speaker::BackLeft, Speaker::BackRight],
        ChannelLayout::Layout7_1 => seq![Speaker::FrontLeft, Speaker::FrontRight, Speaker::FrontCenter, Speaker::LowFrequency, Speaker::SideLeft, Speaker::SideRight, Speaker::BackLeft, Speaker::BackRight],
        ChannelLayout::Layout7_1Wide => seq![Speaker::FrontLeft, Speaker::FrontRight, Speaker::FrontCenter, Speaker::LowFrequency, Speaker::SideLeft, Speaker::SideRight, Speaker::FrontLeftOfCenter, Speaker::FrontRightOfCenter],
        ChannelLayout::LayoutStereoDownmix => seq![Speaker::StereoLeft, Speaker::StereoRight],
        ChannelLayout::Layout2point1 => seq![Speaker::StereoLeft, Speaker::StereoRight, Speaker::LowFrequency],
        ChannelLayout::Layout3_1 => seq![Speaker::StereoLeft, Speaker::StereoRight, Speaker::FrontCenter, Speaker::LowFrequency],
        ChannelLayout::Layout4_1 => seq![Speaker::StereoLeft, Speaker::StereoRight, Speaker::FrontCenter, Speaker::RearCenter, Speaker::LowFrequency],
        ChannelLayout::Layout6_0 => seq![Speaker::StereoLeft, Speaker::StereoRight, Speaker::FrontCenter, Speaker::SideLeft, Speaker::SideRight, Speaker::BackCenter],
        ChannelLayout::Layout6_0Front => seq![Speaker::StereoLeft, Speaker::StereoRight, Speaker::SideLeft, Speaker::SideRight, Speaker::FrontLeftOfCenter, Speaker::FrontRightOfCenter],
        ChannelLayout::LayoutHexagonal => seq![Speaker::StereoLeft, Speaker::StereoRight, Speaker::FrontCenter, Speaker::RearLeft, Speaker::RearRight, Speaker::RearCenter],
        ChannelLayout::Layout6_1 => seq![Speaker::StereoLeft, Speaker::StereoRight, Speaker::FrontCenter, Speaker::LowFrequency, Speaker::SideLeft, Speaker::SideRight, Speaker::RearCenter],
        ChannelLayout::Layout6_1Back => seq![Speaker::StereoLeft, Speaker::StereoRight, Speaker::FrontCenter, Speaker::LowFrequency, Speaker::BackLeft, Speaker::BackRight, Speaker::RearCenter],
        ChannelLayout::Layout6_1Front => seq![Speaker::StereoLeft, Speaker::StereoRight, Speaker::SideLeft, Speaker::SideRight, Speaker::FrontLeftOfCenter, Speaker::FrontRightOfCenter, Speaker::LowFrequency],
        ChannelLayout::Layout7_0Front => seq![Speaker::FrontLeft, Speaker::FrontRight, Speaker::FrontCenter, Speaker::SideLeft, Speaker::SideRight, Speaker::FrontLeftOfCenter, Speaker::FrontRightOfCenter],
        ChannelLayout::Layout7_1WideBack => seq![Speaker::FrontLeft, Speaker::FrontRight, Speaker::FrontCenter, Speaker::LowFrequency, Speaker::BackLeft, Speaker::BackRight, Speaker::FrontLeftOfCenter, Speaker::FrontRightOfCenter],
        ChannelLayout::LayoutOctagonal => seq![Speaker::FrontLeft, Speaker::FrontRight, Speaker::FrontCenter, Speaker::SideLeft, Speaker::SideRight, Speaker::RearLeft, Speaker::BackRight, Speaker::BackCenter],
        ChannelLayout::LayoutDiscrete => seq![],
        ChannelLayout::LayoutStereoAndKeyboardMic => seq![Speaker::FrontLeft, Speaker::FrontRight, Speaker::FrontCenter],
        ChannelLayout::Layout4_1QuadSide => seq![Speaker::FrontLeft, Speaker::FrontRight, Speaker::SideLeft, Speaker::SideRight, Speaker::LowFrequency],
        ChannelLayout::LayoutBitstream => seq![],
    }
}

/// The `cef_channel_layout_t` code of a channel layout.
pub open spec fn channel_layout_code(layout: ChannelLayout) -> u32 {
    match layout {
        ChannelLayout::LayoutNone => 0,
        ChannelLayout::LayoutUnsupported => 1,
        ChannelLayout::LayoutMono => 2,
        ChannelLayout::LayoutStereo => 3,
        ChannelLayout::Layout2_1 => 4,
        ChannelLayout::LayoutSurround => 5,
        ChannelLayout::Layout4_0 => 6,
        ChannelLayout::Layout2_2 => 7,
        ChannelLayout::LayoutQuad => 8,
        ChannelLayout::Layout5_0 => 9,
        ChannelLayout::Layout5_1 => 10,
        ChannelLayout::Layout5_0Back => 11,
        ChannelLayout::Layout5_1Back => 12,
        ChannelLayout::Layout7_0 => 13,
        ChannelLayout::Layout7_1 => 14,
        ChannelLayout::Layout7_1Wide => 15,
        ChannelLayout::LayoutStereoDownmix => 16,
        ChannelLayout::Layout2point1 => 17,
        ChannelLayout::Layout3_1 => 18,
        ChannelLayout::Layout4_1 => 19,
        ChannelLayout::Layout6_0 => 20,
        ChannelLayout::Layout6_0Front => 21,
        ChannelLayout::LayoutHexagonal => 22,
        ChannelLayout::Layout6_1 => 23,
        ChannelLayout::Layout6_1Back => 24,
        ChannelLayout::Layout6_1Front => 25,
        ChannelLayout::Layout7_0Front => 26,
        ChannelLayout::Layout7_1WideBack => 27,
        ChannelLayout::LayoutOctagonal => 28,
        ChannelLayout::LayoutDiscrete => 29,
        ChannelLayout::LayoutStereoAndKeyboardMic => 30,
        ChannelLayout::Layout4_1QuadSide => 31,
        ChannelLayout::LayoutBitstream => 32,
    }
}

/// The highest `cef_channel_layout_t` code.
pub const CHANNEL_LAYOUT_MAX: u32 = 32;

impl ChannelLayout {
    /// The number of channels of this layout: one per speaker it maps to.
    pub fn num_channels(&self) -> (n: usize)
        ensures
            n == layout_speakers(*self).len(),
    {
        match *self {
            ChannelLayout::LayoutNone => 0,
            ChannelLayout::LayoutUnsupported => 0,
            ChannelLayout::LayoutMono => 1,
            ChannelLayout::LayoutStereo => 2,
            ChannelLayout::Layout2_1 => 3,
            ChannelLayout::LayoutSurround => 3,
            ChannelLayout::Layout4_0 => 4,
            ChannelLayout::Layout2_2 => 4,
            ChannelLayout::LayoutQuad => 4,
            ChannelLayout::Layout5_0 => 5,
            ChannelLayout::Layout5_1 => 6,
            ChannelLayout::Layout5_0Back => 5,
            ChannelLayout::Layout5_1Back => 6,
            ChannelLayout::Layout7_0 => 7,
            ChannelLayout::Layout7_1 => 8,
            ChannelLayout::Layout7_1Wide => 8,
            ChannelLayout::LayoutStereoDownmix => 2,
            ChannelLayout::Layout2point1 => 3,
            ChannelLayout::Layout3_1 => 4,
            ChannelLayout::Layout4_1 => 5,
            ChannelLayout::Layout6_0 => 6,
            ChannelLayout::Layout6_0Front => 6,
            ChannelLayout::LayoutHexagonal => 6,
            ChannelLayout::Layout6_1 => 7,
            ChannelLayout::Layout6_1Back => 7,
            ChannelLayout::Layout6_1Front => 7,
            ChannelLayout::Layout7_0Front => 7,
            ChannelLayout::Layout7_1WideBack => 8,
            ChannelLayout::LayoutOctagonal => 8,
            ChannelLayout::LayoutDiscrete => 0,
            ChannelLayout::LayoutStereoAndKeyboardMic => 3,
            ChannelLayout::Layout4_1QuadSide => 5,
            ChannelLayout::LayoutBitstream => 0,
        }
    }

    /// The layout with the given `cef_channel_layout_t` code, which must be
    /// one of the known codes.
    pub fn from_unchecked(state: u32) -> (layout: ChannelLayout)
        requires
            state <= CHANNEL_LAYOUT_MAX,
        ensures
            channel_layout_code(layout) == state,
    {
        match state {
            0 => ChannelLayout::LayoutNone,
            1 => ChannelLayout::LayoutUnsupported,
            2 => ChannelLayout::LayoutMono,
            3 => ChannelLayout::LayoutStereo,
            4 => ChannelLayout::Layout2_1,
            5 => ChannelLayout::LayoutSurround,
            6 => ChannelLayout::Layout4_0,
            7 => ChannelLayout::Layout2_2,
            8 => ChannelLayout::LayoutQuad,
            9 => ChannelLayout::Layout5_0,
            10 => ChannelLayout::Layout5_1,
            11 => ChannelLayout::Layout5_0Back,
            12 => ChannelLayout::Layout5_1Back,
            13 => ChannelLayout::Layout7_0,
            14 => ChannelLayout::Layout7_1,
            15 => ChannelLayout::Layout7_1Wide,
            16 => ChannelLayout::LayoutStereoDownmix,
            17 => ChannelLayout::Layout2point1,
            18 => ChannelLayout::Layout3_1,
            19 => ChannelLayout::Layout4_1,
            20 => ChannelLayout::Layout6_0,
            21 => ChannelLayout::Layout6_0Front,
            22 => ChannelLayout::LayoutHexagonal,
            23 => ChannelLayout::Layout6_1,
            24 => ChannelLayout::Layout6_1Back,
            25 => ChannelLayout::Layout6_1Front,
            26 => ChannelLayout::Layout7_0Front,
            27 => ChannelLayout::Layout7_1WideBack,
            28 => ChannelLayout::LayoutOctagonal,
            29 => ChannelLayout::LayoutDiscrete,
            30 => ChannelLayout::LayoutStereoAndKeyboardMic,
            31 => ChannelLayout::Layout4_1QuadSide,
            _ => ChannelLayout::LayoutBitstream,
        }
    }

    /// The `cef_channel_layout_t` code of this layout.
    pub fn to_raw(&self) -> (code: u32)
        ensures
            code == channel_layout_code(*self),
    {
        match *self {
            ChannelLayout::LayoutNone => 0,
            ChannelLayout::LayoutUnsupported => 1,
            ChannelLayout::LayoutMono => 2,
            ChannelLayout::LayoutStereo => 3,
            ChannelLayout::Layout2_1 => 4,
            ChannelLayout::LayoutSurround => 5,
            ChannelLayout::Layout4_0 => 6,
            ChannelLayout::Layout2_2 => 7,
            ChannelLayout::LayoutQuad => 8,
            ChannelLayout::Layout5_0 => 9,
            ChannelLayout::Layout5_1 => 10,
            ChannelLayout::Layout5_0Back => 11,
            ChannelLayout::Layout5_1Back => 12,
            ChannelLayout::Layout7_0 => 13,
            ChannelLayout::Layout7_1 => 14,
            ChannelLayout::Layout7_1Wide => 15,
            ChannelLayout::LayoutStereoDownmix => 16,
            ChannelLayout::Layout2point1 => 17,
            ChannelLayout::Layout3_1 => 18,
            ChannelLayout::Layout4_1 => 19,
            ChannelLayout::Layout6_0 => 20,
            ChannelLayout::Layout6_0Front => 21,
            ChannelLayout::LayoutHexagonal => 22,
            ChannelLayout::Layout6_1 => 23,
            ChannelLayout::Layout6_1Back => 24,
            ChannelLayout::Layout6_1Front => 25,
            ChannelLayout::Layout7_0Front => 26,
            ChannelLayout::Layout7_1WideBack => 27,
            ChannelLayout::LayoutOctagonal => 28,
            ChannelLayout::LayoutDiscrete => 29,
            ChannelLayout::LayoutStereoAndKeyboardMic => 30,
            ChannelLayout::Layout4_1QuadSide => 31,
            ChannelLayout::LayoutBitstream => 32,
        }
    }
}

/// The fields of a `cef_audio_parameters_t`.
#[derive(PartialEq, Eq, Clone, Copy, Debug)]
pub struct RawAudioParameters {
    pub channel_layout: u32,
    pub sample_rate: i32,
    pub frames_per_buffer: i32,
}

/// Audio stream parameters.
#[derive(PartialEq, Eq, Clone, Copy, Debug)]
pub struct AudioParameters {
    pub channel_layout: ChannelLayout,
    pub sample_rate: i32,
    pub frames_per_buffer: i32,
}

impl AudioParameters {
    /// Reads audio parameters; the channel layout code must be a known one.
    pub fn from_raw(raw: &RawAudioParameters) -> (p: AudioParameters)
        requires
            raw.channel_layout <= CHANNEL_LAYOUT_MAX,
        ensures
            channel_layout_code(p.channel_layout) == raw.channel_layout,
            p.sample_rate == raw.sample_rate,
            p.frames_per_buffer == raw.frames_per_buffer,
    {
        AudioParameters {
            channel_layout: ChannelLayout::from_unchecked(raw.channel_layout),
            sample_rate: raw.sample_rate,
            frames_per_buffer: raw.frames_per_buffer,
        }
    }

    /// The `cef_audio_parameters_t` fields of these parameters.
    pub fn into_raw(&self) -> (raw: RawAudioParameters)
        ensures
            raw.channel_layout == channel_layout_code(self.channel_layout),
            raw.sample_rate == self.sample_rate,
            raw.frames_per_buffer == self.frames_per_buffer,
    {
        RawAudioParameters {
            channel_layout: self.channel_layout.to_raw(),
            sample_rate: self.sample_rate,
            frames_per_buffer: self.frames_per_buffer,
        }
    }
}

/// Every layout has a known code, and distinct layouts have distinct codes, so
/// a layout read back from its code is the same layout.
pub proof fn lemma_channel_layout_codes(layout: ChannelLayout, other: ChannelLayout)
    ensures
        channel_layout_code(layout) <= CHANNEL_LAYOUT_MAX,
        channel_layout_code(layout) == channel_layout_code(other) ==> layout == other,
{
}

/// Each layout has its `cef_channel_layout_t` code from CEF's header (for
/// example `CEF_CHANNEL_LAYOUT_2_2` is 7 and `CEF_CHANNEL_LAYOUT_QUAD` is 8).
pub proof fn lemma_channel_layout_cef_codes()
    ensures
        channel_layout_code(ChannelLayout::LayoutNone) == 0,
        channel_layout_code(ChannelLayout::LayoutUnsupported) == 1,
        channel_layout_code(ChannelLayout::LayoutMono) == 2,
        channel_layout_code(ChannelLayout::LayoutStereo) == 3,
        channel_layout_code(ChannelLayout::Layout2_1) == 4,
        channel_layout_code(ChannelLayout::LayoutSurround) == 5,
        channel_layout_code(ChannelLayout::Layout4_0) == 6,
        channel_layout_code(ChannelLayout::Layout2_2) == 7,
        channel_layout_code(ChannelLayout::LayoutQuad) == 8,
        channel_layout_code(ChannelLayout::Layout5_0) == 9,
        channel_layout_code(ChannelLayout::Layout5_1) == 10,
        channel_layout_code(ChannelLayout::Layout5_0Back) == 11,
        channel_layout_code(ChannelLayout::Layout5_1Back) == 12,
        channel_layout_code(ChannelLayout::Layout7_0) == 13,
        channel_layout_code(ChannelLayout::Layout7_1) == 14,
        channel_layout_code(ChannelLayout::Layout7_1Wide) == 15,
        channel_layout_code(ChannelLayout::LayoutStereoDownmix) == 16,
        channel_layout_code(ChannelLayout::Layout2point1) == 17,
        channel_layout_code(ChannelLayout::Layout3_1) == 18,
        channel_layout_code(ChannelLayout::Layout4_1) == 19,
        channel_layout_code(ChannelLayout::Layout6_0) == 20,
        channel_layout_code(ChannelLayout::Layout6_0Front) == 21,
        channel_layout_code(ChannelLayout::LayoutHexagonal) == 22,
        channel_layout_code(ChannelLayout::Layout6_1) == 23,
        channel_layout_code(ChannelLayout::Layout6_1Back) == 24,
        channel_layout_code(ChannelLayout::Layout6_1Front) == 25,
        channel_layout_code(ChannelLayout::Layout7_0Front) == 26,
        channel_layout_code(ChannelLayout::Layout7_1WideBack) == 27,
        channel_layout_code(ChannelLayout::LayoutOctagonal) == 28,
        channel_layout_code(ChannelLayout::LayoutDiscrete) == 29,
        channel_layout_code(ChannelLayout::LayoutStereoAndKeyboardMic) == 30,
        channel_layout_code(ChannelLayout::Layout4_1QuadSide) == 31,
        channel_layout_code(ChannelLayout::LayoutBitstream) == 32,
{
}

/// No layout has more than eight channels.
pub proof fn lemma_channel_count_at_most_eight(layout: ChannelLayout)
    ensures
        layout_speakers(layout).len() <= 8,
{
}

} // verus!
