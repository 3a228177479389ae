use cef::client::audio_handler::{AudioParameters, ChannelLayout, RawAudioParameters};

#[test]
fn channel_counts() {
    assert_eq!(ChannelLayout::LayoutNone.num_channels(), 0);
    assert_eq!(ChannelLayout::LayoutMono.num_channels(), 1);
    assert_eq!(ChannelLayout::LayoutStereo.num_channels(), 2);
    assert_eq!(ChannelLayout::Layout5_1.num_channels(), 6);
    assert_eq!(ChannelLayout::Layout7_1.num_channels(), 8);
    assert_eq!(ChannelLayout::LayoutOctagonal.num_channels(), 8);
    assert_eq!(ChannelLayout::LayoutDiscrete.num_channels(), 0);
    assert_eq!(ChannelLayout::LayoutStereoAndKeyboardMic.num_channels(), 3);
    assert_eq!(ChannelLayout::LayoutBitstream.num_channels(), 0);
}

#[test]
fn channel_layout_codes_round_trip() {
    for code in 0u32..=32 {
        assert_eq!(ChannelLayout::from_unchecked(code).to_raw(), code);
        assert!(ChannelLayout::from_unchecked(code).num_channels() <= 8);
    }
    assert_eq!(ChannelLayout::from_unchecked(3), ChannelLayout::LayoutStereo);
    assert_eq!(ChannelLayout::from_unchecked(32), ChannelLayout::LayoutBitstream);
}

#[test]
fn audio_parameters_round_trip() {
    let raw = RawAudioParameters { channel_layout: 10, sample_rate: 48000, frames_per_buffer: 1024 };
    let p = AudioParameters::from_raw(&raw);
    assert_eq!(p.channel_layout, ChannelLayout::Layout5_1);
    assert_eq!(p.sample_rate, 48000);
    assert_eq!(p.into_raw(), raw);
}
