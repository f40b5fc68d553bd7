use audiopus::defines::{
    OPUS_APPLICATION_AUDIO, OPUS_APPLICATION_RESTRICTED_LOWDELAY, OPUS_APPLICATION_VOIP,
    OPUS_AUTO, OPUS_BANDWIDTH_FULLBAND, OPUS_BANDWIDTH_NARROWBAND, OPUS_BITRATE_MAX,
    OPUS_SIGNAL_MUSIC, OPUS_SIGNAL_VOICE,
};
use audiopus::{Application, Bandwidth, Bitrate, Channels, Error, SampleRate, Signal};

#[test]
fn signal_try_from() {
    assert!(matches!(Signal::try_from(OPUS_SIGNAL_MUSIC), Ok(Signal::Music)));
    assert!(matches!(Signal::try_from(OPUS_SIGNAL_VOICE), Ok(Signal::Voice)));
    assert!(matches!(Signal::try_from(OPUS_AUTO), Ok(Signal::Auto)));
    assert!(matches!(Signal::try_from(0), Err(Error::InvalidSignal(0))));
}

#[test]
fn application_try_from() {
    assert!(matches!(
        Application::try_from(OPUS_APPLICATION_AUDIO),
        Ok(Application::Audio)
    ));
    assert!(matches!(
        Application::try_from(OPUS_APPLICATION_VOIP),
        Ok(Application::Voip)
    ));
    assert!(matches!(
        Application::try_from(OPUS_APPLICATION_RESTRICTED_LOWDELAY),
        Ok(Application::LowDelay)
    ));
    assert!(matches!(Application::try_from(11), Err(Error::InvalidApplication)));
}

#[test]
fn engine_numbers_of_settings() {
    assert_eq!(i32::from(Signal::Voice), 3001);
    assert_eq!(i32::from(Signal::Music), 3002);
    assert_eq!(i32::from(Signal::Auto), -1000);
    assert_eq!(i32::from(Application::Voip), 2048);
    assert_eq!(i32::from(Application::Audio), 2049);
    assert_eq!(i32::from(Application::LowDelay), 2051);
    assert_eq!(i32::from(Channels::Auto), -1000);
    assert_eq!(i32::from(Channels::Mono), 1);
    assert_eq!(i32::from(Channels::Stereo), 2);
    assert_eq!(i32::from(Bandwidth::Narrowband), 1101);
    assert_eq!(i32::from(Bandwidth::Fullband), 1105);
    assert_eq!(i32::from(SampleRate::Hz8000), 8000);
    assert_eq!(i32::from(SampleRate::Hz48000), 48000);
    assert_eq!(i32::from(Bitrate::Auto), OPUS_AUTO);
    assert_eq!(i32::from(Bitrate::Max), OPUS_BITRATE_MAX);
    assert_eq!(i32::from(Bitrate::BitsPerSecond(512000)), 512000);
}

#[test]
fn settings_read_back_from_their_numbers() {
    for s in [Signal::Auto, Signal::Voice, Signal::Music] {
        assert_eq!(Signal::try_from(i32::from(s)), Ok(s));
    }
    for a in [Application::Voip, Application::Audio, Application::LowDelay] {
        assert_eq!(Application::try_from(i32::from(a)), Ok(a));
    }
    for c in [Channels::Auto, Channels::Mono, Channels::Stereo] {
        assert_eq!(Channels::try_from(i32::from(c)), Ok(c));
    }
    for b in [
        Bandwidth::Auto,
        Bandwidth::Narrowband,
        Bandwidth::Mediumband,
        Bandwidth::Wideband,
        Bandwidth::Superwideband,
        Bandwidth::Fullband,
    ] {
        assert_eq!(Bandwidth::try_from(i32::from(b)), Ok(b));
    }
    for r in [
        SampleRate::Hz8000,
        SampleRate::Hz12000,
        SampleRate::Hz16000,
        SampleRate::Hz24000,
        SampleRate::Hz48000,
    ] {
        assert_eq!(SampleRate::try_from(i32::from(r)), Ok(r));
    }
    for b in [Bitrate::Auto, Bitrate::Max, Bitrate::BitsPerSecond(500)] {
        assert_eq!(Bitrate::try_from(i32::from(b)), Ok(b));
    }
}

#[test]
fn undocumented_numbers_are_rejected() {
    assert_eq!(SampleRate::try_from(44100), Err(Error::InvalidSampleRate(44100)));
    assert_eq!(Channels::try_from(3), Err(Error::InvalidChannels(3)));
    assert_eq!(Bandwidth::try_from(1100), Err(Error::InvalidBandwidth(1100)));
    assert_eq!(Bandwidth::try_from(OPUS_BANDWIDTH_FULLBAND + 1), Err(Error::InvalidBandwidth(1106)));
    assert_eq!(Bandwidth::try_from(OPUS_BANDWIDTH_NARROWBAND), Ok(Bandwidth::Narrowband));
    assert_eq!(Bitrate::try_from(0), Err(Error::InvalidBitrate(0)));
    assert_eq!(Bitrate::try_from(-5), Err(Error::InvalidBitrate(-5)));
}

#[test]
fn channel_predicates() {
    assert!(Channels::Mono.is_mono());
    assert!(!Channels::Mono.is_stereo());
    assert!(Channels::Stereo.is_stereo());
    assert!(!Channels::Stereo.is_mono());
    assert!(!Channels::Auto.is_mono());
    assert!(!Channels::Auto.is_stereo());
}
