//! A checked layer in front of the Opus codec engine.
//!
//! Every buffer handed to the engine is first turned into a validated view
//! (`Packet`, `MutPacket`, `MutSignals`), every status code the engine
//! returns is funnelled through `try_map_opus_error`, and every setting is
//! read and written through one table of control requests.
use crate::defines::{
    MAX_LEN, OPUS_APPLICATION_AUDIO, OPUS_APPLICATION_RESTRICTED_LOWDELAY,
    OPUS_APPLICATION_VOIP, OPUS_AUTO, OPUS_BANDWIDTH_FULLBAND, OPUS_BANDWIDTH_MEDIUMBAND,
    OPUS_BANDWIDTH_NARROWBAND, OPUS_BANDWIDTH_SUPERWIDEBAND, OPUS_BANDWIDTH_WIDEBAND,
    OPUS_BITRATE_MAX, OPUS_SIGNAL_MUSIC, OPUS_SIGNAL_VOICE,
};
use vstd::prelude::*;

pub mod coder;
pub mod defines;
pub mod error;
pub mod packet;

pub use crate::error::{try_map_opus_error, Error, ErrorCode, Result};

verus! {

/// The kind of signal being encoded, a hint for the encoder's mode selection.
#[derive(Clone, Copy, Debug, PartialEq, Eq, Hash, Structural)]
pub enum Signal {
    Auto,
    Voice,
    Music,
}

impl Signal {
    /// The engine's number for this signal type.
    pub open spec fn code(self) -> i32 {
        match self {
            Signal::Auto => OPUS_AUTO,
            Signal::Voice => OPUS_SIGNAL_VOICE,
            Signal::Music => OPUS_SIGNAL_MUSIC,
        }
    }

    /// The signal type that the engine's number `value` stands for.
    pub open spec fn parse(value: i32) -> Result<Signal> {
        if value == OPUS_AUTO {
            Ok(Signal::Auto)
        } else if value == OPUS_SIGNAL_VOICE {
            Ok(Signal::Voice)
        } else if value == OPUS_SIGNAL_MUSIC {
            Ok(Signal::Music)
        } else {
            Err(Error::InvalidSignal(value))
        }
    }
}

impl TryFrom<i32> for Signal {
    type Error = Error;

    fn try_from(value: i32) -> (r: Result<Self>) {
        match value {
            OPUS_AUTO => Ok(Signal::Auto),
            OPUS_SIGNAL_VOICE => Ok(Signal::Voice),
            OPUS_SIGNAL_MUSIC => Ok(Signal::Music),
            _ => Err(Error::InvalidSignal(value)),
        }
    }
}

impl vstd::std_specs::convert::TryFromSpecImpl<i32> for Signal {
    open spec fn obeys_try_from_spec() -> bool {
        true
    }

    open spec fn try_from_spec(v: i32) -> Result<Signal> {
        Signal::parse(v)
    }
}

impl From<Signal> for i32 {
    fn from(signal: Signal) -> (r: i32) {
        match signal {
            Signal::Auto => OPUS_AUTO,
            Signal::Voice => OPUS_SIGNAL_VOICE,
            Signal::Music => OPUS_SIGNAL_MUSIC,
        }
    }
}

impl vstd::std_specs::convert::FromSpecImpl<Signal> for i32 {
    open spec fn obeys_from_spec() -> bool {
        true
    }

    open spec fn from_spec(v: Signal) -> i32 {
        v.code()
    }
}

/// The encoder's target bitrate.
#[derive(Clone, Copy, Debug, PartialEq, Eq, Hash, Structural)]
pub enum Bitrate {
    /// Explicit bitrate choice (in bits/second).
    BitsPerSecond(i32),
    /// Maximum bitrate allowed (up to maximum number of bytes for the packet).
    Max,
    /// Default bitrate decided by the encoder (not recommended).
    Auto,
}

impl Bitrate {
    /// The engine's number for this bitrate.
    pub open spec fn code(self) -> i32 {
        match self {
            Bitrate::Auto => OPUS_AUTO,
            Bitrate::Max => OPUS_BITRATE_MAX,
            Bitrate::BitsPerSecond(bits) => bits,
        }
    }

    /// The bitrate that the engine's number `value` stands for.
    pub open spec fn parse(value: i32) -> Result<Bitrate> {
        if value == OPUS_AUTO {
            Ok(Bitrate::Auto)
        } else if value == OPUS_BITRATE_MAX {
            Ok(Bitrate::Max)
        } else if value > 0 {
            Ok(Bitrate::BitsPerSecond(value))
        } else {
            Err(Error::InvalidBitrate(value))
        }
    }
}

impl From<Bitrate> for i32 {
    fn from(bitrate: Bitrate) -> (r: i32) {
        match bitrate {
            Bitrate::Auto => OPUS_AUTO,
            Bitrate::Max => OPUS_BITRATE_MAX,
            Bitrate::BitsPerSecond(bits) => bits,
        }
    }
}

impl vstd::std_specs::convert::FromSpecImpl<Bitrate> for i32 {
    open spec fn obeys_from_spec() -> bool {
        true
    }

    open spec fn from_spec(v: Bitrate) -> i32 {
        v.code()
    }
}

impl TryFrom<i32> for Bitrate {
    type Error = Error;

    fn try_from(value: i32) -> (r: Result<Bitrate>) {
        match value {
            OPUS_AUTO => Ok(Bitrate::Auto),
            OPUS_BITRATE_MAX => Ok(Bitrate::Max),
            x if x > 0 => Ok(Bitrate::BitsPerSecond(x)),
            _ => Err(Error::InvalidBitrate(value)),
        }
    }
}

impl vstd::std_specs::convert::TryFromSpecImpl<i32> for Bitrate {
    open spec fn obeys_try_from_spec() -> bool {
        true
    }

    open spec fn try_from_spec(v: i32) -> Result<Bitrate> {
        Bitrate::parse(v)
    }
}

/// The sample rates the engine works at, in Hertz.
#[derive(Clone, Copy, Debug, PartialEq, Eq, Hash, Structural)]
pub enum SampleRate {
    Hz8000,
    Hz12000,
    Hz16000,
    Hz24000,
    Hz48000,
}

impl SampleRate {
    /// The rate in Hertz.
    pub open spec fn hz(self) -> i32 {
        match self {
            SampleRate::Hz8000 => 8000,
            SampleRate::Hz12000 => 12000,
            SampleRate::Hz16000 => 16000,
            SampleRate::Hz24000 => 24000,
            SampleRate::Hz48000 => 48000,
        }
    }

    /// The sample rate of `value` Hertz, if the engine documents it.
    pub open spec fn parse(value: i32) -> Result<SampleRate> {
        if value == 8000 {
            Ok(SampleRate::Hz8000)
        } else if value == 12000 {
            Ok(SampleRate::Hz12000)
        } else if value == 16000 {
            Ok(SampleRate::Hz16000)
        } else if value == 24000 {
            Ok(SampleRate::Hz24000)
        } else if value == 48000 {
            Ok(SampleRate::Hz48000)
        } else {
            Err(Error::InvalidSampleRate(value))
        }
    }
}

impl TryFrom<i32> for SampleRate {
    type Error = Error;

    /// Fails if a number does not name a documented sample rate.
    fn try_from(value: i32) -> (r: Result<Self>) {
        match value {
            8000 => Ok(SampleRate::Hz8000),
            12000 => Ok(SampleRate::Hz12000),
            16000 => Ok(SampleRate::Hz16000),
            24000 => Ok(SampleRate::Hz24000),
            48000 => Ok(SampleRate::Hz48000),
            _ => Err(Error::InvalidSampleRate(value)),
        }
    }
}

impl vstd::std_specs::convert::TryFromSpecImpl<i32> for SampleRate {
    open spec fn obeys_try_from_spec() -> bool {
        true
    }

    open spec fn try_from_spec(v: i32) -> Result<SampleRate> {
        SampleRate::parse(v)
    }
}

impl From<SampleRate> for i32 {
    fn from(sample_rate: SampleRate) -> (r: i32) {
        match sample_rate {
            SampleRate::Hz8000 => 8000,
            SampleRate::Hz12000 => 12000,
            SampleRate::Hz16000 => 16000,
            SampleRate::Hz24000 => 24000,
            SampleRate::Hz48000 => 48000,
        }
    }
}

impl vstd::std_specs::convert::FromSpecImpl<SampleRate> for i32 {
    open spec fn obeys_from_spec() -> bool {
        true
    }

    open spec fn from_spec(v: SampleRate) -> i32 {
        v.hz()
    }
}

/// The encoder's coding strategy profile.
#[derive(Clone, Copy, Debug, PartialEq, Eq, Hash, Structural)]
pub enum Application {
    /// Best for most VoIP/videoconference applications where listening quality
    /// and intelligibility matter most.
    Voip,
    /// Best for broadcast/high-fidelity application where the decoded audio
    /// should be as close as possible to the input.
    Audio,
    /// Only use when lowest-achievable latency is what matters most.
    LowDelay,
}

impl Application {
    /// The engine's number for this application.
    pub open spec fn code(self) -> i32 {
        match self {
            Application::Voip => OPUS_APPLICATION_VOIP,
            Application::Audio => OPUS_APPLICATION_AUDIO,
            Application::LowDelay => OPUS_APPLICATION_RESTRICTED_LOWDELAY,
        }
    }

    /// The application that the engine's number `value` stands for.
    pub open spec fn parse(value: i32) -> Result<Application> {
        if value == OPUS_APPLICATION_VOIP {
            Ok(Application::Voip)
        } else if value == OPUS_APPLICATION_AUDIO {
            Ok(Application::Audio)
        } else if value == OPUS_APPLICATION_RESTRICTED_LOWDELAY {
            Ok(Application::LowDelay)
        } else {
            Err(Error::InvalidApplication)
        }
    }
}

impl TryFrom<i32> for Application {
    type Error = Error;

    /// Fails if a value does not name a documented application.
    fn try_from(value: i32) -> (r: Result<Self>) {
        match value {
            OPUS_APPLICATION_VOIP => Ok(Application::Voip),
            OPUS_APPLICATION_AUDIO => Ok(Application::Audio),
            OPUS_APPLICATION_RESTRICTED_LOWDELAY => Ok(Application::LowDelay),
            _ => Err(Error::InvalidApplication),
        }
    }
}

impl vstd::std_specs::convert::TryFromSpecImpl<i32> for Application {
    open spec fn obeys_try_from_spec() -> bool {
        true
    }

    open spec fn try_from_spec(v: i32) -> Result<Application> {
        Application::parse(v)
    }
}

impl From<Application> for i32 {
    fn from(application: Application) -> (r: i32) {
        match application {
            Application::Voip => OPUS_APPLICATION_VOIP,
            Application::Audio => OPUS_APPLICATION_AUDIO,
            Application::LowDelay => OPUS_APPLICATION_RESTRICTED_LOWDELAY,
        }
    }
}

impl vstd::std_specs::convert::FromSpecImpl<Application> for i32 {
    open spec fn obeys_from_spec() -> bool {
        true
    }

    open spec fn from_spec(v: Application) -> i32 {
        v.code()
    }
}

/// The audio channels of a stream.
#[derive(Clone, Copy, Debug, PartialEq, Eq, Hash, Structural)]
pub enum Channels {
    /// Not supported when constructing encoders or decoders.
    Auto,
    Mono,
    Stereo,
}

impl Channels {
    /// The engine's number for this channel setting.
    pub open spec fn code(self) -> i32 {
        match self {
            Channels::Auto => OPUS_AUTO,
            Channels::Mono => 1,
            Channels::Stereo => 2,
        }
    }

    /// The channel setting that the engine's number `value` stands for.
    pub open spec fn parse(value: i32) -> Result<Channels> {
        if value == OPUS_AUTO {
            Ok(Channels::Auto)
        } else if value == 1 {
            Ok(Channels::Mono)
        } else if value == 2 {
            Ok(Channels::Stereo)
        } else {
            Err(Error::InvalidChannels(value))
        }
    }

    pub fn is_mono(self) -> (r: bool)
        ensures
            r == (self == Channels::Mono),
    {
        if let Channels::Mono = self {
            return true;
        }
        false
    }

    pub fn is_stereo(self) -> (r: bool)
        ensures
            r == (self == Channels::Stereo),
    {
        if let Channels::Stereo = self {
            return true;
        }
        false
    }
}

impl TryFrom<i32> for Channels {
    type Error = Error;

    /// Fails if a value does not name a documented channel setting.
    fn try_from(value: i32) -> (r: Result<Channels>) {
        match value {
            OPUS_AUTO => Ok(Channels::Auto),
            1 => Ok(Channels::Mono),
            2 => Ok(Channels::Stereo),
            _ => Err(Error::InvalidChannels(value)),
        }
    }
}

impl vstd::std_specs::convert::TryFromSpecImpl<i32> for Channels {
    open spec fn obeys_try_from_spec() -> bool {
        true
    }

    open spec fn try_from_spec(v: i32) -> Result<Channels> {
        Channels::parse(v)
    }
}

impl From<Channels> for i32 {
    fn from(channels: Channels) -> (r: i32) {
        match channels {
            Channels::Auto => OPUS_AUTO,
            Channels::Mono => 1,
            Channels::Stereo => 2,
        }
    }
}

impl vstd::std_specs::convert::FromSpecImpl<Channels> for i32 {
    open spec fn obeys_from_spec() -> bool {
        true
    }

    open spec fn from_spec(v: Channels) -> i32 {
        v.code()
    }
}

/// The coded audio bandwidth of a stream or a packet.
#[derive(Clone, Copy, Debug, PartialEq, Eq, Hash, Structural)]
pub enum Bandwidth {
    /// Pick the bandwidth automatically.
    Auto,
    /// A 4kHz bandwidth.
    Narrowband,
    /// A 6kHz bandwidth.
    Mediumband,
    /// A 8kHz bandwidth.
    Wideband,
    /// A 12kHz bandwidth.
    Superwideband,
    /// A 20kHz bandwidth.
    Fullband,
}

impl Bandwidth {
    /// The engine's number for this bandwidth.
    pub open spec fn code(self) -> i32 {
        match self {
            Bandwidth::Auto => OPUS_AUTO,
            Bandwidth::Narrowband => OPUS_BANDWIDTH_NARROWBAND,
            Bandwidth::Mediumband => OPUS_BANDWIDTH_MEDIUMBAND,
            Bandwidth::Wideband => OPUS_BANDWIDTH_WIDEBAND,
            Bandwidth::Superwideband => OPUS_BANDWIDTH_SUPERWIDEBAND,
            Bandwidth::Fullband => OPUS_BANDWIDTH_FULLBAND,
        }
    }

    /// The bandwidth that the engine's number `value` stands for.
    pub open spec fn parse(value: i32) -> Result<Bandwidth> {
        if value == OPUS_AUTO {
            Ok(Bandwidth::Auto)
        } else if value == OPUS_BANDWIDTH_NARROWBAND {
            Ok(Bandwidth::Narrowband)
        } else if value == OPUS_BANDWIDTH_MEDIUMBAND {
            Ok(Bandwidth::Mediumband)
        } else if value == OPUS_BANDWIDTH_WIDEBAND {
            Ok(Bandwidth::Wideband)
        } else if value == OPUS_BANDWIDTH_SUPERWIDEBAND {
            Ok(Bandwidth::Superwideband)
        } else if value == OPUS_BANDWIDTH_FULLBAND {
            Ok(Bandwidth::Fullband)
        } else {
            Err(Error::InvalidBandwidth(value))
        }
    }
}

impl TryFrom<i32> for Bandwidth {
    type Error = Error;

    /// Fails if a value does not name a documented bandwidth.
    fn try_from(value: i32) -> (r: Result<Self>) {
        match value {
            OPUS_AUTO => Ok(Bandwidth::Auto),
            OPUS_BANDWIDTH_NARROWBAND => Ok(Bandwidth::Narrowband),
            OPUS_BANDWIDTH_MEDIUMBAND => Ok(Bandwidth::Mediumband),
            OPUS_BANDWIDTH_WIDEBAND => Ok(Bandwidth::Wideband),
            OPUS_BANDWIDTH_SUPERWIDEBAND => Ok(Bandwidth::Superwideband),
            OPUS_BANDWIDTH_FULLBAND => Ok(Bandwidth::Fullband),
            _ => Err(Error::InvalidBandwidth(value)),
        }
    }
}

impl vstd::std_specs::convert::TryFromSpecImpl<i32> for Bandwidth {
    open spec fn obeys_try_from_spec() -> bool {
        true
    }

    open spec fn try_from_spec(v: i32) -> Result<Bandwidth> {
        Bandwidth::parse(v)
    }
}

impl From<Bandwidth> for i32 {
    fn from(bandwidth: Bandwidth) -> (r: i32) {
        match bandwidth {
            Bandwidth::Auto => OPUS_AUTO,
            Bandwidth::Narrowband => OPUS_BANDWIDTH_NARROWBAND,
            Bandwidth::Mediumband => OPUS_BANDWIDTH_MEDIUMBAND,
            Bandwidth::Wideband => OPUS_BANDWIDTH_WIDEBAND,
            Bandwidth::Superwideband => OPUS_BANDWIDTH_SUPERWIDEBAND,
            Bandwidth::Fullband => OPUS_BANDWIDTH_FULLBAND,
        }
    }
}

impl vstd::std_specs::convert::FromSpecImpl<Bandwidth> for i32 {
    open spec fn obeys_from_spec() -> bool {
        true
    }

    open spec fn from_spec(v: Bandwidth) -> i32 {
        v.code()
    }
}

/// A mutably borrowed sample buffer that the engine fills or reads, at most
/// `i32::MAX` samples long (interleaved when there are two channels).
#[derive(Debug)]
pub struct MutSignals<'a, T>(&'a mut [T]);

impl<'a, T> View for MutSignals<'a, T> {
    type V = Seq<T>;

    /// The samples the buffer currently holds.
    closed spec fn view(&self) -> Seq<T> {
        self.0@
    }
}

impl<'a, T> MutSignals<'a, T> {
    #[verifier::type_invariant]
    closed spec fn well_formed(&self) -> bool {
        self.0@.len() <= MAX_LEN
    }

    /// Checks the buffer's length and wraps it; nothing is copied.
    pub fn try_from(value: &'a mut [T]) -> (r: Result<MutSignals<'a, T>>)
        ensures
            old(value)@.len() > MAX_LEN ==> r == Err::<MutSignals<T>, Error>(
                Error::SignalsTooLarge,
            ),
            old(value)@.len() <= MAX_LEN ==> r is Ok && r->Ok_0@ == old(value)@,
    {
        if value.len() > MAX_LEN {
            return Err(Error::SignalsTooLarge);
        }
        Ok(MutSignals(value))
    }

    /// The buffer's length; it fits an `i32` by construction.
    pub fn i32_len(&self) -> (r: i32)
        ensures
            r as int == self@.len(),
            r >= 0,
    {
        proof {
            use_type_invariant(self);
        }
        self.0.len() as i32
    }

    /// Gives the underlying buffer back, for the engine to read and write.
    pub fn into_mut_slice(self) -> (r: &'a mut [T])
        ensures
            r@ == self@,
    {
        let MutSignals(samples) = self;
        samples
    }
}

} // verus!
