//! The control protocol shared by encoders and decoders, and the argument and
//! result handling around their encode and decode calls.
use crate::defines;
use crate::error::{error_code_of, opus_count, try_map_opus_error, Error, ErrorCode, Result};
use crate::packet::Packet;
use crate::{Channels, MutSignals, SampleRate};
use vstd::prelude::*;

verus! {

/// The settings that both encoders and decoders offer.
///
/// This does not include `set_sample_rate`, which decoders do not implement.
pub trait GenericCtl {
    fn final_range(&self) -> Result<u32>;

    fn phase_inversion_disabled(&self) -> Result<bool>;

    fn set_phase_inversion_disabled(&mut self, disabled: bool) -> Result<()>;

    fn sample_rate(&self) -> Result<SampleRate>;

    fn reset_state(&mut self) -> Result<()>;
}

/// A named setting of an encoder or a decoder.
#[derive(Clone, Copy, Debug, PartialEq, Eq, Hash, Structural)]
pub enum Ctl {
    Application,
    Bitrate,
    MaxBandwidth,
    Vbr,
    Bandwidth,
    Complexity,
    InbandFec,
    PacketLossPerc,
    Dtx,
    VbrConstraint,
    ForceChannels,
    Signal,
    Lookahead,
    SampleRate,
    FinalRange,
    Pitch,
    Gain,
    LsbDepth,
    LastPacketDuration,
    PredictionDisabled,
    PhaseInversionDisabled,
}

impl Ctl {
    /// The engine request that reads the setting.
    pub open spec fn get_code(self) -> i32 {
        match self {
            Ctl::Application => defines::OPUS_GET_APPLICATION_REQUEST,
            Ctl::Bitrate => defines::OPUS_GET_BITRATE_REQUEST,
            Ctl::MaxBandwidth => defines::OPUS_GET_MAX_BANDWIDTH_REQUEST,
            Ctl::Vbr => defines::OPUS_GET_VBR_REQUEST,
            Ctl::Bandwidth => defines::OPUS_GET_BANDWIDTH_REQUEST,
            Ctl::Complexity => defines::OPUS_GET_COMPLEXITY_REQUEST,
            Ctl::InbandFec => defines::OPUS_GET_INBAND_FEC_REQUEST,
            Ctl::PacketLossPerc => defines::OPUS_GET_PACKET_LOSS_PERC_REQUEST,
            Ctl::Dtx => defines::OPUS_GET_DTX_REQUEST,
            Ctl::VbrConstraint => defines::OPUS_GET_VBR_CONSTRAINT_REQUEST,
            Ctl::ForceChannels => defines::OPUS_GET_FORCE_CHANNELS_REQUEST,
            Ctl::Signal => defines::OPUS_GET_SIGNAL_REQUEST,
            Ctl::Lookahead => defines::OPUS_GET_LOOKAHEAD_REQUEST,
            Ctl::SampleRate => defines::OPUS_GET_SAMPLE_RATE_REQUEST,
            Ctl::FinalRange => defines::OPUS_GET_FINAL_RANGE_REQUEST,
            Ctl::Pitch => defines::OPUS_GET_PITCH_REQUEST,
            Ctl::Gain => defines::OPUS_GET_GAIN_REQUEST,
            Ctl::LsbDepth => defines::OPUS_GET_LSB_DEPTH_REQUEST,
            Ctl::LastPacketDuration => defines::OPUS_GET_LAST_PACKET_DURATION_REQUEST,
            Ctl::PredictionDisabled => defines::OPUS_GET_PREDICTION_DISABLED_REQUEST,
            Ctl::PhaseInversionDisabled => defines::OPUS_GET_PHASE_INVERSION_DISABLED_REQUEST,
        }
    }

    /// The engine request that writes the setting; `None` for a read-only one.
    pub open spec fn set_code(self) -> Option<i32> {
        match self {
            Ctl::Application => Some(defines::OPUS_SET_APPLICATION_REQUEST),
            Ctl::Bitrate => Some(defines::OPUS_SET_BITRATE_REQUEST),
            Ctl::MaxBandwidth => Some(defines::OPUS_SET_MAX_BANDWIDTH_REQUEST),
            Ctl::Vbr => Some(defines::OPUS_SET_VBR_REQUEST),
            Ctl::Bandwidth => Some(defines::OPUS_SET_BANDWIDTH_REQUEST),
            Ctl::Complexity => Some(defines::OPUS_SET_COMPLEXITY_REQUEST),
            Ctl::InbandFec => Some(defines::OPUS_SET_INBAND_FEC_REQUEST),
            Ctl::PacketLossPerc => Some(defines::OPUS_SET_PACKET_LOSS_PERC_REQUEST),
            Ctl::Dtx => Some(defines::OPUS_SET_DTX_REQUEST),
            Ctl::VbrConstraint => Some(defines::OPUS_SET_VBR_CONSTRAINT_REQUEST),
            Ctl::ForceChannels => Some(defines::OPUS_SET_FORCE_CHANNELS_REQUEST),
            Ctl::Signal => Some(defines::OPUS_SET_SIGNAL_REQUEST),
            Ctl::Gain => Some(defines::OPUS_SET_GAIN_REQUEST),
            Ctl::LsbDepth => Some(defines::OPUS_SET_LSB_DEPTH_REQUEST),
            Ctl::PredictionDisabled => Some(defines::OPUS_SET_PREDICTION_DISABLED_REQUEST),
            Ctl::PhaseInversionDisabled => Some(defines::OPUS_SET_PHASE_INVERSION_DISABLED_REQUEST),
            Ctl::Lookahead | Ctl::SampleRate | Ctl::FinalRange | Ctl::Pitch
            | Ctl::LastPacketDuration => None,
        }
    }

    /// The engine request that reads the setting.
    pub fn get_request(self) -> (r: i32)
        ensures
            r == self.get_code(),
    {
        match self {
            Ctl::Application => defines::OPUS_GET_APPLICATION_REQUEST,
            Ctl::Bitrate => defines::OPUS_GET_BITRATE_REQUEST,
            Ctl::MaxBandwidth => defines::OPUS_GET_MAX_BANDWIDTH_REQUEST,
            Ctl::Vbr => defines::OPUS_GET_VBR_REQUEST,
            Ctl::Bandwidth => defines::OPUS_GET_BANDWIDTH_REQUEST,
            Ctl::Complexity => defines::OPUS_GET_COMPLEXITY_REQUEST,
            Ctl::InbandFec => defines::OPUS_GET_INBAND_FEC_REQUEST,
            Ctl::PacketLossPerc => defines::OPUS_GET_PACKET_LOSS_PERC_REQUEST,
            Ctl::Dtx => defines::OPUS_GET_DTX_REQUEST,
            Ctl::VbrConstraint => defines::OPUS_GET_VBR_CONSTRAINT_REQUEST,
            Ctl::ForceChannels => defines::OPUS_GET_FORCE_CHANNELS_REQUEST,
            Ctl::Signal => defines::OPUS_GET_SIGNAL_REQUEST,
            Ctl::Lookahead => defines::OPUS_GET_LOOKAHEAD_REQUEST,
            Ctl::SampleRate => defines::OPUS_GET_SAMPLE_RATE_REQUEST,
            Ctl::FinalRange => defines::OPUS_GET_FINAL_RANGE_REQUEST,
            Ctl::Pitch => defines::OPUS_GET_PITCH_REQUEST,
            Ctl::Gain => defines::OPUS_GET_GAIN_REQUEST,
            Ctl::LsbDepth => defines::OPUS_GET_LSB_DEPTH_REQUEST,
            Ctl::LastPacketDuration => defines::OPUS_GET_LAST_PACKET_DURATION_REQUEST,
            Ctl::PredictionDisabled => defines::OPUS_GET_PREDICTION_DISABLED_REQUEST,
            Ctl::PhaseInversionDisabled => defines::OPUS_GET_PHASE_INVERSION_DISABLED_REQUEST,
        }
    }

    /// The engine request that writes the setting; `None` for a read-only one.
    pub fn set_request(self) -> (r: Option<i32>)
        ensures
            r == self.set_code(),
    {
        match self {
            Ctl::Application => Some(defines::OPUS_SET_APPLICATION_REQUEST),
            Ctl::Bitrate => Some(defines::OPUS_SET_BITRATE_REQUEST),
            Ctl::MaxBandwidth => Some(defines::OPUS_SET_MAX_BANDWIDTH_REQUEST),
            Ctl::Vbr => Some(defines::OPUS_SET_VBR_REQUEST),
            Ctl::Bandwidth => Some(defines::OPUS_SET_BANDWIDTH_REQUEST),
            Ctl::Complexity => Some(defines::OPUS_SET_COMPLEXITY_REQUEST),
            Ctl::InbandFec => Some(defines::OPUS_SET_INBAND_FEC_REQUEST),
            Ctl::PacketLossPerc => Some(defines::OPUS_SET_PACKET_LOSS_PERC_REQUEST),
            Ctl::Dtx => Some(defines::OPUS_SET_DTX_REQUEST),
            Ctl::VbrConstraint => Some(defines::OPUS_SET_VBR_CONSTRAINT_REQUEST),
            Ctl::ForceChannels => Some(defines::OPUS_SET_FORCE_CHANNELS_REQUEST),
            Ctl::Signal => Some(defines::OPUS_SET_SIGNAL_REQUEST),
            Ctl::Gain => Some(defines::OPUS_SET_GAIN_REQUEST),
            Ctl::LsbDepth => Some(defines::OPUS_SET_LSB_DEPTH_REQUEST),
            Ctl::PredictionDisabled => Some(defines::OPUS_SET_PREDICTION_DISABLED_REQUEST),
            Ctl::PhaseInversionDisabled => Some(defines::OPUS_SET_PHASE_INVERSION_DISABLED_REQUEST),
            Ctl::Lookahead | Ctl::SampleRate | Ctl::FinalRange | Ctl::Pitch
            | Ctl::LastPacketDuration => None,
        }
    }

    /// The request and argument that write `value` to the setting, or
    /// `Unimplemented` for a read-only setting (the engine's own answer to a
    /// request it does not know).
    pub open spec fn command(self, value: i32) -> Result<(i32, i32)> {
        match self.set_code() {
            Some(code) => Ok((code, value)),
            None => Err(Error::Opus(ErrorCode::Unimplemented)),
        }
    }

    /// Works out the request and argument that write `value` to the setting.
    pub fn set_command(self, value: i32) -> (r: Result<(i32, i32)>)
        ensures
            r == self.command(value),
    {
        match self.set_request() {
            Some(code) => Ok((code, value)),
            None => Err(Error::Opus(ErrorCode::Unimplemented)),
        }
    }
}

/// The engine's number for an on/off setting.
pub open spec fn flag_code(enable: bool) -> i32 {
    if enable {
        1
    } else {
        0
    }
}

/// Encodes an on/off setting as the engine expects it.
pub fn flag(enable: bool) -> (r: i32)
    ensures
        r == flag_code(enable),
{
    if enable {
        1
    } else {
        0
    }
}

/// Decodes an on/off setting that the engine reported.
pub fn flag_value(value: i32) -> (r: bool)
    ensures
        r == (value == 1),
{
    value == 1
}

/// What a get request yields: the value the engine wrote, unless its status
/// reports an error.
pub open spec fn get_outcome(status: i32, value: i32) -> Result<i32> {
    if status < 0 {
        Err(Error::Opus(error_code_of(status)))
    } else {
        Ok(value)
    }
}

/// What a set request yields.
pub open spec fn set_outcome(status: i32) -> Result<()> {
    if status < 0 {
        Err(Error::Opus(error_code_of(status)))
    } else {
        Ok(())
    }
}

/// Interprets the engine's answer to a get request.
pub fn get_reply(status: i32, value: i32) -> (r: Result<i32>)
    ensures
        r == get_outcome(status, value),
{
    match try_map_opus_error(status) {
        Ok(_) => Ok(value),
        Err(e) => Err(e),
    }
}

/// Interprets the engine's answer to a set request.
pub fn set_reply(status: i32) -> (r: Result<()>)
    ensures
        r == set_outcome(status),
{
    match try_map_opus_error(status) {
        Ok(_) => Ok(()),
        Err(e) => Err(e),
    }
}

/// Interprets an engine return value that counts bytes, samples or frames.
pub fn count_reply(value: i32) -> (r: Result<usize>)
    ensures
        r == opus_count(value),
{
    match try_map_opus_error(value) {
        Ok(n) => Ok(n as usize),
        Err(e) => Err(e),
    }
}

/// What creating an encoder or decoder yields: success when the engine
/// reported `OPUS_OK` or handed out an instance, else the reported error.
pub open spec fn creation_outcome(status: i32, created: bool) -> Result<()> {
    if status == defines::OPUS_OK || created {
        Ok(())
    } else {
        Err(Error::Opus(error_code_of(status)))
    }
}

/// Interprets the engine's answer to a create call; `created` tells whether
/// it handed out an instance.
pub fn creation_reply(status: i32, created: bool) -> (r: Result<()>)
    ensures
        r == creation_outcome(status, created),
{
    if status == defines::OPUS_OK || created {
        return Ok(());
    }
    Err(Error::from(ErrorCode::from(status)))
}

/// Number of audio channels a codec instance with this setting works on.
pub open spec fn channel_count(channels: Channels) -> int {
    match channels {
        Channels::Stereo => 2,
        _ => 1,
    }
}

/// Samples per channel in an interleaved buffer of `len` samples; a partial
/// last frame is dropped, as the engine does.
pub fn frame_size(len: i32, channels: Channels) -> (r: i32)
    requires
        len >= 0,
        channels != Channels::Auto,
    ensures
        r == len as int / channel_count(channels),
        0 <= r <= len,
{
    if channels.is_stereo() {
        len / 2
    } else {
        len
    }
}

/// What the engine is told for one encode call: the samples per channel of an
/// input of `input_len` samples and the capacity of an output of `output_len`
/// bytes, unless one of them is too long for it.
pub open spec fn encode_plan(input_len: nat, output_len: nat, channels: Channels) -> Result<
    (i32, i32),
> {
    if input_len > defines::MAX_LEN {
        Err(Error::SignalsTooLarge)
    } else if output_len > defines::MAX_LEN {
        Err(Error::PacketTooLarge)
    } else {
        Ok(((input_len as int / channel_count(channels)) as i32, output_len as i32))
    }
}

/// Checks the buffers of an encode call and works out the frame size and
/// output capacity to hand to the engine.
pub fn encode_args(input_len: usize, output_len: usize, channels: Channels) -> (r: Result<
    (i32, i32),
>)
    requires
        channels != Channels::Auto,
    ensures
        r == encode_plan(input_len as nat, output_len as nat, channels),
{
    if input_len > defines::MAX_LEN {
        return Err(Error::SignalsTooLarge);
    }
    if output_len > defines::MAX_LEN {
        return Err(Error::PacketTooLarge);
    }
    Ok((frame_size(input_len as i32, channels), output_len as i32))
}

/// The packet length the engine is told in a decode call; no packet (a lost
/// one, to be concealed) is length zero.
pub fn input_len(input: &Option<Packet<'_>>) -> (r: i32)
    ensures
        match input {
            Some(p) => r == p@.len(),
            None => r == 0,
        },
{
    match input {
        Some(p) => p.i32_len(),
        None => 0,
    }
}

/// Samples per channel that fit in a decode output buffer.
pub fn decode_frame_size<T>(output: &MutSignals<'_, T>, channels: Channels) -> (r: i32)
    requires
        channels != Channels::Auto,
    ensures
        r == output@.len() as int / channel_count(channels),
{
    frame_size(output.i32_len(), channels)
}

/// A value written to a setting reaches the engine unchanged, under that
/// setting's own write request, and a value the engine reports for a read
/// comes back unchanged; a write that the engine refuses with `OPUS_BAD_ARG`
/// fails with `BadArgument`, and any refused request leaves nothing applied
/// on this side (no value is returned).
pub proof fn lemma_values_pass_through(c: Ctl, value: i32, status: i32)
    requires
        c.set_code() is Some,
        status >= 0,
    ensures
        c.command(value) == Ok::<(i32, i32), Error>((c.set_code()->0, value)),
        get_outcome(status, value) == Ok::<i32, Error>(value),
        set_outcome(status) == Ok::<(), Error>(()),
        set_outcome(defines::OPUS_BAD_ARG) == Err::<(), Error>(Error::Opus(ErrorCode::BadArgument)),
        get_outcome(defines::OPUS_BAD_ARG, value) == Err::<i32, Error>(
            Error::Opus(ErrorCode::BadArgument),
        ),
{
}

/// Each setting is read and written under two distinct requests, and no two
/// settings share a request.
pub proof fn lemma_requests_distinct(c: Ctl, d: Ctl)
    ensures
        c.set_code() is Some ==> c.set_code()->0 != c.get_code(),
        c != d ==> c.get_code() != d.get_code(),
        c != d && c.set_code() is Some && d.set_code() is Some ==> c.set_code()->0 != d.set_code()->0,
        d.set_code() is Some ==> c.get_code() != d.set_code()->0,
{
}

/// An on/off setting written with `flag` reads back, through `flag_value`,
/// as the value that was written.
pub proof fn lemma_flag_round_trip(enable: bool)
    ensures
        (flag_code(enable) == 1) == enable,
{
}

/// Every enumerated setting value reads back, from the engine number it is
/// written as, as itself; so does every explicit positive bitrate and every
/// value of a byte-sized setting.
pub proof fn lemma_enum_round_trip(
    signal: crate::Signal,
    application: crate::Application,
    channels: Channels,
    bandwidth: crate::Bandwidth,
    sample_rate: SampleRate,
    bits: i32,
    small: u8,
)
    requires
        bits > 0,
    ensures
        crate::Signal::parse(signal.code()) == Ok::<crate::Signal, Error>(signal),
        crate::Application::parse(application.code()) == Ok::<crate::Application, Error>(
            application,
        ),
        Channels::parse(channels.code()) == Ok::<Channels, Error>(channels),
        crate::Bandwidth::parse(bandwidth.code()) == Ok::<crate::Bandwidth, Error>(bandwidth),
        SampleRate::parse(sample_rate.hz()) == Ok::<SampleRate, Error>(sample_rate),
        crate::Bitrate::parse(crate::Bitrate::BitsPerSecond(bits).code()) == Ok::<
            crate::Bitrate,
            Error,
        >(crate::Bitrate::BitsPerSecond(bits)),
        crate::Bitrate::parse(crate::Bitrate::Max.code()) == Ok::<crate::Bitrate, Error>(
            crate::Bitrate::Max,
        ),
        crate::Bitrate::parse(crate::Bitrate::Auto.code()) == Ok::<crate::Bitrate, Error>(
            crate::Bitrate::Auto,
        ),
        (small as i32) as u8 == small,
{
}

} // verus!
