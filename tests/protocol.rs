use audiopus::coder::{
    count_reply, creation_reply, decode_frame_size, encode_args, flag, flag_value, frame_size,
    get_reply, input_len, set_reply, Ctl,
};
use audiopus::defines::{
    OPUS_ALLOC_FAIL, OPUS_BAD_ARG, OPUS_BUFFER_TOO_SMALL, OPUS_GET_GAIN_REQUEST,
    OPUS_GET_PHASE_INVERSION_DISABLED_REQUEST, OPUS_INTERNAL_ERROR, OPUS_INVALID_PACKET,
    OPUS_INVALID_STATE, OPUS_OK, OPUS_SET_GAIN_REQUEST, OPUS_SET_VBR_REQUEST, OPUS_UNIMPLEMENTED,
};
use audiopus::packet::Packet;
use audiopus::{try_map_opus_error, Channels, Error, ErrorCode, MutSignals};

#[test]
fn status_codes_map_to_error_codes() {
    assert_eq!(ErrorCode::from(OPUS_BAD_ARG), ErrorCode::BadArgument);
    assert_eq!(ErrorCode::from(OPUS_BUFFER_TOO_SMALL), ErrorCode::BufferTooSmall);
    assert_eq!(ErrorCode::from(OPUS_INTERNAL_ERROR), ErrorCode::InternalError);
    assert_eq!(ErrorCode::from(OPUS_INVALID_PACKET), ErrorCode::InvalidPacket);
    assert_eq!(ErrorCode::from(OPUS_UNIMPLEMENTED), ErrorCode::Unimplemented);
    assert_eq!(ErrorCode::from(OPUS_INVALID_STATE), ErrorCode::InvalidState);
    assert_eq!(ErrorCode::from(OPUS_ALLOC_FAIL), ErrorCode::AllocFail);
    assert_eq!(ErrorCode::from(-8), ErrorCode::Unknown);
    assert_eq!(ErrorCode::from(-1000), ErrorCode::Unknown);
    assert_eq!(Error::from(ErrorCode::AllocFail), Error::Opus(ErrorCode::AllocFail));
}

#[test]
fn engine_results_are_checked() {
    assert_eq!(try_map_opus_error(0), Ok(0));
    assert_eq!(try_map_opus_error(17), Ok(17));
    assert_eq!(try_map_opus_error(i32::MAX), Ok(i32::MAX));
    assert_eq!(try_map_opus_error(-1), Err(Error::Opus(ErrorCode::BadArgument)));
    assert_eq!(try_map_opus_error(-7), Err(Error::Opus(ErrorCode::AllocFail)));
    assert_eq!(try_map_opus_error(-99), Err(Error::Opus(ErrorCode::Unknown)));
    assert_eq!(try_map_opus_error(i32::MIN), Err(Error::Opus(ErrorCode::Unknown)));
}

#[test]
fn descriptions() {
    assert_eq!(ErrorCode::BufferTooSmall.description(), "Passed buffer was too small");
    assert_eq!(Error::EmptyPacket.description(), "Passed packet contained no elements");
    assert_eq!(Error::InvalidBandwidth(3).description(), "Invalid Bandwidth");
    assert_eq!(
        Error::Opus(ErrorCode::AllocFail).description(),
        "Opus was unable to allocate memory"
    );
    assert_eq!(
        Error::SignalsTooLarge.description(),
        "Signals' length exceeded `std::i32::MAX`"
    );
}

#[test]
fn ctl_requests() {
    assert_eq!(Ctl::Gain.get_request(), OPUS_GET_GAIN_REQUEST);
    assert_eq!(Ctl::Gain.set_request(), Some(OPUS_SET_GAIN_REQUEST));
    assert_eq!(
        Ctl::PhaseInversionDisabled.get_request(),
        OPUS_GET_PHASE_INVERSION_DISABLED_REQUEST
    );
    assert_eq!(Ctl::Vbr.set_command(1), Ok((OPUS_SET_VBR_REQUEST, 1)));
    assert_eq!(Ctl::Gain.set_command(-32768), Ok((OPUS_SET_GAIN_REQUEST, -32768)));
    assert_eq!(Ctl::Lookahead.set_request(), None);
    assert_eq!(
        Ctl::FinalRange.set_command(0),
        Err(Error::Opus(ErrorCode::Unimplemented))
    );
}

#[test]
fn flags_round_trip() {
    assert_eq!(flag(true), 1);
    assert_eq!(flag(false), 0);
    assert!(flag_value(flag(true)));
    assert!(!flag_value(flag(false)));
    assert!(!flag_value(2));
}

#[test]
fn replies() {
    assert_eq!(get_reply(OPUS_OK, 32767), Ok(32767));
    assert_eq!(get_reply(OPUS_OK, -32768), Ok(-32768));
    assert_eq!(get_reply(OPUS_BAD_ARG, 10), Err(Error::Opus(ErrorCode::BadArgument)));
    assert_eq!(set_reply(OPUS_OK), Ok(()));
    assert_eq!(set_reply(OPUS_BAD_ARG), Err(Error::Opus(ErrorCode::BadArgument)));
    assert_eq!(count_reply(3), Ok(3));
    assert_eq!(
        count_reply(OPUS_BUFFER_TOO_SMALL),
        Err(Error::Opus(ErrorCode::BufferTooSmall))
    );
}

#[test]
fn creation_outcomes() {
    assert_eq!(creation_reply(OPUS_OK, true), Ok(()));
    assert_eq!(creation_reply(OPUS_BAD_ARG, true), Ok(()));
    assert_eq!(creation_reply(OPUS_BAD_ARG, false), Err(Error::Opus(ErrorCode::BadArgument)));
    assert_eq!(creation_reply(OPUS_ALLOC_FAIL, false), Err(Error::Opus(ErrorCode::AllocFail)));
}

#[test]
fn frame_sizes() {
    assert_eq!(frame_size(1920, Channels::Stereo), 960);
    assert_eq!(frame_size(960, Channels::Mono), 960);
    assert_eq!(frame_size(7, Channels::Stereo), 3);
    assert_eq!(frame_size(0, Channels::Stereo), 0);
    assert_eq!(encode_args(1920, 256, Channels::Stereo), Ok((960, 256)));
    assert_eq!(encode_args(960, 256, Channels::Mono), Ok((960, 256)));
    let mut output = vec![0i16; 5760];
    let signals = MutSignals::try_from(&mut output).unwrap();
    assert_eq!(decode_frame_size(&signals, Channels::Stereo), 2880);
}

#[test]
fn decode_input_lengths() {
    let bytes = [252u8, 255, 254];
    let packet = Packet::try_from(&bytes[..]).unwrap();
    assert_eq!(input_len(&Some(packet)), 3);
    assert_eq!(input_len(&None), 0);
}
