use audiopus::packet::{
    bandwidth, nb_channels, nb_frames, nb_samples, samples_per_frame, MutPacket, Packet,
};
use audiopus::{Bandwidth, Channels, Error, ErrorCode, MutSignals, SampleRate};

#[test]
/// We verify the `TryFrom`-impl for `Packet` by creating and then
/// converting from `Vec`s that meet and violate the contract.
fn packet_bandwidth() {
    let empty_packet = vec![];
    let empty_packet_bandwidth = Packet::try_from(&empty_packet);
    assert!(matches!(empty_packet_bandwidth, Err(Error::EmptyPacket)));

    let narrow_packet = vec![1, 2, 3];
    let narrow_packet_bandwidth = bandwidth(Packet::try_from(&narrow_packet).unwrap());
    assert!(matches!(narrow_packet_bandwidth, Ok(Bandwidth::Narrowband)));

    let mediumband_packet = vec![50];
    let mediumband_packet_bandwidth = bandwidth(Packet::try_from(&mediumband_packet).unwrap());
    assert!(matches!(mediumband_packet_bandwidth, Ok(Bandwidth::Mediumband)));

    let wideband_packet = vec![80];
    let wideband_packet_bandwidth = bandwidth(Packet::try_from(&wideband_packet).unwrap());
    assert!(matches!(wideband_packet_bandwidth, Ok(Bandwidth::Wideband)));

    let superwideband_packet = vec![200];
    let superwideband_bandwidth = bandwidth(Packet::try_from(&superwideband_packet).unwrap());
    assert!(matches!(superwideband_bandwidth, Ok(Bandwidth::Superwideband)));

    let fullband_packet = vec![255];
    let fullband_bandwidth = bandwidth(Packet::try_from(&fullband_packet).unwrap());
    assert!(matches!(fullband_bandwidth, Ok(Bandwidth::Fullband)));
}

#[test]
fn single_byte_packets_one_to_three_are_narrowband() {
    for toc in 1u8..=3 {
        let bytes = [toc];
        let packet = Packet::try_from(&bytes[..]).unwrap();
        assert_eq!(bandwidth(packet), Ok(Bandwidth::Narrowband));
    }
}

#[test]
fn packet_keeps_bytes_and_length() {
    let bytes = vec![7u8, 8, 9, 10];
    let packet = Packet::try_from(&bytes).unwrap();
    assert_eq!(packet.i32_len(), 4);
    assert_eq!(packet.as_slice(), &[7u8, 8, 9, 10][..]);
    assert_eq!(packet.as_slice().as_ptr(), bytes.as_ptr());
    assert_eq!(packet.toc(), 7);

    let one = [0u8];
    assert_eq!(Packet::try_from(&one[..]).unwrap().i32_len(), 1);
    let empty: [u8; 0] = [];
    assert!(matches!(Packet::try_from(&empty[..]), Err(Error::EmptyPacket)));
}

#[test]
fn mut_packet_checks_length() {
    let mut empty: Vec<u8> = vec![];
    assert!(matches!(MutPacket::try_from(&mut empty), Err(Error::EmptyPacket)));

    let mut bytes = vec![1u8, 2, 3];
    let mut packet = MutPacket::try_from(&mut bytes).unwrap();
    assert_eq!(packet.i32_len(), Ok(3));
    packet.as_mut_slice()[0] = 42;
    assert_eq!(packet.i32_len(), Ok(3));
    assert_eq!(bytes, vec![42, 2, 3]);
}

#[test]
fn signals_accept_any_length_up_to_the_bound() {
    let mut empty: Vec<f32> = vec![];
    let signals = MutSignals::try_from(&mut empty).unwrap();
    assert_eq!(signals.i32_len(), 0);

    let mut samples = vec![0i16; 1920];
    let signals = MutSignals::try_from(&mut samples).unwrap();
    assert_eq!(signals.i32_len(), 1920);
    let slice = signals.into_mut_slice();
    slice[5] = 9;
    assert_eq!(samples[5], 9);
}

#[test]
fn frames_in_packets() {
    // code 0: one frame
    assert_eq!(nb_frames(Packet::try_from(&[0u8][..]).unwrap()), Ok(1));
    // codes 1 and 2: two frames
    assert_eq!(nb_frames(Packet::try_from(&[1u8][..]).unwrap()), Ok(2));
    assert_eq!(nb_frames(Packet::try_from(&[2u8][..]).unwrap()), Ok(2));
    // code 3: the count sits in the second byte
    assert_eq!(nb_frames(Packet::try_from(&[3u8, 5][..]).unwrap()), Ok(5));
    assert_eq!(nb_frames(Packet::try_from(&[3u8, 0xC5][..]).unwrap()), Ok(5));
    assert_eq!(
        nb_frames(Packet::try_from(&[3u8][..]).unwrap()),
        Err(Error::Opus(ErrorCode::InvalidPacket))
    );
}

#[test]
fn samples_per_frame_of_packets() {
    // SILK-only, 10 ms frames
    let silk_10ms = [0x00u8];
    assert_eq!(
        samples_per_frame(Packet::try_from(&silk_10ms[..]).unwrap(), SampleRate::Hz48000),
        Ok(480)
    );
    // SILK-only, 60 ms frames
    let silk_60ms = [0x18u8];
    assert_eq!(
        samples_per_frame(Packet::try_from(&silk_60ms[..]).unwrap(), SampleRate::Hz48000),
        Ok(2880)
    );
    // hybrid, 20 ms frames
    let hybrid_20ms = [0x68u8];
    assert_eq!(
        samples_per_frame(Packet::try_from(&hybrid_20ms[..]).unwrap(), SampleRate::Hz16000),
        Ok(320)
    );
    // CELT-only, 2.5 ms frames
    let celt_2_5ms = [0x80u8];
    assert_eq!(
        samples_per_frame(Packet::try_from(&celt_2_5ms[..]).unwrap(), SampleRate::Hz48000),
        Ok(120)
    );
    // CELT-only, 20 ms frames (the packets the encoder writes for silence)
    let celt_20ms = [0xFCu8];
    assert_eq!(
        samples_per_frame(Packet::try_from(&celt_20ms[..]).unwrap(), SampleRate::Hz48000),
        Ok(960)
    );
}

#[test]
fn samples_in_packets() {
    let encoded_silence = [252u8, 255, 254];
    assert_eq!(
        nb_samples(Packet::try_from(&encoded_silence[..]).unwrap(), SampleRate::Hz48000),
        Ok(960)
    );
    assert_eq!(
        nb_samples(Packet::try_from(&encoded_silence[..]).unwrap(), SampleRate::Hz8000),
        Ok(160)
    );
    // three 60 ms frames would last 180 ms: more than a packet may hold
    let too_long = [0x1Bu8, 3];
    assert_eq!(
        nb_samples(Packet::try_from(&too_long[..]).unwrap(), SampleRate::Hz48000),
        Err(Error::Opus(ErrorCode::InvalidPacket))
    );
    let cut_short = [0x03u8];
    assert_eq!(
        nb_samples(Packet::try_from(&cut_short[..]).unwrap(), SampleRate::Hz48000),
        Err(Error::Opus(ErrorCode::InvalidPacket))
    );
}

#[test]
fn channels_of_packets() {
    assert_eq!(nb_channels(Packet::try_from(&[252u8][..]).unwrap()), Ok(Channels::Stereo));
    assert_eq!(nb_channels(Packet::try_from(&[248u8][..]).unwrap()), Ok(Channels::Mono));
}
