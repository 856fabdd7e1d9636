use std::io::Cursor;
use wakeword::noise::NoiseGenerator;
use wakeword::sounds::{
    chirp_clicks, communicator_chirp, computer_ready, encode_pcm16, sample_from_u16, wav_header,
    TrekSound, SOUND_SAMPLE_RATE,
};

#[test]
fn the_chime_lasts_200_ms() {
    let playback = computer_ready();
    assert_eq!(playback.sound, TrekSound::ComputerReady);
    assert_eq!(playback.sample_rate, 44100);
    assert_eq!(playback.duration_ms, 200);
    assert_eq!(playback.num_samples, 8820);
    assert_eq!(playback, TrekSound::ComputerReady.playback());
}

#[test]
fn the_chirp_lasts_400_ms() {
    let playback = communicator_chirp();
    assert_eq!(playback.sound, TrekSound::CommunicatorChirp);
    assert_eq!(playback.sample_rate, SOUND_SAMPLE_RATE);
    assert_eq!(playback.duration_ms, 400);
    assert_eq!(playback.num_samples, 17640);
    assert_eq!(TrekSound::CommunicatorChirp.duration_ms(), 400);
}

#[test]
fn the_chirp_clicks_on_the_first_two_of_every_hundred_samples() {
    let clicks: Vec<usize> = (0..250).filter(|&i| chirp_clicks(i)).collect();
    assert_eq!(clicks, vec![0, 1, 100, 101, 200, 201]);
}

#[test]
fn unsigned_samples_are_recentred() {
    assert_eq!(sample_from_u16(0), -32768);
    assert_eq!(sample_from_u16(32768), 0);
    assert_eq!(sample_from_u16(32767), -1);
    assert_eq!(sample_from_u16(65535), 32767);
}

#[test]
fn samples_are_packed_low_byte_first() {
    assert_eq!(
        encode_pcm16(&vec![-2, 258, -32768, 32767, 0]),
        vec![254, 255, 2, 1, 0, 128, 255, 127, 0, 0]
    );
    assert_eq!(encode_pcm16(&vec![]), Vec::<u8>::new());
}

#[test]
fn packing_agrees_with_the_bytes_of_each_sample() {
    let samples: Vec<i16> = (-32768..=32767).step_by(97).collect();
    let mut expected = Vec::new();
    for sample in &samples {
        expected.extend_from_slice(&sample.to_le_bytes());
    }
    assert_eq!(encode_pcm16(&samples), expected);
}

#[test]
fn the_header_of_the_chirp_is_the_canonical_44_bytes() {
    assert_eq!(
        wav_header(44100, 17640).unwrap(),
        vec![
            82, 73, 70, 70, 244, 137, 0, 0, 87, 65, 86, 69, 102, 109, 116, 32, 16, 0, 0, 0, 1, 0,
            1, 0, 68, 172, 0, 0, 136, 88, 1, 0, 2, 0, 16, 0, 100, 97, 116, 97, 208, 137, 0, 0
        ]
    );
}

#[test]
fn a_header_is_refused_when_its_fields_would_overflow() {
    assert!(wav_header(44100, 2147483629).is_some());
    assert!(wav_header(44100, 2147483630).is_none());
    assert!(wav_header(2147483647, 0).is_some());
    assert!(wav_header(2147483648, 0).is_none());
    let largest = wav_header(2147483647, 2147483629).unwrap();
    assert_eq!(&largest[4..8], &[0xfe, 0xff, 0xff, 0xff]);
    assert_eq!(&largest[24..28], &[0xff, 0xff, 0xff, 0x7f]);
    assert_eq!(&largest[28..32], &[0xfe, 0xff, 0xff, 0xff]);
    assert_eq!(&largest[40..44], &[0xda, 0xff, 0xff, 0xff]);
}

#[test]
fn header_and_samples_make_the_file_that_a_wav_writer_makes() {
    let samples: Vec<i16> = vec![0, 1, -1, 1000, -1000, 32767, -32768];
    let spec = hound::WavSpec {
        channels: 1,
        sample_rate: 22050,
        bits_per_sample: 16,
        sample_format: hound::SampleFormat::Int,
    };
    let mut cursor = Cursor::new(Vec::new());
    {
        let mut writer = hound::WavWriter::new(&mut cursor, spec).unwrap();
        for &sample in &samples {
            writer.write_sample(sample).unwrap();
        }
        writer.finalize().unwrap();
    }
    let mut file = wav_header(22050, samples.len()).unwrap();
    file.extend(encode_pcm16(&samples));
    assert_eq!(file, cursor.into_inner());
}

#[test]
fn the_noise_source_steps_as_a_linear_congruential_generator() {
    let mut noise = NoiseGenerator::new(12345);
    assert_eq!(noise.state(), 12345);
    let levels: Vec<u16> = (0..5).map(|_| noise.next_level()).collect();
    assert_eq!(levels, vec![21468, 9988, 22117, 3498, 16927]);
    assert_eq!(noise.state(), 3256818826);
}

#[test]
fn the_noise_source_wraps_at_32_bits() {
    let mut noise = NoiseGenerator::new(0xffff_ffff);
    assert_eq!(noise.next_level(), 15929);
    assert_eq!(noise.state(), 3191464396);
    let mut zero = NoiseGenerator::new(0);
    assert_eq!(zero.next_level(), 0);
    assert_eq!(zero.state(), 12345);
}

#[test]
fn equal_seeds_give_equal_noise() {
    let mut one = NoiseGenerator::new(77);
    let mut other = NoiseGenerator::new(77);
    for _ in 0..1000 {
        let level = one.next_level();
        assert_eq!(level, other.next_level());
        assert!(level < 32768);
    }
    assert_eq!(one, other);
}
