//! Acknowledgement sounds: what is to be played, and how synthesized samples
//! are packed for a player.
//!
//! The waveforms themselves are synthesized by the caller.  This module
//! fixes how long each sound is and how many samples it takes, and packs
//! 16-bit samples as little-endian PCM, bare or behind a WAV header.

use vstd::prelude::*;

verus! {

/// Samples per second of every acknowledgement sound.
pub const SOUND_SAMPLE_RATE: u32 = 44100;

/// The acknowledgement sounds.
#[derive(Debug, Clone, Copy, PartialEq, Eq)]
pub enum TrekSound {
    /// A two-tone chime that fades out.
    ComputerReady,
    /// A sweeping chirp with clicks.
    CommunicatorChirp,
}

/// One sound to play: mono, 16 bits to the sample.
#[derive(Debug, Clone, Copy, PartialEq, Eq)]
pub struct Playback {
    /// Which sound.
    pub sound: TrekSound,
    /// Samples per second.
    pub sample_rate: u32,
    /// Length in milliseconds.
    pub duration_ms: u64,
    /// Length in samples: `sample_rate * duration_ms / 1000`.
    pub num_samples: usize,
}

impl TrekSound {
    /// Length of the sound in milliseconds.
    pub open spec fn spec_duration_ms(self) -> u64 {
        match self {
            TrekSound::ComputerReady => 200,
            TrekSound::CommunicatorChirp => 400,
        }
    }

    /// How the sound is played.
    pub open spec fn spec_playback(self) -> Playback {
        Playback {
            sound: self,
            sample_rate: SOUND_SAMPLE_RATE,
            duration_ms: self.spec_duration_ms(),
            num_samples: (SOUND_SAMPLE_RATE * self.spec_duration_ms() / 1000) as usize,
        }
    }

    /// Length of the sound in milliseconds.
    #[verifier::when_used_as_spec(spec_duration_ms)]
    pub fn duration_ms(self) -> (ms: u64)
        ensures
            ms == self.spec_duration_ms(),
    {
        match self {
            TrekSound::ComputerReady => 200,
            TrekSound::CommunicatorChirp => 400,
        }
    }

    /// How the sound is played.
    #[verifier::when_used_as_spec(spec_playback)]
    pub fn playback(self) -> (playback: Playback)
        ensures
            playback == self.spec_playback(),
    {
        let duration_ms: u64 = self.duration_ms();
        let num_samples: u64 = SOUND_SAMPLE_RATE as u64 * duration_ms / 1000;
        Playback {
            sound: self,
            sample_rate: SOUND_SAMPLE_RATE,
            duration_ms,
            num_samples: num_samples as usize,
        }
    }
}

/// The computer's acknowledgement chime: 200 ms, 8820 samples.
pub fn computer_ready() -> (playback: Playback)
    ensures
        playback == TrekSound::ComputerReady.spec_playback(),
        playback.duration_ms == 200,
        playback.num_samples == 8820,
{
    TrekSound::ComputerReady.playback()
}

/// The communicator's chirp: 400 ms, 17640 samples.
pub fn communicator_chirp() -> (playback: Playback)
    ensures
        playback == TrekSound::CommunicatorChirp.spec_playback(),
        playback.duration_ms == 400,
        playback.num_samples == 17640,
{
    TrekSound::CommunicatorChirp.playback()
}

/// Tells whether the chirp clicks at sample `index`: on the first two of
/// every hundred samples.
pub fn chirp_clicks(index: usize) -> (clicks: bool)
    ensures
        clicks == (index % 100 < 2),
{
    index % 100 < 2
}

/// Recentres an unsigned 16-bit sample on zero.
pub fn sample_from_u16(sample: u16) -> (signed: i16)
    ensures
        signed == sample - 32768,
{
    (sample as i32 - 32768) as i16
}

/// The 16-bit word that stands for `sample` in two's complement.
pub open spec fn word_of(sample: i16) -> int {
    if sample < 0 {
        sample + 65536
    } else {
        sample as int
    }
}

/// Little-endian 16-bit PCM: two bytes to the sample, the low byte first.
pub open spec fn pcm16_le(samples: Seq<i16>) -> Seq<u8> {
    Seq::new(
        2 * samples.len(),
        |k: int|
            if k % 2 == 0 {
                (word_of(samples[k / 2]) % 256) as u8
            } else {
                (word_of(samples[k / 2]) / 256) as u8
            },
    )
}

/// The four bytes of `value`, the lowest first.
pub open spec fn u32_le(value: u32) -> Seq<u8> {
    seq![
        (value % 256) as u8,
        (value / 256 % 256) as u8,
        (value / 65536 % 256) as u8,
        (value / 16777216) as u8,
    ]
}

/// The 44-byte header of a WAV file that holds `num_samples` samples of
/// 16-bit mono PCM at `sample_rate`: the RIFF chunk descriptor, the format
/// chunk, and the head of the data chunk.
pub open spec fn wav_header_of(sample_rate: u32, num_samples: u32) -> Seq<u8> {
    seq![0x52u8, 0x49, 0x46, 0x46] + u32_le((36 + 2 * num_samples) as u32) + seq![
        0x57u8,
        0x41,
        0x56,
        0x45,
    ] + seq![0x66u8, 0x6d, 0x74, 0x20] + u32_le(16) + seq![1u8, 0] + seq![1u8, 0] + u32_le(
        sample_rate,
    ) + u32_le((2 * sample_rate) as u32) + seq![2u8, 0] + seq![16u8, 0] + seq![
        0x64u8,
        0x61,
        0x74,
        0x61,
    ] + u32_le((2 * num_samples) as u32)
}

/// Tells whether a WAV header has room for these numbers: its size fields
/// and its byte rate are 32 bits wide.
pub open spec fn fits_wav(sample_rate: u32, num_samples: nat) -> bool {
    36 + 2 * num_samples <= u32::MAX && 2 * sample_rate <= u32::MAX
}

/// Appends the four bytes of `value` to `bytes`, the lowest first.
fn push_u32_le(bytes: &mut Vec<u8>, value: u32)
    ensures
        final(bytes)@ == old(bytes)@ + u32_le(value),
{
    bytes.push((value % 256) as u8);
    bytes.push((value / 256 % 256) as u8);
    bytes.push((value / 65536 % 256) as u8);
    bytes.push((value / 16777216) as u8);
    assert(bytes@ =~= old(bytes)@ + u32_le(value));
}

/// Appends four given bytes to `bytes`.
fn push_tag(bytes: &mut Vec<u8>, a: u8, b: u8, c: u8, d: u8)
    ensures
        final(bytes)@ == old(bytes)@ + seq![a, b, c, d],
{
    bytes.push(a);
    bytes.push(b);
    bytes.push(c);
    bytes.push(d);
    assert(bytes@ =~= old(bytes)@ + seq![a, b, c, d]);
}

/// Appends the two bytes of a small number to `bytes`, the low byte first.
fn push_u16_le(bytes: &mut Vec<u8>, low: u8)
    ensures
        final(bytes)@ == old(bytes)@ + seq![low, 0u8],
{
    bytes.push(low);
    bytes.push(0);
    assert(bytes@ =~= old(bytes)@ + seq![low, 0u8]);
}

/// Packs samples as little-endian 16-bit PCM.
pub fn encode_pcm16(samples: &Vec<i16>) -> (bytes: Vec<u8>)
    ensures
        bytes@ == pcm16_le(samples@),
        bytes@.len() == 2 * samples@.len(),
{
    let mut bytes: Vec<u8> = Vec::new();
    let mut done: usize = 0;
    while done < samples.len()
        invariant
            done <= samples@.len(),
            bytes@.len() == 2 * done,
            forall|k: int| 0 <= k < bytes@.len() ==> #[trigger] bytes@[k] == pcm16_le(samples@)[k],
        decreases samples@.len() - done,
    {
        let sample: i16 = samples[done];
        let word: u32 = if sample < 0 {
            (sample as i32 + 65536) as u32
        } else {
            sample as u32
        };
        bytes.push((word % 256) as u8);
        bytes.push((word / 256) as u8);
        done += 1;
    }
    assert(bytes@ =~= pcm16_le(samples@));
    bytes
}

/// Writes the header of a WAV file of 16-bit mono PCM, or nothing when the
/// numbers do not fit its 32-bit fields.
pub fn wav_header(sample_rate: u32, num_samples: usize) -> (header: Option<Vec<u8>>)
    ensures
        fits_wav(sample_rate, num_samples as nat) ==> header.is_some() && header.unwrap()@
            == wav_header_of(sample_rate, num_samples as u32) && header.unwrap()@.len() == 44,
        !fits_wav(sample_rate, num_samples as nat) ==> header.is_none(),
{
    if num_samples > 2147483629 || sample_rate > 2147483647 {
        return None;
    }
    let data_size: u32 = 2 * (num_samples as u32);
    let mut header: Vec<u8> = Vec::new();
    push_tag(&mut header, 0x52, 0x49, 0x46, 0x46);
    push_u32_le(&mut header, 36 + data_size);
    push_tag(&mut header, 0x57, 0x41, 0x56, 0x45);
    push_tag(&mut header, 0x66, 0x6d, 0x74, 0x20);
    push_u32_le(&mut header, 16);
    push_u16_le(&mut header, 1);
    push_u16_le(&mut header, 1);
    push_u32_le(&mut header, sample_rate);
    push_u32_le(&mut header, 2 * sample_rate);
    push_u16_le(&mut header, 2);
    push_u16_le(&mut header, 16);
    push_tag(&mut header, 0x64, 0x61, 0x74, 0x61);
    push_u32_le(&mut header, data_size);
    Some(header)
}

} // verus!
