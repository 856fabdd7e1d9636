//! Feature extraction parameters.

use vstd::prelude::*;

verus! {

/// Parameters of the feature extractor.  Frequencies are whole hertz.
#[derive(Debug, Clone, Copy)]
pub struct MfccConfig {
    /// Samples per second of the audio.
    pub sample_rate: u32,
    /// Samples per analysis frame.
    pub frame_size: usize,
    /// Samples between the starts of consecutive frames.
    pub hop_size: usize,
    /// Cepstral coefficients kept per frame.
    pub num_mfcc: usize,
    /// Triangular filters in the mel filterbank.
    pub num_filters: usize,
    /// Lower edge of the analysis band.
    pub min_freq: u32,
    /// Upper edge of the analysis band.
    pub max_freq: u32,
}

impl MfccConfig {
    /// The configuration invariant: a non-empty frame, a hop that neither
    /// stalls nor skips samples, no more coefficients than filters, and a
    /// non-empty band below the Nyquist frequency.
    pub open spec fn valid(&self) -> bool {
        &&& self.frame_size > 0
        &&& 0 < self.hop_size <= self.frame_size
        &&& self.num_mfcc <= self.num_filters
        &&& self.min_freq < self.max_freq
        &&& self.max_freq <= self.sample_rate / 2
    }

    /// The stock parameters: 16 kHz audio, 512-sample frames every 128
    /// samples, 13 coefficients from 26 filters over 300 Hz to 8 kHz.
    pub open spec fn standard() -> MfccConfig {
        MfccConfig {
            sample_rate: 16000,
            frame_size: 512,
            hop_size: 128,
            num_mfcc: 13,
            num_filters: 26,
            min_freq: 300,
            max_freq: 8000,
        }
    }

    /// Number of power-spectrum bins a frame yields: half the frame size.
    pub open spec fn spec_num_fft_bins(&self) -> nat {
        (self.frame_size / 2) as nat
    }

    /// Tells whether the configuration invariant holds.
    pub fn is_valid(&self) -> (ok: bool)
        ensures
            ok == self.valid(),
    {
        self.frame_size > 0 && self.hop_size > 0 && self.hop_size <= self.frame_size
            && self.num_mfcc <= self.num_filters && self.min_freq < self.max_freq
            && self.max_freq <= self.sample_rate / 2
    }

    /// Number of power-spectrum bins a frame yields.
    pub fn num_fft_bins(&self) -> (bins: usize)
        ensures
            bins == self.spec_num_fft_bins(),
    {
        self.frame_size / 2
    }
}

impl Default for MfccConfig {
    fn default() -> (config: Self)
        ensures
            config == MfccConfig::standard(),
            config.valid(),
    {
        MfccConfig {
            sample_rate: 16000,
            frame_size: 512,
            hop_size: 128,
            num_mfcc: 13,
            num_filters: 26,
            min_freq: 300,
            max_freq: 8000,
        }
    }
}

} // verus!
