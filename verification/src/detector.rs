//! The detector's bookkeeping: its configuration, whether it holds a
//! template, and what each of its operations has to work on.
//!
//! The detector here knows the shape of its template, not its coefficients.
//! The caller keeps the coefficients, the similarity threshold and the
//! transform matrices, and carries out the numeric work that the layouts,
//! plans and steps returned here describe.

use crate::config::MfccConfig;
use crate::framing::{frame_count_of, FeatureLayout};
use crate::training::{plan_training, TrainError, TrainingPlan};
use vstd::prelude::*;

verus! {

/// What a detection has to do for one buffer of audio.
#[derive(Debug, Clone, Copy, PartialEq, Eq)]
pub enum DetectStep {
    /// There is nothing to compare, because no template is held or the audio
    /// is shorter than one frame: the answer is "not detected", with
    /// similarity zero.
    Reject,
    /// Align the `frames` feature rows of the audio with the `template_rows`
    /// rows of the template, and score the distance against the square root
    /// of `template_rows * coefficients`.
    Match { frames: usize, template_rows: usize, coefficients: usize },
}

/// A wake word detector: a configuration, fixed for its lifetime, and the
/// row count of the template it holds, if any.
#[derive(Debug)]
pub struct WakeWordDetector {
    config: MfccConfig,
    template_rows: Option<usize>,
}

impl WakeWordDetector {
    #[verifier::type_invariant]
    spec fn well_formed(self) -> bool {
        self.config.valid()
    }

    /// The detector's configuration.
    pub closed spec fn spec_config(&self) -> MfccConfig {
        self.config
    }

    /// Row count of the template, or `None` while none is held.
    pub closed spec fn spec_template_rows(&self) -> Option<usize> {
        self.template_rows
    }

    /// What detection has to do with `audio_len` samples for a detector in
    /// the given state.
    pub open spec fn step_for(
        config: MfccConfig,
        template_rows: Option<usize>,
        audio_len: usize,
    ) -> DetectStep {
        let frames = frame_count_of(
            audio_len as nat,
            config.frame_size as nat,
            config.hop_size as nat,
        );
        match template_rows {
            None => DetectStep::Reject,
            Some(rows) => if frames == 0 {
                DetectStep::Reject
            } else {
                DetectStep::Match {
                    frames: frames as usize,
                    template_rows: rows,
                    coefficients: config.num_mfcc,
                }
            },
        }
    }

    /// A detector with the stock configuration and no template.
    pub fn new() -> (detector: Self)
        ensures
            detector.spec_config() == MfccConfig::standard(),
            detector.spec_template_rows().is_none(),
    {
        WakeWordDetector { config: MfccConfig::default(), template_rows: None }
    }

    /// A detector with the given configuration and no template.
    pub fn with_config(config: MfccConfig) -> (detector: Self)
        requires
            config.valid(),
        ensures
            detector.spec_config() == config,
            detector.spec_template_rows().is_none(),
    {
        WakeWordDetector { config, template_rows: None }
    }

    /// The detector's configuration, which always meets its invariant.
    #[verifier::when_used_as_spec(spec_config)]
    pub fn config(&self) -> (config: MfccConfig)
        ensures
            config == self.spec_config(),
            config.valid(),
    {
        proof {
            use_type_invariant(self);
        }
        self.config
    }

    /// Row count of the template, or `None` while none is held.
    #[verifier::when_used_as_spec(spec_template_rows)]
    pub fn template_rows(&self) -> (rows: Option<usize>)
        ensures
            rows == self.spec_template_rows(),
    {
        self.template_rows
    }

    /// Records that the detector now holds a template of `rows` rows, in
    /// place of any it held before.
    pub fn set_template(&mut self, rows: usize)
        ensures
            final(self).spec_template_rows() == Some(rows),
            final(self).spec_config() == old(self).spec_config(),
    {
        proof {
            use_type_invariant(&*self);
        }
        self.template_rows = Some(rows);
    }

    /// Lays out the features of `audio_len` samples: one row for each whole
    /// frame, none if the audio is shorter than a frame, and as many columns
    /// as the configuration has coefficients.
    pub fn extract_mfcc(&self, audio_len: usize) -> (layout: FeatureLayout)
        ensures
            layout.spec_nrows() == frame_count_of(
                audio_len as nat,
                self.spec_config().frame_size as nat,
                self.spec_config().hop_size as nat,
            ),
            audio_len < self.spec_config().frame_size ==> layout.spec_nrows() == 0,
            audio_len >= self.spec_config().frame_size ==> layout.spec_nrows() == (audio_len
                - self.spec_config().frame_size) / (self.spec_config().hop_size as int) + 1,
            layout.spec_ncols() == self.spec_config().num_mfcc,
            layout.spec_audio_len() == audio_len,
            layout.spec_frame_size() == self.spec_config().frame_size,
            layout.spec_hop_size() == self.spec_config().hop_size,
    {
        proof {
            use_type_invariant(self);
        }
        FeatureLayout::new(
            audio_len,
            self.config.frame_size,
            self.config.hop_size,
            self.config.num_mfcc,
        )
    }

    /// Decides what detection has to do with `audio_len` samples.
    pub fn detect(&self, audio_len: usize) -> (step: DetectStep)
        ensures
            step == Self::step_for(self.spec_config(), self.spec_template_rows(), audio_len),
            step is Reject <==> self.spec_template_rows().is_none() || frame_count_of(
                audio_len as nat,
                self.spec_config().frame_size as nat,
                self.spec_config().hop_size as nat,
            ) == 0,
    {
        proof {
            use_type_invariant(self);
        }
        match self.template_rows {
            None => DetectStep::Reject,
            Some(rows) => {
                let layout = self.extract_mfcc(audio_len);
                let frames: usize = layout.nrows();
                if frames == 0 {
                    DetectStep::Reject
                } else {
                    DetectStep::Match {
                        frames,
                        template_rows: rows,
                        coefficients: self.config.num_mfcc,
                    }
                }
            },
        }
    }

    /// Plans the training of a template from recordings of the given
    /// lengths, in samples.  On success the detector holds a template of the
    /// planned length; on failure it is left as it was.
    pub fn train_template(&mut self, sample_lengths: &Vec<usize>) -> (outcome: Result<
        TrainingPlan,
        TrainError,
    >)
        ensures
            final(self).spec_config() == old(self).spec_config(),
            (outcome matches Err(TrainError::EmptyInput)) <==> sample_lengths@.len() == 0,
            (outcome matches Err(TrainError::NoValidSamples)) <==> {
                &&& sample_lengths@.len() > 0
                &&& forall|k: int|
                    0 <= k < sample_lengths@.len() ==> frame_count_of(
                        #[trigger] sample_lengths@[k] as nat,
                        old(self).spec_config().frame_size as nat,
                        old(self).spec_config().hop_size as nat,
                    ) == 0
            },
            outcome is Err ==> final(self).spec_template_rows() == old(self).spec_template_rows(),
            outcome matches Ok(plan) ==> {
                &&& plan.plans(
                    sample_lengths@,
                    old(self).spec_config().frame_size as nat,
                    old(self).spec_config().hop_size as nat,
                )
                &&& plan.target_length > 0
                &&& final(self).spec_template_rows() == Some(plan.target_length)
            },
    {
        proof {
            use_type_invariant(&*self);
        }
        match plan_training(sample_lengths, self.config.frame_size, self.config.hop_size) {
            Ok(plan) => {
                self.template_rows = Some(plan.target_length);
                Ok(plan)
            },
            Err(error) => Err(error),
        }
    }
}

impl Default for WakeWordDetector {
    fn default() -> (detector: Self)
        ensures
            detector.spec_config() == MfccConfig::standard(),
            detector.spec_template_rows().is_none(),
    {
        WakeWordDetector::new()
    }
}

} // verus!
