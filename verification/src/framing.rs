//! Cutting audio into overlapping analysis frames.

use vstd::prelude::*;

verus! {

/// Number of whole frames of `frame_size` samples, `hop_size` apart, that
/// `audio_len` samples hold: none when the audio is shorter than one frame.
pub open spec fn frame_count_of(audio_len: nat, frame_size: nat, hop_size: nat) -> nat {
    if audio_len < frame_size {
        0
    } else {
        ((audio_len - frame_size) / (hop_size as int) + 1) as nat
    }
}

/// Every counted frame lies inside the audio, and one more would not.
pub proof fn lemma_frames_tile(audio_len: nat, frame_size: nat, hop_size: nat)
    requires
        hop_size > 0,
        audio_len >= frame_size,
    ensures
        forall|f: nat|
            f < frame_count_of(audio_len, frame_size, hop_size) ==> #[trigger] (f * hop_size)
                + frame_size <= audio_len,
        frame_count_of(audio_len, frame_size, hop_size) * hop_size + frame_size > audio_len,
{
    let span: int = audio_len - frame_size;
    let hop: int = hop_size as int;
    let last: int = span / hop;
    vstd::arithmetic::div_mod::lemma_fundamental_div_mod(span, hop);
    vstd::arithmetic::div_mod::lemma_mod_bound(span, hop);
    assert(hop * last <= span && span < hop * last + hop) by (nonlinear_arith)
        requires
            span == hop * last + span % hop,
            0 <= span % hop < hop,
    ;
    assert((last + 1) * hop == hop * last + hop) by (nonlinear_arith);
    assert forall|f: nat| f < frame_count_of(audio_len, frame_size, hop_size) implies #[trigger] (f
        * hop_size) + frame_size <= audio_len by {
        assert(f * hop_size <= hop * last) by (nonlinear_arith)
            requires
                f <= last,
                hop == hop_size,
                hop > 0,
        ;
    }
}

/// When the hop is no longer than a frame, the frames leave no gap: every
/// sample before the end of the last frame lies in some frame, and here is
/// one.
pub proof fn lemma_frames_cover(audio_len: nat, frame_size: nat, hop_size: nat, sample: nat) -> (f:
    nat)
    requires
        0 < hop_size <= frame_size,
        audio_len >= frame_size,
        sample < (frame_count_of(audio_len, frame_size, hop_size) - 1) * hop_size + frame_size,
    ensures
        f < frame_count_of(audio_len, frame_size, hop_size),
        f * hop_size <= sample < f * hop_size + frame_size,
{
    let count = frame_count_of(audio_len, frame_size, hop_size);
    let hop: int = hop_size as int;
    let at: int = sample as int;
    let reached: int = at / hop;
    let rest: int = at % hop;
    vstd::arithmetic::div_mod::lemma_fundamental_div_mod(at, hop);
    vstd::arithmetic::div_mod::lemma_mod_bound(at, hop);
    vstd::arithmetic::div_mod::lemma_div_pos_is_pos(at, hop);
    vstd::arithmetic::div_mod::lemma_div_pos_is_pos(audio_len - frame_size, hop);
    let f: nat = if reached < count {
        reached as nat
    } else {
        (count - 1) as nat
    };
    assert(f * hop_size <= sample < f * hop_size + frame_size) by (nonlinear_arith)
        requires
            at == hop * reached + rest,
            0 <= rest < hop,
            at == sample,
            hop == hop_size,
            hop <= frame_size,
            0 <= reached,
            f == reached || (f == count - 1 && f < reached),
            sample < (count - 1) * hop_size + frame_size,
    ;
    f
}

/// Longer audio never yields fewer frames.
pub proof fn lemma_frame_count_monotonic(shorter: nat, longer: nat, frame_size: nat, hop_size: nat)
    requires
        hop_size > 0,
        shorter <= longer,
    ensures
        frame_count_of(shorter, frame_size, hop_size) <= frame_count_of(
            longer,
            frame_size,
            hop_size,
        ),
{
    if shorter >= frame_size {
        vstd::arithmetic::div_mod::lemma_div_is_ordered(
            shorter - frame_size,
            longer - frame_size,
            hop_size as int,
        );
    }
}

/// Counts the frames in `audio_len` samples.
pub fn frame_count(audio_len: usize, frame_size: usize, hop_size: usize) -> (count: usize)
    requires
        frame_size > 0,
        hop_size > 0,
    ensures
        count == frame_count_of(audio_len as nat, frame_size as nat, hop_size as nat),
{
    if audio_len < frame_size {
        0
    } else {
        let span: usize = audio_len - frame_size;
        assert(span / hop_size <= span) by {
            vstd::arithmetic::div_mod::lemma_div_is_ordered_by_denominator(
                span as int,
                1,
                hop_size as int,
            );
            vstd::arithmetic::div_mod::lemma_div_basics(span as int);
        }
        span / hop_size + 1
    }
}

/// Shape of the feature matrix that a buffer of audio yields, and where in
/// the audio each of its rows comes from: one row per frame, one column per
/// cepstral coefficient.
#[derive(Debug, Clone, Copy)]
pub struct FeatureLayout {
    audio_len: usize,
    frame_size: usize,
    hop_size: usize,
    rows: usize,
    cols: usize,
}

impl FeatureLayout {
    #[verifier::type_invariant]
    spec fn well_formed(self) -> bool {
        &&& self.frame_size > 0
        &&& self.hop_size > 0
        &&& self.rows == frame_count_of(
            self.audio_len as nat,
            self.frame_size as nat,
            self.hop_size as nat,
        )
    }

    /// Length of the audio that was laid out.
    pub closed spec fn spec_audio_len(&self) -> usize {
        self.audio_len
    }

    /// Samples per frame.
    pub closed spec fn spec_frame_size(&self) -> usize {
        self.frame_size
    }

    /// Samples between frame starts.
    pub closed spec fn spec_hop_size(&self) -> usize {
        self.hop_size
    }

    /// Number of rows.
    pub closed spec fn spec_nrows(&self) -> usize {
        self.rows
    }

    /// Number of columns.
    pub closed spec fn spec_ncols(&self) -> usize {
        self.cols
    }

    /// Lays out `audio_len` samples in frames of `frame_size`, `hop_size`
    /// apart, with `num_mfcc` coefficients to each frame.
    pub fn new(audio_len: usize, frame_size: usize, hop_size: usize, num_mfcc: usize) -> (layout:
        Self)
        requires
            frame_size > 0,
            hop_size > 0,
        ensures
            layout.spec_audio_len() == audio_len,
            layout.spec_frame_size() == frame_size,
            layout.spec_hop_size() == hop_size,
            layout.spec_nrows() == frame_count_of(
                audio_len as nat,
                frame_size as nat,
                hop_size as nat,
            ),
            layout.spec_ncols() == num_mfcc,
    {
        FeatureLayout {
            audio_len,
            frame_size,
            hop_size,
            rows: frame_count(audio_len, frame_size, hop_size),
            cols: num_mfcc,
        }
    }

    /// Number of rows, one per frame: `(audio_len - frame_size) / hop_size + 1`,
    /// or none when the audio is shorter than a frame.
    #[verifier::when_used_as_spec(spec_nrows)]
    pub fn nrows(&self) -> (rows: usize)
        ensures
            rows == self.spec_nrows(),
            rows == frame_count_of(
                self.spec_audio_len() as nat,
                self.spec_frame_size() as nat,
                self.spec_hop_size() as nat,
            ),
    {
        proof {
            use_type_invariant(self);
        }
        self.rows
    }

    /// Number of columns, one per coefficient.
    #[verifier::when_used_as_spec(spec_ncols)]
    pub fn ncols(&self) -> (cols: usize)
        ensures
            cols == self.spec_ncols(),
    {
        self.cols
    }

    /// The half-open range of samples that row `index` is computed from,
    /// which lies inside the audio; `None` when there is no such row.
    pub fn frame_range(&self, index: usize) -> (range: Option<(usize, usize)>)
        ensures
            index >= self.spec_nrows() ==> range.is_none(),
            index < self.spec_nrows() ==> range == Some(
                (
                    (index * self.spec_hop_size()) as usize,
                    (index * self.spec_hop_size() + self.spec_frame_size()) as usize,
                ),
            ),
            index < self.spec_nrows() ==> index * self.spec_hop_size() + self.spec_frame_size()
                <= self.spec_audio_len(),
    {
        proof {
            use_type_invariant(self);
        }
        if index >= self.rows {
            return None;
        }
        proof {
            lemma_frames_tile(self.audio_len as nat, self.frame_size as nat, self.hop_size as nat);
            assert((index as nat) * (self.hop_size as nat) + self.frame_size <= self.audio_len);
        }
        let start: usize = index * self.hop_size;
        Some((start, start + self.frame_size))
    }
}

} // verus!
