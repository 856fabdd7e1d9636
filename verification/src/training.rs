//! Planning the training of a template from several recordings.
//!
//! A template has as many rows as the median recording has frames.  Every
//! recording that holds at least one frame takes part; its feature rows are
//! stretched or squeezed to the template's length by nearest-row lookup, and
//! the caller averages what the plan lines up.

use crate::framing::{frame_count, frame_count_of};
use vstd::prelude::*;
use vstd::relations::{sorted_by, total_ordering};
use vstd::seq_lib::{
    group_to_multiset_ensures, lemma_sorted_unique, to_multiset_build, to_multiset_insert,
};

verus! {

/// Why no template could be trained.
#[derive(Debug, Clone, Copy, PartialEq, Eq, Structural)]
pub enum TrainError {
    /// No recording was supplied.
    EmptyInput,
    /// Every recording was shorter than one analysis frame.
    NoValidSamples,
}

/// The order in which row counts are ranked.
pub open spec fn ascending() -> spec_fn(usize, usize) -> bool {
    |a: usize, b: usize| a <= b
}

/// The upper median: the element in the middle of the sorted sequence, the
/// later of the two middle ones when the length is even.
pub open spec fn median_of(lengths: Seq<usize>) -> usize
    recommends
        lengths.len() > 0,
{
    lengths.sort_by(ascending())[lengths.len() as int / 2]
}

/// Row of a `source_rows`-row matrix that row `index` of a `target_len`-row
/// resampling copies: `index * (source_rows - 1) / (target_len - 1)` rounded
/// to the nearest row, halves upward, and never past the last row.  A
/// one-row target copies the first row.
pub open spec fn resample_index_of(index: nat, source_rows: nat, target_len: nat) -> nat {
    if target_len <= 1 || source_rows == 0 {
        0
    } else {
        let rounded = (2 * index * (source_rows - 1) + (target_len - 1)) / (2 * (target_len - 1));
        if rounded < source_rows {
            rounded as nat
        } else {
            (source_rows - 1) as nat
        }
    }
}

/// Rounding `scaled / span` to the nearest whole number, halves upward, is
/// the truncated quotient plus one exactly when the remainder is at least
/// half of `span`.
proof fn lemma_round_by_remainder(scaled: int, span: int)
    requires
        scaled >= 0,
        span > 0,
    ensures
        (2 * scaled + span) / (2 * span) == scaled / span + if 2 * (scaled % span) >= span {
            1int
        } else {
            0int
        },
{
    let whole = scaled / span;
    let rest = scaled % span;
    vstd::arithmetic::div_mod::lemma_fundamental_div_mod(scaled, span);
    vstd::arithmetic::div_mod::lemma_mod_bound(scaled, span);
    if 2 * rest >= span {
        assert(2 * scaled + span == (whole + 1) * (2 * span) + (2 * rest - span))
            by (nonlinear_arith)
            requires
                scaled == span * whole + rest,
        ;
        vstd::arithmetic::div_mod::lemma_fundamental_div_mod_converse(
            2 * scaled + span,
            2 * span,
            whole + 1,
            2 * rest - span,
        );
    } else {
        assert(2 * scaled + span == whole * (2 * span) + (2 * rest + span)) by (nonlinear_arith)
            requires
                scaled == span * whole + rest,
        ;
        vstd::arithmetic::div_mod::lemma_fundamental_div_mod_converse(
            2 * scaled + span,
            2 * span,
            whole,
            2 * rest + span,
        );
    }
}

/// Finds the source row that a row of the resampling copies.
pub fn resample_index(index: usize, source_rows: usize, target_len: usize) -> (row: usize)
    ensures
        row == resample_index_of(index as nat, source_rows as nat, target_len as nat),
        source_rows > 0 ==> row < source_rows,
{
    if target_len <= 1 || source_rows == 0 {
        return 0;
    }
    let span: u128 = (target_len - 1) as u128;
    let last: u128 = (source_rows - 1) as u128;
    assert((index as u128) * last <= 0xffff_ffff_ffff_ffff * 0xffff_ffff_ffff_ffff)
        by (nonlinear_arith)
        requires
            index <= 0xffff_ffff_ffff_ffff,
            last <= 0xffff_ffff_ffff_ffff,
    ;
    let scaled: u128 = (index as u128) * last;
    let whole: u128 = scaled / span;
    let rest: u128 = scaled % span;
    proof {
        lemma_round_by_remainder(scaled as int, span as int);
        vstd::arithmetic::div_mod::lemma_div_is_ordered_by_denominator(
            scaled as int,
            1,
            span as int,
        );
        vstd::arithmetic::div_mod::lemma_div_basics(scaled as int);
        assert(scaled as int == index as nat * (source_rows as nat - 1)) by (nonlinear_arith)
            requires
                scaled == (index as u128) * last,
                last == source_rows - 1,
        ;
        assert(2 * (index as nat) * (source_rows as nat - 1) == 2 * (scaled as int))
            by (nonlinear_arith)
            requires
                scaled as int == index as nat * (source_rows as nat - 1),
        ;
    }
    let rounded: u128 = if rest >= span - rest {
        whole + 1
    } else {
        whole
    };
    if rounded < source_rows as u128 {
        rounded as usize
    } else {
        source_rows - 1
    }
}

/// The first row of a resampling copies the first source row, and the last
/// row of one with at least two rows copies the last source row.
pub proof fn lemma_resample_endpoints(source_rows: nat, target_len: nat)
    requires
        source_rows > 0,
    ensures
        resample_index_of(0, source_rows, target_len) == 0,
        target_len >= 2 ==> resample_index_of((target_len - 1) as nat, source_rows, target_len)
            == source_rows - 1,
{
    if target_len >= 2 {
        let span: int = target_len - 1;
        let last: int = source_rows - 1;
        assert(2 * 0 * last + span == span) by (nonlinear_arith);
        assert(span / (2 * span) == 0) by {
            vstd::arithmetic::div_mod::lemma_fundamental_div_mod_converse(
                span,
                2 * span,
                0,
                span,
            );
        }
        assert(2 * span * last + span == last * (2 * span) + span) by (nonlinear_arith);
        vstd::arithmetic::div_mod::lemma_fundamental_div_mod_converse(
            2 * span * last + span,
            2 * span,
            last,
            span,
        );
    }
}

/// Resampling to the source's own length copies every row to its own place.
pub proof fn lemma_resample_same_length(index: nat, rows: nat)
    requires
        index < rows,
    ensures
        resample_index_of(index, rows, rows) == index,
{
    if rows >= 2 {
        let span: int = rows - 1;
        assert(2 * index * span + span == index * (2 * span) + span) by (nonlinear_arith);
        vstd::arithmetic::div_mod::lemma_fundamental_div_mod_converse(
            2 * index * span + span,
            2 * span,
            index as int,
            span,
        );
    }
}

/// Later rows of a resampling never copy earlier source rows.
pub proof fn lemma_resample_monotonic(earlier: nat, later: nat, source_rows: nat, target_len: nat)
    requires
        earlier <= later,
    ensures
        resample_index_of(earlier, source_rows, target_len) <= resample_index_of(
            later,
            source_rows,
            target_len,
        ),
{
    if target_len >= 2 && source_rows > 0 {
        let span: int = target_len - 1;
        let last: int = source_rows - 1;
        assert(2 * earlier * last + span <= 2 * later * last + span) by (nonlinear_arith)
            requires
                earlier <= later,
                last >= 0,
        ;
        vstd::arithmetic::div_mod::lemma_div_is_ordered(
            2 * earlier * last + span,
            2 * later * last + span,
            2 * span,
        );
    }
}

/// Ranking by `<=` is a total order.
pub proof fn lemma_ascending_is_total()
    ensures
        total_ordering(ascending()),
{
}

/// Copies `values` into ascending order.
fn sorted_copy(values: &Vec<usize>) -> (sorted: Vec<usize>)
    ensures
        sorted@ == values@.sort_by(ascending()),
{
    broadcast use group_to_multiset_ensures;

    let mut sorted: Vec<usize> = Vec::new();
    let mut taken: usize = 0;
    assert(values@.take(0) =~= Seq::<usize>::empty());
    while taken < values.len()
        invariant
            taken <= values.len(),
            sorted_by(sorted@, ascending()),
            sorted@.to_multiset() == values@.take(taken as int).to_multiset(),
        decreases values.len() - taken,
    {
        let value: usize = values[taken];
        let mut place: usize = 0;
        while place < sorted.len() && sorted[place] <= value
            invariant
                place <= sorted.len(),
                forall|j: int| 0 <= j < place ==> sorted@[j] <= value,
            decreases sorted.len() - place,
        {
            place += 1;
        }
        let ghost before = sorted@;
        sorted.insert(place, value);
        proof {
            assert(sorted@ == before.insert(place as int, value));
            assert(sorted_by(sorted@, ascending())) by {
                assert forall|i: int, j: int| 0 <= i < j < sorted@.len() implies #[trigger] ascending()(
                    sorted@[i],
                    sorted@[j],
                ) by {
                    if j < place {
                        assert(ascending()(before[i], before[j]));
                    } else if j == place {
                    } else if i < place {
                        assert(ascending()(before[i], before[j - 1]));
                    } else if i == place {
                        assert(ascending()(before[place as int], before[j - 1]));
                    } else {
                        assert(ascending()(before[i - 1], before[j - 1]));
                    }
                }
            }
            assert(values@.take(taken + 1) =~= values@.take(taken as int).push(value));
            to_multiset_insert(before, place as int, value);
            to_multiset_build(values@.take(taken as int), value);
        }
        taken += 1;
    }
    proof {
        assert(values@.take(taken as int) =~= values@);
        lemma_ascending_is_total();
        values@.lemma_sort_by_ensures(ascending());
        lemma_sorted_unique(sorted@, values@.sort_by(ascending()), ascending());
    }
    sorted
}

/// Finds the upper median of a non-empty list of row counts.
pub fn median_length(lengths: &Vec<usize>) -> (median: usize)
    requires
        lengths.len() > 0,
    ensures
        median == median_of(lengths@),
        lengths@.contains(median),
{
    let sorted: Vec<usize> = sorted_copy(lengths);
    proof {
        broadcast use group_to_multiset_ensures;

        lemma_ascending_is_total();
        lengths@.lemma_sort_by_ensures(ascending());
        assert(sorted@.len() == lengths@.len()) by {
            assert(sorted@.to_multiset().len() == lengths@.to_multiset().len());
        }
        lemma_median_is_member(lengths@);
    }
    sorted[sorted.len() / 2]
}

/// The median is one of the ranked values.
pub proof fn lemma_median_is_member(lengths: Seq<usize>)
    requires
        lengths.len() > 0,
    ensures
        lengths.contains(median_of(lengths)),
{
    broadcast use group_to_multiset_ensures;

    lemma_ascending_is_total();
    lengths.lemma_sort_by_ensures(ascending());
    let sorted = lengths.sort_by(ascending());
    assert(sorted.len() == lengths.len()) by {
        assert(sorted.to_multiset().len() == lengths.to_multiset().len());
    }
    let middle = lengths.len() as int / 2;
    assert(sorted.contains(sorted[middle]));
}

/// When every ranked value is the same, that value is the median.
pub proof fn lemma_median_of_equal_lengths(lengths: Seq<usize>, common: usize)
    requires
        lengths.len() > 0,
        forall|k: int| 0 <= k < lengths.len() ==> lengths[k] == common,
    ensures
        median_of(lengths) == common,
{
    lemma_median_is_member(lengths);
    let at = lengths.index_of(median_of(lengths));
    assert(lengths[at] == common);
}

/// Which recordings train the template, and how long it becomes.
#[derive(Debug)]
pub struct TrainingPlan {
    /// Positions, in the order given, of the recordings that hold at least
    /// one frame.
    pub samples: Vec<usize>,
    /// Number of feature rows of each such recording.
    pub rows: Vec<usize>,
    /// Number of rows of the template: the median of `rows`.
    pub target_length: usize,
}

impl TrainingPlan {
    /// Tells whether this is the plan for recordings of the given lengths:
    /// it lists, in order, all and only the recordings with at least one
    /// frame, beside their frame counts, and aims at the median count.
    pub open spec fn plans(&self, lengths: Seq<usize>, frame_size: nat, hop_size: nat) -> bool {
        &&& self.samples@.len() == self.rows@.len()
        &&& self.samples@.len() > 0
        &&& forall|p: int, q: int|
            0 <= p < q < self.samples@.len() ==> #[trigger] self.samples@[p]
                < #[trigger] self.samples@[q]
        &&& forall|p: int|
            0 <= p < self.samples@.len() ==> {
                &&& (#[trigger] self.samples@[p]) < lengths.len()
                &&& self.rows@[p] > 0
                &&& self.rows@[p] == frame_count_of(
                    lengths[self.samples@[p] as int] as nat,
                    frame_size,
                    hop_size,
                )
            }
        &&& forall|k: int|
            0 <= k < lengths.len() && frame_count_of(
                #[trigger] lengths[k] as nat,
                frame_size,
                hop_size,
            ) > 0 ==> self.samples@.contains(k as usize)
        &&& self.target_length == median_of(self.rows@)
    }

    /// Number of recordings that take part: what the summed rows are divided by.
    pub fn count(&self) -> (count: usize)
        ensures
            count == self.samples@.len(),
    {
        self.samples.len()
    }

    /// Row of participant `sample` that is added into template row `index`;
    /// `None` when the plan has no such participant or the template no such row.
    pub fn source_row(&self, sample: usize, index: usize) -> (row: Option<usize>)
        ensures
            sample < self.rows@.len() && index < self.target_length ==> row == Some(
                resample_index_of(
                    index as nat,
                    self.rows@[sample as int] as nat,
                    self.target_length as nat,
                ) as usize,
            ),
            !(sample < self.rows@.len() && index < self.target_length) ==> row.is_none(),
    {
        if sample < self.rows.len() && index < self.target_length {
            Some(resample_index(index, self.rows[sample], self.target_length))
        } else {
            None
        }
    }
}

/// Plans the training of a template from recordings of the given lengths, in
/// samples.
pub fn plan_training(sample_lengths: &Vec<usize>, frame_size: usize, hop_size: usize) -> (outcome:
    Result<TrainingPlan, TrainError>)
    requires
        frame_size > 0,
        hop_size > 0,
    ensures
        (outcome matches Err(TrainError::EmptyInput)) <==> sample_lengths@.len() == 0,
        (outcome matches Err(TrainError::NoValidSamples)) <==> {
            &&& sample_lengths@.len() > 0
            &&& forall|k: int|
                0 <= k < sample_lengths@.len() ==> frame_count_of(
                    #[trigger] sample_lengths@[k] as nat,
                    frame_size as nat,
                    hop_size as nat,
                ) == 0
        },
        outcome matches Ok(plan) ==> plan.plans(
            sample_lengths@,
            frame_size as nat,
            hop_size as nat,
        ) && plan.target_length > 0,
{
    if sample_lengths.len() == 0 {
        return Err(TrainError::EmptyInput);
    }
    let mut samples: Vec<usize> = Vec::new();
    let mut rows: Vec<usize> = Vec::new();
    let mut next: usize = 0;
    while next < sample_lengths.len()
        invariant
            frame_size > 0,
            hop_size > 0,
            next <= sample_lengths.len(),
            samples@.len() == rows@.len(),
            forall|p: int, q: int|
                0 <= p < q < samples@.len() ==> #[trigger] samples@[p] < #[trigger] samples@[q],
            forall|p: int|
                0 <= p < samples@.len() ==> {
                    &&& (#[trigger] samples@[p]) < next
                    &&& rows@[p] > 0
                    &&& rows@[p] == frame_count_of(
                        sample_lengths@[samples@[p] as int] as nat,
                        frame_size as nat,
                        hop_size as nat,
                    )
                },
            forall|k: int|
                0 <= k < next && frame_count_of(
                    #[trigger] sample_lengths@[k] as nat,
                    frame_size as nat,
                    hop_size as nat,
                ) > 0 ==> samples@.contains(k as usize),
        decreases sample_lengths.len() - next,
    {
        let frames: usize = frame_count(sample_lengths[next], frame_size, hop_size);
        if frames > 0 {
            let ghost listed = samples@;
            samples.push(next);
            rows.push(frames);
            proof {
                assert forall|k: int|
                    0 <= k < next + 1 && frame_count_of(
                        #[trigger] sample_lengths@[k] as nat,
                        frame_size as nat,
                        hop_size as nat,
                    ) > 0 implies samples@.contains(k as usize) by {
                    if k < next {
                        let p = listed.index_of(k as usize);
                        assert(samples@[p] == k as usize);
                    } else {
                        assert(samples@[samples@.len() - 1] == k as usize);
                    }
                }
            }
        }
        next += 1;
    }
    if samples.len() == 0 {
        proof {
            assert forall|k: int| 0 <= k < sample_lengths@.len() implies frame_count_of(
                #[trigger] sample_lengths@[k] as nat,
                frame_size as nat,
                hop_size as nat,
            ) == 0 by {
                if frame_count_of(sample_lengths@[k] as nat, frame_size as nat, hop_size as nat)
                    > 0 {
                    assert(samples@.contains(k as usize));
                }
            }
        }
        return Err(TrainError::NoValidSamples);
    }
    let target_length: usize = median_length(&rows);
    let plan = TrainingPlan { samples, rows, target_length };
    proof {
        let middle = plan.rows@.index_of(target_length);
        assert(plan.samples@[middle] < next);
        let first = plan.samples@[0];
        assert(frame_count_of(
            sample_lengths@[first as int] as nat,
            frame_size as nat,
            hop_size as nat,
        ) > 0);
    }
    Ok(plan)
}

/// In an ascending list of positions below `total` that misses none of
/// them, position `at` stands at place `at`.
proof fn lemma_full_listing_place(listed: Seq<usize>, total: nat, at: usize)
    requires
        forall|p: int, q: int|
            0 <= p < q < listed.len() ==> #[trigger] listed[p] < #[trigger] listed[q],
        forall|p: int| 0 <= p < listed.len() ==> #[trigger] listed[p] < total,
        forall|k: usize| k < total ==> #[trigger] listed.contains(k),
        at < total,
    ensures
        at < listed.len(),
        listed[at as int] == at,
    decreases at,
{
    assert(listed.contains(at));
    let place = listed.index_of(at);
    if place < at {
        lemma_full_listing_place(listed, total, place as usize);
    } else if place > at {
        let found = listed[at as int];
        assert(found < listed[place]);
        lemma_full_listing_place(listed, total, found);
        assert(listed[found as int] < listed[at as int]);
    }
}

/// Recordings of one length train as one of them would alone: all of them
/// take part, the template is as long as the features of each, and template
/// row `index` is fed by row `index` of every one.
pub proof fn lemma_equal_recordings_keep_rows(
    plan: TrainingPlan,
    lengths: Seq<usize>,
    common: usize,
    frame_size: nat,
    hop_size: nat,
)
    requires
        lengths.len() <= usize::MAX,
        plan.plans(lengths, frame_size, hop_size),
        forall|k: int| 0 <= k < lengths.len() ==> #[trigger] lengths[k] == common,
    ensures
        plan.samples@.len() == lengths.len(),
        forall|p: int| 0 <= p < plan.samples@.len() ==> #[trigger] plan.samples@[p] == p,
        plan.target_length == frame_count_of(common as nat, frame_size, hop_size),
        forall|p: int, index: nat|
            0 <= p < plan.rows@.len() && index < plan.target_length ==> #[trigger] resample_index_of(
                index,
                plan.rows@[p] as nat,
                plan.target_length as nat,
            ) == index,
{
    let frames = frame_count_of(common as nat, frame_size, hop_size);
    let first = plan.samples@[0];
    assert(lengths[first as int] == common);
    assert(frames > 0);
    assert forall|k: usize| k < lengths.len() implies #[trigger] plan.samples@.contains(k) by {
        assert(lengths[k as int] == common);
    }
    assert forall|p: int| 0 <= p < plan.rows@.len() implies #[trigger] plan.rows@[p]
        == frames by {
        assert(lengths[plan.samples@[p] as int] == common);
    }
    lemma_median_of_equal_lengths(plan.rows@, frames as usize);
    if lengths.len() > 0 {
        lemma_full_listing_place(plan.samples@, lengths.len(), (lengths.len() - 1) as usize);
    }
    assert forall|p: int| 0 <= p < plan.samples@.len() implies #[trigger] plan.samples@[p]
        == p by {
        lemma_full_listing_place(plan.samples@, lengths.len(), plan.samples@[p]);
        let value = plan.samples@[p] as int;
        if value < p {
            assert(plan.samples@[value] < plan.samples@[p]);
        } else if value > p {
            assert(plan.samples@[p] < plan.samples@[value]);
        }
    }
    if plan.samples@.len() > lengths.len() {
        let beyond = lengths.len() as int;
        assert(plan.samples@[beyond] == beyond);
    }
    assert forall|p: int, index: nat|
        0 <= p < plan.rows@.len() && index < plan.target_length implies #[trigger] resample_index_of(
        index,
        plan.rows@[p] as nat,
        plan.target_length as nat,
    ) == index by {
        assert(plan.rows@[p] == frames);
        lemma_resample_same_length(index, frames);
    }
}

/// A recording that trains alone keeps every one of its rows in place: the
/// template is as long as the recording's features, and template row `index`
/// is fed by feature row `index`.
pub proof fn lemma_single_recording_keeps_rows(
    plan: TrainingPlan,
    length: usize,
    frame_size: nat,
    hop_size: nat,
)
    requires
        plan.plans(seq![length], frame_size, hop_size),
    ensures
        plan.samples@ == seq![0usize],
        plan.rows@ == seq![plan.target_length],
        plan.target_length == frame_count_of(length as nat, frame_size, hop_size),
        forall|index: nat|
            index < plan.target_length ==> #[trigger] resample_index_of(
                index,
                plan.rows@[0] as nat,
                plan.target_length as nat,
            ) == index,
{
    lemma_equal_recordings_keep_rows(plan, seq![length], length, frame_size, hop_size);
    assert(plan.samples@[0] == 0);
    assert(plan.samples@ =~= seq![0usize]);
    assert(plan.rows@ =~= seq![plan.target_length]);
}

} // verus!
