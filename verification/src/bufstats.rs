//! Chosen statistics of a window of a channel-major buffer.
//!
//! A window is a range of frames of a range of channels. The engine computes
//! all seven statistics of every derivative order for the window; of each
//! block of seven, the output keeps those that the selection names, in their
//! fixed order.

use vstd::prelude::*;
use vstd::slice::slice_subrange;
use crate::binary64::{Real, FIFTY, HUNDRED, MINUS_ONE, ZERO};
use crate::error::Error;
use crate::matrix::{
    append_range,
    copy_of,
    holds_shape,
    join_rows,
    lemma_channel_bounds,
    lemma_join_consecutive,
    lemma_join_rows_index,
    lemma_join_rows_len,
    zero_buffer,
    zeros,
};
use crate::multi_stats::{
    full_width,
    has_positive,
    settings_fault,
    some_positive,
    validate_settings,
    weights_of,
    StatsCall,
    STATS_PER_DERIVATIVE,
};

verus! {

/// The statistics of one derivative order, in the order in which the engine
/// gives them.
#[derive(Debug, Clone, Copy, PartialEq, Eq, Structural)]
pub enum BufStat {
    Mean,
    Std,
    Skew,
    Kurtosis,
    Low,
    Mid,
    High,
}

impl BufStat {
    /// The place of this statistic in a block of seven.
    pub open spec fn slot(self) -> int {
        match self {
            BufStat::Mean => 0,
            BufStat::Std => 1,
            BufStat::Skew => 2,
            BufStat::Kurtosis => 3,
            BufStat::Low => 4,
            BufStat::Mid => 5,
            BufStat::High => 6,
        }
    }

    /// The place of this statistic in a block of seven.
    pub fn index(self) -> (i: usize)
        ensures
            i == self.slot(),
            i < STATS_PER_DERIVATIVE,
    {
        match self {
            BufStat::Mean => 0,
            BufStat::Std => 1,
            BufStat::Skew => 2,
            BufStat::Kurtosis => 3,
            BufStat::Low => 4,
            BufStat::Mid => 5,
            BufStat::High => 6,
        }
    }
}

/// The number of chosen places among the first `n` of a mask.
pub open spec fn count_chosen(mask: Seq<bool>, n: nat) -> nat
    decreases n,
{
    if n == 0 {
        0
    } else if mask[n - 1] {
        count_chosen(mask, (n - 1) as nat) + 1
    } else {
        count_chosen(mask, (n - 1) as nat)
    }
}

/// Of the first `n` values of a block, those at the chosen places, in the
/// order of the block.
pub open spec fn chosen(block: Seq<Real>, mask: Seq<bool>, n: nat) -> Seq<Real>
    decreases n,
{
    if n == 0 {
        Seq::empty()
    } else if mask[n - 1] {
        chosen(block, mask, (n - 1) as nat).push(block[n - 1])
    } else {
        chosen(block, mask, (n - 1) as nat)
    }
}

/// As many values are kept as places are chosen, whatever the block holds.
pub proof fn lemma_chosen_len(block: Seq<Real>, mask: Seq<bool>, n: nat)
    ensures
        chosen(block, mask, n).len() == count_chosen(mask, n),
        count_chosen(mask, n) <= n,
    decreases n,
{
    if n > 0 {
        lemma_chosen_len(block, mask, (n - 1) as nat);
    }
}

/// Which of the seven statistics the output keeps.
#[derive(Debug, Clone, Copy, PartialEq, Eq)]
pub struct BufStatsSelect {
    mask: [bool; 7],
}

impl View for BufStatsSelect {
    type V = Seq<bool>;

    /// Seven flags, one for each statistic, in the fixed order.
    closed spec fn view(&self) -> Seq<bool> {
        self.mask@
    }
}

impl BufStatsSelect {
    /// Whether `stat` is kept.
    pub open spec fn contains(&self, stat: BufStat) -> bool {
        self@[stat.slot()]
    }

    /// The number of statistics that are kept.
    pub open spec fn count(&self) -> nat {
        count_chosen(self@, STATS_PER_DERIVATIVE as nat)
    }

    /// Keeps all seven statistics.
    pub fn all() -> (s: Self)
        ensures
            s@.len() == STATS_PER_DERIVATIVE,
            forall|i: int| 0 <= i < STATS_PER_DERIVATIVE ==> s@[i],
            s.count() == STATS_PER_DERIVATIVE,
    {
        let s = BufStatsSelect { mask: [true; 7] };
        proof {
            reveal_with_fuel(count_chosen, 8);
        }
        s
    }

    /// Keeps the statistics that `stats` lists, and no other. Order and
    /// repetition in the list do not matter.
    pub fn from_stats(stats: &[BufStat]) -> (s: Self)
        ensures
            s@.len() == STATS_PER_DERIVATIVE,
            forall|i: int|
                0 <= i < STATS_PER_DERIVATIVE ==> (s@[i] <==> exists|k: int|
                    0 <= k < stats@.len() && (#[trigger] stats@[k]).slot() == i),
    {
        let mut mask: [bool; 7] = [false; 7];
        let mut n: usize = 0;
        while n < stats.len()
            invariant
                n <= stats@.len(),
                forall|i: int|
                    0 <= i < 7 ==> (mask@[i] <==> exists|k: int|
                        0 <= k < n && (#[trigger] stats@[k]).slot() == i),
            decreases stats@.len() - n,
        {
            let slot: usize = stats[n].index();
            let ghost before = mask@;
            mask[slot] = true;
            proof {
                assert forall|i: int| 0 <= i < 7 implies (mask@[i] <==> exists|k: int|
                    0 <= k < n + 1 && (#[trigger] stats@[k]).slot() == i) by {
                    if i == slot {
                        assert(stats@[n as int].slot() == i);
                    } else if mask@[i] {
                        assert(before[i]);
                    }
                }
            }
            n = n + 1;
        }
        BufStatsSelect { mask }
    }

    /// The number of statistics that are kept.
    pub fn selected_count(&self) -> (n: usize)
        ensures
            n == self.count(),
            n <= STATS_PER_DERIVATIVE,
    {
        let mut n: usize = 0;
        let mut i: usize = 0;
        while i < 7
            invariant
                i <= 7,
                n == count_chosen(self.mask@, i as nat),
                n <= i,
            decreases 7 - i,
        {
            if self.mask[i] {
                n = n + 1;
            }
            i = i + 1;
        }
        n
    }

    /// Tells whether the statistic at place `slot` is kept.
    pub fn keeps(&self, slot: usize) -> (r: bool)
        requires
            slot < STATS_PER_DERIVATIVE,
        ensures
            r == self@[slot as int],
    {
        self.mask[slot]
    }
}

impl Default for BufStatsSelect {
    /// Keeps all seven statistics.
    fn default() -> (s: Self)
        ensures
            s@.len() == STATS_PER_DERIVATIVE,
            forall|i: int| 0 <= i < STATS_PER_DERIVATIVE ==> s@[i],
            s.count() == STATS_PER_DERIVATIVE,
    {
        BufStatsSelect::all()
    }
}

/// Settings of [`BufStats`].
#[derive(Debug, Clone, Copy)]
pub struct BufStatsConfig {
    /// The first frame of the window.
    pub start_frame: usize,
    /// The number of frames of the window; `None` takes all that follow
    /// `start_frame`.
    pub num_frames: Option<usize>,
    /// The first channel of the window.
    pub start_channel: usize,
    /// The number of channels of the window; `None` takes all that follow
    /// `start_channel`.
    pub num_channels: Option<usize>,
    pub select: BufStatsSelect,
    pub num_derivatives: u8,
    pub low_percentile: Real,
    pub middle_percentile: Real,
    pub high_percentile: Real,
    pub outliers_cutoff: Option<Real>,
}

impl BufStatsConfig {
    /// The first rule, if any, that these settings break.
    pub open spec fn fault(self) -> Option<Error> {
        settings_fault(
            self.num_derivatives,
            self.low_percentile,
            self.middle_percentile,
            self.high_percentile,
        )
    }

    /// The cutoff that the engine is given.
    pub open spec fn cutoff(self) -> Real {
        match self.outliers_cutoff {
            Some(c) => c,
            None => MINUS_ONE,
        }
    }

    /// The number of frames of the window, in a source of `source_frames`
    /// frames.
    pub open spec fn frame_span(self, source_frames: int) -> int {
        match self.num_frames {
            Some(n) => n as int,
            None => if source_frames >= self.start_frame {
                source_frames - self.start_frame
            } else {
                0
            },
        }
    }

    /// The number of channels of the window, in a source of
    /// `source_channels` channels.
    pub open spec fn channel_span(self, source_channels: int) -> int {
        match self.num_channels {
            Some(n) => n as int,
            None => if source_channels >= self.start_channel {
                source_channels - self.start_channel
            } else {
                0
            },
        }
    }

    /// The number of values that the output holds for one channel: for each
    /// derivative order, one for each statistic that is kept.
    pub open spec fn width(self) -> int {
        self.select.count() * (self.num_derivatives + 1)
    }
}

impl Default for BufStatsConfig {
    /// The whole source, all statistics, no derivative, the percentiles 0,
    /// 50 and 100, and no rejection of outliers.
    fn default() -> (c: Self)
        ensures
            c.start_frame == 0,
            c.num_frames is None,
            c.start_channel == 0,
            c.num_channels is None,
            c.select.count() == STATS_PER_DERIVATIVE,
            forall|i: int| 0 <= i < STATS_PER_DERIVATIVE ==> c.select@[i],
            c.num_derivatives == 0,
            c.low_percentile == ZERO,
            c.middle_percentile == FIFTY,
            c.high_percentile == HUNDRED,
            c.outliers_cutoff is None,
            c.fault() is None,
    {
        BufStatsConfig {
            start_frame: 0,
            num_frames: None,
            start_channel: 0,
            num_channels: None,
            select: BufStatsSelect::all(),
            num_derivatives: 0,
            low_percentile: ZERO,
            middle_percentile: FIFTY,
            high_percentile: HUNDRED,
            outliers_cutoff: None,
        }
    }
}

/// Checks settings against `BufStatsConfig::fault`.
pub fn validate_config(config: &BufStatsConfig) -> (r: Result<(), Error>)
    ensures
        r == match config.fault() {
            Some(e) => Err::<(), Error>(e),
            None => Ok(()),
        },
{
    validate_settings(
        config.num_derivatives,
        config.low_percentile,
        config.middle_percentile,
        config.high_percentile,
    )
}

/// The chosen statistics of a window, channel by channel: for each channel,
/// the kept statistics of the signal, then those of its first difference,
/// then those of its second, as far as they were asked for.
#[derive(Debug)]
pub struct BufStatsOutput {
    values: Vec<Real>,
    num_channels: usize,
    values_per_channel: usize,
}

impl View for BufStatsOutput {
    type V = Seq<Real>;

    closed spec fn view(&self) -> Seq<Real> {
        self.values@
    }
}

impl Clone for BufStatsOutput {
    fn clone(&self) -> (c: Self)
        ensures
            c@ == self@,
            c.channels() == self.channels(),
            c.width() == self.width(),
    {
        proof {
            use_type_invariant(self);
        }
        BufStatsOutput {
            values: copy_of(self.values.as_slice()),
            num_channels: self.num_channels,
            values_per_channel: self.values_per_channel,
        }
    }
}

impl BufStatsOutput {
    #[verifier::type_invariant]
    spec fn shaped(&self) -> bool {
        self.values@.len() == self.num_channels * self.values_per_channel
    }

    /// The number of channels.
    pub closed spec fn channels(&self) -> usize {
        self.num_channels
    }

    /// The number of values of each channel.
    pub closed spec fn width(&self) -> usize {
        self.values_per_channel
    }

    /// The values of channel `i`.
    pub open spec fn channel_view(&self, i: int) -> Seq<Real> {
        self@.subrange(i * self.width(), (i + 1) * self.width())
    }

    /// All values, channel after channel.
    pub fn values(&self) -> (r: &[Real])
        ensures
            r@ == self@,
            r@.len() == self.channels() * self.width(),
    {
        proof {
            use_type_invariant(self);
        }
        self.values.as_slice()
    }

    /// The number of channels.
    #[verifier::when_used_as_spec(channels)]
    pub fn num_channels(&self) -> (r: usize)
        ensures
            r == self.channels(),
    {
        self.num_channels
    }

    /// The number of values of each channel.
    #[verifier::when_used_as_spec(width)]
    pub fn values_per_channel(&self) -> (r: usize)
        ensures
            r == self.width(),
    {
        self.values_per_channel
    }

    /// The values of one channel, or `None` where there is no such channel.
    pub fn channel(&self, channel: usize) -> (r: Option<&[Real]>)
        ensures
            channel >= self.channels() ==> r is None,
            channel < self.channels() ==> r is Some && r.unwrap()@ == self.channel_view(
                channel as int,
            ) && r.unwrap()@.len() == self.width(),
    {
        if channel >= self.num_channels {
            return None;
        }
        let total: usize = self.values.len();
        proof {
            use_type_invariant(self);
            assert(total == self.num_channels * self.values_per_channel);
            lemma_channel_bounds(
                channel as int,
                self.num_channels as int,
                self.values_per_channel as int,
            );
        }
        let start: usize = channel * self.values_per_channel;
        let end: usize = start + self.values_per_channel;
        Some(slice_subrange(self.values.as_slice(), start, end))
    }
}

/// The frames `start_frame .. start_frame + frames` of the channel
/// `start_channel + ch` of a source whose channels have `source_frames`
/// frames, as a function of `ch`.
pub open spec fn window_row(
    source: Seq<Real>,
    source_frames: int,
    start_channel: int,
    start_frame: int,
    frames: int,
) -> spec_fn(int) -> Seq<Real> {
    |ch: int|
        source.subrange(
            (start_channel + ch) * source_frames + start_frame,
            (start_channel + ch) * source_frames + start_frame + frames,
        )
}

/// The window of a channel-major source: the frames
/// `start_frame .. start_frame + frames` of the channels
/// `start_channel .. start_channel + channels`, channel after channel.
pub open spec fn window(
    source: Seq<Real>,
    source_frames: int,
    start_channel: int,
    start_frame: int,
    channels: nat,
    frames: int,
) -> Seq<Real> {
    join_rows(channels, window_row(source, source_frames, start_channel, start_frame, frames))
}

/// What the output keeps of one channel of the engine's output: of each of
/// its blocks of seven the chosen values, as a function of the derivative
/// order.
pub open spec fn kept_block(full: Seq<Real>, mask: Seq<bool>, offset: int) -> spec_fn(int) -> Seq<
    Real,
> {
    |d: int|
        chosen(
            full.subrange(
                offset + d * STATS_PER_DERIVATIVE,
                offset + d * STATS_PER_DERIVATIVE + STATS_PER_DERIVATIVE,
            ),
            mask,
            STATS_PER_DERIVATIVE as nat,
        )
}

/// What the output keeps of each channel of the engine's output, as a
/// function of the channel.
pub open spec fn kept_channel(full: Seq<Real>, mask: Seq<bool>, num_derivatives: u8) -> spec_fn(
    int,
) -> Seq<Real> {
    |ch: int|
        join_rows(
            (num_derivatives + 1) as nat,
            kept_block(full, mask, ch * full_width(num_derivatives)),
        )
}

/// The engine's output for `channels` channels, filtered through a mask:
/// every block of seven gives up its chosen values, and nothing changes
/// place otherwise.
pub open spec fn selection(full: Seq<Real>, mask: Seq<bool>, channels: nat, num_derivatives: u8) -> Seq<
    Real,
> {
    join_rows(channels, kept_channel(full, mask, num_derivatives))
}

/// The filtered output holds, for each channel and each derivative order, as
/// many values as statistics are chosen.
pub proof fn lemma_selection_len(full: Seq<Real>, mask: Seq<bool>, channels: nat, num_derivatives: u8)
    ensures
        selection(full, mask, channels, num_derivatives).len() == channels * (count_chosen(mask, 7)
            * (num_derivatives + 1)),
{
    let count = count_chosen(mask, 7);
    let orders = (num_derivatives + 1) as nat;
    let rows = kept_channel(full, mask, num_derivatives);
    assert forall|ch: int| 0 <= ch < channels implies (#[trigger] rows(ch)).len() == orders
        * count by {
        let blocks = kept_block(full, mask, ch * full_width(num_derivatives));
        assert forall|d: int| 0 <= d < orders implies (#[trigger] blocks(d)).len() == count by {
            lemma_chosen_len(
                full.subrange(
                    ch * full_width(num_derivatives) + d * 7,
                    ch * full_width(num_derivatives) + d * 7 + 7,
                ),
                mask,
                7,
            );
        }
        lemma_join_rows_len(orders, blocks, count);
    }
    lemma_join_rows_len(channels, rows, orders * count);
    assert(orders * count == count * (num_derivatives + 1)) by (nonlinear_arith)
        requires
            orders == num_derivatives + 1,
    ;
}

/// The value of frame `f` of channel `ch` of a window is the value of frame
/// `start_frame + f` of channel `start_channel + ch` of the source.
pub proof fn lemma_window_index(
    source: Seq<Real>,
    source_frames: int,
    start_channel: int,
    start_frame: int,
    channels: nat,
    frames: int,
    ch: int,
    f: int,
)
    requires
        0 <= start_channel,
        0 <= start_frame,
        0 <= frames,
        start_frame + frames <= source_frames,
        (start_channel + channels) * source_frames <= source.len(),
        0 <= ch < channels,
        0 <= f < frames,
    ensures
        window(source, source_frames, start_channel, start_frame, channels, frames).len()
            == channels * frames,
        0 <= ch * frames + f < channels * frames,
        0 <= (start_channel + ch) * source_frames + start_frame + f < source.len(),
        window(source, source_frames, start_channel, start_frame, channels, frames)[ch * frames
            + f] == source[(start_channel + ch) * source_frames + start_frame + f],
{
    let row = window_row(source, source_frames, start_channel, start_frame, frames);
    assert forall|c: int| 0 <= c < channels implies (#[trigger] row(c)).len() == frames by {
        lemma_channel_bounds(start_channel + c, start_channel + channels, source_frames);
    }
    lemma_channel_bounds(start_channel + ch, start_channel + channels, source_frames);
    lemma_join_rows_len(channels, row, frames as nat);
    lemma_join_rows_index(channels, row, frames as nat, ch, f);
}

/// The window that spans a whole source is the source.
pub proof fn lemma_whole_window(source: Seq<Real>, channels: nat, frames: nat)
    requires
        source.len() == channels * frames,
    ensures
        window(source, frames as int, 0, 0, channels, frames as int) == source,
{
    let row = window_row(source, frames as int, 0, 0, frames as int);
    lemma_join_consecutive(source, channels, frames as int, row);
    assert(source.subrange(0, channels * (frames as int)) =~= source);
}

/// With every place chosen, a block is kept whole.
pub proof fn lemma_chosen_all(block: Seq<Real>, mask: Seq<bool>, n: nat)
    requires
        n <= block.len(),
        forall|i: int| 0 <= i < n ==> mask[i],
    ensures
        chosen(block, mask, n) == block.take(n as int),
    decreases n,
{
    if n > 0 {
        lemma_chosen_all(block, mask, (n - 1) as nat);
    }
    assert(chosen(block, mask, n) =~= block.take(n as int));
}

/// With all seven statistics chosen, the output is what the engine wrote.
pub proof fn lemma_select_all(full: Seq<Real>, mask: Seq<bool>, channels: nat, num_derivatives: u8)
    requires
        full.len() == channels * full_width(num_derivatives),
        forall|i: int| 0 <= i < STATS_PER_DERIVATIVE ==> mask[i],
    ensures
        selection(full, mask, channels, num_derivatives) == full,
{
    let orders = (num_derivatives + 1) as nat;
    let width = full_width(num_derivatives);
    let rows = kept_channel(full, mask, num_derivatives);
    assert forall|ch: int| 0 <= ch < channels implies #[trigger] rows(ch) == full.subrange(
        ch * width,
        ch * width + width,
    ) by {
        lemma_channel_bounds(ch, channels as int, width);
        let part = full.subrange(ch * width, ch * width + width);
        let blocks = kept_block(full, mask, ch * full_width(num_derivatives));
        assert forall|d: int| 0 <= d < orders implies #[trigger] blocks(d) == part.subrange(
            d * 7,
            d * 7 + 7,
        ) by {
            let block = full.subrange(ch * width + d * 7, ch * width + d * 7 + 7);
            lemma_chosen_all(block, mask, 7);
            assert(block.take(7) =~= block);
            assert(block =~= part.subrange(d * 7, d * 7 + 7));
        }
        lemma_join_consecutive(part, orders, 7, blocks);
        assert(part.subrange(0, orders * 7int) =~= part);
    }
    lemma_join_consecutive(full, channels, width, rows);
    assert(full.subrange(0, channels * width) =~= full);
}

/// With one place chosen, one value of a block is kept.
pub proof fn lemma_chosen_one(block: Seq<Real>, mask: Seq<bool>, n: nat, slot: int)
    requires
        n <= STATS_PER_DERIVATIVE,
        0 <= slot < STATS_PER_DERIVATIVE,
        forall|i: int| 0 <= i < STATS_PER_DERIVATIVE ==> (mask[i] <==> i == slot),
    ensures
        chosen(block, mask, n) == if n > slot {
            seq![block[slot]]
        } else {
            Seq::<Real>::empty()
        },
    decreases n,
{
    if n > 0 {
        lemma_chosen_one(block, mask, (n - 1) as nat, slot);
    }
    assert(chosen(block, mask, n) =~= if n > slot {
        seq![block[slot]]
    } else {
        Seq::<Real>::empty()
    });
}

/// With one statistic chosen, the output holds for each channel that
/// statistic of the signal, then of its first difference, then of its
/// second: the value for derivative order `d` of channel `ch` is the one at
/// the place of the statistic in block `d` of that channel.
pub proof fn lemma_select_one(
    full: Seq<Real>,
    mask: Seq<bool>,
    channels: nat,
    num_derivatives: u8,
    slot: int,
    ch: int,
    d: int,
)
    requires
        full.len() == channels * full_width(num_derivatives),
        0 <= slot < STATS_PER_DERIVATIVE,
        forall|i: int| 0 <= i < STATS_PER_DERIVATIVE ==> (mask[i] <==> i == slot),
        0 <= ch < channels,
        0 <= d <= num_derivatives,
    ensures
        selection(full, mask, channels, num_derivatives).len() == channels * (num_derivatives + 1),
        0 <= ch * (num_derivatives + 1) + d < channels * (num_derivatives + 1),
        0 <= ch * full_width(num_derivatives) + d * 7 + slot < full.len(),
        selection(full, mask, channels, num_derivatives)[ch * (num_derivatives + 1) + d] == full[ch
            * full_width(num_derivatives) + d * 7 + slot],
{
    let orders = (num_derivatives + 1) as nat;
    let width = full_width(num_derivatives);
    let rows = kept_channel(full, mask, num_derivatives);
    assert forall|c: int| 0 <= c < channels implies (#[trigger] rows(c)).len() == orders by {
        let blocks = kept_block(full, mask, c * width);
        assert forall|k: int| 0 <= k < orders implies (#[trigger] blocks(k)).len() == 1 by {
            lemma_chosen_one(full.subrange(c * width + k * 7, c * width + k * 7 + 7), mask, 7, slot);
        }
        lemma_join_rows_len(orders, blocks, 1);
    }
    lemma_join_rows_len(channels, rows, orders);
    lemma_join_rows_index(channels, rows, orders, ch, d);
    let blocks = kept_block(full, mask, ch * width);
    let block = full.subrange(ch * width + d * 7, ch * width + d * 7 + 7);
    assert forall|k: int| 0 <= k < orders implies (#[trigger] blocks(k)).len() == 1 by {
        lemma_chosen_one(full.subrange(ch * width + k * 7, ch * width + k * 7 + 7), mask, 7, slot);
    }
    lemma_join_rows_index(orders, blocks, 1, d, 0);
    lemma_chosen_one(block, mask, 7, slot);
    lemma_channel_bounds(ch, channels as int, width);
    assert(blocks(d) == chosen(block, mask, 7));
    assert(block[slot] == full[ch * width + d * 7 + slot]);
}

/// What `process` leaves to do.
pub enum BufStatsStep {
    /// Nothing: no weight was above zero, and these are the statistics.
    Done(BufStatsOutput),
    /// The engine is to be called on the window; its output goes to
    /// `finish`.
    Compute(StatsCall),
}

/// The first reason, if any, for which a source is refused.
pub open spec fn source_fault(
    config: BufStatsConfig,
    source_len: int,
    source_frames: int,
    source_channels: int,
    weights: Option<Seq<Real>>,
) -> Option<Error> {
    let frames = config.frame_span(source_frames);
    let channels = config.channel_span(source_channels);
    if source_frames == 0 {
        Some(Error::SourceFramesZero)
    } else if source_channels == 0 {
        Some(Error::SourceChannelsZero)
    } else if source_len != source_frames * source_channels {
        Some(Error::SourceLengthMismatch)
    } else if config.start_frame >= source_frames {
        Some(Error::StartFrameOutOfRange)
    } else if frames == 0 {
        Some(Error::FrameSpanZero)
    } else if config.start_frame + frames > source_frames {
        Some(Error::FrameSpanOutOfRange)
    } else if frames <= config.num_derivatives {
        Some(Error::FrameSpanTooShort)
    } else if config.start_channel >= source_channels {
        Some(Error::StartChannelOutOfRange)
    } else if channels == 0 {
        Some(Error::ChannelCountZero)
    } else if config.start_channel + channels > source_channels {
        Some(Error::ChannelSpanOutOfRange)
    } else if config.select.count() == 0 {
        Some(Error::NothingSelected)
    } else if weights is Some && weights.unwrap().len() != frames {
        Some(Error::WeightsSpanMismatch)
    } else {
        None
    }
}

/// Copies the window of a source.
fn copy_window(
    source: &[Real],
    source_frames: usize,
    source_channels: usize,
    start_channel: usize,
    start_frame: usize,
    channels: usize,
    frames: usize,
) -> (out: Vec<Real>)
    requires
        source@.len() == source_channels * source_frames,
        start_frame + frames <= source_frames,
        start_channel + channels <= source_channels,
    ensures
        out@ == window(
            source@,
            source_frames as int,
            start_channel as int,
            start_frame as int,
            channels as nat,
            frames as int,
        ),
        out@.len() == channels * frames,
{
    let ghost row = window_row(
        source@,
        source_frames as int,
        start_channel as int,
        start_frame as int,
        frames as int,
    );
    let total: usize = source.len();
    let mut out: Vec<Real> = Vec::new();
    let mut ch: usize = 0;
    while ch < channels
        invariant
            ch <= channels,
            total == source_channels * source_frames,
            total == source@.len(),
            start_frame + frames <= source_frames,
            start_channel + channels <= source_channels,
            row == window_row(
                source@,
                source_frames as int,
                start_channel as int,
                start_frame as int,
                frames as int,
            ),
            out@ == join_rows(ch as nat, row),
        decreases channels - ch,
    {
        proof {
            lemma_channel_bounds(
                (start_channel + ch) as int,
                source_channels as int,
                source_frames as int,
            );
        }
        let from: usize = (start_channel + ch) * source_frames + start_frame;
        append_range(&mut out, source, from, from + frames);
        ch = ch + 1;
    }
    proof {
        assert forall|c: int| 0 <= c < channels implies (#[trigger] row(c)).len() == frames by {
            lemma_channel_bounds(
                start_channel + c,
                source_channels as int,
                source_frames as int,
            );
        }
        lemma_join_rows_len(channels as nat, row, frames as nat);
    }
    out
}

/// Chosen statistics of a window of a buffer.
pub struct BufStats {
    config: BufStatsConfig,
}

impl BufStats {
    #[verifier::type_invariant]
    spec fn valid(&self) -> bool {
        self.config.fault() is None
    }

    /// The settings in force.
    pub closed spec fn settings(&self) -> BufStatsConfig {
        self.config
    }

    /// Accepts settings that break no rule on the derivative order and the
    /// percentiles. The window is held against a source only when one is
    /// processed.
    pub fn new(config: BufStatsConfig) -> (r: Result<Self, Error>)
        ensures
            match config.fault() {
                Some(e) => r is Err && r->Err_0 == e,
                None => r is Ok && r->Ok_0.settings() == config,
            },
    {
        match validate_config(&config) {
            Err(e) => Err(e),
            Ok(()) => Ok(BufStats { config }),
        }
    }

    /// The settings in force. They break no rule.
    pub fn config(&self) -> (c: &BufStatsConfig)
        ensures
            *c == self.settings(),
            c.fault() is None,
    {
        proof {
            use_type_invariant(self);
        }
        &self.config
    }

    /// Replaces the settings, unless the new ones break a rule; then the old
    /// ones stay.
    pub fn set_config(&mut self, config: BufStatsConfig) -> (r: Result<(), Error>)
        ensures
            match config.fault() {
                Some(e) => r == Err::<(), Error>(e) && final(self).settings() == old(self).settings(),
                None => r == Ok::<(), Error>(()) && final(self).settings() == config,
            },
    {
        match validate_config(&config) {
            Err(e) => Err(e),
            Ok(()) => {
                self.config = config;
                Ok(())
            },
        }
    }

    /// Takes a channel-major source of `source_num_channels` channels of
    /// `source_num_frames` frames, with one weight for each frame of the
    /// window if there are weights.
    ///
    /// A refused source gives the first fault of `source_fault`. Weights of
    /// which none is above zero give an output that is all zero, and the
    /// engine is not called. Otherwise the result is the call to make: a
    /// fresh copy of the window, its shape, and the settings in force.
    pub fn process(
        &self,
        source: &[Real],
        source_num_frames: usize,
        source_num_channels: usize,
        weights: Option<&[Real]>,
    ) -> (r: Result<BufStatsStep, Error>)
        requires
            source_num_channels * full_width(self.settings().num_derivatives) <= usize::MAX,
        ensures
            source_fault(
                self.settings(),
                source@.len() as int,
                source_num_frames as int,
                source_num_channels as int,
                weights_of(weights),
            ) is None && weights is Some && !some_positive(weights.unwrap()@) ==> r is Ok
                && r->Ok_0 is Done && r->Ok_0->Done_0@ == zeros(
                (self.settings().channel_span(source_num_channels as int)
                    * self.settings().width()) as nat,
            ),
            match source_fault(
                self.settings(),
                source@.len() as int,
                source_num_frames as int,
                source_num_channels as int,
                weights_of(weights),
            ) {
                Some(e) => r is Err && r->Err_0 == e,
                None => r is Ok && match r->Ok_0 {
                    BufStatsStep::Done(out) => {
                        &&& weights is Some
                        &&& !some_positive(weights.unwrap()@)
                        &&& out.channels() == self.settings().channel_span(
                            source_num_channels as int,
                        )
                        &&& out.width() == self.settings().width()
                        &&& out@ == zeros((out.channels() * out.width()) as nat)
                    },
                    BufStatsStep::Compute(call) => {
                        &&& weights is Some ==> some_positive(weights.unwrap()@)
                        &&& call.well_formed()
                        &&& call.num_channels == self.settings().channel_span(
                            source_num_channels as int,
                        )
                        &&& call.num_frames == self.settings().frame_span(source_num_frames as int)
                        &&& call.input@ == window(
                            source@,
                            source_num_frames as int,
                            self.settings().start_channel as int,
                            self.settings().start_frame as int,
                            call.num_channels as nat,
                            call.num_frames as int,
                        )
                        &&& call.num_derivatives == self.settings().num_derivatives
                        &&& call.low_percentile == self.settings().low_percentile
                        &&& call.middle_percentile == self.settings().middle_percentile
                        &&& call.high_percentile == self.settings().high_percentile
                        &&& call.outliers_cutoff == self.settings().cutoff()
                        &&& call.weights_view() == weights_of(weights)
                    },
                },
            },
    {
        proof {
            use_type_invariant(self);
        }
        if source_num_frames == 0 {
            return Err(Error::SourceFramesZero);
        }
        if source_num_channels == 0 {
            return Err(Error::SourceChannelsZero);
        }
        if !holds_shape(source.len(), source_num_frames, source_num_channels) {
            return Err(Error::SourceLengthMismatch);
        }
        let start_frame: usize = self.config.start_frame;
        if start_frame >= source_num_frames {
            return Err(Error::StartFrameOutOfRange);
        }
        let frames: usize = match self.config.num_frames {
            Some(n) => n,
            None => source_num_frames - start_frame,
        };
        if frames == 0 {
            return Err(Error::FrameSpanZero);
        }
        if frames > source_num_frames - start_frame {
            return Err(Error::FrameSpanOutOfRange);
        }
        if frames <= self.config.num_derivatives as usize {
            return Err(Error::FrameSpanTooShort);
        }
        let start_channel: usize = self.config.start_channel;
        if start_channel >= source_num_channels {
            return Err(Error::StartChannelOutOfRange);
        }
        let channels: usize = match self.config.num_channels {
            Some(n) => n,
            None => source_num_channels - start_channel,
        };
        if channels == 0 {
            return Err(Error::ChannelCountZero);
        }
        if channels > source_num_channels - start_channel {
            return Err(Error::ChannelSpanOutOfRange);
        }
        let count: usize = self.config.select.selected_count();
        if count == 0 {
            return Err(Error::NothingSelected);
        }
        let orders: usize = self.config.num_derivatives as usize + 1;
        assert(count * orders <= 7 * orders) by (nonlinear_arith)
            requires
                count <= 7,
                0 <= orders,
        ;
        let width: usize = count * orders;
        let full: usize = STATS_PER_DERIVATIVE * orders;
        assert(channels * full <= source_num_channels * full) by (nonlinear_arith)
            requires
                channels <= source_num_channels,
                0 <= full,
        ;
        assert(channels * width <= channels * full) by (nonlinear_arith)
            requires
                width <= full,
                0 <= channels,
        ;
        assert(source_num_frames * source_num_channels == source_num_channels * source_num_frames)
            by (nonlinear_arith);
        let input: Vec<Real> = copy_window(
            source,
            source_num_frames,
            source_num_channels,
            start_channel,
            start_frame,
            channels,
            frames,
        );
        let mut copied: Option<Vec<Real>> = None;
        if let Some(w) = weights {
            if w.len() != frames {
                return Err(Error::WeightsSpanMismatch);
            }
            if !has_positive(w) {
                return Ok(
                    BufStatsStep::Done(
                        BufStatsOutput {
                            values: zero_buffer(channels * width),
                            num_channels: channels,
                            values_per_channel: width,
                        },
                    ),
                );
            }
            copied = Some(copy_of(w));
        }
        let cutoff: Real = match self.config.outliers_cutoff {
            Some(c) => c,
            None => MINUS_ONE,
        };
        Ok(
            BufStatsStep::Compute(
                StatsCall {
                    input,
                    num_channels: channels,
                    num_frames: frames,
                    num_derivatives: self.config.num_derivatives,
                    low_percentile: self.config.low_percentile,
                    middle_percentile: self.config.middle_percentile,
                    high_percentile: self.config.high_percentile,
                    outliers_cutoff: cutoff,
                    weights: copied,
                    output_len: channels * full,
                },
            ),
        )
    }

    /// Takes what the engine wrote for `num_channels` channels, seven values
    /// for each derivative order of each channel, and keeps of every block
    /// of seven the chosen statistics, in their fixed order.
    pub fn finish(&self, num_channels: usize, engine_output: &[Real]) -> (out: BufStatsOutput)
        requires
            engine_output@.len() == num_channels * full_width(self.settings().num_derivatives),
        ensures
            out@ == selection(
                engine_output@,
                self.settings().select@,
                num_channels as nat,
                self.settings().num_derivatives,
            ),
            out.channels() == num_channels,
            out.width() == self.settings().width(),
    {
        proof {
            use_type_invariant(self);
        }
        let count: usize = self.config.select.selected_count();
        let orders: usize = self.config.num_derivatives as usize + 1;
        assert(count * orders <= 7 * orders) by (nonlinear_arith)
            requires
                count <= 7,
                0 <= orders,
        ;
        let width: usize = count * orders;
        let full: usize = STATS_PER_DERIVATIVE * orders;
        let total: usize = engine_output.len();
        let ghost mask = self.config.select@;
        let ghost rows = kept_channel(engine_output@, mask, self.config.num_derivatives);
        let mut values: Vec<Real> = Vec::new();
        let mut ch: usize = 0;
        while ch < num_channels
            invariant
                ch <= num_channels,
                orders == self.config.num_derivatives + 1,
                orders <= 3,
                full == 7 * orders,
                total == num_channels * full,
                total == engine_output@.len(),
                mask == self.config.select@,
                mask.len() == 7,
                rows == kept_channel(engine_output@, mask, self.config.num_derivatives),
                values@ == join_rows(ch as nat, rows),
            decreases num_channels - ch,
        {
            let ghost done = values@;
            let ghost blocks = kept_block(engine_output@, mask, ch * full);
            proof {
                lemma_channel_bounds(ch as int, num_channels as int, full as int);
            }
            let offset: usize = ch * full;
            let mut d: usize = 0;
            while d < orders
                invariant
                    d <= orders,
                    ch < num_channels,
                    orders <= 3,
                    full == 7 * orders,
                    offset == ch * full,
                    offset + full <= total,
                    total == engine_output@.len(),
                    mask == self.config.select@,
                    mask.len() == 7,
                    blocks == kept_block(engine_output@, mask, ch * full),
                    values@ == done + join_rows(d as nat, blocks),
                decreases orders - d,
            {
                let ghost before = values@;
                let base: usize = offset + d * STATS_PER_DERIVATIVE;
                let ghost block = engine_output@.subrange(base as int, base + 7);
                let mut s: usize = 0;
                while s < 7
                    invariant
                        s <= 7,
                        d < orders,
                        base + 7 <= total,
                        total == engine_output@.len(),
                        mask == self.config.select@,
                        mask.len() == 7,
                        block == engine_output@.subrange(base as int, base + 7),
                        values@ == before + chosen(block, mask, s as nat),
                    decreases 7 - s,
                {
                    if self.config.select.keeps(s) {
                        values.push(engine_output[base + s]);
                        assert(values@ == before + chosen(block, mask, (s + 1) as nat));
                    }
                    s = s + 1;
                }
                assert(blocks(d as int) == chosen(block, mask, 7));
                assert(values@ == done + join_rows((d + 1) as nat, blocks));
                d = d + 1;
            }
            assert(rows(ch as int) == join_rows(orders as nat, blocks));
            ch = ch + 1;
        }
        proof {
            lemma_selection_len(
                engine_output@,
                mask,
                num_channels as nat,
                self.config.num_derivatives,
            );
        }
        BufStatsOutput { values, num_channels, values_per_channel: width }
    }
}

} // verus!
