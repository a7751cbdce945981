//! The seven statistics of every channel of a channel-major buffer, for the
//! raw signal and for up to two of its finite differences.
//!
//! The moments and percentiles are computed by the statistics engine. This
//! module decides whether the engine is called at all, and with what.

use vstd::prelude::*;
use vstd::slice::slice_subrange;
use crate::binary64::{at_most, is_positive, is_within, le, positive, within, Real, HUNDRED, MINUS_ONE, ZERO, FIFTY};
use crate::error::Error;
use crate::matrix::{copy_of, holds_shape, lemma_channel_bounds, zero_buffer, zeros};

verus! {

/// The number of statistics that the engine gives for each derivative order:
/// mean, standard deviation, skewness, kurtosis, and the low, middle and high
/// percentile, in this order.
pub const STATS_PER_DERIVATIVE: usize = 7;

/// The highest derivative order.
pub const MAX_DERIVATIVES: u8 = 2;

/// The number of values that the engine gives for one channel: one block of
/// seven for each derivative order from 0 to `num_derivatives`.
pub open spec fn full_width(num_derivatives: u8) -> int {
    STATS_PER_DERIVATIVE * (num_derivatives + 1)
}

/// The first rule, if any, that the settings of the engine break: at most two
/// derivative orders, each percentile in `[0, 100]`, and
/// `low <= middle <= high`.
pub open spec fn settings_fault(num_derivatives: u8, low: Real, middle: Real, high: Real) -> Option<
    Error,
> {
    if num_derivatives > MAX_DERIVATIVES {
        Some(Error::DerivativesOutOfRange)
    } else if !within(low, ZERO, HUNDRED) {
        Some(Error::LowPercentileOutOfRange)
    } else if !within(middle, ZERO, HUNDRED) {
        Some(Error::MiddlePercentileOutOfRange)
    } else if !within(high, ZERO, HUNDRED) {
        Some(Error::HighPercentileOutOfRange)
    } else if !le(low, middle) {
        Some(Error::LowAboveMiddle)
    } else if !le(middle, high) {
        Some(Error::MiddleAboveHigh)
    } else {
        None
    }
}

/// Checks the settings of the engine against `settings_fault`.
pub fn validate_settings(num_derivatives: u8, low: Real, middle: Real, high: Real) -> (r: Result<
    (),
    Error,
>)
    ensures
        r == match settings_fault(num_derivatives, low, middle, high) {
            Some(e) => Err::<(), Error>(e),
            None => Ok(()),
        },
{
    if num_derivatives > MAX_DERIVATIVES {
        return Err(Error::DerivativesOutOfRange);
    }
    if !is_within(low, ZERO, HUNDRED) {
        return Err(Error::LowPercentileOutOfRange);
    }
    if !is_within(middle, ZERO, HUNDRED) {
        return Err(Error::MiddlePercentileOutOfRange);
    }
    if !is_within(high, ZERO, HUNDRED) {
        return Err(Error::HighPercentileOutOfRange);
    }
    if !at_most(low, middle) {
        return Err(Error::LowAboveMiddle);
    }
    if !at_most(middle, high) {
        return Err(Error::MiddleAboveHigh);
    }
    Ok(())
}

/// Whether one weight at least is above zero.
pub open spec fn some_positive(weights: Seq<Real>) -> bool {
    exists|i: int| 0 <= i < weights.len() && positive(#[trigger] weights[i])
}

/// Tells whether one weight at least is above zero.
pub fn has_positive(weights: &[Real]) -> (r: bool)
    ensures
        r == some_positive(weights@),
{
    let mut i: usize = 0;
    while i < weights.len()
        invariant
            i <= weights@.len(),
            forall|k: int| 0 <= k < i ==> !positive(#[trigger] weights@[k]),
        decreases weights@.len() - i,
    {
        if is_positive(weights[i]) {
            return true;
        }
        i = i + 1;
    }
    false
}

/// The weights as a sequence, if there are any.
pub open spec fn weights_of(weights: Option<&[Real]>) -> Option<Seq<Real>> {
    match weights {
        Some(w) => Some(w@),
        None => None,
    }
}

/// One call of the statistics engine: the buffer it reads, the shape that is
/// passed beside it, its settings, and the length of the buffer it fills.
pub struct StatsCall {
    /// The channel-major input, `num_channels * num_frames` values.
    pub input: Vec<Real>,
    pub num_channels: usize,
    pub num_frames: usize,
    pub num_derivatives: u8,
    pub low_percentile: Real,
    pub middle_percentile: Real,
    pub high_percentile: Real,
    /// The cutoff beyond which a value counts as an outlier; minus one
    /// switches the rejection of outliers off.
    pub outliers_cutoff: Real,
    /// One weight for each frame, or `None` for equal weights.
    pub weights: Option<Vec<Real>>,
    /// The number of values that the engine writes.
    pub output_len: usize,
}

impl StatsCall {
    /// The weights as a sequence, if there are any.
    pub open spec fn weights_view(&self) -> Option<Seq<Real>> {
        match self.weights {
            Some(w) => Some(w@),
            None => None,
        }
    }

    /// What the engine relies on: a buffer that matches its shape, frames
    /// enough for the derivative order, valid settings, and weights, where
    /// there are any, one for each frame and not all of them non-positive.
    pub open spec fn well_formed(&self) -> bool {
        &&& self.num_channels > 0
        &&& self.num_frames > self.num_derivatives
        &&& self.input@.len() == self.num_channels * self.num_frames
        &&& settings_fault(
            self.num_derivatives,
            self.low_percentile,
            self.middle_percentile,
            self.high_percentile,
        ) is None
        &&& self.weights_view() matches Some(w) ==> w.len() == self.num_frames && some_positive(w)
        &&& self.output_len == self.num_channels * full_width(self.num_derivatives)
    }
}

/// Settings of [`MultiStats`].
#[derive(Debug, Clone, Copy)]
pub struct MultiStatsConfig {
    pub num_derivatives: u8,
    pub low_percentile: Real,
    pub middle_percentile: Real,
    pub high_percentile: Real,
    pub outliers_cutoff: Option<Real>,
}

impl MultiStatsConfig {
    /// The first rule, if any, that these settings break.
    pub open spec fn fault(self) -> Option<Error> {
        settings_fault(
            self.num_derivatives,
            self.low_percentile,
            self.middle_percentile,
            self.high_percentile,
        )
    }

    /// The cutoff that the engine is given.
    pub open spec fn cutoff(self) -> Real {
        match self.outliers_cutoff {
            Some(c) => c,
            None => MINUS_ONE,
        }
    }
}

impl Default for MultiStatsConfig {
    /// No derivative, the percentiles 0, 50 and 100, and no rejection of
    /// outliers.
    fn default() -> (c: Self)
        ensures
            c.num_derivatives == 0,
            c.low_percentile == ZERO,
            c.middle_percentile == FIFTY,
            c.high_percentile == HUNDRED,
            c.outliers_cutoff is None,
            c.fault() is None,
    {
        MultiStatsConfig {
            num_derivatives: 0,
            low_percentile: ZERO,
            middle_percentile: FIFTY,
            high_percentile: HUNDRED,
            outliers_cutoff: None,
        }
    }
}

/// Checks settings against `MultiStatsConfig::fault`.
pub fn validate_config(config: &MultiStatsConfig) -> (r: Result<(), Error>)
    ensures
        r == match config.fault() {
            Some(e) => Err::<(), Error>(e),
            None => Ok(()),
        },
{
    validate_settings(
        config.num_derivatives,
        config.low_percentile,
        config.middle_percentile,
        config.high_percentile,
    )
}

/// The statistics of a whole buffer, channel by channel. For each channel it
/// holds `[mean, std, skew, kurtosis, low, mid, high]` of the signal, then
/// the same of its first difference, then of its second, as far as they were
/// asked for.
#[derive(Debug)]
pub struct MultiStatsOutput {
    values: Vec<Real>,
    num_channels: usize,
    values_per_channel: usize,
}

impl View for MultiStatsOutput {
    type V = Seq<Real>;

    closed spec fn view(&self) -> Seq<Real> {
        self.values@
    }
}

impl Clone for MultiStatsOutput {
    fn clone(&self) -> (c: Self)
        ensures
            c@ == self@,
            c.channels() == self.channels(),
            c.width() == self.width(),
    {
        proof {
            use_type_invariant(self);
        }
        MultiStatsOutput {
            values: copy_of(self.values.as_slice()),
            num_channels: self.num_channels,
            values_per_channel: self.values_per_channel,
        }
    }
}

impl MultiStatsOutput {
    #[verifier::type_invariant]
    spec fn shaped(&self) -> bool {
        self.values@.len() == self.num_channels * self.values_per_channel
    }

    /// The number of channels.
    pub closed spec fn channels(&self) -> usize {
        self.num_channels
    }

    /// The number of values of each channel.
    pub closed spec fn width(&self) -> usize {
        self.values_per_channel
    }

    /// The values of channel `i`.
    pub open spec fn channel_view(&self, i: int) -> Seq<Real> {
        self@.subrange(i * self.width(), (i + 1) * self.width())
    }

    /// All values, channel after channel.
    pub fn values(&self) -> (r: &[Real])
        ensures
            r@ == self@,
            r@.len() == self.channels() * self.width(),
    {
        proof {
            use_type_invariant(self);
        }
        self.values.as_slice()
    }

    /// The number of channels.
    #[verifier::when_used_as_spec(channels)]
    pub fn num_channels(&self) -> (r: usize)
        ensures
            r == self.channels(),
    {
        self.num_channels
    }

    /// The number of values of each channel.
    #[verifier::when_used_as_spec(width)]
    pub fn values_per_channel(&self) -> (r: usize)
        ensures
            r == self.width(),
    {
        self.values_per_channel
    }

    /// The values of one channel, or `None` where there is no such channel.
    pub fn channel(&self, channel: usize) -> (r: Option<&[Real]>)
        ensures
            channel >= self.channels() ==> r is None,
            channel < self.channels() ==> r is Some && r.unwrap()@ == self.channel_view(
                channel as int,
            ) && r.unwrap()@.len() == self.width(),
    {
        if channel >= self.num_channels {
            return None;
        }
        let total: usize = self.values.len();
        proof {
            use_type_invariant(self);
            assert(total == self.num_channels * self.values_per_channel);
            lemma_channel_bounds(
                channel as int,
                self.num_channels as int,
                self.values_per_channel as int,
            );
        }
        let start: usize = channel * self.values_per_channel;
        let end: usize = start + self.values_per_channel;
        Some(slice_subrange(self.values.as_slice(), start, end))
    }
}

/// What `process` leaves to do.
pub enum MultiStatsStep {
    /// Nothing: no weight was above zero, and these are the statistics.
    Done(MultiStatsOutput),
    /// The engine is to be called; its output goes to `finish`.
    Compute(StatsCall),
}

/// The first reason, if any, for which an input is refused.
pub open spec fn input_fault(
    num_derivatives: u8,
    input_len: int,
    num_frames: int,
    num_channels: int,
    weights: Option<Seq<Real>>,
) -> Option<Error> {
    if num_frames == 0 {
        Some(Error::FramesZero)
    } else if num_channels == 0 {
        Some(Error::ChannelsZero)
    } else if input_len != num_frames * num_channels {
        Some(Error::InputLengthMismatch)
    } else if num_frames <= num_derivatives {
        Some(Error::FramesTooFew)
    } else if weights is Some && weights.unwrap().len() != num_frames {
        Some(Error::WeightsLengthMismatch)
    } else {
        None
    }
}

/// The statistics of every channel of a buffer.
pub struct MultiStats {
    config: MultiStatsConfig,
}

impl MultiStats {
    #[verifier::type_invariant]
    spec fn valid(&self) -> bool {
        self.config.fault() is None
    }

    /// The settings in force.
    pub closed spec fn settings(&self) -> MultiStatsConfig {
        self.config
    }

    /// The number of values for one channel.
    pub open spec fn width(&self) -> int {
        full_width(self.settings().num_derivatives)
    }

    /// Accepts settings that break no rule.
    pub fn new(config: MultiStatsConfig) -> (r: Result<Self, Error>)
        ensures
            match config.fault() {
                Some(e) => r == Err::<Self, Error>(e),
                None => r is Ok && r.unwrap().settings() == config,
            },
    {
        match validate_config(&config) {
            Err(e) => Err(e),
            Ok(()) => Ok(MultiStats { config }),
        }
    }

    /// The settings in force. They break no rule.
    pub fn config(&self) -> (c: &MultiStatsConfig)
        ensures
            *c == self.settings(),
            c.fault() is None,
    {
        proof {
            use_type_invariant(self);
        }
        &self.config
    }

    /// Replaces the settings, unless the new ones break a rule; then the old
    /// ones stay.
    pub fn set_config(&mut self, config: MultiStatsConfig) -> (r: Result<(), Error>)
        ensures
            match config.fault() {
                Some(e) => r == Err::<(), Error>(e) && final(self).settings() == old(self).settings(),
                None => r == Ok::<(), Error>(()) && final(self).settings() == config,
            },
    {
        match validate_config(&config) {
            Err(e) => Err(e),
            Ok(()) => {
                self.config = config;
                Ok(())
            },
        }
    }

    /// The number of values for one channel: seven for each derivative order.
    pub fn values_per_channel(&self) -> (r: usize)
        ensures
            r == self.width(),
            r == 7 || r == 14 || r == 21,
    {
        proof {
            use_type_invariant(self);
        }
        let orders: usize = self.config.num_derivatives as usize + 1;
        STATS_PER_DERIVATIVE * orders
    }

    /// Takes a channel-major input of `num_channels` channels of `num_frames`
    /// frames, with one weight for each frame if there are weights.
    ///
    /// A refused input gives the first fault of `input_fault`. Weights of
    /// which none is above zero give statistics that are all zero, and the
    /// engine is not called. Otherwise the result is the call to make: the
    /// input as it was given, its shape, and the settings in force.
    pub fn process(
        &self,
        input: &[Real],
        num_frames: usize,
        num_channels: usize,
        weights: Option<&[Real]>,
    ) -> (r: Result<MultiStatsStep, Error>)
        requires
            num_channels * self.width() <= usize::MAX,
        ensures
            input_fault(
                self.settings().num_derivatives,
                input@.len() as int,
                num_frames as int,
                num_channels as int,
                weights_of(weights),
            ) is None && weights is Some && !some_positive(weights.unwrap()@) ==> r is Ok
                && r->Ok_0 is Done && r->Ok_0->Done_0@ == zeros(
                (num_channels * self.width()) as nat,
            ),
            match input_fault(
                self.settings().num_derivatives,
                input@.len() as int,
                num_frames as int,
                num_channels as int,
                weights_of(weights),
            ) {
                Some(e) => r is Err && r->Err_0 == e,
                None => r is Ok && match r->Ok_0 {
                    MultiStatsStep::Done(out) => {
                        &&& weights is Some
                        &&& !some_positive(weights.unwrap()@)
                        &&& out.channels() == num_channels
                        &&& out.width() == self.width()
                        &&& out@ == zeros((num_channels * self.width()) as nat)
                    },
                    MultiStatsStep::Compute(call) => {
                        &&& weights is Some ==> some_positive(weights.unwrap()@)
                        &&& call.well_formed()
                        &&& call.input@ == input@
                        &&& call.num_channels == num_channels
                        &&& call.num_frames == num_frames
                        &&& call.num_derivatives == self.settings().num_derivatives
                        &&& call.low_percentile == self.settings().low_percentile
                        &&& call.middle_percentile == self.settings().middle_percentile
                        &&& call.high_percentile == self.settings().high_percentile
                        &&& call.outliers_cutoff == self.settings().cutoff()
                        &&& call.weights_view() == weights_of(weights)
                        &&& call.output_len == num_channels * self.width()
                    },
                },
            },
    {
        proof {
            use_type_invariant(self);
        }
        if num_frames == 0 {
            return Err(Error::FramesZero);
        }
        if num_channels == 0 {
            return Err(Error::ChannelsZero);
        }
        if !holds_shape(input.len(), num_frames, num_channels) {
            return Err(Error::InputLengthMismatch);
        }
        if num_frames <= self.config.num_derivatives as usize {
            return Err(Error::FramesTooFew);
        }
        let width: usize = self.values_per_channel();
        let output_len: usize = num_channels * width;
        let mut copied: Option<Vec<Real>> = None;
        if let Some(w) = weights {
            if w.len() != num_frames {
                return Err(Error::WeightsLengthMismatch);
            }
            if !has_positive(w) {
                return Ok(
                    MultiStatsStep::Done(
                        MultiStatsOutput {
                            values: zero_buffer(output_len),
                            num_channels,
                            values_per_channel: width,
                        },
                    ),
                );
            }
            copied = Some(copy_of(w));
        }
        assert(num_frames * num_channels == num_channels * num_frames) by (nonlinear_arith);
        let cutoff: Real = match self.config.outliers_cutoff {
            Some(c) => c,
            None => MINUS_ONE,
        };
        Ok(
            MultiStatsStep::Compute(
                StatsCall {
                    input: copy_of(input),
                    num_channels,
                    num_frames,
                    num_derivatives: self.config.num_derivatives,
                    low_percentile: self.config.low_percentile,
                    middle_percentile: self.config.middle_percentile,
                    high_percentile: self.config.high_percentile,
                    outliers_cutoff: cutoff,
                    weights: copied,
                    output_len,
                },
            ),
        )
    }

    /// Takes what the engine wrote for `num_channels` channels. These are the
    /// statistics, unchanged.
    pub fn finish(&self, num_channels: usize, engine_output: Vec<Real>) -> (out: MultiStatsOutput)
        requires
            engine_output@.len() == num_channels * self.width(),
        ensures
            out@ == engine_output@,
            out.channels() == num_channels,
            out.width() == self.width(),
    {
        let width: usize = self.values_per_channel();
        MultiStatsOutput { values: engine_output, num_channels, values_per_channel: width }
    }
}

} // verus!
