use vstd::prelude::*;

verus! {

/// An epoch: the number of whole checkpoint periods elapsed since epoch zero.
#[derive(Copy, Clone, Debug, PartialEq, Eq, Structural)]
pub struct Epoch(pub u64);

/// Possible errors when getting the current epoch
#[derive(Copy, Clone, Debug, PartialEq, Eq, Structural)]
pub enum EpochManagerError {
    /// Epoch zero time is unknown
    UnknownEpochZero,
    /// Checkpoint period is unknown
    UnknownCheckpointPeriod,
    /// Epoch zero is in the future
    EpochZeroInTheFuture,
    /// Overflow when calculating the epoch timestamp
    Overflow,
}

/// Epoch result
pub type EpochResult<T> = Result<T, EpochManagerError>;

/// Request for the current epoch.
#[derive(Copy, Clone, Debug, PartialEq, Eq, Structural)]
pub struct GetEpoch;

/// Block manager: it holds no state of its own.
#[derive(Copy, Clone, Debug, PartialEq, Eq, Structural, Default)]
pub struct BlockManager;

/// The abstract state of an epoch manager: the timestamp of epoch zero and the
/// checkpoint period in seconds, each of which may still be unknown.
pub struct EpochManagerModel {
    pub zero: Option<i64>,
    pub period: Option<u64>,
}

/// Epoch manager: knows when epoch zero started and how long each epoch lasts.
#[derive(Debug)]
pub struct EpochManager {
    /// Epoch zero timestamp
    epoch_zero_timestamp: Option<i64>,
    /// Checkpoint period (in seconds)
    checkpoint_period_seconds: Option<u64>,
}

impl View for EpochManager {
    type V = EpochManagerModel;

    closed spec fn view(&self) -> EpochManagerModel {
        EpochManagerModel { zero: self.epoch_zero_timestamp, period: self.checkpoint_period_seconds }
    }
}

/// The epoch that `timestamp` falls in, or why it cannot be told.
pub open spec fn spec_epoch_at(m: EpochManagerModel, timestamp: i64) -> EpochResult<Epoch> {
    match (m.zero, m.period) {
        (Some(zero), Some(period)) => {
            if timestamp - zero < 0 {
                Err(EpochManagerError::EpochZeroInTheFuture)
            } else {
                Ok(Epoch(((timestamp - zero) / (period as int)) as u64))
            }
        },
        (None, _) => Err(EpochManagerError::UnknownEpochZero),
        (_, None) => Err(EpochManagerError::UnknownCheckpointPeriod),
    }
}

/// The timestamp at which `epoch` starts, `zero + period * epoch`, or why it
/// cannot be told (the product must fit in an `i64`, and so must the sum).
pub open spec fn spec_epoch_timestamp(m: EpochManagerModel, epoch: Epoch) -> EpochResult<i64> {
    match (m.zero, m.period) {
        (Some(zero), Some(period)) => {
            let product = period * epoch.0;
            if product > i64::MAX || product + zero > i64::MAX || product + zero < i64::MIN {
                Err(EpochManagerError::Overflow)
            } else {
                Ok((product + zero) as i64)
            }
        },
        (None, _) => Err(EpochManagerError::UnknownEpochZero),
        (_, None) => Err(EpochManagerError::UnknownCheckpointPeriod),
    }
}

impl EpochManager {
    /// A known period is never zero.
    #[verifier::type_invariant]
    closed spec fn period_is_positive(&self) -> bool {
        self.checkpoint_period_seconds != Some(0u64)
    }

    /// An epoch manager that knows neither epoch zero nor the period.
    pub fn new() -> (r: Self)
        ensures
            r@.zero is None,
            r@.period is None,
    {
        EpochManager { epoch_zero_timestamp: None, checkpoint_period_seconds: None }
    }

    /// The timestamp of epoch zero, when known.
    pub fn epoch_zero_timestamp(&self) -> (r: Option<i64>)
        ensures
            r == self@.zero,
    {
        self.epoch_zero_timestamp
    }

    /// The checkpoint period in seconds, when known.
    pub fn checkpoint_period_seconds(&self) -> (r: Option<u64>)
        ensures
            r == self@.period,
    {
        self.checkpoint_period_seconds
    }

    /// Set the timestamp for the epoch zero
    pub fn set_epoch_zero(&mut self, timestamp: i64)
        ensures
            final(self)@.zero == Some(timestamp),
            final(self)@.period == old(self)@.period,
    {
        proof {
            use_type_invariant(&*self);
        }
        self.epoch_zero_timestamp = Some(timestamp);
    }

    /// Set the checkpoint period between epochs; a period of zero seconds is
    /// raised to the minimum of one second.
    pub fn set_period(&mut self, period: u64)
        ensures
            final(self)@.period == Some(if period == 0 { 1u64 } else { period }),
            final(self)@.zero == old(self)@.zero,
    {
        let period = if period == 0 { 1 } else { period };
        self.checkpoint_period_seconds = Some(period);
    }

    /// Takes the timestamp of epoch zero and the checkpoint period from the
    /// protocol's configuration.
    pub fn process_config(&mut self, epoch_zero_timestamp: i64, checkpoint_period: u64)
        ensures
            final(self)@.zero == Some(epoch_zero_timestamp),
            final(self)@.period == Some(if checkpoint_period == 0 { 1u64 } else { checkpoint_period }),
    {
        self.set_epoch_zero(epoch_zero_timestamp);
        self.set_period(checkpoint_period);
    }

    /// Calculate the epoch at the supplied timestamp
    pub fn epoch_at(&self, timestamp: i64) -> (r: EpochResult<Epoch>)
        requires
            self@.zero matches Some(zero) ==> (self@.period is Some ==> i64::MIN <= timestamp - zero <= i64::MAX),
        ensures
            r == spec_epoch_at(self@, timestamp),
            self@.period matches Some(p) ==> p > 0,
    {
        proof {
            use_type_invariant(self);
        }
        match (self.epoch_zero_timestamp, self.checkpoint_period_seconds) {
            (Some(zero), Some(period)) => {
                let elapsed = timestamp - zero;
                if elapsed < 0 {
                    Err(EpochManagerError::EpochZeroInTheFuture)
                } else {
                    let epoch = elapsed as u64 / period;
                    Ok(Epoch(epoch))
                }
            },
            (None, _) => Err(EpochManagerError::UnknownEpochZero),
            (_, None) => Err(EpochManagerError::UnknownCheckpointPeriod),
        }
    }

    /// Calculate the timestamp at the start of an epoch
    pub fn epoch_timestamp(&self, epoch: Epoch) -> (r: EpochResult<i64>)
        ensures
            r == spec_epoch_timestamp(self@, epoch),
    {
        match (self.epoch_zero_timestamp, self.checkpoint_period_seconds) {
            (Some(zero), Some(period)) => {
                // period * epoch + zero, with overflow checks
                match period.checked_mul(epoch.0) {
                    Some(x) => {
                        if x <= i64::MAX as u64 {
                            match (x as i64).checked_add(zero) {
                                Some(t) => Ok(t),
                                None => Err(EpochManagerError::Overflow),
                            }
                        } else {
                            Err(EpochManagerError::Overflow)
                        }
                    },
                    None => Err(EpochManagerError::Overflow),
                }
            },
            (None, _) => Err(EpochManagerError::UnknownEpochZero),
            (_, None) => Err(EpochManagerError::UnknownCheckpointPeriod),
        }
    }
}

impl Default for EpochManager {
    fn default() -> (r: Self)
        ensures
            r@.zero is None,
            r@.period is None,
    {
        EpochManager::new()
    }
}

/// An epoch's start timestamp lies in that epoch: when the start of `epoch`
/// can be computed, the epoch at that timestamp is `epoch` again.
pub proof fn lemma_epoch_at_of_epoch_timestamp(m: EpochManagerModel, epoch: Epoch)
    requires
        m.period matches Some(p) ==> p > 0,
        spec_epoch_timestamp(m, epoch) is Ok,
    ensures
        spec_epoch_at(m, spec_epoch_timestamp(m, epoch)->Ok_0) == Ok::<Epoch, EpochManagerError>(epoch),
{
    let zero = m.zero.unwrap();
    let p = m.period.unwrap();
    let e = epoch.0;
    assert((p * e) / (p as int) == e) by (nonlinear_arith)
        requires p > 0;
    assert(p * e >= 0) by (nonlinear_arith);
}

/// Every timestamp from the start of an epoch up to, but not including, the
/// start of the next one falls in that epoch.
pub proof fn lemma_timestamps_in_epoch(m: EpochManagerModel, epoch: Epoch, timestamp: i64)
    requires
        m.period matches Some(p) ==> p > 0,
        spec_epoch_timestamp(m, epoch) is Ok,
        spec_epoch_timestamp(m, epoch)->Ok_0 <= timestamp,
        timestamp < spec_epoch_timestamp(m, epoch)->Ok_0 + m.period.unwrap(),
    ensures
        spec_epoch_at(m, timestamp) == Ok::<Epoch, EpochManagerError>(epoch),
{
    let zero = m.zero.unwrap();
    let p = m.period.unwrap() as int;
    let e = epoch.0 as int;
    let d = timestamp - zero;
    assert(d / p == e) by (nonlinear_arith)
        requires p > 0, e >= 0, p * e <= d, d < p * e + p;
}

/// Later timestamps never fall in earlier epochs.
pub proof fn lemma_epoch_at_monotonic(m: EpochManagerModel, t1: i64, t2: i64)
    requires
        m.period matches Some(p) ==> p > 0,
        t1 <= t2,
        spec_epoch_at(m, t1) is Ok,
    ensures
        spec_epoch_at(m, t2) is Ok,
        spec_epoch_at(m, t1)->Ok_0.0 <= spec_epoch_at(m, t2)->Ok_0.0,
{
    let zero = m.zero.unwrap();
    let p = m.period.unwrap() as int;
    let d1 = t1 - zero;
    let d2 = t2 - zero;
    assert(d1 / p <= d2 / p) by (nonlinear_arith)
        requires p > 0, 0 <= d1 <= d2;
}

/// A known epoch starts no later than the timestamp it was computed from,
/// and the next epoch starts after it.
pub proof fn lemma_epoch_bounds(m: EpochManagerModel, timestamp: i64)
    requires
        m.period matches Some(p) ==> p > 0,
        spec_epoch_at(m, timestamp) is Ok,
    ensures
        ({
            let e = spec_epoch_at(m, timestamp)->Ok_0.0 as int;
            let p = m.period.unwrap() as int;
            let zero = m.zero.unwrap() as int;
            zero + p * e <= timestamp < zero + p * (e + 1)
        }),
{
    let zero = m.zero.unwrap() as int;
    let p = m.period.unwrap() as int;
    let d = timestamp - zero;
    assert(p * (d / p) <= d < p * (d / p + 1)) by (nonlinear_arith)
        requires p > 0, d >= 0;
}

} // verus!
