//! Limits configuration for compiling a gurgle command, and the running
//! counters that enforce it over one compilation pass.

use vstd::prelude::*;

use crate::error::CompileError;

verus! {

/// Gurgle command limitation configuration.
#[derive(Debug, Clone, PartialEq, Eq, Hash)]
pub struct Config {
    /// How many items a gurgle expression may contain.
    pub max_item_count: u64,
    /// How many sides a dice may have.
    pub max_dice_sides: u64,
    /// How many roll times (sum over all dice of the expression) are allowed.
    pub max_roll_times: u64,
    /// Max magnitude of a number item.
    pub max_number_item_value: u64,
}

/// The default limits: 20 items, 1000 sides, 100 roll times, number
/// magnitude 65536.
pub open spec fn default_config() -> Config {
    Config {
        max_item_count: 20,
        max_dice_sides: 1000,
        max_roll_times: 100,
        max_number_item_value: 65536,
    }
}

impl Config {
    /// Default configuration.
    ///
    /// - max item count: 20
    /// - max dice sides: 1000
    /// - max roll times: 100
    /// - max number item: 65536
    pub fn default() -> (r: Self)
        ensures
            r == default_config(),
    {
        Self {
            max_item_count: 20,
            max_dice_sides: 1000,
            max_roll_times: 100,
            max_number_item_value: 65536,
        }
    }

    /// A copy of this config which only changes max item count.
    pub fn max_item_count(self, c: u64) -> (r: Self)
        ensures
            r.max_item_count == c,
            r.max_dice_sides == self.max_dice_sides,
            r.max_roll_times == self.max_roll_times,
            r.max_number_item_value == self.max_number_item_value,
    {
        Self { max_item_count: c, ..self }
    }

    /// A copy of this config which only changes max dice sides.
    pub fn max_dice_sides(self, c: u64) -> (r: Self)
        ensures
            r.max_item_count == self.max_item_count,
            r.max_dice_sides == c,
            r.max_roll_times == self.max_roll_times,
            r.max_number_item_value == self.max_number_item_value,
    {
        Self { max_dice_sides: c, ..self }
    }

    /// A copy of this config which only changes max roll times.
    pub fn max_roll_times(self, c: u64) -> (r: Self)
        ensures
            r.max_item_count == self.max_item_count,
            r.max_dice_sides == self.max_dice_sides,
            r.max_roll_times == c,
            r.max_number_item_value == self.max_number_item_value,
    {
        Self { max_roll_times: c, ..self }
    }

    /// A copy of this config which only changes max number item value.
    pub fn max_number_item_value(self, c: u64) -> (r: Self)
        ensures
            r.max_item_count == self.max_item_count,
            r.max_dice_sides == self.max_dice_sides,
            r.max_roll_times == self.max_roll_times,
            r.max_number_item_value == c,
    {
        Self { max_number_item_value: c, ..self }
    }
}

/// The magnitude of a signed number, as a mathematical integer.
pub open spec fn abs_of(n: i64) -> int {
    if n >= 0 {
        n as int
    } else {
        -(n as int)
    }
}

/// Add two counters, stopping at `u64::MAX` instead of wrapping.
///
/// The running counters of a [`Limit`] use saturating addition: a counter
/// that has saturated exceeds every practical limit, so the corresponding
/// check still fails as it should.
pub open spec fn sat_add(a: u64, b: u64) -> u64 {
    if a + b > u64::MAX {
        u64::MAX
    } else {
        (a + b) as u64
    }
}

/// Running counters over one compilation pass, checked against a borrowed
/// [`Config`]. Discarded once compilation ends.
#[derive(Debug)]
pub struct Limit<'c> {
    /// The configuration this tracker checks against.
    pub config: &'c Config,
    /// How many items the pass has seen so far.
    pub item_count: u64,
    /// Sum of the roll times of all dice the pass has seen so far.
    pub roll_times: u64,
}

impl<'c> Limit<'c> {
    /// The configuration this tracker checks against.
    pub open spec fn cfg(&self) -> Config {
        *self.config
    }

    /// Create a tracker with both counters at zero.
    pub fn new(config: &'c Config) -> (r: Self)
        ensures
            r.cfg() == *config,
            r.item_count == 0,
            r.roll_times == 0,
    {
        Self { config, item_count: 0, roll_times: 0 }
    }

    /// Count one more item; fails once the count exceeds the configured
    /// maximum (so the maximum itself is still an allowed count).
    pub fn inc_item_count(&mut self) -> (r: Result<(), CompileError>)
        ensures
            final(self).cfg() == old(self).cfg(),
            final(self).roll_times == old(self).roll_times,
            final(self).item_count == sat_add(old(self).item_count, 1),
            match r {
                Ok(()) => final(self).item_count <= old(self).cfg().max_item_count,
                Err(e) => final(self).item_count > old(self).cfg().max_item_count
                    && e is ItemCountLimitExceeded,
            },
    {
        if self.item_count < u64::MAX {
            self.item_count = self.item_count + 1;
        }
        self.check_item_count()
    }

    /// Add a dice's roll times to the running sum, which is shared across
    /// all dice of one expression; fails once the sum exceeds the
    /// configured maximum.
    pub fn inc_roll_times(&mut self, times: u64) -> (r: Result<(), CompileError>)
        ensures
            final(self).cfg() == old(self).cfg(),
            final(self).item_count == old(self).item_count,
            final(self).roll_times == sat_add(old(self).roll_times, times),
            match r {
                Ok(()) => final(self).roll_times <= old(self).cfg().max_roll_times,
                Err(e) => final(self).roll_times > old(self).cfg().max_roll_times
                    && e is DiceRollTimesLimitExceeded,
            },
    {
        if times > u64::MAX - self.roll_times {
            self.roll_times = u64::MAX;
        } else {
            self.roll_times = self.roll_times + times;
        }
        self.check_roll_times()
    }

    /// Check a number item's magnitude against the configured maximum.
    pub fn check_number_item(&self, num: i64) -> (r: Result<(), CompileError>)
        ensures
            match r {
                Ok(()) => abs_of(num) <= self.cfg().max_number_item_value,
                Err(e) => abs_of(num) > self.cfg().max_number_item_value
                    && e is NumberItemOutOfRange,
            },
    {
        let mag: u64 = if num >= 0 {
            num as u64
        } else {
            (-(num as i128)) as u64
        };
        if mag > self.config.max_number_item_value {
            return Err(CompileError::NumberItemOutOfRange);
        }
        Ok(())
    }

    /// Check a dice spec: both counts must be positive, the roll times at
    /// most the configured roll-times maximum, and the side count at most
    /// the configured side maximum, reported in that order.
    pub fn check_dice(&self, times: i64, sided: i64) -> (r: Result<(), CompileError>)
        ensures
            r == spec_check_dice(times, sided, self.cfg()),
    {
        if times <= 0 || sided <= 0 {
            return Err(CompileError::DiceRollOrSidedNegative);
        }
        if times as u64 > self.config.max_roll_times {
            return Err(CompileError::DiceRollTimesLimitExceeded);
        }
        if sided as u64 > self.config.max_dice_sides {
            return Err(CompileError::DiceSidedCountLimitExceeded);
        }
        Ok(())
    }

    fn check_item_count(&self) -> (r: Result<(), CompileError>)
        ensures
            match r {
                Ok(()) => self.item_count <= self.cfg().max_item_count,
                Err(e) => self.item_count > self.cfg().max_item_count
                    && e is ItemCountLimitExceeded,
            },
    {
        if self.item_count > self.config.max_item_count {
            Err(CompileError::ItemCountLimitExceeded)
        } else {
            Ok(())
        }
    }

    fn check_roll_times(&self) -> (r: Result<(), CompileError>)
        ensures
            match r {
                Ok(()) => self.roll_times <= self.cfg().max_roll_times,
                Err(e) => self.roll_times > self.cfg().max_roll_times
                    && e is DiceRollTimesLimitExceeded,
            },
    {
        if self.roll_times > self.config.max_roll_times {
            Err(CompileError::DiceRollTimesLimitExceeded)
        } else {
            Ok(())
        }
    }

    /// Check both running counters, reporting the item count first.
    pub fn check(&self) -> (r: Result<(), CompileError>)
        ensures
            match r {
                Ok(()) => self.item_count <= self.cfg().max_item_count
                    && self.roll_times <= self.cfg().max_roll_times,
                Err(e) => if self.item_count > self.cfg().max_item_count {
                    e is ItemCountLimitExceeded
                } else {
                    self.roll_times > self.cfg().max_roll_times
                        && e is DiceRollTimesLimitExceeded
                },
            },
    {
        match self.check_item_count() {
            Ok(()) => self.check_roll_times(),
            Err(e) => Err(e),
        }
    }
}

/// What [`Limit::check_dice`] returns, with the checks in order: positivity,
/// roll times, side count.
pub open spec fn spec_check_dice(times: i64, sided: i64, cfg: Config) -> Result<
    (),
    CompileError,
> {
    if times <= 0 || sided <= 0 {
        Err(CompileError::DiceRollOrSidedNegative)
    } else if times > cfg.max_roll_times {
        Err(CompileError::DiceRollTimesLimitExceeded)
    } else if sided > cfg.max_dice_sides {
        Err(CompileError::DiceSidedCountLimitExceeded)
    } else {
        Ok(())
    }
}

} // verus!
