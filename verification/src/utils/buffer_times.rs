//! The durations that must lie between the key timestamps of a campaign.
//!
//! Every time-sensitive rule of the treasury compares the distance between
//! two timestamps with a minimum and, for most of them, a maximum. The
//! bounds form a policy, [`BufferTimes`], that is handed to the rules as a
//! value. Two policies are provided: the one used in production and a
//! relaxed one with a few seconds per bound.

use vstd::prelude::*;

verus! {

pub const SECONDS_PER_DAY: i64 = 60 * 60 * 24;

/// A month is counted as thirty days.
pub const DAYS_PER_MONTH: i64 = 30;

/// The number of seconds in `num_days` days.
pub open spec fn spec_days(num_days: int) -> int {
    SECONDS_PER_DAY * num_days
}

/// The number of seconds in `num_months` months of thirty days.
pub open spec fn spec_months(num_months: int) -> int {
    SECONDS_PER_DAY * DAYS_PER_MONTH * num_months
}

/// The number of seconds in `num_days` days, where that fits the type.
pub fn days(num_days: i64) -> (seconds: i64)
    requires
        i64::MIN <= spec_days(num_days as int) <= i64::MAX,
    ensures
        seconds == spec_days(num_days as int),
{
    SECONDS_PER_DAY * num_days
}

/// The number of seconds in `num_months` months, where that fits the type.
pub fn months(num_months: i64) -> (seconds: i64)
    requires
        i64::MIN <= spec_months(num_months as int) <= i64::MAX,
    ensures
        seconds == spec_months(num_months as int),
{
    SECONDS_PER_DAY * DAYS_PER_MONTH * num_months
}

/// The least durations of a profile, in seconds.
pub trait MinBufferTimesTrait {
    /// From now to the campaign end time.
    const NOW_TO_CAMPAIGN_END_TIME_IN_SECONDS: i64;

    /// From the campaign end time to the first payout.
    const CAMPAIGN_END_TIME_TO_INITIAL_PAYOUT_IN_SECONDS: i64;

    /// From one payout to the next.
    const PAYOUT_TIME_TO_NEXT_PAYOUT_TIME_IN_SECONDS: i64;

    /// From a payout to the end of its refund period.
    const PAYOUT_TIME_TO_REFUND_DEADLINE_IN_SECONDS: i64;

    /// From the last refund deadline to the closing of the escrow.
    const LAST_REFUND_DEADLINE_TO_CLOSE_ESCROW_IN_SECONDS: i64;
}

/// The greatest durations of a profile, in seconds. Nothing bounds from
/// above the time between the last refund deadline and the closing.
pub trait MaxBufferTimesTrait {
    /// From now to the campaign end time.
    const NOW_TO_CAMPAIGN_END_TIME_IN_SECONDS: i64;

    /// From the campaign end time to the first payout.
    const CAMPAIGN_END_TIME_TO_INITIAL_PAYOUT_IN_SECONDS: i64;

    /// From one payout to the next.
    const PAYOUT_TIME_TO_NEXT_PAYOUT_TIME_IN_SECONDS: i64;

    /// From a payout to the end of its refund period.
    const PAYOUT_TIME_TO_REFUND_DEADLINE_IN_SECONDS: i64;
}

/// The least durations used in production.
pub struct MinBufferTimes {}

impl MinBufferTimesTrait for MinBufferTimes {
    const NOW_TO_CAMPAIGN_END_TIME_IN_SECONDS: i64 = SECONDS_PER_DAY * 14;

    const CAMPAIGN_END_TIME_TO_INITIAL_PAYOUT_IN_SECONDS: i64 = SECONDS_PER_DAY * 3;

    const PAYOUT_TIME_TO_NEXT_PAYOUT_TIME_IN_SECONDS: i64 = SECONDS_PER_DAY * 30;

    const PAYOUT_TIME_TO_REFUND_DEADLINE_IN_SECONDS: i64 = SECONDS_PER_DAY * 30;

    const LAST_REFUND_DEADLINE_TO_CLOSE_ESCROW_IN_SECONDS: i64 = SECONDS_PER_DAY * 3;
}

/// The greatest durations used in production.
pub struct MaxBufferTimes {}

impl MaxBufferTimesTrait for MaxBufferTimes {
    const NOW_TO_CAMPAIGN_END_TIME_IN_SECONDS: i64 = SECONDS_PER_DAY * DAYS_PER_MONTH * 6;

    const CAMPAIGN_END_TIME_TO_INITIAL_PAYOUT_IN_SECONDS: i64 = SECONDS_PER_DAY * 14;

    const PAYOUT_TIME_TO_NEXT_PAYOUT_TIME_IN_SECONDS: i64 = SECONDS_PER_DAY * DAYS_PER_MONTH * 6;

    const PAYOUT_TIME_TO_REFUND_DEADLINE_IN_SECONDS: i64 = SECONDS_PER_DAY * DAYS_PER_MONTH * 3;
}

/// A least and a greatest duration, in seconds.
#[derive(Clone, Copy, Debug, PartialEq, Eq, Structural)]
pub struct Buffer {
    pub min: i64,
    pub max: i64,
}

impl Buffer {
    /// Whether the time from `time_start` to `time_end` lies within the
    /// buffer. The distance is taken over the integers, so no pair of
    /// timestamps is out of its reach.
    pub open spec fn admits(self, time_start: int, time_end: int) -> bool {
        within_buffer(time_start, time_end, self.min as int, self.max as int)
    }
}

/// Whether at least `min_time_buffer` seconds lie between the two times.
pub open spec fn min_time_buffer_holds(time_start: int, time_end: int, min_time_buffer: int) -> bool {
    time_end >= time_start + min_time_buffer
}

/// Whether at most `max_time_buffer` seconds lie between the two times.
pub open spec fn max_time_buffer_holds(time_start: int, time_end: int, max_time_buffer: int) -> bool {
    time_end <= time_start + max_time_buffer
}

/// Whether the time from `time_start` to `time_end` is at least `min` and
/// at most `max`.
pub open spec fn within_buffer(time_start: int, time_end: int, min: int, max: int) -> bool {
    min_time_buffer_holds(time_start, time_end, min) && max_time_buffer_holds(time_start, time_end, max)
}

/// The policy: the five buffers that gate the life of a campaign.
#[derive(Clone, Copy, Debug, PartialEq, Eq, Structural)]
pub struct BufferTimes {
    /// From now to the campaign end time.
    pub now_to_campaign_end_time: Buffer,
    /// From the campaign end time to the first payout.
    pub campaign_end_time_to_initial_payout: Buffer,
    /// From one payout to the next.
    pub payout_time_to_next_payout_time: Buffer,
    /// From a payout to the end of its refund period.
    pub payout_time_to_refund_deadline: Buffer,
    /// The least time from the last refund deadline to the closing of the
    /// escrow. Nothing bounds that time from above.
    pub last_refund_deadline_to_close_escrow: i64,
}

impl BufferTimes {
    /// The policy used in production: 14 days to 6 months up to the campaign
    /// end; 3 to 14 days from there to the first payout; 30 days to 6 months
    /// between payouts; 30 days to 3 months for refunds; 3 days or more
    /// before the escrow is closed.
    pub open spec fn spec_production() -> BufferTimes {
        BufferTimes {
            now_to_campaign_end_time: Buffer {
                min: spec_days(14) as i64,
                max: spec_months(6) as i64,
            },
            campaign_end_time_to_initial_payout: Buffer {
                min: spec_days(3) as i64,
                max: spec_days(14) as i64,
            },
            payout_time_to_next_payout_time: Buffer {
                min: spec_days(30) as i64,
                max: spec_months(6) as i64,
            },
            payout_time_to_refund_deadline: Buffer {
                min: spec_days(30) as i64,
                max: spec_months(3) as i64,
            },
            last_refund_deadline_to_close_escrow: spec_days(3) as i64,
        }
    }

    /// The relaxed policy: 2 to 10 seconds for each buffer, and 2 seconds or
    /// more before the escrow is closed.
    pub open spec fn spec_relaxed() -> BufferTimes {
        BufferTimes {
            now_to_campaign_end_time: Buffer { min: 2, max: 10 },
            campaign_end_time_to_initial_payout: Buffer { min: 2, max: 10 },
            payout_time_to_next_payout_time: Buffer { min: 2, max: 10 },
            payout_time_to_refund_deadline: Buffer { min: 2, max: 10 },
            last_refund_deadline_to_close_escrow: 2,
        }
    }

    pub fn production() -> (policy: BufferTimes)
        ensures
            policy == BufferTimes::spec_production(),
    {
        assert(SECONDS_PER_DAY * DAYS_PER_MONTH == 2_592_000);
        BufferTimes {
            now_to_campaign_end_time: Buffer {
                min: <MinBufferTimes as MinBufferTimesTrait>::NOW_TO_CAMPAIGN_END_TIME_IN_SECONDS,
                max: <MaxBufferTimes as MaxBufferTimesTrait>::NOW_TO_CAMPAIGN_END_TIME_IN_SECONDS,
            },
            campaign_end_time_to_initial_payout: Buffer {
                min: <MinBufferTimes as MinBufferTimesTrait>::CAMPAIGN_END_TIME_TO_INITIAL_PAYOUT_IN_SECONDS,
                max: <MaxBufferTimes as MaxBufferTimesTrait>::CAMPAIGN_END_TIME_TO_INITIAL_PAYOUT_IN_SECONDS,
            },
            payout_time_to_next_payout_time: Buffer {
                min: <MinBufferTimes as MinBufferTimesTrait>::PAYOUT_TIME_TO_NEXT_PAYOUT_TIME_IN_SECONDS,
                max: <MaxBufferTimes as MaxBufferTimesTrait>::PAYOUT_TIME_TO_NEXT_PAYOUT_TIME_IN_SECONDS,
            },
            payout_time_to_refund_deadline: Buffer {
                min: <MinBufferTimes as MinBufferTimesTrait>::PAYOUT_TIME_TO_REFUND_DEADLINE_IN_SECONDS,
                max: <MaxBufferTimes as MaxBufferTimesTrait>::PAYOUT_TIME_TO_REFUND_DEADLINE_IN_SECONDS,
            },
            last_refund_deadline_to_close_escrow:
                <MinBufferTimes as MinBufferTimesTrait>::LAST_REFUND_DEADLINE_TO_CLOSE_ESCROW_IN_SECONDS,
        }
    }

    pub fn relaxed() -> (policy: BufferTimes)
        ensures
            policy == BufferTimes::spec_relaxed(),
    {
        BufferTimes {
            now_to_campaign_end_time: Buffer { min: 2, max: 10 },
            campaign_end_time_to_initial_payout: Buffer { min: 2, max: 10 },
            payout_time_to_next_payout_time: Buffer { min: 2, max: 10 },
            payout_time_to_refund_deadline: Buffer { min: 2, max: 10 },
            last_refund_deadline_to_close_escrow: 2,
        }
    }
}

} // verus!
