//! The distributed-clock synchronization phase: decoding the per-slave
//! system-time difference register and deciding when the chain is in sync.
//!
//! While a helper thread keeps distributing the reference clock with
//! broadcast reads of `DCSYSTIME`, the waiter polls every other slave's
//! `DCSYSDIFF` register, decodes the sign-magnitude value into signed
//! nanoseconds, damps it with a per-slave moving average, and succeeds once
//! the largest filtered magnitude falls below the tolerance — or gives up
//! on timeout. A failed register read reuses the slave's previous raw
//! value.

use vstd::prelude::*;

use crate::smoothing::Smoothing;

verus! {

/// Register address of the distributed-clock system time.
pub const ECT_REG_DCSYSTIME: u16 = 0x0910;
/// Register address of the distributed-clock system-time difference.
pub const ECT_REG_DCSYSDIFF: u16 = 0x092C;
/// Timeout of one datagram round trip, in microseconds.
pub const EC_TIMEOUTRET: u32 = 2000;
/// Timeout of a state transition, in microseconds.
pub const EC_TIMEOUTSTATE: u32 = 2_000_000;

/// The filter samples are kept in hundredths of a nanosecond.
pub const DIFF_SCALE: i64 = 100;

/// The smoothing factor used on DC differences is 1/5.
pub const DIFF_ALPHA_NUM: i64 = 1;
/// Denominator of the smoothing factor.
pub const DIFF_ALPHA_DEN: i64 = 5;

/// The signed nanosecond offset a raw `DCSYSDIFF` word denotes: the top bit
/// is the sign, the low 31 bits the magnitude (not two's complement).
pub open spec fn dcsysdiff_decoded(raw: u32) -> int {
    if raw & 0x8000_0000u32 != 0 {
        -((raw & 0x7fff_ffffu32) as int)
    } else {
        raw as int
    }
}

/// Decodes a raw `DCSYSDIFF` register value into signed nanoseconds.
pub fn decode_dcsysdiff(raw: u32) -> (r: i32)
    ensures
        r == dcsysdiff_decoded(raw),
{
    if raw & 0x8000_0000u32 != 0 {
        proof {
            assert((raw & 0x7fff_ffffu32) <= 0x7fff_ffffu32) by (bit_vector);
        }
        -((raw & 0x7fff_ffffu32) as i32)
    } else {
        proof {
            assert(raw & 0x8000_0000u32 == 0 ==> raw <= 0x7fff_ffffu32) by (bit_vector);
        }
        raw as i32
    }
}

/// The raw value to use this round: the fresh reading, or the previous one
/// when the register read failed.
pub open spec fn updated_raw(reading: Option<u32>, last: u32) -> u32 {
    match reading {
        Option::Some(v) => v,
        Option::None => last,
    }
}

/// The scaled sample fed to a slave's filter this round.
pub open spec fn step_sample(reading: Option<u32>, last: u32) -> int {
    DIFF_SCALE * dcsysdiff_decoded(updated_raw(reading, last))
}

/// The filtered values all slaves report this round.
pub open spec fn step_outputs(
    filters: Seq<Smoothing>,
    readings: Seq<Option<u32>>,
    last: Seq<u32>,
) -> Seq<int> {
    Seq::new(filters.len(), |k: int| filters[k].next_value(step_sample(readings[k], last[k])))
}

/// The largest magnitude in a sequence; zero when it is empty.
pub open spec fn max_abs_seq(s: Seq<int>) -> int
    decreases s.len(),
{
    if s.len() == 0 {
        0
    } else {
        let rest = max_abs_seq(s.drop_last());
        let a = if s.last() >= 0 {
            s.last()
        } else {
            -s.last()
        };
        if a > rest {
            a
        } else {
            rest
        }
    }
}

/// The per-slave state of the synchronization waiter: the last raw reading
/// and the moving-average filter of every slave but the reference one.
pub struct SyncMonitor {
    /// Last raw `DCSYSDIFF` word per monitored slave.
    pub last_raw: Vec<u32>,
    /// Moving-average filter per monitored slave.
    pub filters: Vec<Smoothing>,
}

impl SyncMonitor {
    /// Both vectors cover the same slaves and every filter is valid.
    pub open spec fn wf(self) -> bool {
        &&& self.last_raw@.len() == self.filters@.len()
        &&& forall|k: int|
            0 <= k < self.filters@.len() ==> (#[trigger] self.filters@[k]).wf()
                && self.filters@[k].alpha_num == DIFF_ALPHA_NUM && self.filters@[k].alpha_den
                == DIFF_ALPHA_DEN
    }

    /// A monitor for `num_others` slaves beyond the reference one, with
    /// every raw value primed to the tolerance.
    pub fn new(num_others: usize, tolerance_ns: u32) -> (r: SyncMonitor)
        ensures
            r.wf(),
            r.last_raw@.len() == num_others,
            forall|k: int| 0 <= k < num_others ==> r.last_raw@[k] == tolerance_ns,
            forall|k: int| 0 <= k < num_others ==> (#[trigger] r.filters@[k]).current is None,
    {
        let mut last_raw: Vec<u32> = Vec::new();
        let mut filters: Vec<Smoothing> = Vec::new();
        let mut i: usize = 0;
        while i < num_others
            invariant
                i <= num_others,
                last_raw@.len() == i,
                filters@.len() == i,
                forall|k: int| 0 <= k < i ==> last_raw@[k] == tolerance_ns,
                forall|k: int|
                    0 <= k < i ==> (#[trigger] filters@[k]).wf() && filters@[k].alpha_num
                        == DIFF_ALPHA_NUM && filters@[k].alpha_den == DIFF_ALPHA_DEN
                        && filters@[k].current is None,
            decreases num_others - i,
        {
            last_raw.push(tolerance_ns);
            filters.push(Smoothing::new(DIFF_ALPHA_NUM, DIFF_ALPHA_DEN));
            i = i + 1;
        }
        SyncMonitor { last_raw, filters }
    }

    /// One polling round: adopts the fresh readings, feeds every filter,
    /// and reports the largest filtered magnitude, in hundredths of a
    /// nanosecond.
    pub fn step(&mut self, readings: &Vec<Option<u32>>) -> (max_diff: i64)
        requires
            old(self).wf(),
            readings@.len() == old(self).last_raw@.len(),
        ensures
            final(self).wf(),
            final(self).last_raw@.len() == old(self).last_raw@.len(),
            forall|k: int|
                0 <= k < readings@.len() ==> final(self).last_raw@[k] == updated_raw(
                    #[trigger] readings@[k],
                    old(self).last_raw@[k],
                ),
            forall|k: int|
                0 <= k < readings@.len() ==> (#[trigger] final(self).filters@[k]).current
                    == Some(
                    old(self).filters@[k].next_value(
                        step_sample(readings@[k], old(self).last_raw@[k]),
                    ) as i64,
                ),
            max_diff == max_abs_seq(
                step_outputs(old(self).filters@, readings@, old(self).last_raw@),
            ),
            max_diff >= 0,
    {
        let n = self.last_raw.len();
        let ghost outs = step_outputs(old(self).filters@, readings@, old(self).last_raw@);
        let mut max_diff: i64 = 0;
        let mut i: usize = 0;
        while i < n
            invariant
                old(self).wf(),
                n == old(self).last_raw@.len(),
                readings@.len() == n,
                self.last_raw@.len() == n,
                self.filters@.len() == n,
                i <= n,
                outs == step_outputs(old(self).filters@, readings@, old(self).last_raw@),
                forall|k: int|
                    0 <= k < i ==> self.last_raw@[k] == updated_raw(
                        #[trigger] readings@[k],
                        old(self).last_raw@[k],
                    ),
                forall|k: int| i <= k < n ==> self.last_raw@[k] == old(self).last_raw@[k],
                forall|k: int|
                    0 <= k < i ==> (#[trigger] self.filters@[k]).current == Some(
                        old(self).filters@[k].next_value(
                            step_sample(readings@[k], old(self).last_raw@[k]),
                        ) as i64,
                    ) && self.filters@[k].wf() && self.filters@[k].alpha_num == DIFF_ALPHA_NUM
                        && self.filters@[k].alpha_den == DIFF_ALPHA_DEN,
                forall|k: int| i <= k < n ==> self.filters@[k] == old(self).filters@[k],
                max_diff == max_abs_seq(outs.take(i as int)),
                max_diff >= 0,
            decreases n - i,
        {
            let raw: u32 = match readings[i] {
                Option::Some(v) => {
                    self.last_raw.set(i, v);
                    v
                },
                Option::None => self.last_raw[i],
            };
            let decoded: i32 = decode_dcsysdiff(raw);
            let x: i64 = (decoded as i64) * DIFF_SCALE;
            let mut f: Smoothing = self.filters[i];
            let filtered: i64 = f.push(x);
            self.filters.set(i, f);
            let a: i64 = if filtered >= 0 {
                filtered
            } else {
                -filtered
            };
            if a > max_diff {
                max_diff = a;
            }
            i = i + 1;
            proof {
                assert(outs.take(i as int).drop_last() =~= outs.take(i - 1));
                assert(outs.take(i as int).last() == outs[i - 1]);
            }
        }
        proof {
            assert(outs.take(n as int) =~= outs);
        }
        max_diff
    }
}

/// What the waiter does after a polling round.
#[derive(Clone, Copy, Debug, PartialEq, Eq, Structural)]
pub enum SyncDecision {
    /// The chain is synchronized: the phase succeeds.
    Synchronized,
    /// The timeout passed first: the phase fails.
    TimedOut,
    /// Neither yet: poll again.
    Continue,
}

/// The decision after a round, over the same quantities the waiter holds.
pub open spec fn sync_decision_spec(
    max_diff_scaled: int,
    tolerance_ns: int,
    elapsed_ns: int,
    timeout_ns: int,
) -> SyncDecision {
    if max_diff_scaled < DIFF_SCALE * tolerance_ns {
        SyncDecision::Synchronized
    } else if elapsed_ns > timeout_ns {
        SyncDecision::TimedOut
    } else {
        SyncDecision::Continue
    }
}

/// Decides whether the chain counts as synchronized: success when the
/// largest filtered magnitude is below the tolerance, failure when the
/// timeout passed first, another round otherwise.
pub fn sync_decision(max_diff_scaled: i64, tolerance_ns: u32, elapsed_ns: u64, timeout_ns: u64) -> (
    r: SyncDecision)
    ensures
        r == sync_decision_spec(
            max_diff_scaled as int,
            tolerance_ns as int,
            elapsed_ns as int,
            timeout_ns as int,
        ),
{
    if max_diff_scaled < DIFF_SCALE * (tolerance_ns as i64) {
        SyncDecision::Synchronized
    } else if elapsed_ns > timeout_ns {
        SyncDecision::TimedOut
    } else {
        SyncDecision::Continue
    }
}

/// With a single device there is no other clock to compare against: the
/// monitor reports a zero difference and the phase succeeds at once for any
/// positive tolerance.
pub proof fn lemma_single_device_syncs_immediately(
    filters: Seq<Smoothing>,
    readings: Seq<Option<u32>>,
    last: Seq<u32>,
    tolerance_ns: int,
    elapsed_ns: int,
    timeout_ns: int,
)
    requires
        filters.len() == 0,
        tolerance_ns > 0,
    ensures
        max_abs_seq(step_outputs(filters, readings, last)) == 0,
        sync_decision_spec(
            max_abs_seq(step_outputs(filters, readings, last)),
            tolerance_ns,
            elapsed_ns,
            timeout_ns,
        ) == SyncDecision::Synchronized,
{
    assert(step_outputs(filters, readings, last).len() == 0);
}

} // verus!
