//! The master-side model of the bus: one record per slave, one group record
//! per segment, and the distributed-clock bookkeeping.
//!
//! The transport layer owns the wire; this context owns what the master
//! knows about it, as plain values. Every capability takes the context
//! explicitly — there is no process-global state. The SYNC0 cycle that the
//! transport's post-config hook needs is kept in an owned slot inside the
//! context and copied into a per-slave config table.

use vstd::prelude::*;

use crate::state::{EC_STATE_INIT, State};

verus! {

/// Largest number of slaves a chain can address (configured addresses are
/// 16-bit).
pub const MAX_SLAVES: usize = 0xFFFF;

/// What the master knows of one slave.
#[derive(Clone, Debug)]
pub struct SlaveRecord {
    /// The configured (fixed) address, opaque to the core.
    pub configadr: u16,
    /// The application-layer state last read from the slave.
    pub state: State,
    /// Set when the slave stopped responding and has not been recovered.
    pub islost: bool,
    /// The vendor name the slave identified itself with.
    pub name: String,
    /// Output (TX) bytes this slave consumes per cycle.
    pub obytes: u32,
    /// Input (RX) bytes this slave produces per cycle.
    pub ibytes: u32,
    /// SYNC0 cycle in nanoseconds to program on state promotion, if any.
    pub sync0_cycle_ns: Option<u64>,
}

/// The per-segment aggregate: supervisor flag and expected working-counter
/// contributions.
#[derive(Clone, Copy, Debug)]
pub struct GroupRecord {
    /// The supervisor's "work pending" flag.
    pub docheckstate: bool,
    /// Expected working-counter contribution of the outputs.
    pub outputs_wkc: u16,
    /// Expected working-counter contribution of the inputs.
    pub inputs_wkc: u16,
}

/// The explicit master context.
pub struct Context {
    /// The pseudo-slave with index 0, standing for the whole chain.
    pub aggregate: SlaveRecord,
    /// The discovered slaves, in ring order; slave `i` on the bus is
    /// `slaves[i - 1]`.
    pub slaves: Vec<SlaveRecord>,
    /// The process-data group.
    pub group: GroupRecord,
    /// The last distributed-clock time handed back by the transport.
    pub dctime: i64,
    /// The SYNC0 cycle configured for the chain, in nanoseconds.
    pub sync0_cycle_ns: Option<u64>,
}

impl Context {
    /// The chain is addressable.
    pub open spec fn wf(self) -> bool {
        self.slaves@.len() <= MAX_SLAVES
    }

    /// A fresh, empty context: nothing discovered, nothing configured.
    pub fn new() -> (r: Context)
        ensures
            r.wf(),
            r.slaves@.len() == 0,
            !r.group.docheckstate,
            r.group.outputs_wkc == 0,
            r.group.inputs_wkc == 0,
            r.dctime == 0,
            r.sync0_cycle_ns is None,
            r.aggregate.state.value == 0,
    {
        Context {
            aggregate: SlaveRecord {
                configadr: 0,
                state: State::new(0),
                islost: false,
                name: String::new(),
                obytes: 0,
                ibytes: 0,
                sync0_cycle_ns: None,
            },
            slaves: Vec::new(),
            group: GroupRecord { docheckstate: false, outputs_wkc: 0, inputs_wkc: 0 },
            dctime: 0,
            sync0_cycle_ns: None,
        }
    }

    /// Records the SYNC0 cycle for the chain, as the distributed-clock
    /// configuration step does.
    pub fn configdc(&mut self, cycle_ns: u64)
        ensures
            *final(self) == (Context { sync0_cycle_ns: Some(cycle_ns), ..*old(self) }),
    {
        self.sync0_cycle_ns = Some(cycle_ns);
    }

    /// Copies the configured SYNC0 cycle into every slave's config slot, so
    /// the transport's post-config hook finds it there.
    pub fn set_po2so_config(&mut self)
        ensures
            final(self).slaves@.len() == old(self).slaves@.len(),
            forall|i: int|
                0 <= i < old(self).slaves@.len() ==> (#[trigger] final(self).slaves@[i])
                    == (SlaveRecord {
                    sync0_cycle_ns: old(self).sync0_cycle_ns,
                    ..old(self).slaves@[i]
                }),
            final(self).aggregate == old(self).aggregate,
            final(self).group == old(self).group,
            final(self).dctime == old(self).dctime,
            final(self).sync0_cycle_ns == old(self).sync0_cycle_ns,
    {
        let n = self.slaves.len();
        let mut i: usize = 0;
        while i < n
            invariant
                self.slaves@.len() == n,
                n == old(self).slaves@.len(),
                i <= n,
                forall|k: int|
                    0 <= k < i ==> (#[trigger] self.slaves@[k]) == (SlaveRecord {
                        sync0_cycle_ns: old(self).sync0_cycle_ns,
                        ..old(self).slaves@[k]
                    }),
                forall|k: int| i <= k < n ==> self.slaves@[k] == old(self).slaves@[k],
                self.aggregate == old(self).aggregate,
                self.group == old(self).group,
                self.dctime == old(self).dctime,
                self.sync0_cycle_ns == old(self).sync0_cycle_ns,
            decreases n - i,
        {
            let cycle = self.sync0_cycle_ns;
            let rec = &mut self.slaves[i];
            rec.sync0_cycle_ns = cycle;
            i = i + 1;
        }
    }

    /// The supervisor's "work pending" flag.
    pub fn docheckstate(&self) -> (r: bool)
        ensures
            r == self.group.docheckstate,
    {
        self.group.docheckstate
    }

    /// The state of slave `idx`; index 0 is the whole-chain pseudo-slave.
    pub fn fetch_state(&self, idx: usize) -> (r: State)
        requires
            idx <= self.slaves@.len(),
        ensures
            r == self.state_at(idx as int),
    {
        if idx == 0 {
            self.aggregate.state
        } else {
            self.slaves[idx - 1].state
        }
    }

    /// The state of slave `idx` (0 meaning the whole chain), for
    /// specifications.
    pub open spec fn state_at(self, idx: int) -> State {
        if idx == 0 {
            self.aggregate.state
        } else {
            self.slaves@[idx - 1].state
        }
    }

    /// Requests state `state` of slave `idx`; index 0 addresses the whole
    /// chain.
    pub fn set_state(&mut self, idx: usize, state: State)
        requires
            idx <= old(self).slaves@.len(),
        ensures
            final(self).state_at(idx as int) == state,
            idx == 0 ==> *final(self) == (Context {
                aggregate: SlaveRecord { state, ..old(self).aggregate },
                ..*old(self)
            }),
            idx > 0 ==> *final(self) == (Context {
                slaves: final(self).slaves,
                ..*old(self)
            }) && final(self).slaves@ == old(self).slaves@.update(
                idx - 1,
                SlaveRecord { state, ..old(self).slaves@[idx as int - 1] },
            ),
    {
        if idx == 0 {
            self.aggregate.state = state;
        } else {
            let rec = &mut self.slaves[idx - 1];
            rec.state = state;
            proof {
                assert(self.slaves@ =~= old(self).slaves@.update(
                    idx - 1,
                    SlaveRecord { state, ..old(self).slaves@[idx as int - 1] },
                ));
            }
        }
    }

    /// The distributed-clock time of the last process-data exchange.
    pub fn dctime(&self) -> (r: i64)
        ensures
            r == self.dctime,
    {
        self.dctime
    }

    /// Stores the distributed-clock time the transport reported.
    pub fn set_dctime(&mut self, t: i64)
        ensures
            *final(self) == (Context { dctime: t, ..*old(self) }),
    {
        self.dctime = t;
    }

    /// The working counter a healthy cycle must reach: outputs count twice,
    /// inputs once.
    pub fn expected_wkc(&self) -> (r: i32)
        ensures
            r == 2 * self.group.outputs_wkc + self.group.inputs_wkc,
    {
        2 * (self.group.outputs_wkc as i32) + (self.group.inputs_wkc as i32)
    }

    /// The number of discovered slaves.
    pub fn num_devices(&self) -> (r: usize)
        ensures
            r == self.slaves@.len(),
    {
        self.slaves.len()
    }

    /// The record of the `idx`-th discovered slave (0-based).
    pub fn slave(&self, idx: usize) -> (r: &SlaveRecord)
        requires
            idx < self.slaves@.len(),
        ensures
            *r == self.slaves@[idx as int],
    {
        &self.slaves[idx]
    }

    /// All discovered slaves.
    pub fn slaves(&self) -> (r: &Vec<SlaveRecord>)
        ensures
            r@ == self.slaves@,
    {
        &self.slaves
    }

    /// All discovered slaves, for mutation.
    pub fn slaves_mut(&mut self) -> (r: &mut Vec<SlaveRecord>)
        ensures
            *r == old(self).slaves,
            *final(self) == (Context { slaves: *final(r), ..*old(self) }),
    {
        &mut self.slaves
    }

    /// Models the shutdown bookkeeping: the SYNC0 slot is emptied (the
    /// transport disables SYNC0 on every slave) and the whole chain is
    /// requested back to INIT.
    pub fn close(&mut self)
        ensures
            final(self).sync0_cycle_ns is None,
            final(self).aggregate == (SlaveRecord {
                state: State { value: EC_STATE_INIT },
                ..old(self).aggregate
            }),
            final(self).slaves@.len() == old(self).slaves@.len(),
            forall|i: int|
                0 <= i < old(self).slaves@.len() ==> (#[trigger] final(self).slaves@[i])
                    == (SlaveRecord { sync0_cycle_ns: None, ..old(self).slaves@[i] }),
            final(self).group == old(self).group,
            final(self).dctime == old(self).dctime,
    {
        self.sync0_cycle_ns = None;
        self.set_po2so_config();
        self.aggregate.state = State::new(EC_STATE_INIT);
    }
}

} // verus!
