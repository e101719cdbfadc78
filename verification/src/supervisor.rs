//! The slave supervisor: classifies each slave's state and decides the
//! acknowledge / reconfigure / recover transitions that bring the chain back
//! to OPERATIONAL.
//!
//! A supervisor sweep has three parts. `observe` walks the freshly read
//! states, acknowledges errors, promotes SAFE_OP slaves, and emits follow-up
//! commands where the bus must be asked first. The caller performs each
//! command and feeds the outcome to `apply_followup`. `recovery_commands`
//! then decides which lost slaves to recover; each outcome goes through
//! `apply_recover`, and `finish` reports whether the whole chain resumed.
//! The caller writes a slave's recorded state back to the bus whenever a
//! callback was emitted for it, and zeroes a slave's input frame when it is
//! reported lost, so stale telemetry is never read.

use vstd::prelude::*;

use crate::context::{Context, SlaveRecord};
use crate::state::{
    EC_STATE_ACK, EC_STATE_ERROR, EC_STATE_NONE, EC_STATE_OPERATIONAL, EC_STATE_PRE_OP,
    EC_STATE_SAFE_OP, State,
};
use crate::status::Status;

verus! {

/// A bus interaction the supervisor asks its caller to perform on one slave
/// (identified by its 1-based bus index).
#[derive(Clone, Copy, Debug, PartialEq, Eq, Structural)]
pub enum FollowUp {
    /// Re-run the slave's configuration.
    Reconfig(u16),
    /// Poll the slave once more for OPERATIONAL to confirm a loss.
    Probe(u16),
}

/// The outcome of a follow-up command.
#[derive(Clone, Copy, Debug, PartialEq, Eq, Structural)]
pub enum FollowUpResponse {
    /// The state the reconfiguration reached.
    Reconfig(i32),
    /// The state word observed after the probe.
    Probe(u16),
}

/// The slave index a follow-up command addresses.
pub open spec fn followup_index(cmd: FollowUp) -> u16 {
    match cmd {
        FollowUp::Reconfig(i) => i,
        FollowUp::Probe(i) => i,
    }
}

/// The callback the observation sweep emits for one slave, if any: an error
/// acknowledgement or a promotion out of SAFE_OP.
pub open spec fn phase1_status(r: SlaveRecord) -> Option<Status> {
    if r.state.value == EC_STATE_OPERATIONAL {
        None
    } else if r.state.base() == EC_STATE_SAFE_OP && (r.state.value & EC_STATE_ERROR) != 0 {
        Some(Status::Error)
    } else if r.state.base() == EC_STATE_SAFE_OP {
        Some(Status::StateChanged)
    } else {
        None
    }
}

/// The state the observation sweep records for one slave: the ERROR case is
/// acknowledged, plain SAFE_OP is promoted, everything else is kept.
pub open spec fn phase1_state(r: SlaveRecord) -> State {
    if r.state.value == EC_STATE_OPERATIONAL {
        r.state
    } else if r.state.base() == EC_STATE_SAFE_OP && (r.state.value & EC_STATE_ERROR) != 0 {
        State { value: (EC_STATE_SAFE_OP + EC_STATE_ACK) as u16 }
    } else if r.state.base() == EC_STATE_SAFE_OP {
        State { value: EC_STATE_OPERATIONAL }
    } else {
        r.state
    }
}

/// The follow-up command the observation sweep emits for one slave, if any:
/// responding slaves outside SAFE_OP are reconfigured; silent slaves not yet
/// marked lost are probed.
pub open spec fn phase1_cmd(r: SlaveRecord, idx: u16) -> Option<FollowUp> {
    if r.state.value == EC_STATE_OPERATIONAL || r.state.base() == EC_STATE_SAFE_OP {
        None
    } else if r.state.value != EC_STATE_NONE {
        Some(FollowUp::Reconfig(idx))
    } else if !r.islost {
        Some(FollowUp::Probe(idx))
    } else {
        None
    }
}

/// All callbacks the observation sweep emits, in bus order.
pub open spec fn phase1_cbs(s: Seq<SlaveRecord>) -> Seq<(u16, Status)>
    decreases s.len(),
{
    if s.len() == 0 {
        Seq::empty()
    } else {
        phase1_cbs(s.drop_last()) + match phase1_status(s.last()) {
            Some(st) => seq![(s.len() as u16, st)],
            None => Seq::empty(),
        }
    }
}

/// All follow-up commands the observation sweep emits, in bus order.
pub open spec fn phase1_cmds(s: Seq<SlaveRecord>) -> Seq<FollowUp>
    decreases s.len(),
{
    if s.len() == 0 {
        Seq::empty()
    } else {
        phase1_cmds(s.drop_last()) + match phase1_cmd(s.last(), s.len() as u16) {
            Some(c) => seq![c],
            None => Seq::empty(),
        }
    }
}

/// The record after a follow-up outcome is applied: a reconfiguration that
/// reached PRE_OP clears the lost mark; a probe adopts the observed state and
/// marks the slave lost when it stayed silent.
pub open spec fn followup_rec(r: SlaveRecord, resp: FollowUpResponse) -> SlaveRecord {
    match resp {
        FollowUpResponse::Reconfig(ret) => SlaveRecord {
            islost: if ret >= EC_STATE_PRE_OP as i32 {
                false
            } else {
                r.islost
            },
            ..r
        },
        FollowUpResponse::Probe(st) => SlaveRecord {
            state: State { value: st },
            islost: if st == EC_STATE_NONE {
                true
            } else {
                r.islost
            },
            ..r
        },
    }
}

/// A lost slave that is still silent must be recovered.
pub open spec fn recover_needed(r: SlaveRecord) -> bool {
    r.islost && r.state.value == EC_STATE_NONE
}

/// The record after the recovery scan: a lost slave that answered again
/// simply drops its lost mark.
pub open spec fn phase2_rec(r: SlaveRecord) -> SlaveRecord {
    SlaveRecord { islost: r.islost && r.state.value == EC_STATE_NONE, ..r }
}

/// All recovery commands the scan emits, in bus order.
pub open spec fn recover_cmds(s: Seq<SlaveRecord>) -> Seq<u16>
    decreases s.len(),
{
    if s.len() == 0 {
        Seq::empty()
    } else {
        recover_cmds(s.drop_last()) + if recover_needed(s.last()) {
            seq![s.len() as u16]
        } else {
            Seq::empty()
        }
    }
}

/// The state-check supervisor's decision kernel. The caller owns the loop:
/// it sleeps for the check interval, reads the slave states into the
/// context, and performs the bus interactions this kernel asks for.
pub struct EcatErrorHandler {}

impl EcatErrorHandler {
    /// Creates the supervisor kernel.
    pub fn new() -> (r: EcatErrorHandler) {
        EcatErrorHandler {}
    }

    /// A sweep is due when the cycle thread saw a short working counter or
    /// the previous sweep left work pending.
    pub fn needs_check(&self, wkc: i32, expected_wkc: i32, docheckstate: bool) -> (r: bool)
        ensures
            r == (wkc < expected_wkc || docheckstate),
    {
        wkc < expected_wkc || docheckstate
    }

    /// The observation sweep over freshly read states: acknowledges
    /// SAFE_OP + ERROR slaves, promotes SAFE_OP slaves, and emits the
    /// follow-up commands for the rest. Leaves the work-pending flag set
    /// exactly when some slave was not OPERATIONAL.
    pub fn observe(&self, ctx: &mut Context) -> (r: (Vec<(u16, Status)>, Vec<FollowUp>))
        requires
            old(ctx).wf(),
        ensures
            final(ctx).wf(),
            final(ctx).slaves@.len() == old(ctx).slaves@.len(),
            forall|k: int|
                0 <= k < old(ctx).slaves@.len() ==> (#[trigger] final(ctx).slaves@[k])
                    == (SlaveRecord {
                    state: phase1_state(old(ctx).slaves@[k]),
                    ..old(ctx).slaves@[k]
                }),
            r.0@ == phase1_cbs(old(ctx).slaves@),
            r.1@ == phase1_cmds(old(ctx).slaves@),
            final(ctx).group.docheckstate == exists|k: int|
                0 <= k < old(ctx).slaves@.len() && (#[trigger] old(ctx).slaves@[k]).state.value
                    != EC_STATE_OPERATIONAL,
            final(ctx).group.outputs_wkc == old(ctx).group.outputs_wkc,
            final(ctx).group.inputs_wkc == old(ctx).group.inputs_wkc,
            final(ctx).aggregate == old(ctx).aggregate,
            final(ctx).dctime == old(ctx).dctime,
            final(ctx).sync0_cycle_ns == old(ctx).sync0_cycle_ns,
    {
        ctx.group.docheckstate = false;
        let n = ctx.slaves.len();
        let mut cbs: Vec<(u16, Status)> = Vec::new();
        let mut cmds: Vec<FollowUp> = Vec::new();
        let mut i: usize = 0;
        while i < n
            invariant
                old(ctx).wf(),
                ctx.slaves@.len() == n,
                n == old(ctx).slaves@.len(),
                i <= n,
                forall|k: int|
                    0 <= k < i ==> (#[trigger] ctx.slaves@[k]) == (SlaveRecord {
                        state: phase1_state(old(ctx).slaves@[k]),
                        ..old(ctx).slaves@[k]
                    }),
                forall|k: int| i <= k < n ==> ctx.slaves@[k] == old(ctx).slaves@[k],
                cbs@ == phase1_cbs(old(ctx).slaves@.take(i as int)),
                cmds@ == phase1_cmds(old(ctx).slaves@.take(i as int)),
                ctx.group.docheckstate == exists|k: int|
                    0 <= k < i && (#[trigger] old(ctx).slaves@[k]).state.value
                        != EC_STATE_OPERATIONAL,
                ctx.group.outputs_wkc == old(ctx).group.outputs_wkc,
                ctx.group.inputs_wkc == old(ctx).group.inputs_wkc,
                ctx.aggregate == old(ctx).aggregate,
                ctx.dctime == old(ctx).dctime,
                ctx.sync0_cycle_ns == old(ctx).sync0_cycle_ns,
            decreases n - i,
        {
            let ghost prefix = old(ctx).slaves@.take(i as int);
            let ghost full = old(ctx).slaves@.take(i + 1 as int);
            let st = ctx.slaves[i].state;
            let idx: u16 = (i as u16) + 1;
            if !st.is_operational() {
                ctx.group.docheckstate = true;
                if st.is_safe_op() && st.is_error() {
                    cbs.push((idx, Status::Error));
                    let rec = &mut ctx.slaves[i];
                    rec.state = State::new(EC_STATE_SAFE_OP + EC_STATE_ACK);
                } else if st.is_safe_op() {
                    cbs.push((idx, Status::StateChanged));
                    let rec = &mut ctx.slaves[i];
                    rec.state = State::new(EC_STATE_OPERATIONAL);
                } else if st.is_some() {
                    cmds.push(FollowUp::Reconfig(idx));
                } else if !ctx.slaves[i].islost {
                    cmds.push(FollowUp::Probe(idx));
                }
            }
            i = i + 1;
            proof {
                assert(full.drop_last() =~= prefix);
                assert(full.last() == old(ctx).slaves@[i - 1]);
                assert(full.len() == i);
                assert(cbs@ =~= phase1_cbs(full));
                assert(cmds@ =~= phase1_cmds(full));
            }
        }
        proof {
            assert(old(ctx).slaves@.take(n as int) =~= old(ctx).slaves@);
        }
        (cbs, cmds)
    }

    /// Applies the outcome of one follow-up command to the slave it
    /// addressed. A confirmed loss is reported so the caller zeroes the
    /// slave's input frame.
    pub fn apply_followup(
        &self,
        ctx: &mut Context,
        cmd: FollowUp,
        resp: FollowUpResponse,
    ) -> (r: Option<(u16, Status)>)
        requires
            old(ctx).wf(),
            1 <= followup_index(cmd) <= old(ctx).slaves@.len(),
            cmd is Reconfig <==> resp is Reconfig,
        ensures
            final(ctx).wf(),
            final(ctx).slaves@ == old(ctx).slaves@.update(
                followup_index(cmd) - 1,
                followup_rec(old(ctx).slaves@[followup_index(cmd) - 1], resp),
            ),
            r == (match resp {
                FollowUpResponse::Probe(st) => if st == EC_STATE_NONE {
                    Some((followup_index(cmd), Status::Lost))
                } else {
                    None
                },
                FollowUpResponse::Reconfig(_) => None,
            }),
            final(ctx).group == old(ctx).group,
            final(ctx).aggregate == old(ctx).aggregate,
            final(ctx).dctime == old(ctx).dctime,
            final(ctx).sync0_cycle_ns == old(ctx).sync0_cycle_ns,
    {
        let idx: u16 = match cmd {
            FollowUp::Reconfig(i) => i,
            FollowUp::Probe(i) => i,
        };
        let d: usize = (idx - 1) as usize;
        let result: Option<(u16, Status)> = match resp {
            FollowUpResponse::Reconfig(ret) => {
                if ret >= EC_STATE_PRE_OP as i32 {
                    let rec = &mut ctx.slaves[d];
                    rec.islost = false;
                }
                None
            },
            FollowUpResponse::Probe(st) => {
                let rec = &mut ctx.slaves[d];
                rec.state = State::new(st);
                if st == EC_STATE_NONE {
                    rec.islost = true;
                    Some((idx, Status::Lost))
                } else {
                    None
                }
            },
        };
        proof {
            assert(ctx.slaves@ =~= old(ctx).slaves@.update(
                followup_index(cmd) - 1,
                followup_rec(old(ctx).slaves@[followup_index(cmd) - 1], resp),
            ));
        }
        result
    }

    /// The recovery scan: emits one command per slave that is marked lost
    /// and still silent, and drops the lost mark of slaves that answered
    /// again.
    pub fn recovery_commands(&self, ctx: &mut Context) -> (r: Vec<u16>)
        requires
            old(ctx).wf(),
        ensures
            final(ctx).wf(),
            final(ctx).slaves@.len() == old(ctx).slaves@.len(),
            forall|k: int|
                0 <= k < old(ctx).slaves@.len() ==> (#[trigger] final(ctx).slaves@[k])
                    == phase2_rec(old(ctx).slaves@[k]),
            r@ == recover_cmds(old(ctx).slaves@),
            final(ctx).group == old(ctx).group,
            final(ctx).aggregate == old(ctx).aggregate,
            final(ctx).dctime == old(ctx).dctime,
            final(ctx).sync0_cycle_ns == old(ctx).sync0_cycle_ns,
    {
        let n = ctx.slaves.len();
        let mut cmds: Vec<u16> = Vec::new();
        let mut i: usize = 0;
        while i < n
            invariant
                old(ctx).wf(),
                ctx.slaves@.len() == n,
                n == old(ctx).slaves@.len(),
                i <= n,
                forall|k: int|
                    0 <= k < i ==> (#[trigger] ctx.slaves@[k]) == phase2_rec(old(ctx).slaves@[k]),
                forall|k: int| i <= k < n ==> ctx.slaves@[k] == old(ctx).slaves@[k],
                cmds@ == recover_cmds(old(ctx).slaves@.take(i as int)),
                ctx.group == old(ctx).group,
                ctx.aggregate == old(ctx).aggregate,
                ctx.dctime == old(ctx).dctime,
                ctx.sync0_cycle_ns == old(ctx).sync0_cycle_ns,
            decreases n - i,
        {
            let ghost prefix = old(ctx).slaves@.take(i as int);
            let ghost full = old(ctx).slaves@.take(i + 1 as int);
            let idx: u16 = (i as u16) + 1;
            if ctx.slaves[i].islost {
                if ctx.slaves[i].state.is_none() {
                    cmds.push(idx);
                } else {
                    let rec = &mut ctx.slaves[i];
                    rec.islost = false;
                }
            }
            i = i + 1;
            proof {
                assert(full.drop_last() =~= prefix);
                assert(full.last() == old(ctx).slaves@[i - 1]);
                assert(full.len() == i);
                assert(cmds@ =~= recover_cmds(full));
            }
        }
        proof {
            assert(old(ctx).slaves@.take(n as int) =~= old(ctx).slaves@);
        }
        cmds
    }

    /// Applies the outcome of one recovery attempt: on success the slave
    /// rejoins the chain and the caller is told to report it.
    pub fn apply_recover(&self, ctx: &mut Context, idx: u16, ret: i32) -> (r: Option<
        (u16, Status),
    >)
        requires
            old(ctx).wf(),
            1 <= idx <= old(ctx).slaves@.len(),
        ensures
            final(ctx).wf(),
            final(ctx).slaves@ == old(ctx).slaves@.update(
                idx - 1,
                SlaveRecord {
                    islost: if ret != 0 {
                        false
                    } else {
                        old(ctx).slaves@[idx - 1].islost
                    },
                    ..old(ctx).slaves@[idx - 1]
                },
            ),
            r == (if ret != 0 {
                Some((idx, Status::Recovered))
            } else {
                None::<(u16, Status)>
            }),
            final(ctx).group == old(ctx).group,
            final(ctx).aggregate == old(ctx).aggregate,
            final(ctx).dctime == old(ctx).dctime,
            final(ctx).sync0_cycle_ns == old(ctx).sync0_cycle_ns,
    {
        let d: usize = (idx - 1) as usize;
        let result: Option<(u16, Status)> = if ret != 0 {
            let rec = &mut ctx.slaves[d];
            rec.islost = false;
            Some((idx, Status::Recovered))
        } else {
            None
        };
        proof {
            assert(ctx.slaves@ =~= old(ctx).slaves@.update(
                idx - 1,
                SlaveRecord {
                    islost: if ret != 0 {
                        false
                    } else {
                        old(ctx).slaves@[idx - 1].islost
                    },
                    ..old(ctx).slaves@[idx - 1]
                },
            ));
        }
        result
    }

    /// Ends a sweep: when no slave needed attention, the whole chain is
    /// reported as resumed.
    pub fn finish(&self, ctx: &Context) -> (r: Option<(u16, Status)>)
        ensures
            r == (if ctx.group.docheckstate {
                None::<(u16, Status)>
            } else {
                Some((0u16, Status::Resumed))
            }),
    {
        if ctx.group.docheckstate {
            None
        } else {
            Some((0, Status::Resumed))
        }
    }
}

/// The supervisor reports `Resumed` exactly when the sweep before it found
/// every slave OPERATIONAL: `observe` leaves the work-pending flag clear
/// precisely then, and `finish` reports on that flag alone.
pub proof fn lemma_resumed_iff_all_operational(
    observed: Seq<SlaveRecord>,
    docheckstate: bool,
    r: Option<(u16, Status)>,
)
    requires
        docheckstate == exists|k: int|
            0 <= k < observed.len() && (#[trigger] observed[k]).state.value
                != EC_STATE_OPERATIONAL,
        r == (if docheckstate {
            None::<(u16, Status)>
        } else {
            Some((0u16, Status::Resumed))
        }),
    ensures
        (r == Some((0u16, Status::Resumed))) <==> (forall|k: int|
            0 <= k < observed.len() ==> (#[trigger] observed[k]).state.value
                == EC_STATE_OPERATIONAL),
{
}

} // verus!
