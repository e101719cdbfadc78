use autd3_link_soem::context::{Context, GroupRecord, SlaveRecord};
use autd3_link_soem::state::{
    EC_STATE_ACK, EC_STATE_ERROR, EC_STATE_INIT, EC_STATE_NONE, EC_STATE_OPERATIONAL,
    EC_STATE_PRE_OP, EC_STATE_SAFE_OP, State,
};
use autd3_link_soem::status::Status;
use autd3_link_soem::supervisor::{EcatErrorHandler, FollowUp, FollowUpResponse};

fn slave(state: u16, islost: bool) -> SlaveRecord {
    SlaveRecord {
        configadr: 0x1001,
        state: State::new(state),
        islost,
        name: String::from("AUTD"),
        obytes: 626,
        ibytes: 2,
        sync0_cycle_ns: None,
    }
}

fn ctx_with(states: Vec<SlaveRecord>) -> Context {
    let mut ctx = Context::new();
    ctx.slaves = states;
    ctx.group = GroupRecord {
        docheckstate: false,
        outputs_wkc: 2,
        inputs_wkc: 2,
    };
    ctx
}

#[test]
fn needs_check_on_short_wkc_or_pending_work() {
    let handler = EcatErrorHandler::new();
    assert!(handler.needs_check(5, 6, false));
    assert!(handler.needs_check(6, 6, true));
    assert!(!handler.needs_check(6, 6, false));
}

#[test]
fn observe_acknowledges_error_and_promotes_safe_op() {
    let handler = EcatErrorHandler::new();
    let mut ctx = ctx_with(vec![
        slave(EC_STATE_SAFE_OP + EC_STATE_ERROR, false),
        slave(EC_STATE_SAFE_OP, false),
        slave(EC_STATE_OPERATIONAL, false),
    ]);
    let (cbs, cmds) = handler.observe(&mut ctx);
    assert_eq!(
        cbs,
        vec![(1u16, Status::Error), (2u16, Status::StateChanged)]
    );
    assert!(cmds.is_empty());
    assert_eq!(ctx.slaves[0].state.state(), EC_STATE_SAFE_OP + EC_STATE_ACK);
    assert_eq!(ctx.slaves[1].state.state(), EC_STATE_OPERATIONAL);
    assert_eq!(ctx.slaves[2].state.state(), EC_STATE_OPERATIONAL);
    assert!(ctx.group.docheckstate);
    assert_eq!(handler.finish(&ctx), None);
}

#[test]
fn observe_commands_reconfig_and_probe() {
    let handler = EcatErrorHandler::new();
    let mut ctx = ctx_with(vec![
        slave(EC_STATE_INIT, false),
        slave(EC_STATE_PRE_OP, false),
        slave(EC_STATE_NONE, false),
        slave(EC_STATE_NONE, true),
    ]);
    let (cbs, cmds) = handler.observe(&mut ctx);
    assert!(cbs.is_empty());
    assert_eq!(
        cmds,
        vec![
            FollowUp::Reconfig(1),
            FollowUp::Reconfig(2),
            FollowUp::Probe(3)
        ]
    );
}

#[test]
fn reconfig_reaching_pre_op_clears_lost() {
    let handler = EcatErrorHandler::new();
    let mut ctx = ctx_with(vec![slave(EC_STATE_INIT, true)]);
    let cb = handler.apply_followup(
        &mut ctx,
        FollowUp::Reconfig(1),
        FollowUpResponse::Reconfig(EC_STATE_PRE_OP as i32),
    );
    assert_eq!(cb, None);
    assert!(!ctx.slaves[0].islost);

    let mut ctx = ctx_with(vec![slave(EC_STATE_INIT, true)]);
    let cb = handler.apply_followup(
        &mut ctx,
        FollowUp::Reconfig(1),
        FollowUpResponse::Reconfig(0),
    );
    assert_eq!(cb, None);
    assert!(ctx.slaves[0].islost);
}

#[test]
fn probe_confirming_silence_reports_lost() {
    let handler = EcatErrorHandler::new();
    let mut ctx = ctx_with(vec![slave(EC_STATE_NONE, false)]);
    let cb = handler.apply_followup(
        &mut ctx,
        FollowUp::Probe(1),
        FollowUpResponse::Probe(EC_STATE_NONE),
    );
    assert_eq!(cb, Some((1, Status::Lost)));
    assert!(ctx.slaves[0].islost);

    let mut ctx = ctx_with(vec![slave(EC_STATE_NONE, false)]);
    let cb = handler.apply_followup(
        &mut ctx,
        FollowUp::Probe(1),
        FollowUpResponse::Probe(EC_STATE_OPERATIONAL),
    );
    assert_eq!(cb, None);
    assert!(!ctx.slaves[0].islost);
    assert_eq!(ctx.slaves[0].state.state(), EC_STATE_OPERATIONAL);
}

#[test]
fn recovery_scan_and_recover() {
    let handler = EcatErrorHandler::new();
    let mut ctx = ctx_with(vec![
        slave(EC_STATE_NONE, true),
        slave(EC_STATE_OPERATIONAL, true),
        slave(EC_STATE_OPERATIONAL, false),
    ]);
    let cmds = handler.recovery_commands(&mut ctx);
    assert_eq!(cmds, vec![1u16]);
    // A lost slave that answered again just drops the mark.
    assert!(!ctx.slaves[1].islost);

    let cb = handler.apply_recover(&mut ctx, 1, 1);
    assert_eq!(cb, Some((1, Status::Recovered)));
    assert!(!ctx.slaves[0].islost);

    let mut ctx = ctx_with(vec![slave(EC_STATE_NONE, true)]);
    let cb = handler.apply_recover(&mut ctx, 1, 0);
    assert_eq!(cb, None);
    assert!(ctx.slaves[0].islost);
}

#[test]
fn error_then_operational_ends_in_resumed() {
    // One slave reports SAFE_OP + ERROR for one sweep, then OPERATIONAL:
    // the callbacks are Error, then a global Resumed.
    let handler = EcatErrorHandler::new();
    let mut ctx = ctx_with(vec![
        slave(EC_STATE_SAFE_OP + EC_STATE_ERROR, false),
        slave(EC_STATE_OPERATIONAL, false),
    ]);

    let (cbs, cmds) = handler.observe(&mut ctx);
    assert_eq!(cbs, vec![(1u16, Status::Error)]);
    assert!(cmds.is_empty());
    assert_eq!(handler.finish(&ctx), None);

    // The acknowledged slave comes back OPERATIONAL for the next sweep.
    ctx.slaves[0].state = State::new(EC_STATE_OPERATIONAL);
    let (cbs, cmds) = handler.observe(&mut ctx);
    assert!(cbs.is_empty());
    assert!(cmds.is_empty());
    assert_eq!(handler.finish(&ctx), Some((0, Status::Resumed)));
}

#[test]
fn expected_wkc_counts_outputs_twice() {
    let ctx = ctx_with(vec![]);
    assert_eq!(ctx.expected_wkc(), 6);
    let mut ctx = ctx_with(vec![]);
    ctx.group.outputs_wkc = 3;
    ctx.group.inputs_wkc = 1;
    assert_eq!(ctx.expected_wkc(), 7);
}
