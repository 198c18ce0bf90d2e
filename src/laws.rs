use vstd::prelude::*;

use crate::config::{RestartPolicy, ServiceConfig};
use crate::process::{
    action_of, check_result, entry_wf, fresh_entry, observed, restarted, stop_plan, tick_model,
    ExitOutcome, Liveness, ProcessInfo, ServiceState, SupervisorError, TickAction,
};

verus! {

/// The entry after the liveness results `polls`, one pass each, with no
/// restart launched in between.
pub open spec fn observe_all(e: ProcessInfo, polls: Seq<Liveness>) -> ProcessInfo
    decreases polls.len(),
{
    if polls.len() == 0 {
        e
    } else {
        observe_all(observed(e, polls[0]), polls.drop_first())
    }
}

/// One exit `x` of the entry's process, followed by the restart launching
/// process `pid` whenever a restart is decided.
pub open spec fn exit_cycle(e: ProcessInfo, x: ExitOutcome, pid: u32) -> ProcessInfo {
    let o = observed(e, Liveness::Exited(x));
    if o.state is RestartPending {
        restarted(o, pid)
    } else {
        o
    }
}

/// The entry after its process exited with `exits`, in order, every
/// decided restart launching process `pid`.
pub open spec fn exit_cycles(e: ProcessInfo, exits: Seq<ExitOutcome>, pid: u32) -> ProcessInfo
    decreases exits.len(),
{
    if exits.len() == 0 {
        e
    } else {
        exit_cycle(exit_cycles(e, exits.drop_last(), pid), exits.last(), pid)
    }
}

/// An inert entry stays as it is whatever later liveness checks report.
pub proof fn lemma_terminal_is_inert(e: ProcessInfo, polls: Seq<Liveness>)
    requires
        e.state is Exited,
    ensures
        observe_all(e, polls) == e,
    decreases polls.len(),
{
    if polls.len() > 0 {
        lemma_terminal_is_inert(observed(e, polls[0]), polls.drop_first());
    }
}

/// Under the `Never` policy the first observed exit makes the entry inert:
/// no restart is asked for, the restart count stays 0, and no later
/// liveness check changes the entry again.
pub proof fn lemma_never_policy_never_restarts(e: ProcessInfo, x: ExitOutcome, later: Seq<Liveness>)
    requires
        e.config.restart_policy == RestartPolicy::Never,
        e.state == ServiceState::Running,
        entry_wf(e),
    ensures
        action_of(e, Liveness::Exited(x)) == TickAction::GiveUp,
        observed(e, Liveness::Exited(x)).state == ServiceState::Exited(x),
        observed(e, Liveness::Exited(x)).restart_count == 0,
        observe_all(observed(e, Liveness::Exited(x)), later) == observed(e, Liveness::Exited(x)),
{
    lemma_terminal_is_inert(observed(e, Liveness::Exited(x)), later);
}

proof fn lemma_always_within_budget(config: ServiceConfig, pid0: u32, exits: Seq<ExitOutcome>, pid: u32)
    requires
        config.restart_policy == RestartPolicy::Always,
        exits.len() <= config.max_restarts,
    ensures
        exit_cycles(fresh_entry(config, pid0), exits, pid) == (ProcessInfo {
            config,
            pid: if exits.len() == 0 { pid0 } else { pid },
            state: ServiceState::Running,
            restart_count: exits.len() as u32,
        }),
    decreases exits.len(),
{
    if exits.len() > 0 {
        lemma_always_within_budget(config, pid0, exits.drop_last(), pid);
    }
}

/// Under the `Always` policy with a budget of `k` restarts, a freshly
/// started entry is restarted on each of its first `k` exits, whatever
/// their codes, and turns inert on the exit after that with `k` restarts
/// counted.
pub proof fn lemma_always_restarts_up_to_budget(
    config: ServiceConfig,
    pid0: u32,
    exits: Seq<ExitOutcome>,
    pid: u32,
)
    requires
        config.restart_policy == RestartPolicy::Always,
        exits.len() <= config.max_restarts + 1,
    ensures
        exits.len() <= config.max_restarts ==> {
            let e = exit_cycles(fresh_entry(config, pid0), exits, pid);
            &&& e.state == ServiceState::Running
            &&& e.restart_count == exits.len()
        },
        exits.len() == config.max_restarts + 1 ==> {
            let e = exit_cycles(fresh_entry(config, pid0), exits, pid);
            &&& e.state == ServiceState::Exited(exits.last())
            &&& e.restart_count == config.max_restarts
        },
        forall|i: int|
            0 <= i < exits.len() ==> #[trigger] action_of(
                exit_cycles(fresh_entry(config, pid0), exits.take(i), pid),
                Liveness::Exited(exits[i]),
            ) == if i < config.max_restarts {
                TickAction::Restart
            } else {
                TickAction::GiveUp
            },
{
    if exits.len() <= config.max_restarts {
        lemma_always_within_budget(config, pid0, exits, pid);
    } else {
        lemma_always_within_budget(config, pid0, exits.drop_last(), pid);
    }
    assert forall|i: int| 0 <= i < exits.len() implies #[trigger] action_of(
        exit_cycles(fresh_entry(config, pid0), exits.take(i), pid),
        Liveness::Exited(exits[i]),
    ) == if i < config.max_restarts {
        TickAction::Restart
    } else {
        TickAction::GiveUp
    } by {
        lemma_always_within_budget(config, pid0, exits.take(i), pid);
    }
}

/// Under the `OnFailure` policy an exit with code 0 never brings a restart;
/// any other exit brings one exactly when the budget is not used up.
pub proof fn lemma_on_failure_restarts_failures(e: ProcessInfo, x: ExitOutcome)
    requires
        e.config.restart_policy == RestartPolicy::OnFailure,
        e.state == ServiceState::Running,
    ensures
        x == ExitOutcome::Code(0) ==> action_of(e, Liveness::Exited(x)) == TickAction::GiveUp
            && observed(e, Liveness::Exited(x)).state == ServiceState::Exited(x),
        x != ExitOutcome::Code(0) ==> (action_of(e, Liveness::Exited(x)) == TickAction::Restart
            <==> e.restart_count < e.config.max_restarts),
{
}

/// A second shutdown sends no termination request, so it reports no error.
pub proof fn lemma_second_shutdown_is_quiet(entries: Seq<ProcessInfo>)
    ensures
        forall|i: int| 0 <= i < entries.len() ==> !#[trigger] stop_plan(entries, true)[i],
{
}

/// A liveness pass in which every process is still running changes no
/// entry and asks for nothing.
pub proof fn lemma_quiet_tick(entries: Seq<ProcessInfo>)
    ensures
        tick_model(entries, Seq::new(entries.len(), |i: int| Liveness::Running)) == entries,
        forall|i: int|
            0 <= i < entries.len() ==> #[trigger] check_result(
                entries[i],
                Liveness::Running,
                Ok::<TickAction, SupervisorError>(TickAction::Nothing),
            ),
{
    assert(tick_model(entries, Seq::new(entries.len(), |i: int| Liveness::Running)) =~= entries);
}

} // verus!
