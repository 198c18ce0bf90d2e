use vstd::prelude::*;

use crate::config::{RestartPolicy, ServiceConfig};

verus! {

/// How a process ended: with an exit code, or without one (killed by a
/// signal, or the platform reported no code).
#[derive(Debug, Clone, Copy, PartialEq, Eq, Structural)]
pub enum ExitOutcome {
    Code(i32),
    Signaled,
}

/// Where one supervised service stands.
#[derive(Debug, Clone, Copy, PartialEq, Eq, Structural)]
pub enum ServiceState {
    /// The current incarnation is believed to be alive.
    Running,
    /// An exit was observed and a restart was decided; the new process has
    /// not been launched yet.
    RestartPending(ExitOutcome),
    /// An exit was observed and no restart will follow: the entry is inert.
    Exited(ExitOutcome),
}

/// The result of one non-blocking liveness check on a service's process.
#[derive(Debug, Clone)]
pub enum Liveness {
    Running,
    Exited(ExitOutcome),
    /// The status could not be read; carries the reason.
    Unknown(String),
}

/// What the host has to do for an entry after a liveness check.
#[derive(Debug, Clone, Copy, PartialEq, Eq, Structural)]
pub enum TickAction {
    /// Nothing changed that needs work.
    Nothing,
    /// Launch the service again and report the outcome with `record_restart`.
    Restart,
    /// The process exited and will not be restarted.
    GiveUp,
}

/// The outcome of a termination request sent to a process.
#[derive(Debug, Clone)]
pub enum KillOutcome {
    Killed,
    /// There was no such process any more.
    AlreadyExited,
    Failed(String),
}

/// Why an operation on one service failed; each names the service.
#[derive(Debug, Clone)]
pub enum SupervisorError {
    /// The descriptor has no command to launch.
    EmptyCommand { name: String },
    /// A service of that name is already registered.
    DuplicateName { name: String },
    /// Launching the service's process failed.
    Spawn { name: String, detail: String },
    /// The status of the service's process could not be read.
    LivenessCheck { name: String, detail: String },
    /// A termination request failed for a reason other than the process
    /// being gone already.
    Termination { name: String, detail: String },
}

/// One supervised service: its descriptor and the state of its current
/// incarnation.
#[derive(Debug, Clone)]
pub struct ProcessInfo {
    pub config: ServiceConfig,
    /// Process id of the current incarnation.
    pub pid: u32,
    pub state: ServiceState,
    pub restart_count: u32,
}

/// The exit recorded for an entry: none while it runs.
pub open spec fn last_exit_of(state: ServiceState) -> Option<ExitOutcome> {
    match state {
        ServiceState::Running => None,
        ServiceState::RestartPending(x) => Some(x),
        ServiceState::Exited(x) => Some(x),
    }
}

/// Whether a policy asks for a restart, given the last exit seen (if any).
pub open spec fn policy_restarts(policy: RestartPolicy, last: Option<ExitOutcome>) -> bool {
    match policy {
        RestartPolicy::Never => false,
        RestartPolicy::Always => true,
        RestartPolicy::OnFailure => last != Some(ExitOutcome::Code(0)),
    }
}

/// A restart follows an exit `x` when the policy asks for one and the
/// budget is not used up.
pub open spec fn restart_due(e: ProcessInfo, x: ExitOutcome) -> bool {
    policy_restarts(e.config.restart_policy, Some(x)) && e.restart_count < e.config.max_restarts
}

/// A freshly started entry.
pub open spec fn fresh_entry(config: ServiceConfig, pid: u32) -> ProcessInfo {
    ProcessInfo { config, pid, state: ServiceState::Running, restart_count: 0 }
}

/// The entry after a liveness check reported `l`.
pub open spec fn observed(e: ProcessInfo, l: Liveness) -> ProcessInfo {
    match (e.state, l) {
        (ServiceState::Running, Liveness::Exited(x)) => ProcessInfo {
            state: if restart_due(e, x) {
                ServiceState::RestartPending(x)
            } else {
                ServiceState::Exited(x)
            },
            ..e
        },
        _ => e,
    }
}

/// The entry after the restart it waited for launched process `pid`.
pub open spec fn restarted(e: ProcessInfo, pid: u32) -> ProcessInfo {
    ProcessInfo {
        pid,
        state: ServiceState::Running,
        restart_count: (e.restart_count + 1) as u32,
        ..e
    }
}

/// The entry after the restart it waited for could not be launched: it
/// keeps its exit and becomes inert.
pub open spec fn restart_failed(e: ProcessInfo) -> ProcessInfo {
    ProcessInfo {
        state: match e.state {
            ServiceState::RestartPending(x) => ServiceState::Exited(x),
            s => s,
        },
        ..e
    }
}

/// What the restart decision needs to hold of every entry.
pub open spec fn entry_wf(e: ProcessInfo) -> bool {
    &&& e.restart_count <= e.config.max_restarts
    &&& e.config.restart_policy == RestartPolicy::Never ==> e.restart_count == 0
    &&& e.state is RestartPending ==> restart_due(e, last_exit_of(e.state)->Some_0)
}

impl ProcessInfo {
    /// The exit recorded for this entry: `None` while it runs.
    pub fn last_exit_code(&self) -> (r: Option<ExitOutcome>)
        ensures
            r == last_exit_of(self.state),
    {
        match self.state {
            ServiceState::Running => None,
            ServiceState::RestartPending(x) => Some(x),
            ServiceState::Exited(x) => Some(x),
        }
    }

    pub fn restart_count(&self) -> (r: u32)
        ensures
            r == self.restart_count,
    {
        self.restart_count
    }

    /// An inert entry: its exit was seen and no restart will follow.
    pub fn is_terminal(&self) -> (r: bool)
        ensures
            r == (self.state is Exited),
    {
        match self.state {
            ServiceState::Exited(_) => true,
            _ => false,
        }
    }
}

/// The supervision registry: one entry per service, names unique, in the
/// order the services were started.
pub struct ProcessManager {
    processes: Vec<ProcessInfo>,
    stopped: bool,
}

/// The registry after one liveness pass that read `polls[i]` for entry `i`.
pub open spec fn tick_model(entries: Seq<ProcessInfo>, polls: Seq<Liveness>) -> Seq<ProcessInfo> {
    Seq::new(entries.len(), |i: int| observed(entries[i], polls[i]))
}

/// Whether `name` names an entry.
pub open spec fn has_name(entries: Seq<ProcessInfo>, name: Seq<char>) -> bool {
    exists|i: int| 0 <= i < entries.len() && #[trigger] entries[i].config.name@ == name
}

/// Why a descriptor cannot be started on a registry holding `entries`, if
/// it cannot.
pub open spec fn start_refusal(entries: Seq<ProcessInfo>, config: ServiceConfig) -> Option<SupervisorError> {
    if config.command@.len() == 0 {
        Some(SupervisorError::EmptyCommand { name: config.name })
    } else if has_name(entries, config.name@) {
        Some(SupervisorError::DuplicateName { name: config.name })
    } else {
        None
    }
}

/// What the action for one entry is after its liveness check reported `l`.
pub open spec fn action_of(e: ProcessInfo, l: Liveness) -> TickAction {
    match (e.state, l) {
        (ServiceState::Running, Liveness::Exited(x)) => if restart_due(e, x) {
            TickAction::Restart
        } else {
            TickAction::GiveUp
        },
        _ => TickAction::Nothing,
    }
}

/// What one liveness check reports back to the host.
pub open spec fn check_result(e: ProcessInfo, l: Liveness, r: Result<TickAction, SupervisorError>) -> bool {
    match (e.state, l) {
        (ServiceState::Running, Liveness::Unknown(d)) => r == Err::<TickAction, SupervisorError>(
            SupervisorError::LivenessCheck { name: e.config.name, detail: d },
        ),
        _ => r == Ok::<TickAction, SupervisorError>(action_of(e, l)),
    }
}

/// The entry is to receive a termination request at shutdown: its process
/// may still be alive.
pub open spec fn may_be_alive(e: ProcessInfo) -> bool {
    !(e.state is Exited)
}

/// Which entries receive a termination request when shutdown begins on a
/// registry holding `entries`, `stopped` telling whether it ran before.
pub open spec fn stop_plan(entries: Seq<ProcessInfo>, stopped: bool) -> Seq<bool> {
    Seq::new(entries.len(), |i: int| !stopped && may_be_alive(entries[i]))
}

impl ProcessManager {
    pub closed spec fn entries(&self) -> Seq<ProcessInfo> {
        self.processes@
    }

    /// `shutdown` has run on this registry.
    pub closed spec fn is_stopped(&self) -> bool {
        self.stopped
    }

    pub open spec fn wf(&self) -> bool {
        &&& forall|i: int, j: int|
            0 <= i < j < self.entries().len() ==> #[trigger] self.entries()[i].config.name@
                != #[trigger] self.entries()[j].config.name@
        &&& forall|i: int| 0 <= i < self.entries().len() ==> entry_wf(#[trigger] self.entries()[i])
    }

    pub fn new() -> (r: Self)
        ensures
            r.wf(),
            r.entries() == Seq::<ProcessInfo>::empty(),
            !r.is_stopped(),
    {
        ProcessManager { processes: Vec::new(), stopped: false }
    }

    pub fn len(&self) -> (r: usize)
        ensures
            r == self.entries().len(),
    {
        self.processes.len()
    }

    pub fn entry(&self, i: usize) -> (r: &ProcessInfo)
        requires
            i < self.entries().len(),
        ensures
            *r == self.entries()[i as int],
    {
        &self.processes[i]
    }

    /// Whether the restart decision for `process_info` says to restart,
    /// judged on its policy and its last recorded exit; the restart budget
    /// is checked apart from this.
    pub fn should_restart(process_info: &ProcessInfo) -> (r: bool)
        ensures
            r == policy_restarts(
                process_info.config.restart_policy,
                last_exit_of(process_info.state),
            ),
    {
        match process_info.config.restart_policy {
            RestartPolicy::Always => true,
            RestartPolicy::Never => false,
            RestartPolicy::OnFailure => {
                match process_info.last_exit_code() {
                    Some(ExitOutcome::Code(0)) => false,
                    _ => true,
                }
            },
        }
    }

    /// Takes in the result of a liveness check on entry `i`'s process.
    /// Entries that are not running are left alone. An exit is recorded and
    /// decided on: either a restart is pending, or the entry turns inert.
    pub fn check_process(&mut self, i: usize, liveness: &Liveness) -> (r: Result<
        TickAction,
        SupervisorError,
    >)
        requires
            old(self).wf(),
            i < old(self).entries().len(),
        ensures
            final(self).wf(),
            final(self).is_stopped() == old(self).is_stopped(),
            final(self).entries() == old(self).entries().update(
                i as int,
                observed(old(self).entries()[i as int], *liveness),
            ),
            check_result(old(self).entries()[i as int], *liveness, r),
    {
        let ghost e = self.processes@[i as int];
        match self.processes[i].state {
            ServiceState::Running => {},
            _ => {
                proof {
                    assert(self.processes@.update(i as int, e) =~= self.processes@);
                }
                return Ok(TickAction::Nothing);
            },
        }
        match liveness {
            Liveness::Running => {
                proof {
                    assert(self.processes@.update(i as int, e) =~= self.processes@);
                }
                Ok(TickAction::Nothing)
            },
            Liveness::Unknown(detail) => {
                proof {
                    assert(self.processes@.update(i as int, e) =~= self.processes@);
                }
                let name = self.processes[i].config.name.clone();
                Err(SupervisorError::LivenessCheck { name, detail: detail.clone() })
            },
            Liveness::Exited(x) => {
                let x = *x;
                self.processes[i].state = ServiceState::Exited(x);
                let restart = Self::should_restart(&self.processes[i])
                    && self.processes[i].restart_count < self.processes[i].config.max_restarts;
                if restart {
                    self.processes[i].state = ServiceState::RestartPending(x);
                }
                if restart {
                    Ok(TickAction::Restart)
                } else {
                    Ok(TickAction::GiveUp)
                }
            },
        }
    }

    /// One liveness pass over the whole registry: `polls[i]` is what the
    /// check on entry `i`'s process found (it is ignored for entries that
    /// are not running). A failed check on one entry does not stop the pass;
    /// each entry gets its own report, in registry order.
    pub fn check_processes(&mut self, polls: &Vec<Liveness>) -> (r: Vec<
        Result<TickAction, SupervisorError>,
    >)
        requires
            old(self).wf(),
            polls@.len() == old(self).entries().len(),
        ensures
            final(self).wf(),
            final(self).is_stopped() == old(self).is_stopped(),
            final(self).entries() == tick_model(old(self).entries(), polls@),
            r@.len() == polls@.len(),
            forall|i: int|
                0 <= i < r@.len() ==> check_result(old(self).entries()[i], polls@[i], #[trigger] r@[i]),
    {
        let ghost start = self.processes@;
        let mut reports: Vec<Result<TickAction, SupervisorError>> = Vec::new();
        let n = self.processes.len();
        let mut i: usize = 0;
        while i < n
            invariant
                self.wf(),
                self.stopped == old(self).stopped,
                start == old(self).entries(),
                n == start.len(),
                polls@.len() == n,
                i <= n,
                self.processes@.len() == n,
                reports@.len() == i,
                forall|j: int| 0 <= j < i ==> self.processes@[j] == observed(start[j], polls@[j]),
                forall|j: int| i <= j < n ==> self.processes@[j] == start[j],
                forall|j: int| 0 <= j < i ==> check_result(start[j], polls@[j], #[trigger] reports@[j]),
            decreases n - i,
        {
            let report = self.check_process(i, &polls[i]);
            reports.push(report);
            i = i + 1;
        }
        assert(self.processes@ =~= tick_model(start, polls@));
        reports
    }

    /// Takes in the launch of the restart that entry `i` waits for. On
    /// success the new process replaces the old one and the restart is
    /// counted; on failure the entry keeps its exit and turns inert.
    pub fn record_restart(&mut self, i: usize, launched: Result<u32, String>) -> (r: Result<
        u32,
        SupervisorError,
    >)
        requires
            old(self).wf(),
            i < old(self).entries().len(),
            old(self).entries()[i as int].state is RestartPending,
        ensures
            final(self).wf(),
            final(self).is_stopped() == old(self).is_stopped(),
            match launched {
                Ok(pid) => {
                    &&& r == Ok::<u32, SupervisorError>(pid)
                    &&& final(self).entries() == old(self).entries().update(
                        i as int,
                        restarted(old(self).entries()[i as int], pid),
                    )
                },
                Err(d) => {
                    &&& r == Err::<u32, SupervisorError>(
                        SupervisorError::Spawn { name: old(self).entries()[i as int].config.name, detail: d },
                    )
                    &&& final(self).entries() == old(self).entries().update(
                        i as int,
                        restart_failed(old(self).entries()[i as int]),
                    )
                },
            },
    {
        let x = match self.processes[i].state {
            ServiceState::RestartPending(x) => x,
            ServiceState::Running => ExitOutcome::Signaled,
            ServiceState::Exited(x) => x,
        };
        match launched {
            Ok(pid) => {
                self.processes[i].pid = pid;
                self.processes[i].state = ServiceState::Running;
                self.processes[i].restart_count = self.processes[i].restart_count + 1;
                Ok(pid)
            },
            Err(detail) => {
                self.processes[i].state = ServiceState::Exited(x);
                let name = self.processes[i].config.name.clone();
                Err(SupervisorError::Spawn { name, detail })
            },
        }
    }

    /// The position of the entry named `name`, if there is one.
    pub fn index_of(&self, name: &String) -> (r: Option<usize>)
        ensures
            match r {
                Some(i) => i < self.entries().len() && self.entries()[i as int].config.name@ == name@,
                None => !has_name(self.entries(), name@),
            },
    {
        let mut i: usize = 0;
        while i < self.processes.len()
            invariant
                i <= self.processes@.len(),
                forall|j: int| 0 <= j < i ==> self.processes@[j].config.name@ != name@,
            decreases self.processes@.len() - i,
        {
            if self.processes[i].config.name == *name {
                return Some(i);
            }
            i = i + 1;
        }
        None
    }

    /// Checks a descriptor before its process is launched: the command must
    /// not be empty and the name must not be taken.
    pub fn prepare_start(&self, config: &ServiceConfig) -> (r: Result<(), SupervisorError>)
        ensures
            r == match start_refusal(self.entries(), *config) {
                Some(e) => Err::<(), SupervisorError>(e),
                None => Ok::<(), SupervisorError>(()),
            },
    {
        if config.command.as_str().is_empty() {
            return Err(SupervisorError::EmptyCommand { name: config.name.clone() });
        }
        match self.index_of(&config.name) {
            Some(_) => Err(SupervisorError::DuplicateName { name: config.name.clone() }),
            None => Ok(()),
        }
    }

    /// Registers a service whose process was launched from `config`
    /// (`launched` is its process id, or why the launch failed). The
    /// registry changes only on success, by one new entry at the end with no
    /// restarts and no exit; the process id is returned.
    pub fn start_service(&mut self, config: ServiceConfig, launched: Result<u32, String>) -> (r:
        Result<u32, SupervisorError>)
        requires
            old(self).wf(),
        ensures
            final(self).wf(),
            final(self).is_stopped() == old(self).is_stopped(),
            match start_refusal(old(self).entries(), config) {
                Some(e) => r == Err::<u32, SupervisorError>(e) && final(self).entries() == old(self).entries(),
                None => match launched {
                    Ok(pid) => r == Ok::<u32, SupervisorError>(pid) && final(self).entries()
                        == old(self).entries().push(fresh_entry(config, pid)),
                    Err(d) => r == Err::<u32, SupervisorError>(
                        SupervisorError::Spawn { name: config.name, detail: d },
                    ) && final(self).entries() == old(self).entries(),
                },
            },
    {
        match self.prepare_start(&config) {
            Err(e) => Err(e),
            Ok(()) => match launched {
                Err(detail) => Err(SupervisorError::Spawn { name: config.name, detail }),
                Ok(pid) => {
                    let entry = ProcessInfo {
                        config,
                        pid,
                        state: ServiceState::Running,
                        restart_count: 0,
                    };
                    self.processes.push(entry);
                    Ok(pid)
                },
            },
        }
    }

    /// Begins shutdown: says, per entry, whether its process is to receive a
    /// termination request. Entries whose exit was already seen need none,
    /// and a registry that was shut down before gets none at all.
    pub fn stop_all(&mut self) -> (kill: Vec<bool>)
        requires
            old(self).wf(),
        ensures
            final(self).wf(),
            final(self).is_stopped(),
            final(self).entries() == old(self).entries(),
            kill@ == stop_plan(old(self).entries(), old(self).is_stopped()),
    {
        let mut kill: Vec<bool> = Vec::new();
        let mut i: usize = 0;
        while i < self.processes.len()
            invariant
                i <= self.processes@.len(),
                kill@.len() == i,
                forall|j: int|
                    0 <= j < i ==> #[trigger] kill@[j] == (!self.stopped && may_be_alive(
                        self.processes@[j],
                    )),
            decreases self.processes@.len() - i,
        {
            let alive = match self.processes[i].state {
                ServiceState::Exited(_) => false,
                _ => true,
            };
            kill.push(!self.stopped && alive);
            i = i + 1;
        }
        assert(kill@ =~= stop_plan(self.processes@, self.stopped));
        self.stopped = true;
        kill
    }

    /// Judges the outcome of a termination request sent to service `name`:
    /// a process that was already gone counts as stopped.
    pub fn termination_result(name: &String, outcome: &KillOutcome) -> (r: Result<
        (),
        SupervisorError,
    >)
        ensures
            match outcome {
                KillOutcome::Failed(d) => r == Err::<(), SupervisorError>(
                    SupervisorError::Termination { name: *name, detail: *d },
                ),
                _ => r == Ok::<(), SupervisorError>(()),
            },
    {
        match outcome {
            KillOutcome::Failed(d) => Err(
                SupervisorError::Termination { name: name.clone(), detail: d.clone() },
            ),
            _ => Ok(()),
        }
    }
}

} // verus!
