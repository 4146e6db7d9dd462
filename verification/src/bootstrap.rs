//! The start-up sequence of the dsh web service: environment checks, closing
//! whatever listens on the service port, updating dsh, spawning it and waiting
//! until it answers. The decisions form a state machine (`BootstrapPhase`);
//! the caller performs each `BootstrapCommand` and feeds back what happened.
//! Cancellation and the retry bookkeeping of the host window live here too.

use vstd::prelude::*;

use crate::env_check::{all_ok, version_view, EnvCheckResult, DSH_NAME, NODE_NAME, NPM_NAME};
use crate::text::{chars_of, same_chars, starts_with, starts_with_chars, trim, trim_chars};

verus! {

pub const DSH_URL: &'static str = "http://127.0.0.1:3080";

pub const DSH_HOST: &'static str = "127.0.0.1";

pub const DSH_PORT: u16 = 3080;

/// How long the service may take to answer, in milliseconds.
pub const READY_TIMEOUT_MS: u64 = 60_000;

/// The pause between two readiness probes, in milliseconds.
pub const READY_POLL_MS: u64 = 500;

/// The pause before each environment check, in milliseconds.
pub const CHECK_PAUSE_MS: u64 = 350;

pub const STEP_CHECK_ENV: &'static str = "正在检查运行环境...";

pub const STEP_CLOSE_PORT: &'static str = "正在关闭 3080 端口上的服务...";

pub const STEP_SPAWN: &'static str = "正在启动 dsh web 服务...";

pub const STEP_WAIT_READY: &'static str = "等待服务就绪...";

/// The progress lines of a direct launch, in the order they are shown.
pub fn direct_launch_event_order() -> (r: [&'static str; 4])
    ensures
        r@ == seq![STEP_CHECK_ENV, STEP_CLOSE_PORT, STEP_SPAWN, STEP_WAIT_READY],
{
    [STEP_CHECK_ENV, STEP_CLOSE_PORT, STEP_SPAWN, STEP_WAIT_READY]
}

/// Whether the bootstrap has been asked to stop. A caller that shares it
/// between threads puts it behind a lock; `SpawnPermit` borrows it, so it
/// cannot be cancelled while a process is being created.
pub struct BootstrapControl {
    cancelled: bool,
}

/// Held while a process is being created: cancellation waits for it.
pub struct SpawnPermit<'a> {
    _control: &'a BootstrapControl,
}

impl View for BootstrapControl {
    type V = bool;

    /// Whether cancellation was requested.
    closed spec fn view(&self) -> bool {
        self.cancelled
    }
}

impl BootstrapControl {
    pub fn new() -> (r: Self)
        ensures
            !r@,
    {
        BootstrapControl { cancelled: false }
    }

    /// Requests cancellation; it cannot be undone.
    pub fn cancel(&mut self)
        ensures
            final(self)@,
    {
        self.cancelled = true;
    }

    pub fn is_cancelled(&self) -> (r: bool)
        ensures
            r == self@,
    {
        self.cancelled
    }

    /// A permit to create the process, unless cancellation was requested.
    pub fn try_begin_spawn(&self) -> (r: Option<SpawnPermit<'_>>)
        ensures
            r is Some <==> !self@,
    {
        if self.cancelled {
            None
        } else {
            Some(SpawnPermit { _control: self })
        }
    }
}

impl Default for BootstrapControl {
    fn default() -> (r: Self)
        ensures
            !r@,
    {
        BootstrapControl::new()
    }
}


/// A call on a `BootstrapControl`.
pub enum ControlOp {
    Cancel,
    IsCancelled,
    TryBeginSpawn,
}

/// The cancellation flag after one call: `cancel` sets it, the two queries
/// (which take `&self`) leave it as it was.
pub open spec fn control_after(cancelled: bool, op: ControlOp) -> bool {
    match op {
        ControlOp::Cancel => true,
        ControlOp::IsCancelled => cancelled,
        ControlOp::TryBeginSpawn => cancelled,
    }
}

/// The cancellation flag after the calls `ops`, in order.
pub open spec fn control_run(cancelled: bool, ops: Seq<ControlOp>) -> bool
    decreases ops.len(),
{
    if ops.len() == 0 {
        cancelled
    } else {
        control_after(control_run(cancelled, ops.drop_last()), ops.last())
    }
}

/// Cancellation, once set, stays set: after any calls the flag is set
/// exactly when it was set before or one of the calls was `cancel`, and a
/// flag set after some prefix of the calls is still set after all of them.
/// (A control shared between threads is one value behind one lock, so every
/// holder sees the same calls.)
pub proof fn law_cancellation_stays_set(cancelled: bool, ops: Seq<ControlOp>)
    ensures
        control_run(cancelled, ops) == (cancelled || exists|i: int|
            0 <= i < ops.len() && #[trigger] ops[i] == ControlOp::Cancel),
        forall|n: int|
            0 <= n <= ops.len() && #[trigger] control_run(cancelled, ops.take(n)) ==> control_run(
                cancelled,
                ops,
            ),
    decreases ops.len(),
{
    if ops.len() > 0 {
        let prev = ops.drop_last();
        law_cancellation_stays_set(cancelled, prev);
        if exists|i: int| 0 <= i < prev.len() && #[trigger] prev[i] == ControlOp::Cancel {
            let i = choose|i: int| 0 <= i < prev.len() && #[trigger] prev[i] == ControlOp::Cancel;
            assert(ops[i] == ControlOp::Cancel);
        }
        if ops.last() == ControlOp::Cancel {
            assert(ops[ops.len() - 1] == ControlOp::Cancel);
        }
        if exists|i: int| 0 <= i < ops.len() && #[trigger] ops[i] == ControlOp::Cancel {
            let i = choose|i: int| 0 <= i < ops.len() && #[trigger] ops[i] == ControlOp::Cancel;
            if i < prev.len() {
                assert(prev[i] == ControlOp::Cancel);
            }
        }
        assert forall|n: int|
            0 <= n <= ops.len() && #[trigger] control_run(cancelled, ops.take(n)) implies control_run(
            cancelled,
            ops,
        ) by {
            if n == ops.len() {
                assert(ops.take(n) =~= ops);
            } else {
                assert(ops.take(n) =~= prev.take(n));
            }
        }
    }
}

/// Which bootstrap run the host window listens to: whether one is running,
/// and the number of the latest one.
pub struct BootstrapState {
    active: bool,
    generation: u64,
}

/// The abstract state of `BootstrapState`.
pub struct RunState {
    pub active: bool,
    pub generation: nat,
}

impl View for BootstrapState {
    type V = RunState;

    closed spec fn view(&self) -> RunState {
        RunState { active: self.active, generation: self.generation as nat }
    }
}

/// One operation on the run bookkeeping.
pub enum RunOp {
    Start,
    Finish(u64),
}

/// `start`: refused while a run is active; otherwise a new run with the
/// next generation number.
pub open spec fn start_spec(s: RunState) -> (RunState, Option<nat>) {
    if s.active {
        (s, None)
    } else {
        (RunState { active: true, generation: s.generation + 1 }, Some(s.generation + 1))
    }
}

/// `finish(g)`: ends the run when `g` is the latest generation; a stale
/// generation changes nothing.
pub open spec fn finish_spec(s: RunState, g: nat) -> RunState {
    if s.generation == g {
        RunState { active: false, generation: s.generation }
    } else {
        s
    }
}

pub open spec fn apply_op(s: RunState, op: RunOp) -> RunState {
    match op {
        RunOp::Start => start_spec(s).0,
        RunOp::Finish(g) => finish_spec(s, g as nat),
    }
}

/// The state after the operations `ops`, in order.
pub open spec fn run_ops(s: RunState, ops: Seq<RunOp>) -> RunState
    decreases ops.len(),
{
    if ops.len() == 0 {
        s
    } else {
        apply_op(run_ops(s, ops.drop_last()), ops.last())
    }
}

/// The generation numbers that the successful starts among `ops` hand out.
pub open spec fn started_generations(s: RunState, ops: Seq<RunOp>) -> Seq<nat>
    decreases ops.len(),
{
    if ops.len() == 0 {
        seq![]
    } else {
        let before = started_generations(s, ops.drop_last());
        match ops.last() {
            RunOp::Start => match start_spec(run_ops(s, ops.drop_last())).1 {
                Some(g) => before.push(g),
                None => before,
            },
            RunOp::Finish(_) => before,
        }
    }
}

impl BootstrapState {
    pub fn new() -> (r: Self)
        ensures
            r@ == (RunState { active: false, generation: 0 }),
    {
        BootstrapState { active: false, generation: 0 }
    }

    /// Starts a run unless one is active, and returns its generation.
    pub fn start(&mut self) -> (r: Option<u64>)
        requires
            !old(self)@.active ==> old(self)@.generation < u64::MAX,
        ensures
            final(self)@ == start_spec(old(self)@).0,
            match r {
                Some(g) => start_spec(old(self)@).1 == Some(g as nat),
                None => start_spec(old(self)@).1 is None,
            },
    {
        if self.active {
            return None;
        }
        self.active = true;
        self.generation = self.generation + 1;
        Some(self.generation)
    }

    /// Ends the run `generation` if it is the latest one.
    pub fn finish(&mut self, generation: u64)
        ensures
            final(self)@ == finish_spec(old(self)@, generation as nat),
    {
        if self.generation == generation {
            self.active = false;
        }
    }

    /// The number of the latest run.
    pub fn generation(&self) -> (r: u64)
        ensures
            r as nat == self@.generation,
    {
        self.generation
    }

    /// Whether `generation` is the latest run.
    pub fn is_current(&self, generation: u64) -> (r: bool)
        ensures
            r == (self@.generation == generation as nat),
    {
        self.generation == generation
    }
}

impl Default for BootstrapState {
    fn default() -> (r: Self)
        ensures
            r@ == (RunState { active: false, generation: 0 }),
    {
        BootstrapState::new()
    }
}

/// Generation numbers never go down.
pub proof fn lemma_generation_monotone(s: RunState, ops: Seq<RunOp>)
    ensures
        run_ops(s, ops).generation >= s.generation,
    decreases ops.len(),
{
    if ops.len() > 0 {
        lemma_generation_monotone(s, ops.drop_last());
    }
}

/// A generation older than the latest is stale for good: whatever starts
/// and finishes follow, it never becomes current again, so events of an
/// abandoned run are always recognised as stale.
pub proof fn law_stale_generation_stays_stale(s: RunState, ops: Seq<RunOp>, g: nat)
    requires
        g < s.generation,
    ensures
        run_ops(s, ops).generation != g,
{
    lemma_generation_monotone(s, ops);
}

/// Successful starts hand out strictly increasing generations, each larger
/// than the one current before them: no two runs share a number.
pub proof fn law_generations_increase(s: RunState, ops: Seq<RunOp>)
    ensures
        forall|i: int, j: int|
            0 <= i < j < started_generations(s, ops).len() ==> #[trigger] started_generations(
                s,
                ops,
            )[i] < #[trigger] started_generations(s, ops)[j],
        forall|i: int|
            0 <= i < started_generations(s, ops).len() ==> s.generation < #[trigger] started_generations(
                s,
                ops,
            )[i] <= run_ops(s, ops).generation,
    decreases ops.len(),
{
    if ops.len() > 0 {
        let prev = ops.drop_last();
        law_generations_increase(s, prev);
        lemma_generation_monotone(s, prev);
        let before = started_generations(s, prev);
        let st = run_ops(s, prev);
        assert(run_ops(s, ops) == apply_op(st, ops.last()));
        match ops.last() {
            RunOp::Start => {
                if !st.active {
                    let now = before.push(st.generation + 1);
                    assert(started_generations(s, ops) == now);
                    assert forall|i: int, j: int| 0 <= i < j < now.len() implies #[trigger] now[i]
                        < #[trigger] now[j] by {
                        if j < before.len() {
                            assert(now[i] == before[i] && now[j] == before[j]);
                        }
                    }
                    assert forall|i: int| 0 <= i < now.len() implies s.generation
                        < #[trigger] now[i] <= run_ops(s, ops).generation by {
                        if i < before.len() {
                            assert(now[i] == before[i]);
                        }
                    }
                }
            },
            RunOp::Finish(_) => {},
        }
    }
}

/// While a run is active a second start is refused and changes nothing;
/// after that run finishes, a start succeeds with the next generation.
pub proof fn law_no_overlapping_runs(s: RunState)
    requires
        !s.active,
    ensures
        start_spec(start_spec(s).0) == (start_spec(s).0, None::<nat>),
        start_spec(finish_spec(start_spec(s).0, s.generation + 1)).1 == Some(s.generation + 2),
{
}


/// A message from the bootstrap to the splash page. `P` is the handle of the
/// started service, which only the caller holds.
pub enum UiMsg<P> {
    Step(String),
    EnvProgress(&'static str),
    EnvCheck(Vec<EnvCheckResult>),
    Fail(String),
    Done(P),
}

/// What a message says, with its texts as characters.
pub enum Notice {
    Step(Seq<char>),
    EnvProgress(Seq<char>),
    EnvCheck(Seq<EnvCheckResult>),
    Fail(Seq<char>),
    Done,
}

pub open spec fn notice<P>(m: UiMsg<P>) -> Notice {
    match m {
        UiMsg::Step(t) => Notice::Step(t@),
        UiMsg::EnvProgress(n) => Notice::EnvProgress(n@),
        UiMsg::EnvCheck(rs) => Notice::EnvCheck(rs@),
        UiMsg::Fail(t) => Notice::Fail(t@),
        UiMsg::Done(_) => Notice::Done,
    }
}

pub open spec fn notices<P>(ms: Seq<UiMsg<P>>) -> Seq<Notice> {
    ms.map_values(|m: UiMsg<P>| notice(m))
}

pub const UPDATE_CHECK_FAILED: &'static str = "dsh 更新后校验失败，期望版本 ";

/// An update succeeded when the fresh dsh check passes and reports exactly
/// the expected version; otherwise the failure names that version.
pub fn validate_dsh_update(result: &EnvCheckResult, expected: &str) -> (r: Result<(), String>)
    ensures
        r is Ok <==> (result.ok && version_view(*result) == Some(expected@)),
        r matches Err(e) ==> e@ == UPDATE_CHECK_FAILED@ + expected@,
{
    let matches = match &result.version {
        Some(v) => same_chars(chars_of(v.as_str()).as_slice(), chars_of(expected).as_slice()),
        None => false,
    };
    if result.ok && matches {
        Ok(())
    } else {
        let mut e = String::from_str(UPDATE_CHECK_FAILED);
        e.append(expected);
        Err(e)
    }
}

/// Index of the first result whose name starts with `dsh`, or `-1`.
pub open spec fn first_dsh_from(rs: Seq<EnvCheckResult>, i: int) -> int
    decreases rs.len() - i,
{
    if i < 0 || i >= rs.len() {
        -1
    } else if starts_with(rs[i].name@, "dsh"@) {
        i
    } else {
        first_dsh_from(rs, i + 1)
    }
}

/// The locally installed dsh version: that of the first result whose name
/// starts with `dsh`, if it has one.
pub open spec fn local_dsh_version_spec(rs: Seq<EnvCheckResult>) -> Option<Seq<char>> {
    let i = first_dsh_from(rs, 0);
    if i < 0 {
        None
    } else {
        version_view(rs[i])
    }
}

pub open spec fn opt_view(o: Option<String>) -> Option<Seq<char>> {
    match o {
        Some(s) => Some(s@),
        None => None,
    }
}

pub fn local_dsh_version(results: &[EnvCheckResult]) -> (r: Option<String>)
    ensures
        opt_view(r) == local_dsh_version_spec(results@),
{
    let prefix = chars_of("dsh");
    let mut i: usize = 0;
    while i < results.len()
        invariant
            i <= results.len(),
            prefix@ == "dsh"@,
            first_dsh_from(results@, i as int) == first_dsh_from(results@, 0),
        decreases results.len() - i,
    {
        if starts_with_chars(chars_of(results[i].name).as_slice(), prefix.as_slice()) {
            return match &results[i].version {
                Some(v) => Some(v.clone()),
                None => None,
            };
        }
        i = i + 1;
    }
    None
}

/// An update is due when the published version differs from the local one,
/// both trimmed.
pub fn update_needed(local: &str, latest: &str) -> (r: bool)
    ensures
        r == (trim(latest@) != trim(local@)),
{
    let a = trim_chars(chars_of(latest).as_slice());
    let b = trim_chars(chars_of(local).as_slice());
    !same_chars(a.as_slice(), b.as_slice())
}


/// Where the bootstrap stands, between two outside steps.
#[allow(inconsistent_fields)]
pub enum BootstrapPhase {
    /// Nothing done yet.
    Start,
    /// About to run environment check `index`; `results` holds the earlier ones.
    BeforeCheck { index: usize, results: Vec<EnvCheckResult> },
    /// Environment check `index` is running.
    Checking { index: usize, results: Vec<EnvCheckResult> },
    /// All checks passed; `local` is the installed dsh version, if known.
    BeforeClose { local: Option<String> },
    /// The listeners on the service port are being closed.
    ClosingPort { local: Option<String> },
    /// The published dsh version is being looked up.
    FetchingLatest { local: String },
    /// dsh `latest` is being installed.
    Installing { latest: String },
    /// dsh is being checked again after the update to `latest`.
    Validating { latest: String },
    /// The service process is being created.
    Spawning,
    /// The service is probed for an HTTP answer, `elapsed_ms` into the wait.
    Probing { elapsed_ms: u64 },
    /// The process is checked for an early exit.
    CheckingExit { elapsed_ms: u64 },
    /// The bootstrap pauses before the next probe.
    Sleeping { elapsed_ms: u64 },
    /// The bootstrap is over.
    Finished,
}

/// What the caller observed when it performed the last command.
pub enum BootstrapEvent {
    /// The bootstrap is launched (answers `Start`).
    Begin,
    /// Answers `Proceed`.
    Proceeded,
    /// The result of the environment check that was asked for.
    EnvChecked(EnvCheckResult),
    /// The outcome of closing the port's listeners.
    PortClosed(Result<(), String>),
    /// The published dsh version, if it could be read.
    LatestVersion(Option<String>),
    /// Whether `npm install -g @deepseek-ai/dsh` succeeded.
    UpdateInstalled(bool),
    /// The dsh check made after the update.
    DshRechecked(EnvCheckResult),
    /// Cancellation won the race for the spawn permit; nothing was created.
    SpawnRefused,
    /// Creating the process failed with this error text.
    SpawnFailed(String),
    /// The process is running.
    Spawned,
    /// Whether the service answered with an HTTP status line.
    Ready(bool),
    /// The error text when the process has exited, else `None`.
    Exited(Option<String>),
    /// The pause of `READY_POLL_MS` is over.
    Slept,
}

/// What the caller must do next.
pub enum BootstrapCommand {
    /// Nothing outside; step again with a fresh look at cancellation.
    Proceed,
    /// Pause `CHECK_PAUSE_MS`, then run environment check `n` (Node.js, npm, dsh).
    RunEnvCheck(usize),
    /// Close every process listening on `DSH_PORT`.
    ClosePort,
    /// Look up the published dsh version.
    FetchLatestVersion,
    /// Run `npm install -g @deepseek-ai/dsh`.
    InstallUpdate,
    /// Run the dsh check again.
    RecheckDsh,
    /// Take the spawn permit and create the dsh web process.
    Spawn,
    /// Probe the service with an HTTP request.
    ProbeReady,
    /// Check whether the process has exited.
    CheckExited,
    /// Pause `READY_POLL_MS`.
    Sleep,
    /// Stop; nothing more to do.
    Finish,
    /// Stop the process that was started, then stop.
    Stop,
    /// Stop the process that was started, report this failure, then stop.
    StopThenFail(String),
    /// Hand the running service over (`UiMsg::Done`), then stop.
    Deliver,
}

/// The messages to send, in order, before performing `command`.
pub struct BootstrapOutput<P> {
    pub messages: Vec<UiMsg<P>>,
    pub command: BootstrapCommand,
}

pub const SPAWN_FAILED: &'static str = "启动 dsh web 失败: ";

pub const READY_TIMED_OUT: &'static str = "等待 dsh 服务就绪超时 (60s)";

pub const UPDATE_FOUND_PREFIX: &'static str = "发现 dsh 新版本 ";

pub const UPDATE_FOUND_SUFFIX: &'static str = "，正在自动更新...";

pub const UPDATE_INSTALL_FAILED_PREFIX: &'static str = "dsh 自动更新到 ";

pub const UPDATE_INSTALL_FAILED_SUFFIX: &'static str = " 失败";

/// The name shown while environment check `i` runs.
pub open spec fn check_name(i: int) -> &'static str {
    if i == 0 {
        NODE_NAME
    } else if i == 1 {
        NPM_NAME
    } else {
        DSH_NAME
    }
}

/// The phase invariant: checks run in order with their earlier results
/// kept, and the readiness wait has not reached its timeout.
pub open spec fn phase_ok(p: BootstrapPhase) -> bool {
    match p {
        BootstrapPhase::BeforeCheck { index, results } => index < 3 && results@.len() == index,
        BootstrapPhase::Checking { index, results } => index < 3 && results@.len() == index,
        BootstrapPhase::Probing { elapsed_ms } => elapsed_ms < READY_TIMEOUT_MS,
        BootstrapPhase::CheckingExit { elapsed_ms } => elapsed_ms < READY_TIMEOUT_MS,
        BootstrapPhase::Sleeping { elapsed_ms } => elapsed_ms < READY_TIMEOUT_MS,
        _ => true,
    }
}

/// The events each phase waits for.
pub open spec fn accepts(p: BootstrapPhase, e: BootstrapEvent) -> bool {
    match p {
        BootstrapPhase::Start => e is Begin,
        BootstrapPhase::BeforeCheck { .. } => e is Proceeded,
        BootstrapPhase::Checking { .. } => e is EnvChecked,
        BootstrapPhase::BeforeClose { .. } => e is Proceeded,
        BootstrapPhase::ClosingPort { .. } => e is PortClosed,
        BootstrapPhase::FetchingLatest { .. } => e is LatestVersion,
        BootstrapPhase::Installing { .. } => e is UpdateInstalled,
        BootstrapPhase::Validating { .. } => e is DshRechecked,
        BootstrapPhase::Spawning => e is SpawnRefused || e is SpawnFailed || e is Spawned,
        BootstrapPhase::Probing { .. } => e is Ready,
        BootstrapPhase::CheckingExit { .. } => e is Exited,
        BootstrapPhase::Sleeping { .. } => e is Slept,
        BootstrapPhase::Finished => false,
    }
}

/// Ends without a message.
pub open spec fn ends_quietly<P>(new: BootstrapPhase, out: BootstrapOutput<P>) -> bool {
    new is Finished && out.messages@.len() == 0 && out.command is Finish
}

/// Ends after reporting `text` as the failure.
pub open spec fn ends_failing<P>(new: BootstrapPhase, out: BootstrapOutput<P>, text: Seq<
    char,
>) -> bool {
    new is Finished && notices(out.messages@) == seq![Notice::Fail(text)] && out.command is Finish
}

/// Announces the spawn step and creates the process.
pub open spec fn goes_spawning<P>(new: BootstrapPhase, out: BootstrapOutput<P>) -> bool {
    new is Spawning && notices(out.messages@) == seq![Notice::Step(STEP_SPAWN@)]
        && out.command is Spawn
}

/// Stops the started process without a message.
pub open spec fn stops<P>(new: BootstrapPhase, out: BootstrapOutput<P>) -> bool {
    new is Finished && out.messages@.len() == 0 && out.command is Stop
}

/// One step of the bootstrap: from phase `old`, having observed `e`, with
/// cancellation requested or not (`c`), to phase `new` with output `out`.
///
/// Cancellation is looked at where a launch would otherwise go on; a
/// failure that comes after cancellation is not reported.
pub open spec fn transition<P>(
    old: BootstrapPhase,
    e: BootstrapEvent,
    c: bool,
    new: BootstrapPhase,
    out: BootstrapOutput<P>,
) -> bool {
    match old {
        BootstrapPhase::Start => if c {
            ends_quietly(new, out)
        } else {
            &&& new matches BootstrapPhase::BeforeCheck { index, results }
            &&& index == 0
            &&& results@.len() == 0
            &&& notices(out.messages@) == seq![Notice::Step(STEP_CHECK_ENV@)]
            &&& out.command is Proceed
        },
        BootstrapPhase::BeforeCheck { index, results } => if c {
            ends_quietly(new, out)
        } else {
            &&& new == (BootstrapPhase::Checking { index, results })
            &&& notices(out.messages@) == seq![Notice::EnvProgress(check_name(index as int)@)]
            &&& out.command == BootstrapCommand::RunEnvCheck(index)
        },
        BootstrapPhase::Checking { index, results } => match e {
            BootstrapEvent::EnvChecked(r) => {
                let all = results@.push(r);
                if index < 2 {
                    &&& new matches BootstrapPhase::BeforeCheck { index: i2, results: r2 }
                    &&& i2 == index + 1
                    &&& r2@ == all
                    &&& out.messages@.len() == 0
                    &&& out.command is Proceed
                } else {
                    &&& notices(out.messages@) == seq![Notice::EnvCheck(all)]
                    &&& if forall|j: int| 0 <= j < all.len() ==> #[trigger] all[j].ok {
                        &&& new matches BootstrapPhase::BeforeClose { local }
                        &&& opt_view(local) == local_dsh_version_spec(all)
                        &&& out.command is Proceed
                    } else {
                        new is Finished && out.command is Finish
                    }
                }
            },
            _ => false,
        },
        BootstrapPhase::BeforeClose { local } => if c {
            ends_quietly(new, out)
        } else {
            &&& new == (BootstrapPhase::ClosingPort { local })
            &&& notices(out.messages@) == seq![Notice::Step(STEP_CLOSE_PORT@)]
            &&& out.command is ClosePort
        },
        BootstrapPhase::ClosingPort { local } => match e {
            BootstrapEvent::PortClosed(Err(msg)) => if c {
                ends_quietly(new, out)
            } else {
                ends_failing(new, out, msg@)
            },
            BootstrapEvent::PortClosed(Ok(())) => if c {
                ends_quietly(new, out)
            } else {
                match local {
                    None => goes_spawning(new, out),
                    Some(l) => new == (BootstrapPhase::FetchingLatest { local: l })
                        && out.messages@.len() == 0 && out.command is FetchLatestVersion,
                }
            },
            _ => false,
        },
        BootstrapPhase::FetchingLatest { local } => match e {
            BootstrapEvent::LatestVersion(latest) => if c {
                ends_quietly(new, out)
            } else {
                match latest {
                    None => goes_spawning(new, out),
                    Some(l) => if trim(l@) == trim(local@) {
                        goes_spawning(new, out)
                    } else {
                        &&& new == (BootstrapPhase::Installing { latest: l })
                        &&& notices(out.messages@) == seq![
                            Notice::Step(UPDATE_FOUND_PREFIX@ + l@ + UPDATE_FOUND_SUFFIX@),
                        ]
                        &&& out.command is InstallUpdate
                    },
                }
            },
            _ => false,
        },
        BootstrapPhase::Installing { latest } => match e {
            BootstrapEvent::UpdateInstalled(true) => new == (BootstrapPhase::Validating { latest })
                && out.messages@.len() == 0 && out.command is RecheckDsh,
            BootstrapEvent::UpdateInstalled(false) => if c {
                ends_quietly(new, out)
            } else {
                ends_failing(
                    new,
                    out,
                    UPDATE_INSTALL_FAILED_PREFIX@ + latest@ + UPDATE_INSTALL_FAILED_SUFFIX@,
                )
            },
            _ => false,
        },
        BootstrapPhase::Validating { latest } => match e {
            BootstrapEvent::DshRechecked(r) => if c {
                ends_quietly(new, out)
            } else if r.ok && version_view(r) == Some(latest@) {
                goes_spawning(new, out)
            } else {
                ends_failing(new, out, UPDATE_CHECK_FAILED@ + latest@)
            },
            _ => false,
        },
        BootstrapPhase::Spawning => match e {
            BootstrapEvent::SpawnRefused => ends_quietly(new, out),
            BootstrapEvent::SpawnFailed(msg) => ends_failing(new, out, SPAWN_FAILED@ + msg@),
            BootstrapEvent::Spawned => if c {
                stops(new, out)
            } else {
                &&& new == (BootstrapPhase::Probing { elapsed_ms: 0 })
                &&& notices(out.messages@) == seq![Notice::Step(STEP_WAIT_READY@)]
                &&& out.command is ProbeReady
            },
            _ => false,
        },
        BootstrapPhase::Probing { elapsed_ms } => match e {
            BootstrapEvent::Ready(true) => if c {
                stops(new, out)
            } else {
                new is Finished && out.messages@.len() == 0 && out.command is Deliver
            },
            BootstrapEvent::Ready(false) => new == (BootstrapPhase::CheckingExit { elapsed_ms })
                && out.messages@.len() == 0 && out.command is CheckExited,
            _ => false,
        },
        BootstrapPhase::CheckingExit { elapsed_ms } => match e {
            BootstrapEvent::Exited(Some(msg)) => ends_failing(new, out, msg@),
            BootstrapEvent::Exited(None) => if c {
                stops(new, out)
            } else {
                new == (BootstrapPhase::Sleeping { elapsed_ms }) && out.messages@.len() == 0
                    && out.command is Sleep
            },
            _ => false,
        },
        BootstrapPhase::Sleeping { elapsed_ms } => match e {
            BootstrapEvent::Slept => if c {
                stops(new, out)
            } else if elapsed_ms + READY_POLL_MS >= READY_TIMEOUT_MS {
                &&& new is Finished
                &&& out.messages@.len() == 0
                &&& out.command matches BootstrapCommand::StopThenFail(msg) && msg@ == READY_TIMED_OUT@
            } else {
                new == (BootstrapPhase::Probing { elapsed_ms: (elapsed_ms + READY_POLL_MS) as u64 })
                    && out.messages@.len() == 0 && out.command is ProbeReady
            },
            _ => false,
        },
        BootstrapPhase::Finished => false,
    }
}


fn quiet_end<P>() -> (r: (BootstrapPhase, BootstrapOutput<P>))
    ensures
        ends_quietly(r.0, r.1),
{
    (BootstrapPhase::Finished, BootstrapOutput { messages: Vec::new(), command: BootstrapCommand::Finish })
}

fn failing_end<P>(text: String) -> (r: (BootstrapPhase, BootstrapOutput<P>))
    ensures
        ends_failing(r.0, r.1, text@),
{
    let mut messages: Vec<UiMsg<P>> = Vec::new();
    messages.push(UiMsg::Fail(text));
    assert(notices(messages@) =~= seq![Notice::Fail(text@)]);
    (BootstrapPhase::Finished, BootstrapOutput { messages, command: BootstrapCommand::Finish })
}

fn stop_end<P>() -> (r: (BootstrapPhase, BootstrapOutput<P>))
    ensures
        stops(r.0, r.1),
{
    (BootstrapPhase::Finished, BootstrapOutput { messages: Vec::new(), command: BootstrapCommand::Stop })
}

fn one_message<P>(m: UiMsg<P>) -> (r: Vec<UiMsg<P>>)
    ensures
        notices(r@) == seq![notice(m)],
{
    let mut v: Vec<UiMsg<P>> = Vec::new();
    v.push(m);
    assert(notices(v@) =~= seq![notice(m)]);
    v
}

fn to_spawning<P>() -> (r: (BootstrapPhase, BootstrapOutput<P>))
    ensures
        goes_spawning(r.0, r.1),
{
    let messages = one_message(UiMsg::Step(String::from_str(STEP_SPAWN)));
    (BootstrapPhase::Spawning, BootstrapOutput { messages, command: BootstrapCommand::Spawn })
}

fn check_name_of(i: usize) -> (r: &'static str)
    ensures
        r == check_name(i as int),
{
    if i == 0 {
        NODE_NAME
    } else if i == 1 {
        NPM_NAME
    } else {
        DSH_NAME
    }
}

impl BootstrapPhase {
    /// The phase before anything is done.
    pub fn new() -> (r: Self)
        ensures
            r is Start,
    {
        BootstrapPhase::Start
    }

    /// Whether the phase invariant holds (it does for every phase that
    /// `new` and `step` produce).
    pub fn well_formed(&self) -> (r: bool)
        ensures
            r == phase_ok(*self),
    {
        match self {
            BootstrapPhase::BeforeCheck { index, results } => *index < 3 && results.len() == *index,
            BootstrapPhase::Checking { index, results } => *index < 3 && results.len() == *index,
            BootstrapPhase::Probing { elapsed_ms } => *elapsed_ms < READY_TIMEOUT_MS,
            BootstrapPhase::CheckingExit { elapsed_ms } => *elapsed_ms < READY_TIMEOUT_MS,
            BootstrapPhase::Sleeping { elapsed_ms } => *elapsed_ms < READY_TIMEOUT_MS,
            _ => true,
        }
    }

    /// Whether this phase waits for `e`.
    pub fn accepts_event(&self, e: &BootstrapEvent) -> (r: bool)
        ensures
            r == accepts(*self, *e),
    {
        match self {
            BootstrapPhase::Start => matches!(e, BootstrapEvent::Begin),
            BootstrapPhase::BeforeCheck { .. } => matches!(e, BootstrapEvent::Proceeded),
            BootstrapPhase::Checking { .. } => matches!(e, BootstrapEvent::EnvChecked(_)),
            BootstrapPhase::BeforeClose { .. } => matches!(e, BootstrapEvent::Proceeded),
            BootstrapPhase::ClosingPort { .. } => matches!(e, BootstrapEvent::PortClosed(_)),
            BootstrapPhase::FetchingLatest { .. } => matches!(e, BootstrapEvent::LatestVersion(_)),
            BootstrapPhase::Installing { .. } => matches!(e, BootstrapEvent::UpdateInstalled(_)),
            BootstrapPhase::Validating { .. } => matches!(e, BootstrapEvent::DshRechecked(_)),
            BootstrapPhase::Spawning => matches!(
                e,
                BootstrapEvent::SpawnRefused | BootstrapEvent::SpawnFailed(_) | BootstrapEvent::Spawned
            ),
            BootstrapPhase::Probing { .. } => matches!(e, BootstrapEvent::Ready(_)),
            BootstrapPhase::CheckingExit { .. } => matches!(e, BootstrapEvent::Exited(_)),
            BootstrapPhase::Sleeping { .. } => matches!(e, BootstrapEvent::Slept),
            BootstrapPhase::Finished => false,
        }
    }

    /// Decides the next phase and output after `e`, given whether
    /// cancellation is requested now.
    pub fn step<P>(self, e: BootstrapEvent, cancelled: bool) -> (r: (
        BootstrapPhase,
        BootstrapOutput<P>,
    ))
        requires
            phase_ok(self),
            accepts(self, e),
        ensures
            transition(self, e, cancelled, r.0, r.1),
            phase_ok(r.0),
    {
        match self {
            BootstrapPhase::Start => {
                if cancelled {
                    return quiet_end();
                }
                let messages = one_message(UiMsg::Step(String::from_str(STEP_CHECK_ENV)));
                (
                    BootstrapPhase::BeforeCheck { index: 0, results: Vec::new() },
                    BootstrapOutput { messages, command: BootstrapCommand::Proceed },
                )
            },
            BootstrapPhase::BeforeCheck { index, results } => {
                if cancelled {
                    return quiet_end();
                }
                let messages = one_message(UiMsg::EnvProgress(check_name_of(index)));
                (
                    BootstrapPhase::Checking { index, results },
                    BootstrapOutput { messages, command: BootstrapCommand::RunEnvCheck(index) },
                )
            },
            BootstrapPhase::Checking { index, results } => {
                let mut results = results;
                match e {
                    BootstrapEvent::EnvChecked(r) => {
                        results.push(r);
                    },
                    _ => {},
                }
                if index < 2 {
                    (
                        BootstrapPhase::BeforeCheck { index: index + 1, results },
                        BootstrapOutput { messages: Vec::new(), command: BootstrapCommand::Proceed },
                    )
                } else {
                    let ok = all_ok(results.as_slice());
                    let local = local_dsh_version(results.as_slice());
                    let messages = one_message(UiMsg::EnvCheck(results));
                    if ok {
                        (
                            BootstrapPhase::BeforeClose { local },
                            BootstrapOutput { messages, command: BootstrapCommand::Proceed },
                        )
                    } else {
                        (
                            BootstrapPhase::Finished,
                            BootstrapOutput { messages, command: BootstrapCommand::Finish },
                        )
                    }
                }
            },
            BootstrapPhase::BeforeClose { local } => {
                if cancelled {
                    return quiet_end();
                }
                let messages = one_message(UiMsg::Step(String::from_str(STEP_CLOSE_PORT)));
                (
                    BootstrapPhase::ClosingPort { local },
                    BootstrapOutput { messages, command: BootstrapCommand::ClosePort },
                )
            },
            BootstrapPhase::ClosingPort { local } => {
                match e {
                    BootstrapEvent::PortClosed(Err(msg)) => {
                        if cancelled {
                            quiet_end()
                        } else {
                            failing_end(msg)
                        }
                    },
                    _ => {
                        if cancelled {
                            return quiet_end();
                        }
                        match local {
                            None => to_spawning(),
                            Some(l) => (
                                BootstrapPhase::FetchingLatest { local: l },
                                BootstrapOutput {
                                    messages: Vec::new(),
                                    command: BootstrapCommand::FetchLatestVersion,
                                },
                            ),
                        }
                    },
                }
            },
            BootstrapPhase::FetchingLatest { local } => {
                if cancelled {
                    return quiet_end();
                }
                match e {
                    BootstrapEvent::LatestVersion(Some(l)) => {
                        if !update_needed(local.as_str(), l.as_str()) {
                            return to_spawning();
                        }
                        let mut text = String::from_str(UPDATE_FOUND_PREFIX);
                        text.append(l.as_str());
                        text.append(UPDATE_FOUND_SUFFIX);
                        let messages = one_message(UiMsg::Step(text));
                        (
                            BootstrapPhase::Installing { latest: l },
                            BootstrapOutput { messages, command: BootstrapCommand::InstallUpdate },
                        )
                    },
                    _ => to_spawning(),
                }
            },
            BootstrapPhase::Installing { latest } => {
                match e {
                    BootstrapEvent::UpdateInstalled(true) => (
                        BootstrapPhase::Validating { latest },
                        BootstrapOutput { messages: Vec::new(), command: BootstrapCommand::RecheckDsh },
                    ),
                    _ => {
                        if cancelled {
                            return quiet_end();
                        }
                        let mut text = String::from_str(UPDATE_INSTALL_FAILED_PREFIX);
                        text.append(latest.as_str());
                        text.append(UPDATE_INSTALL_FAILED_SUFFIX);
                        failing_end(text)
                    },
                }
            },
            BootstrapPhase::Validating { latest } => {
                if cancelled {
                    return quiet_end();
                }
                match e {
                    BootstrapEvent::DshRechecked(r) => match validate_dsh_update(&r, latest.as_str()) {
                        Ok(()) => to_spawning(),
                        Err(msg) => failing_end(msg),
                    },
                    _ => quiet_end(),
                }
            },
            BootstrapPhase::Spawning => {
                match e {
                    BootstrapEvent::SpawnRefused => quiet_end(),
                    BootstrapEvent::SpawnFailed(msg) => {
                        let mut text = String::from_str(SPAWN_FAILED);
                        text.append(msg.as_str());
                        failing_end(text)
                    },
                    _ => {
                        if cancelled {
                            return stop_end();
                        }
                        let messages = one_message(UiMsg::Step(String::from_str(STEP_WAIT_READY)));
                        (
                            BootstrapPhase::Probing { elapsed_ms: 0 },
                            BootstrapOutput { messages, command: BootstrapCommand::ProbeReady },
                        )
                    },
                }
            },
            BootstrapPhase::Probing { elapsed_ms } => {
                match e {
                    BootstrapEvent::Ready(true) => {
                        if cancelled {
                            return stop_end();
                        }
                        (
                            BootstrapPhase::Finished,
                            BootstrapOutput { messages: Vec::new(), command: BootstrapCommand::Deliver },
                        )
                    },
                    _ => (
                        BootstrapPhase::CheckingExit { elapsed_ms },
                        BootstrapOutput { messages: Vec::new(), command: BootstrapCommand::CheckExited },
                    ),
                }
            },
            BootstrapPhase::CheckingExit { elapsed_ms } => {
                match e {
                    BootstrapEvent::Exited(Some(msg)) => failing_end(msg),
                    _ => {
                        if cancelled {
                            return stop_end();
                        }
                        (
                            BootstrapPhase::Sleeping { elapsed_ms },
                            BootstrapOutput { messages: Vec::new(), command: BootstrapCommand::Sleep },
                        )
                    },
                }
            },
            BootstrapPhase::Sleeping { elapsed_ms } => {
                if cancelled {
                    return stop_end();
                }
                let elapsed = elapsed_ms + READY_POLL_MS;
                if elapsed >= READY_TIMEOUT_MS {
                    (
                        BootstrapPhase::Finished,
                        BootstrapOutput {
                            messages: Vec::new(),
                            command: BootstrapCommand::StopThenFail(String::from_str(READY_TIMED_OUT)),
                        },
                    )
                } else {
                    (
                        BootstrapPhase::Probing { elapsed_ms: elapsed },
                        BootstrapOutput { messages: Vec::new(), command: BootstrapCommand::ProbeReady },
                    )
                }
            },
            BootstrapPhase::Finished => quiet_end(),
        }
    }
}


/// A bound on the steps left from a phase: every step of the bootstrap
/// lowers it, and `Finished` has 0.
pub open spec fn steps_bound(p: BootstrapPhase) -> nat {
    let w: int = 3 * READY_TIMEOUT_MS + 3;
    (match p {
        BootstrapPhase::Start => w + 20,
        BootstrapPhase::BeforeCheck { index, .. } => w + 8 + 2 * (2 - index),
        BootstrapPhase::Checking { index, .. } => w + 7 + 2 * (2 - index),
        BootstrapPhase::BeforeClose { .. } => w + 6,
        BootstrapPhase::ClosingPort { .. } => w + 5,
        BootstrapPhase::FetchingLatest { .. } => w + 4,
        BootstrapPhase::Installing { .. } => w + 3,
        BootstrapPhase::Validating { .. } => w + 2,
        BootstrapPhase::Spawning => w + 1,
        BootstrapPhase::Probing { elapsed_ms } => 3 * (READY_TIMEOUT_MS - elapsed_ms) + 2,
        BootstrapPhase::CheckingExit { elapsed_ms } => 3 * (READY_TIMEOUT_MS - elapsed_ms) + 1,
        BootstrapPhase::Sleeping { elapsed_ms } => 3 * (READY_TIMEOUT_MS - elapsed_ms),
        BootstrapPhase::Finished => 0,
    }) as nat
}

/// The commands after which the caller stops stepping.
pub open spec fn is_final(c: BootstrapCommand) -> bool {
    c is Finish || c is Stop || c is StopThenFail || c is Deliver
}

/// The bootstrap always ends: each step lowers `steps_bound`, the step that
/// reaches `Finished` is exactly the one with a final command, and nothing
/// follows `Finished`. So a run takes at most `steps_bound(Start)` steps,
/// however long the service takes to answer.
pub proof fn law_bootstrap_terminates<P>(
    old: BootstrapPhase,
    e: BootstrapEvent,
    c: bool,
    new: BootstrapPhase,
    out: BootstrapOutput<P>,
)
    requires
        phase_ok(old),
        accepts(old, e),
        transition(old, e, c, new, out),
    ensures
        steps_bound(new) < steps_bound(old),
        new is Finished <==> is_final(out.command),
        forall|e2: BootstrapEvent| !accepts(BootstrapPhase::Finished, e2),
{
}

/// Once cancellation is requested, the bootstrap starts nothing new: it
/// neither checks nor closes nor updates nor spawns, waits for nothing, and
/// never hands a service over.
pub proof fn law_cancelled_starts_nothing<P>(
    old: BootstrapPhase,
    e: BootstrapEvent,
    new: BootstrapPhase,
    out: BootstrapOutput<P>,
)
    requires
        phase_ok(old),
        accepts(old, e),
        transition(old, e, true, new, out),
    ensures
        out.command is Proceed || out.command is RecheckDsh || out.command is CheckExited
            || out.command is Finish || out.command is Stop,
{
}

/// A service is handed over only right after it answered a probe, with no
/// cancellation requested; the process is stopped only by a phase that has
/// started it.
pub proof fn law_delivery_and_stop<P>(
    old: BootstrapPhase,
    e: BootstrapEvent,
    c: bool,
    new: BootstrapPhase,
    out: BootstrapOutput<P>,
)
    requires
        phase_ok(old),
        accepts(old, e),
        transition(old, e, c, new, out),
    ensures
        out.command is Deliver ==> old is Probing && e == BootstrapEvent::Ready(true) && !c,
        (out.command is Stop || out.command is StopThenFail) ==> (old is Spawning
            && e is Spawned) || old is Probing || old is CheckingExit || old is Sleeping,
{
}

/// How far the launch has come: environment check, port, spawn, readiness
/// wait, done.
pub open spec fn stage(p: BootstrapPhase) -> nat {
    match p {
        BootstrapPhase::Start => 0,
        BootstrapPhase::BeforeCheck { .. } => 1,
        BootstrapPhase::Checking { .. } => 1,
        BootstrapPhase::BeforeClose { .. } => 1,
        BootstrapPhase::ClosingPort { .. } => 2,
        BootstrapPhase::FetchingLatest { .. } => 2,
        BootstrapPhase::Installing { .. } => 2,
        BootstrapPhase::Validating { .. } => 2,
        BootstrapPhase::Spawning => 3,
        BootstrapPhase::Probing { .. } => 4,
        BootstrapPhase::CheckingExit { .. } => 4,
        BootstrapPhase::Sleeping { .. } => 4,
        BootstrapPhase::Finished => 5,
    }
}

/// The progress lines come out in the order of `direct_launch_event_order`,
/// each at most once: stages never go back, and the line `k` of that order is
/// only sent by the step that enters stage `k + 1` from an earlier one.
pub proof fn law_progress_order<P>(
    old: BootstrapPhase,
    e: BootstrapEvent,
    c: bool,
    new: BootstrapPhase,
    out: BootstrapOutput<P>,
    k: int,
)
    requires
        phase_ok(old),
        accepts(old, e),
        transition(old, e, c, new, out),
        0 <= k < 4,
    ensures
        stage(new) >= stage(old),
        notices(out.messages@).contains(
            Notice::Step(
                seq![STEP_CHECK_ENV, STEP_CLOSE_PORT, STEP_SPAWN, STEP_WAIT_READY][k]@,
            ),
        ) ==> stage(old) <= k && stage(new) == k + 1,
{
    reveal_strlit("正在检查运行环境...");
    reveal_strlit("正在关闭 3080 端口上的服务...");
    reveal_strlit("正在启动 dsh web 服务...");
    reveal_strlit("等待服务就绪...");
    reveal_strlit("发现 dsh 新版本 ");
    let order = seq![STEP_CHECK_ENV, STEP_CLOSE_PORT, STEP_SPAWN, STEP_WAIT_READY];
    assert(STEP_CHECK_ENV@[2] == '检' && STEP_CLOSE_PORT@[2] == '关' && STEP_SPAWN@[2] == '启'
        && STEP_WAIT_READY@[2] == '服');
    assert(order[k]@[2] == (if k == 0 {
        '检'
    } else if k == 1 {
        '关'
    } else if k == 2 {
        '启'
    } else {
        '服'
    }));
    let ns = notices(out.messages@);
    if ns.contains(Notice::Step(order[k]@)) {
        let i = choose|i: int| 0 <= i < ns.len() && ns[i] == Notice::Step(order[k]@);
        assert(ns[i] == Notice::Step(order[k]@));
        match old {
            BootstrapPhase::FetchingLatest { local } => {
                if let BootstrapEvent::LatestVersion(Some(l)) = e {
                    if !c && trim(l@) != trim(local@) {
                        let t = UPDATE_FOUND_PREFIX@ + l@ + UPDATE_FOUND_SUFFIX@;
                        assert(t[0] == '发');
                        assert(order[k]@[0] != '发');
                    }
                }
            },
            _ => {},
        }
    }
}


/// Line `k` of `direct_launch_event_order`.
pub open spec fn launch_line(k: int) -> Seq<char> {
    seq![STEP_CHECK_ENV, STEP_CLOSE_PORT, STEP_SPAWN, STEP_WAIT_READY][k]@
}

/// A notice that ends the run for the splash page: a failure or the
/// hand-over of the service.
pub open spec fn is_terminal(n: Notice) -> bool {
    n is Fail || n is Done
}

/// The environment check results, all passed.
pub open spec fn checks_passed(n: Notice) -> bool {
    n matches Notice::EnvCheck(rs) && forall|j: int| 0 <= j < rs.len() ==> #[trigger] rs[j].ok
}

/// Past the environment checks, with all of them passed.
pub open spec fn past_checks(p: BootstrapPhase) -> bool {
    p is BeforeClose || (stage(p) >= 2 && !(p is Finished))
}

/// What one step sends, in order: its messages, then the failure or the
/// hand-over that the caller sends for a final command.
pub open spec fn step_notices<P>(out: BootstrapOutput<P>) -> Seq<Notice> {
    notices(out.messages@) + match out.command {
        BootstrapCommand::StopThenFail(m) => seq![Notice::Fail(m@)],
        BootstrapCommand::Deliver => seq![Notice::Done],
        _ => Seq::<Notice>::empty(),
    }
}

/// Everything the steps `outs` send, in order.
pub open spec fn run_notices<P>(outs: Seq<BootstrapOutput<P>>) -> Seq<Notice>
    decreases outs.len(),
{
    if outs.len() == 0 {
        Seq::<Notice>::empty()
    } else {
        run_notices(outs.drop_last()) + step_notices(outs.last())
    }
}

/// A run of the bootstrap from `Start`: step `i` goes from `phases[i]`,
/// observing `events[i]` with cancellation `cancels[i]`, to `phases[i + 1]`
/// with output `outs[i]`.
pub open spec fn is_run<P>(
    phases: Seq<BootstrapPhase>,
    events: Seq<BootstrapEvent>,
    cancels: Seq<bool>,
    outs: Seq<BootstrapOutput<P>>,
) -> bool {
    &&& phases.len() == outs.len() + 1
    &&& events.len() == outs.len()
    &&& cancels.len() == outs.len()
    &&& phases[0] is Start
    &&& forall|i: int|
        #![trigger events[i]]
        0 <= i < outs.len() ==> accepts(phases[i], events[i]) && transition(
            phases[i],
            events[i],
            cancels[i],
            phases[i + 1],
            outs[i],
        )
}

/// What one step contributes to the trace of a run.
proof fn lemma_step_facts<P>(
    old: BootstrapPhase,
    e: BootstrapEvent,
    c: bool,
    new: BootstrapPhase,
    out: BootstrapOutput<P>,
)
    requires
        phase_ok(old),
        accepts(old, e),
        transition(old, e, c, new, out),
    ensures
        phase_ok(new),
        step_notices(out).len() <= 1,
        stage(new) >= stage(old),
        forall|k: int|
            0 <= k < 4 && step_notices(out).contains(Notice::Step(#[trigger] launch_line(k)))
                ==> stage(old) <= k && stage(new) == k + 1,
        (exists|i: int|
            0 <= i < step_notices(out).len() && is_terminal(#[trigger] step_notices(out)[i]))
            ==> new is Finished,
        step_notices(out).contains(Notice::Done) ==> old is Probing,
        !(new is Finished) && stage(new) > stage(old) ==> stage(new) == stage(old) + 1
            && step_notices(out).contains(Notice::Step(launch_line(stage(new) - 1))),
        new is BeforeClose ==> exists|i: int|
            0 <= i < step_notices(out).len() && checks_passed(#[trigger] step_notices(out)[i]),
        past_checks(new) && !(new is BeforeClose) ==> past_checks(old),
{
    let ns = step_notices(out);
    assert(notices(out.messages@).len() == out.messages@.len());
    assert forall|k: int|
        0 <= k < 4 && ns.contains(Notice::Step(#[trigger] launch_line(k))) implies stage(old) <= k
        && stage(new) == k + 1 by {
        law_progress_order(old, e, c, new, out, k);
        let i = choose|i: int| 0 <= i < ns.len() && ns[i] == Notice::Step(launch_line(k));
        assert(i < notices(out.messages@).len());
        assert(notices(out.messages@)[i] == ns[i]);
        assert(notices(out.messages@).contains(Notice::Step(launch_line(k))));
    }
    if exists|i: int| 0 <= i < ns.len() && is_terminal(#[trigger] ns[i]) {
        let i = choose|i: int| 0 <= i < ns.len() && is_terminal(#[trigger] ns[i]);
        if i < notices(out.messages@).len() {
            assert(ns[i] == notices(out.messages@)[i]);
        }
    }
    if ns.contains(Notice::Done) {
        let i = choose|i: int| 0 <= i < ns.len() && ns[i] == Notice::Done;
        if i < notices(out.messages@).len() {
            assert(ns[i] == notices(out.messages@)[i]);
        }
    }
    if !(new is Finished) && stage(new) > stage(old) {
        assert(ns[0] == notices(out.messages@)[0]);
    }
    if new is BeforeClose {
        assert(ns[0] == notices(out.messages@)[0]);
        assert(checks_passed(ns[0]));
    }
}

/// The invariant of a run's trace so far, in phase `cur`.
spec fn trace_ok(ms: Seq<Notice>, cur: BootstrapPhase) -> bool {
    &&& forall|a: int| 0 <= a < ms.len() && is_terminal(#[trigger] ms[a]) ==> a == ms.len() - 1
        && cur is Finished
    &&& forall|a: int, k: int|
        #![trigger ms[a], launch_line(k)]
        0 <= a < ms.len() && 0 <= k < 4 && ms[a] == Notice::Step(launch_line(k)) ==> k + 1
            <= stage(cur)
    &&& forall|a: int, b: int, k1: int, k2: int|
        #![trigger ms[a], ms[b], launch_line(k1), launch_line(k2)]
        0 <= a < b < ms.len() && 0 <= k1 < 4 && 0 <= k2 < 4 && ms[a] == Notice::Step(
            launch_line(k1),
        ) && ms[b] == Notice::Step(launch_line(k2)) ==> k1 < k2
    &&& !(cur is Finished) ==> forall|k: int|
        0 <= k < 4 && k + 1 <= stage(cur) ==> ms.contains(Notice::Step(#[trigger] launch_line(k)))
    &&& forall|a: int|
        0 <= a < ms.len() && #[trigger] ms[a] == Notice::Done ==> forall|k: int|
            0 <= k < 4 ==> ms.subrange(0, a).contains(Notice::Step(#[trigger] launch_line(k)))
    &&& past_checks(cur) ==> exists|b: int| 0 <= b < ms.len() && checks_passed(#[trigger] ms[b])
    &&& forall|a: int, k: int|
        #![trigger ms[a], launch_line(k)]
        0 <= a < ms.len() && 1 <= k < 4 && ms[a] == Notice::Step(launch_line(k)) ==> exists|
            b: int,
        | 0 <= b < a && checks_passed(#[trigger] ms[b])
}

proof fn lemma_trace_ok<P>(
    phases: Seq<BootstrapPhase>,
    events: Seq<BootstrapEvent>,
    cancels: Seq<bool>,
    outs: Seq<BootstrapOutput<P>>,
)
    requires
        is_run(phases, events, cancels, outs),
    ensures
        phase_ok(phases.last()),
        trace_ok(run_notices(outs), phases.last()),
    decreases outs.len(),
{
    if outs.len() > 0 {
        let n = outs.len() - 1;
        let pp = phases.drop_last();
        let pe = events.drop_last();
        let pc = cancels.drop_last();
        let po = outs.drop_last();
        assert forall|i: int| #![trigger pe[i]] 0 <= i < po.len() implies accepts(pp[i], pe[i])
            && transition(pp[i], pe[i], pc[i], pp[i + 1], po[i]) by {
            assert(pe[i] == events[i] && po[i] == outs[i] && pc[i] == cancels[i]);
            assert(pp[i] == phases[i] && pp[i + 1] == phases[i + 1]);
        }
        lemma_trace_ok(pp, pe, pc, po);
        let cur = phases[n];
        let new = phases[n + 1];
        assert(pp.last() == cur);
        assert(accepts(phases[n], events[n]) && transition(
            phases[n],
            events[n],
            cancels[n],
            phases[n + 1],
            outs[n],
        ));
        lemma_step_facts(cur, events[n], cancels[n], new, outs[n]);
        let old_ms = run_notices(po);
        let ns = step_notices(outs[n]);
        let ms = run_notices(outs);
        assert(ms == old_ms + ns);
        let l = old_ms.len() as int;
        assert(!(cur is Finished));
        // Everything before the new notice stays where it was.
        assert forall|a: int| 0 <= a < l implies #[trigger] ms[a] == old_ms[a] by {}
        assert forall|a: int| l <= a < ms.len() implies #[trigger] ms[a] == ns[a - l] by {}
        // Terminal notices come last.
        assert forall|a: int| 0 <= a < ms.len() && is_terminal(#[trigger] ms[a]) implies a
            == ms.len() - 1 && new is Finished by {
            if a < l {
                assert(is_terminal(old_ms[a]));
            } else {
                assert(is_terminal(ns[a - l]));
            }
        }
        // Launch lines never exceed the stage reached.
        assert forall|a: int, k: int|
            #![trigger ms[a], launch_line(k)]
            0 <= a < ms.len() && 0 <= k < 4 && ms[a] == Notice::Step(launch_line(k)) implies k + 1
                <= stage(new) by {
            if a < l {
                assert(old_ms[a] == Notice::Step(launch_line(k)));
            } else {
                assert(ns[a - l] == Notice::Step(launch_line(k)));
                assert(ns.contains(Notice::Step(launch_line(k))));
            }
        }
        // Launch lines come in order.
        assert forall|a: int, b: int, k1: int, k2: int|
            #![trigger ms[a], ms[b], launch_line(k1), launch_line(k2)]
            0 <= a < b < ms.len() && 0 <= k1 < 4 && 0 <= k2 < 4 && ms[a] == Notice::Step(
                launch_line(k1),
            ) && ms[b] == Notice::Step(launch_line(k2)) implies k1 < k2 by {
            if b < l {
                assert(old_ms[a] == Notice::Step(launch_line(k1)));
                assert(old_ms[b] == Notice::Step(launch_line(k2)));
            } else {
                assert(a < l);
                assert(old_ms[a] == Notice::Step(launch_line(k1)));
                assert(ns[b - l] == Notice::Step(launch_line(k2)));
                assert(ns.contains(Notice::Step(launch_line(k2))));
            }
        }
        // Every stage entered so far has sent its line.
        if !(new is Finished) {
            assert forall|k: int| 0 <= k < 4 && k + 1 <= stage(new) implies ms.contains(
                Notice::Step(#[trigger] launch_line(k)),
            ) by {
                if k + 1 <= stage(cur) {
                    let a = choose|a: int|
                        0 <= a < old_ms.len() && old_ms[a] == Notice::Step(launch_line(k));
                    assert(ms[a] == old_ms[a]);
                } else {
                    assert(k + 1 == stage(new));
                    let j = choose|j: int|
                        0 <= j < ns.len() && ns[j] == Notice::Step(launch_line(stage(new) - 1));
                    assert(ms[l + j] == ns[j]);
                }
            }
        }
        // The hand-over follows all four lines.
        assert forall|a: int| 0 <= a < ms.len() && #[trigger] ms[a] == Notice::Done implies forall|
            k: int,
        | 0 <= k < 4 ==> ms.subrange(0, a).contains(Notice::Step(#[trigger] launch_line(k))) by {
            if a < l {
                assert(old_ms[a] == Notice::Done);
                assert(ms.subrange(0, a) =~= old_ms.subrange(0, a));
            } else {
                assert(ns[a - l] == Notice::Done);
                assert(ns.contains(Notice::Done));
                assert(cur is Probing);
                assert forall|k: int| 0 <= k < 4 implies ms.subrange(0, a).contains(
                    Notice::Step(#[trigger] launch_line(k)),
                ) by {
                    let i = choose|i: int|
                        0 <= i < old_ms.len() && old_ms[i] == Notice::Step(launch_line(k));
                    assert(ms.subrange(0, a)[i] == old_ms[i]);
                }
            }
        }
        // The checks passed before anything past them is sent.
        if past_checks(new) {
            if new is BeforeClose {
                let j = choose|j: int| 0 <= j < ns.len() && checks_passed(#[trigger] ns[j]);
                assert(ms[l + j] == ns[j]);
            } else {
                let b = choose|b: int| 0 <= b < old_ms.len() && checks_passed(#[trigger] old_ms[b]);
                assert(ms[b] == old_ms[b]);
            }
        }
        assert forall|a: int, k: int|
            #![trigger ms[a], launch_line(k)]
            0 <= a < ms.len() && 1 <= k < 4 && ms[a] == Notice::Step(launch_line(k)) implies exists|
            b: int,
        | 0 <= b < a && checks_passed(#[trigger] ms[b]) by {
            if a < l {
                assert(old_ms[a] == Notice::Step(launch_line(k)));
                let b = choose|b: int| 0 <= b < a && checks_passed(#[trigger] old_ms[b]);
                assert(ms[b] == old_ms[b]);
            } else {
                assert(ns[a - l] == Notice::Step(launch_line(k)));
                assert(ns.contains(Notice::Step(launch_line(k))));
                assert(stage(new) == k + 1);
                assert(past_checks(new));
                assert(past_checks(cur));
                let b = choose|b: int| 0 <= b < old_ms.len() && checks_passed(#[trigger] old_ms[b]);
                assert(ms[b] == old_ms[b]);
            }
        }
    } else {
        assert(run_notices(outs) =~= Seq::<Notice>::empty());
    }
}

/// Over a whole run from `Start`, the splash page is told things in order:
/// at most one failure or hand-over is sent, and it is the last message;
/// the four launch lines of `direct_launch_event_order` come in that order,
/// each at most once; the service is handed over only after all four were
/// sent; and every line past the first follows a report of environment
/// checks that all passed.
pub proof fn law_run_trace<P>(
    phases: Seq<BootstrapPhase>,
    events: Seq<BootstrapEvent>,
    cancels: Seq<bool>,
    outs: Seq<BootstrapOutput<P>>,
)
    requires
        is_run(phases, events, cancels, outs),
    ensures
        forall|a: int|
            0 <= a < run_notices(outs).len() && is_terminal(#[trigger] run_notices(outs)[a]) ==> a
                == run_notices(outs).len() - 1,
        forall|a: int, b: int, k1: int, k2: int|
            #![trigger run_notices(outs)[a], run_notices(outs)[b], launch_line(k1), launch_line(k2)]
            0 <= a < b < run_notices(outs).len() && 0 <= k1 < 4 && 0 <= k2 < 4 && run_notices(
                outs,
            )[a] == Notice::Step(launch_line(k1)) && run_notices(outs)[b] == Notice::Step(
                launch_line(k2),
            ) ==> k1 < k2,
        forall|a: int|
            0 <= a < run_notices(outs).len() && #[trigger] run_notices(outs)[a] == Notice::Done
                ==> forall|k: int|
                0 <= k < 4 ==> run_notices(outs).subrange(0, a).contains(
                    Notice::Step(#[trigger] launch_line(k)),
                ),
        forall|a: int, k: int|
            #![trigger run_notices(outs)[a], launch_line(k)]
            0 <= a < run_notices(outs).len() && 1 <= k < 4 && run_notices(outs)[a] == Notice::Step(
                launch_line(k),
            ) ==> exists|b: int| 0 <= b < a && checks_passed(#[trigger] run_notices(outs)[b]),
{
    lemma_trace_ok(phases, events, cancels, outs);
}


/// The installed dsh version that the bootstrap compares with the published
/// one is the version of the dsh check, not of any other check: when the
/// last check is the dsh one (its name starts with `dsh`), no earlier check
/// is, and all pass, the launch goes on carrying exactly the dsh check's
/// version.
pub proof fn law_local_version_is_the_dsh_version<P>(
    results: Vec<EnvCheckResult>,
    r: EnvCheckResult,
    c: bool,
    new: BootstrapPhase,
    out: BootstrapOutput<P>,
)
    requires
        results@.len() == 2,
        forall|i: int| 0 <= i < 2 ==> !starts_with(#[trigger] results@[i].name@, "dsh"@),
        starts_with(r.name@, "dsh"@),
        forall|i: int| 0 <= i < 2 ==> #[trigger] results@[i].ok,
        r.ok,
        transition(
            BootstrapPhase::Checking { index: 2, results },
            BootstrapEvent::EnvChecked(r),
            c,
            new,
            out,
        ),
    ensures
        new matches BootstrapPhase::BeforeClose { local } && match local {
            Some(v) => r.version matches Some(w) && v@ == w@,
            None => r.version is None,
        },
{
    let all = results@.push(r);
    assert(all[2] == r);
    assert(forall|j: int| 0 <= j < all.len() ==> #[trigger] all[j].ok) by {
        assert forall|j: int| 0 <= j < all.len() implies #[trigger] all[j].ok by {
            if j < 2 {
                assert(all[j] == results@[j]);
            }
        }
    }
    assert(all[0] == results@[0] && all[1] == results@[1]);
    assert(first_dsh_from(all, 2) == 2);
    assert(first_dsh_from(all, 1) == 2);
    assert(first_dsh_from(all, 0) == 2);
}

/// When the published version, trimmed, is the installed one, trimmed, no
/// update is installed: the launch goes straight on to spawning dsh.
pub proof fn law_no_update_when_up_to_date<P>(
    local: String,
    latest: String,
    c: bool,
    new: BootstrapPhase,
    out: BootstrapOutput<P>,
)
    requires
        trim(latest@) == trim(local@),
        transition(
            BootstrapPhase::FetchingLatest { local },
            BootstrapEvent::LatestVersion(Some(latest)),
            c,
            new,
            out,
        ),
    ensures
        !(out.command is InstallUpdate),
        !c ==> out.command is Spawn && notices(out.messages@) == seq![Notice::Step(STEP_SPAWN@)],
{
}

/// When the published version, trimmed, differs from the installed one,
/// trimmed, and the launch is not cancelled, that version is announced and
/// installed.
pub proof fn law_update_when_out_of_date<P>(
    local: String,
    latest: String,
    new: BootstrapPhase,
    out: BootstrapOutput<P>,
)
    requires
        trim(latest@) != trim(local@),
        transition(
            BootstrapPhase::FetchingLatest { local },
            BootstrapEvent::LatestVersion(Some(latest)),
            false,
            new,
            out,
        ),
    ensures
        out.command is InstallUpdate,
        new matches BootstrapPhase::Installing { latest: l } && l@ == latest@,
        notices(out.messages@) == seq![
            Notice::Step(UPDATE_FOUND_PREFIX@ + latest@ + UPDATE_FOUND_SUFFIX@),
        ],
{
}

/// After an update, dsh is launched only when the fresh check passed and
/// reports exactly the version that was installed; any other check ends the
/// launch with "dsh 更新后校验失败，期望版本 " and that version.
pub proof fn law_update_launches_only_the_expected_version<P>(
    latest: String,
    r: EnvCheckResult,
    new: BootstrapPhase,
    out: BootstrapOutput<P>,
)
    requires
        transition(
            BootstrapPhase::Validating { latest },
            BootstrapEvent::DshRechecked(r),
            false,
            new,
            out,
        ),
    ensures
        out.command is Spawn ==> r.ok && (r.version matches Some(v) && v@ == latest@),
        !(r.ok && (r.version matches Some(v) && v@ == latest@)) ==> new is Finished
            && out.command is Finish && notices(out.messages@) == seq![
            Notice::Fail(UPDATE_CHECK_FAILED@ + latest@),
        ],
        (r.ok && (r.version matches Some(v) && v@ == latest@)) ==> out.command is Spawn,
{
}

} // verus!
