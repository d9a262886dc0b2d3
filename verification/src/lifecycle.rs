//! The buildpack lifecycle as a state machine: detect, then build, then
//! launch, with a distinct exit code per terminal failure.
//!
//! The driver spawns the commanded executable and reports how it ended as
//! the next event. Exit codes: 200 when detection fails, 201 when the build
//! fails, 202 when the launch descriptor is unusable or the web process
//! cannot be spawned, 0 when the run completes without a web process, and
//! the web process's own code when one runs to completion.

use vstd::prelude::*;
use vstd::string::StringExecFns;

use crate::strutil::join_path;

verus! {

/// Where the lifecycle stands. `Undetected`, `BuildFailed`, `Running` and
/// `LaunchFailed` are terminal.
#[derive(Clone, Copy, Debug, PartialEq, Eq, Structural)]
pub enum LifecyclePhase {
    Pending,
    Detecting,
    Detected,
    Undetected,
    Building,
    Built,
    BuildFailed,
    Launching,
    Running,
    LaunchFailed,
}

/// How a spawned executable ended.
#[derive(Clone, Copy, Debug, PartialEq, Eq, Structural)]
pub enum PhaseOutcome {
    Exited(i32),
    SpawnFailed,
}

/// What the driver reports to the machine.
#[derive(Clone, Copy, Debug, PartialEq, Eq, Structural)]
pub enum LifecycleEvent {
    Advance,
    DetectFinished(PhaseOutcome),
    BuildFinished(PhaseOutcome),
    DescriptorFailed,
    NoWebProcess,
    WebFinished(PhaseOutcome),
}

/// What the driver must do next. `Hold` means the event did not belong to
/// the current phase and nothing may be done.
#[derive(Clone, Copy, Debug, PartialEq, Eq, Structural)]
pub enum LifecycleAction {
    RunDetect,
    RunBuild,
    ReadDescriptor,
    Exit(i32),
    Hold,
}

/// A phase no event leaves.
pub open spec fn spec_is_terminal(p: LifecyclePhase) -> bool {
    ||| p == LifecyclePhase::Undetected
    ||| p == LifecyclePhase::BuildFailed
    ||| p == LifecyclePhase::Running
    ||| p == LifecyclePhase::LaunchFailed
}

/// The transition relation of the lifecycle machine.
pub open spec fn spec_lifecycle_step(p: LifecyclePhase, e: LifecycleEvent) -> (
    LifecyclePhase,
    LifecycleAction,
) {
    match (p, e) {
        (LifecyclePhase::Pending, LifecycleEvent::Advance) => (
            LifecyclePhase::Detecting,
            LifecycleAction::RunDetect,
        ),
        (LifecyclePhase::Detecting, LifecycleEvent::DetectFinished(o)) => if o
            == PhaseOutcome::Exited(0) {
            (LifecyclePhase::Detected, LifecycleAction::Hold)
        } else {
            (LifecyclePhase::Undetected, LifecycleAction::Exit(200))
        },
        (LifecyclePhase::Detected, LifecycleEvent::Advance) => (
            LifecyclePhase::Building,
            LifecycleAction::RunBuild,
        ),
        (LifecyclePhase::Building, LifecycleEvent::BuildFinished(o)) => if o
            == PhaseOutcome::Exited(0) {
            (LifecyclePhase::Built, LifecycleAction::Hold)
        } else {
            (LifecyclePhase::BuildFailed, LifecycleAction::Exit(201))
        },
        (LifecyclePhase::Built, LifecycleEvent::Advance) => (
            LifecyclePhase::Launching,
            LifecycleAction::ReadDescriptor,
        ),
        (LifecyclePhase::Launching, LifecycleEvent::DescriptorFailed) => (
            LifecyclePhase::LaunchFailed,
            LifecycleAction::Exit(202),
        ),
        (LifecyclePhase::Launching, LifecycleEvent::NoWebProcess) => (
            LifecyclePhase::Running,
            LifecycleAction::Exit(0),
        ),
        (LifecyclePhase::Launching, LifecycleEvent::WebFinished(o)) => match o {
            PhaseOutcome::Exited(c) => (LifecyclePhase::Running, LifecycleAction::Exit(c)),
            PhaseOutcome::SpawnFailed => (
                LifecyclePhase::LaunchFailed,
                LifecycleAction::Exit(202),
            ),
        },
        _ => (p, LifecycleAction::Hold),
    }
}

/// Take one step of the lifecycle machine.
pub fn lifecycle_step(phase: LifecyclePhase, event: LifecycleEvent) -> (r: (
    LifecyclePhase,
    LifecycleAction,
))
    ensures
        r == spec_lifecycle_step(phase, event),
{
    match (phase, event) {
        (LifecyclePhase::Pending, LifecycleEvent::Advance) => (
            LifecyclePhase::Detecting,
            LifecycleAction::RunDetect,
        ),
        (LifecyclePhase::Detecting, LifecycleEvent::DetectFinished(o)) => {
            if o == PhaseOutcome::Exited(0) {
                (LifecyclePhase::Detected, LifecycleAction::Hold)
            } else {
                (LifecyclePhase::Undetected, LifecycleAction::Exit(200))
            }
        },
        (LifecyclePhase::Detected, LifecycleEvent::Advance) => (
            LifecyclePhase::Building,
            LifecycleAction::RunBuild,
        ),
        (LifecyclePhase::Building, LifecycleEvent::BuildFinished(o)) => {
            if o == PhaseOutcome::Exited(0) {
                (LifecyclePhase::Built, LifecycleAction::Hold)
            } else {
                (LifecyclePhase::BuildFailed, LifecycleAction::Exit(201))
            }
        },
        (LifecyclePhase::Built, LifecycleEvent::Advance) => (
            LifecyclePhase::Launching,
            LifecycleAction::ReadDescriptor,
        ),
        (LifecyclePhase::Launching, LifecycleEvent::DescriptorFailed) => (
            LifecyclePhase::LaunchFailed,
            LifecycleAction::Exit(202),
        ),
        (LifecyclePhase::Launching, LifecycleEvent::NoWebProcess) => (
            LifecyclePhase::Running,
            LifecycleAction::Exit(0),
        ),
        (LifecyclePhase::Launching, LifecycleEvent::WebFinished(o)) => match o {
            PhaseOutcome::Exited(c) => (LifecyclePhase::Running, LifecycleAction::Exit(c)),
            PhaseOutcome::SpawnFailed => (
                LifecyclePhase::LaunchFailed,
                LifecycleAction::Exit(202),
            ),
        },
        _ => (phase, LifecycleAction::Hold),
    }
}

/// Terminal phases absorb every event and command nothing further.
pub proof fn lemma_terminal_is_absorbing(p: LifecyclePhase, e: LifecycleEvent)
    requires
        spec_is_terminal(p),
    ensures
        spec_lifecycle_step(p, e) == (p, LifecycleAction::Hold),
{
}

/// A detect executable that does not exit 0 halts the run: the machine
/// enters the terminal `Undetected` phase with exit code 200, and a build
/// is never commanded, there or anywhere but from a successful detection.
pub proof fn lemma_detect_failure_halts(o: PhaseOutcome)
    requires
        o != PhaseOutcome::Exited(0),
    ensures
        spec_lifecycle_step(LifecyclePhase::Detecting, LifecycleEvent::DetectFinished(o)) == (
            LifecyclePhase::Undetected,
            LifecycleAction::Exit(200),
        ),
        spec_is_terminal(LifecyclePhase::Undetected),
        forall|p: LifecyclePhase, e: LifecycleEvent|
            #[trigger] spec_lifecycle_step(p, e).1 == LifecycleAction::RunBuild ==> p
                == LifecyclePhase::Detected && e == LifecycleEvent::Advance,
{
}

/// A build executable that does not exit 0 halts the run: the machine
/// enters the terminal `BuildFailed` phase with exit code 201, and reading
/// the launch descriptor is never commanded, there or anywhere but after a
/// successful build.
pub proof fn lemma_build_failure_halts(o: PhaseOutcome)
    requires
        o != PhaseOutcome::Exited(0),
    ensures
        spec_lifecycle_step(LifecyclePhase::Building, LifecycleEvent::BuildFinished(o)) == (
            LifecyclePhase::BuildFailed,
            LifecycleAction::Exit(201),
        ),
        spec_is_terminal(LifecyclePhase::BuildFailed),
        forall|p: LifecyclePhase, e: LifecycleEvent|
            #[trigger] spec_lifecycle_step(p, e).1 == LifecycleAction::ReadDescriptor ==> p
                == LifecyclePhase::Built && e == LifecycleEvent::Advance,
{
}

/// A launch descriptor without a `web` process ends the run successfully:
/// exit code 0, and nothing further is commanded.
pub proof fn lemma_no_web_process_succeeds(e: LifecycleEvent)
    ensures
        spec_lifecycle_step(LifecyclePhase::Launching, LifecycleEvent::NoWebProcess) == (
            LifecyclePhase::Running,
            LifecycleAction::Exit(0),
        ),
        spec_lifecycle_step(LifecyclePhase::Running, e) == (
            LifecyclePhase::Running,
            LifecycleAction::Hold,
        ),
{
}

/// One process definition of a launch descriptor.
#[derive(Clone, Debug, PartialEq, Eq)]
pub struct ProcessDef {
    pub ptype: String,
    pub command: String,
    pub args: Vec<String>,
}

/// Mathematical model of a [`ProcessDef`].
pub struct ProcessDefView {
    pub ptype: Seq<char>,
    pub command: Seq<char>,
    pub args: Seq<Seq<char>>,
}

impl View for ProcessDef {
    type V = ProcessDefView;

    open spec fn view(&self) -> ProcessDefView {
        ProcessDefView { ptype: self.ptype@, command: self.command@, args: self.args.deep_view() }
    }
}

impl DeepView for ProcessDef {
    type V = ProcessDefView;

    open spec fn deep_view(&self) -> ProcessDefView {
        self.view()
    }
}

/// The `processes` array of a launch descriptor, when the text is a TOML
/// document holding one: for each process its `type`, its `command`, and
/// its `args` (empty when absent); a function of the text alone.
pub uninterp spec fn launch_fields_of(text: Seq<char>) -> Option<
    Seq<(Seq<char>, Seq<char>, Seq<Seq<char>>)>,
>;

/// The fields of a sequence of process definitions, in the shape
/// `launch_fields_of` uses.
pub open spec fn spec_process_fields(ps: Seq<ProcessDefView>) -> Seq<
    (Seq<char>, Seq<char>, Seq<Seq<char>>),
> {
    ps.map_values(|p: ProcessDefView| (p.ptype, p.command, p.args))
}

/// Relies on toml::from_str and toml::Value's get, as_str and as_array:
/// the `processes` array of the descriptor text, each entry read as its
/// `type` and `command` strings and optional `args` string array, all
/// depending on the text alone.
#[verifier::external_body]
fn parse_launch_toml(text: &str) -> (r: Option<Vec<ProcessDef>>)
    ensures
        r matches Some(ps) ==> launch_fields_of(text@) == Some(
            spec_process_fields(ps.deep_view()),
        ),
        r is None ==> launch_fields_of(text@) is None,
{
    let v: toml::Value = toml::from_str(text).ok()?;
    let arr = v.get("processes")?.as_array()?;
    let mut out = Vec::new();
    for p in arr {
        let ptype = p.get("type")?.as_str()?.to_string();
        let command = p.get("command")?.as_str()?.to_string();
        let mut args = Vec::new();
        if let Some(list) = p.get("args").and_then(|a| a.as_array()) {
            for a in list {
                args.push(a.as_str()?.to_string());
            }
        }
        out.push(ProcessDef { ptype, command, args });
    }
    Some(out)
}

/// Parse a launch descriptor into its process definitions; nothing when
/// the text is not a TOML document with a readable `processes` array.
pub fn parse_launch_descriptor(text: &str) -> (r: Option<Vec<ProcessDef>>)
    ensures
        r matches Some(ps) ==> launch_fields_of(text@) == Some(
            spec_process_fields(ps.deep_view()),
        ),
        r is None ==> launch_fields_of(text@) is None,
{
    parse_launch_toml(text)
}

/// Index of the first process whose type is exactly `web`, when any is.
pub fn select_web_process(ps: &Vec<ProcessDef>) -> (r: Option<usize>)
    ensures
        r matches Some(i) ==> {
            &&& i < ps@.len()
            &&& ps@[i as int]@.ptype == "web"@
            &&& forall|j: int| 0 <= j < i ==> (#[trigger] ps@[j]@).ptype != "web"@
        },
        r is None ==> forall|j: int| 0 <= j < ps@.len() ==> (#[trigger] ps@[j]@).ptype != "web"@,
{
    let web = String::from_str("web");
    let mut i: usize = 0;
    while i < ps.len()
        invariant
            0 <= i <= ps@.len(),
            web@ == "web"@,
            forall|j: int| 0 <= j < i ==> (#[trigger] ps@[j]@).ptype != "web"@,
        decreases ps@.len() - i,
    {
        if ps[i].ptype == web {
            return Some(i);
        }
        i = i + 1;
    }
    None
}

/// One environment binding handed to a lifecycle executable.
#[derive(Clone, Debug, PartialEq, Eq)]
pub struct EnvVar {
    pub key: String,
    pub value: String,
}

/// Mathematical model of an [`EnvVar`].
pub struct EnvVarView {
    pub key: Seq<char>,
    pub value: Seq<char>,
}

impl View for EnvVar {
    type V = EnvVarView;

    open spec fn view(&self) -> EnvVarView {
        EnvVarView { key: self.key@, value: self.value@ }
    }
}

impl DeepView for EnvVar {
    type V = EnvVarView;

    open spec fn deep_view(&self) -> EnvVarView {
        self.view()
    }
}

/// A fully determined invocation of a lifecycle executable: program path,
/// positional arguments in order, and the exact environment.
#[derive(Clone, Debug)]
pub struct CommandSpec {
    pub program: String,
    pub args: Vec<String>,
    pub env: Vec<EnvVar>,
}

/// The stack identifier handed to every lifecycle executable.
pub open spec fn spec_stack_id() -> Seq<char> {
    "io.buildpacks.stacks.bionic"@
}

/// The common environment of the lifecycle executables:
/// `CNB_BUILDPACK_DIR`, `CNB_STACK_ID` and `HOME`, in that order.
pub open spec fn spec_lifecycle_env(
    env: Seq<EnvVarView>,
    buildpack_dir: Seq<char>,
    home_dir: Seq<char>,
) -> bool {
    &&& env.len() == 3
    &&& env[0].key == "CNB_BUILDPACK_DIR"@
    &&& env[0].value == buildpack_dir
    &&& env[1].key == "CNB_STACK_ID"@
    &&& env[1].value == spec_stack_id()
    &&& env[2].key == "HOME"@
    &&& env[2].value == home_dir
}

fn lifecycle_env(buildpack_dir: &str, home_dir: &str) -> (r: Vec<EnvVar>)
    ensures
        spec_lifecycle_env(r.deep_view(), buildpack_dir@, home_dir@),
{
    let mut env: Vec<EnvVar> = Vec::new();
    env.push(
        EnvVar {
            key: String::from_str("CNB_BUILDPACK_DIR"),
            value: String::from_str(buildpack_dir),
        },
    );
    env.push(
        EnvVar {
            key: String::from_str("CNB_STACK_ID"),
            value: String::from_str("io.buildpacks.stacks.bionic"),
        },
    );
    env.push(EnvVar { key: String::from_str("HOME"), value: String::from_str(home_dir) });
    proof {
        assert(env.deep_view()[0] == env@[0]@);
        assert(env.deep_view()[1] == env@[1]@);
        assert(env.deep_view()[2] == env@[2]@);
    }
    env
}

/// The detect invocation: `{buildpack_dir}/bin/detect` with positional
/// arguments `(platform_dir, plan)` and the common environment.
pub fn detect_command(buildpack_dir: &str, home_dir: &str, platform_dir: &str, plan: &str) -> (r:
    CommandSpec)
    ensures
        r.program@ == buildpack_dir@ + "/"@ + "bin/detect"@,
        r.args.deep_view() =~= seq![platform_dir@, plan@],
        spec_lifecycle_env(r.env.deep_view(), buildpack_dir@, home_dir@),
{
    let program = join_path(buildpack_dir, "bin/detect");
    let mut args: Vec<String> = Vec::new();
    args.push(String::from_str(platform_dir));
    args.push(String::from_str(plan));
    let env = lifecycle_env(buildpack_dir, home_dir);
    let r = CommandSpec { program, args, env };
    proof {
        assert(r.args.deep_view() =~= seq![platform_dir@, plan@]);
    }
    r
}

/// The build invocation: `{buildpack_dir}/bin/build` with positional
/// arguments `(layers_dir, platform_dir, plan)` and the common environment.
pub fn build_command(
    buildpack_dir: &str,
    home_dir: &str,
    layers_dir: &str,
    platform_dir: &str,
    plan: &str,
) -> (r: CommandSpec)
    ensures
        r.program@ == buildpack_dir@ + "/"@ + "bin/build"@,
        r.args.deep_view() =~= seq![layers_dir@, platform_dir@, plan@],
        spec_lifecycle_env(r.env.deep_view(), buildpack_dir@, home_dir@),
{
    let program = join_path(buildpack_dir, "bin/build");
    let mut args: Vec<String> = Vec::new();
    args.push(String::from_str(layers_dir));
    args.push(String::from_str(platform_dir));
    args.push(String::from_str(plan));
    let env = lifecycle_env(buildpack_dir, home_dir);
    let r = CommandSpec { program, args, env };
    proof {
        assert(r.args.deep_view() =~= seq![layers_dir@, platform_dir@, plan@]);
    }
    r
}

} // verus!
