use function_run::lifecycle::build_command;
use function_run::lifecycle::detect_command;
use function_run::lifecycle::lifecycle_step;
use function_run::lifecycle::parse_launch_descriptor;
use function_run::lifecycle::select_web_process;
use function_run::lifecycle::LifecycleAction;
use function_run::lifecycle::LifecycleEvent;
use function_run::lifecycle::LifecyclePhase;
use function_run::lifecycle::PhaseOutcome;
use function_run::lifecycle::ProcessDef;

#[test]
fn a_full_run_reaches_the_web_process_exit_code() {
    let (p, a) = lifecycle_step(LifecyclePhase::Pending, LifecycleEvent::Advance);
    assert_eq!((LifecyclePhase::Detecting, LifecycleAction::RunDetect), (p, a));
    let (p, _) = lifecycle_step(p, LifecycleEvent::DetectFinished(PhaseOutcome::Exited(0)));
    assert_eq!(LifecyclePhase::Detected, p);
    let (p, a) = lifecycle_step(p, LifecycleEvent::Advance);
    assert_eq!((LifecyclePhase::Building, LifecycleAction::RunBuild), (p, a));
    let (p, _) = lifecycle_step(p, LifecycleEvent::BuildFinished(PhaseOutcome::Exited(0)));
    assert_eq!(LifecyclePhase::Built, p);
    let (p, a) = lifecycle_step(p, LifecycleEvent::Advance);
    assert_eq!(
        (LifecyclePhase::Launching, LifecycleAction::ReadDescriptor),
        (p, a)
    );
    let (p, a) = lifecycle_step(p, LifecycleEvent::WebFinished(PhaseOutcome::Exited(7)));
    assert_eq!((LifecyclePhase::Running, LifecycleAction::Exit(7)), (p, a));
}

#[test]
fn detect_failure_exits_200_before_any_build() {
    let (p, a) = lifecycle_step(
        LifecyclePhase::Detecting,
        LifecycleEvent::DetectFinished(PhaseOutcome::Exited(1)),
    );
    assert_eq!((LifecyclePhase::Undetected, LifecycleAction::Exit(200)), (p, a));
    let (p, a) = lifecycle_step(p, LifecycleEvent::Advance);
    assert_eq!((LifecyclePhase::Undetected, LifecycleAction::Hold), (p, a));
}

#[test]
fn detect_spawn_failure_exits_200() {
    let (p, a) = lifecycle_step(
        LifecyclePhase::Detecting,
        LifecycleEvent::DetectFinished(PhaseOutcome::SpawnFailed),
    );
    assert_eq!((LifecyclePhase::Undetected, LifecycleAction::Exit(200)), (p, a));
}

#[test]
fn build_failure_exits_201_before_any_launch() {
    let (p, a) = lifecycle_step(
        LifecyclePhase::Building,
        LifecycleEvent::BuildFinished(PhaseOutcome::Exited(3)),
    );
    assert_eq!((LifecyclePhase::BuildFailed, LifecycleAction::Exit(201)), (p, a));
    let (p, a) = lifecycle_step(p, LifecycleEvent::Advance);
    assert_eq!((LifecyclePhase::BuildFailed, LifecycleAction::Hold), (p, a));
}

#[test]
fn missing_web_process_exits_0_without_spawning() {
    let (p, a) = lifecycle_step(LifecyclePhase::Launching, LifecycleEvent::NoWebProcess);
    assert_eq!((LifecyclePhase::Running, LifecycleAction::Exit(0)), (p, a));
}

#[test]
fn unusable_descriptor_exits_202() {
    let (p, a) = lifecycle_step(LifecyclePhase::Launching, LifecycleEvent::DescriptorFailed);
    assert_eq!((LifecyclePhase::LaunchFailed, LifecycleAction::Exit(202)), (p, a));
}

fn process(ptype: &str, command: &str) -> ProcessDef {
    ProcessDef {
        ptype: String::from(ptype),
        command: String::from(command),
        args: Vec::new(),
    }
}

#[test]
fn selects_the_first_web_process() {
    let ps = vec![process("worker", "run"), process("web", "serve"), process("web", "other")];
    assert_eq!(Some(1), select_web_process(&ps));
    let ps = vec![process("worker", "run")];
    assert_eq!(None, select_web_process(&ps));
    let ps: Vec<ProcessDef> = Vec::new();
    assert_eq!(None, select_web_process(&ps));
}

#[test]
fn parses_a_launch_descriptor() {
    let text = "[[processes]]\ntype = \"web\"\ncommand = \"java\"\nargs = [\"-jar\", \"app.jar\"]\n\n[[processes]]\ntype = \"worker\"\ncommand = \"run\"\n";
    let ps = parse_launch_descriptor(text).unwrap();
    assert_eq!(2, ps.len());
    assert_eq!("web", ps[0].ptype);
    assert_eq!("java", ps[0].command);
    assert_eq!(vec![String::from("-jar"), String::from("app.jar")], ps[0].args);
    assert_eq!("worker", ps[1].ptype);
    assert_eq!("run", ps[1].command);
    assert!(ps[1].args.is_empty());
}

#[test]
fn rejects_a_descriptor_without_processes() {
    assert!(parse_launch_descriptor("title = \"nothing\"\n").is_none());
    assert!(parse_launch_descriptor("not toml at all [").is_none());
}

#[test]
fn detect_command_uses_the_fixed_contract() {
    let c = detect_command("/bp", "/cfg/home", "/cfg/platform", "/cfg/plan.toml");
    assert_eq!("/bp/bin/detect", c.program);
    assert_eq!(vec![String::from("/cfg/platform"), String::from("/cfg/plan.toml")], c.args);
    assert_eq!(3, c.env.len());
    assert_eq!("CNB_BUILDPACK_DIR", c.env[0].key);
    assert_eq!("/bp", c.env[0].value);
    assert_eq!("CNB_STACK_ID", c.env[1].key);
    assert_eq!("io.buildpacks.stacks.bionic", c.env[1].value);
    assert_eq!("HOME", c.env[2].key);
    assert_eq!("/cfg/home", c.env[2].value);
}

#[test]
fn build_command_uses_the_fixed_contract() {
    let c = build_command("/bp", "/cfg/home", "/cfg/layers", "/cfg/platform", "/cfg/plan.toml");
    assert_eq!("/bp/bin/build", c.program);
    assert_eq!(
        vec![
            String::from("/cfg/layers"),
            String::from("/cfg/platform"),
            String::from("/cfg/plan.toml")
        ],
        c.args
    );
    assert_eq!(3, c.env.len());
    assert_eq!("CNB_BUILDPACK_DIR", c.env[0].key);
    assert_eq!("/bp", c.env[0].value);
}
