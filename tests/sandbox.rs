use cp_sandbox::engine::{settle, step};
use cp_sandbox::groups::{group_subsystems, new_group_name};
use cp_sandbox::lifecycle::SandboxPlan;
use cp_sandbox::{
    LimitKey, LimitWrite, ReleaseStep, Resources, RunAction, RunEvent, RunState, SandboxBuilder,
    SandboxError, SandboxUsage, StdioPolicy, Subsystem,
};
use std::collections::HashSet;
use std::time::Duration;

#[test]
fn builder_defaults() {
    let b = SandboxBuilder::new("echo".to_string());
    assert_eq!(b.command, "echo");
    assert!(b.args.is_empty());
    assert!(b.stdin.is_none());
    assert!(b.stdout.is_none());
    assert!(b.stderr.is_none());
    assert!(b.overlay.is_none());
    assert!(b.memory_limit.is_none());
    assert!(b.pids_limit.is_none());
    assert!(b.time_limit.is_none());
}

#[test]
fn builder_setters_chain() {
    let b = SandboxBuilder::new("sh".to_string())
        .arg("-c".to_string())
        .args(vec!["echo hi".to_string(), "x".to_string()])
        .memory(50_000_000)
        .pids(Some(16))
        .time(Duration::from_secs(5))
        .overlay(("/lower".to_string(), "/upper".to_string()))
        .stdin(StdioPolicy::Null)
        .stdout(StdioPolicy::Piped)
        .stderr(StdioPolicy::Piped);
    assert_eq!(b.args, vec!["-c", "echo hi", "x"]);
    assert_eq!(b.memory_limit, Some(50_000_000));
    assert_eq!(b.pids_limit, Some(16));
    assert_eq!(b.time_limit, Some(Duration::from_secs(5)));
    assert_eq!(b.overlay, Some(("/lower".to_string(), "/upper".to_string())));
    assert_eq!(b.stdin, Some(StdioPolicy::Null));
    assert_eq!(b.stdout, Some(StdioPolicy::Piped));
    assert_eq!(b.stderr, Some(StdioPolicy::Piped));
    let cleared = b.pids(None);
    assert!(cleared.pids_limit.is_none());
    assert_eq!(cleared.memory_limit, Some(50_000_000));
}

#[test]
fn builder_redirect_stream() {
    let b = SandboxBuilder::new("cat".to_string())
        .stdin(StdioPolicy::Redirect("/tmp/in".to_string()))
        .stderr(StdioPolicy::Inherit);
    assert_eq!(b.stdin, Some(StdioPolicy::Redirect("/tmp/in".to_string())));
    assert!(b.stdout.is_none());
    assert_eq!(b.stderr, Some(StdioPolicy::Inherit));
    assert_eq!(b.command, "cat");
}

#[test]
fn limit_writes_memory_bounds_swap_too() {
    let b = SandboxBuilder::new("x".to_string()).memory(50_000_000).pids(Some(8));
    let w = b.limit_writes();
    assert_eq!(
        w,
        vec![
            LimitWrite { key: LimitKey::MemoryLimit, value: 50_000_000 },
            LimitWrite { key: LimitKey::MemswLimit, value: 50_000_000 },
            LimitWrite { key: LimitKey::PidsMax, value: 8 },
        ]
    );
    assert_eq!(w[1].key.file(), "memory.memsw.limit_in_bytes");
    assert_eq!(w[1].key.subsystem(), Subsystem::Memory);
    assert_eq!(w[2].key.file(), "pids.max");
    assert_eq!(w[2].key.subsystem(), Subsystem::Pids);
}

#[test]
fn limit_writes_empty_without_limits() {
    let b = SandboxBuilder::new("x".to_string());
    assert!(b.limit_writes().is_empty());
    let p = SandboxBuilder::new("x".to_string()).pids(Some(3)).limit_writes();
    assert_eq!(p, vec![LimitWrite { key: LimitKey::PidsMax, value: 3 }]);
}

#[test]
fn subsystems_in_order() {
    let s = group_subsystems();
    let names: Vec<&str> = s.iter().map(|x| x.name()).collect();
    assert_eq!(names, vec!["memory", "cpuacct", "pids"]);
    assert_eq!(LimitKey::MemoryLimit.file(), "memory.limit_in_bytes");
}

#[test]
fn group_name_shape() {
    let n = new_group_name().expect("random bytes");
    assert_eq!(n.len(), 36);
    assert_eq!(n.as_bytes()[14], b'4');
    assert!(matches!(n.as_bytes()[19], b'8' | b'9' | b'a' | b'b'));
    for (i, c) in n.chars().enumerate() {
        if i == 8 || i == 13 || i == 18 || i == 23 {
            assert_eq!(c, '-');
        } else {
            assert!(c.is_ascii_hexdigit() && !c.is_ascii_uppercase());
        }
    }
}

#[test]
fn group_names_never_collide() {
    let mut seen = HashSet::new();
    for _ in 0..10_000 {
        assert!(seen.insert(new_group_name().expect("random bytes")));
    }
}

#[test]
fn plan_with_overlay_changes_root() {
    let b = SandboxBuilder::new("x".to_string())
        .overlay(("/l".to_string(), "/u".to_string()))
        .memory(1024)
        .time(Duration::from_millis(10));
    let p: SandboxPlan = b.plan_named("g".to_string());
    assert!(p.chroot);
    assert_eq!(p.group_name, "g");
    assert_eq!(p.overlay, Some(("/l".to_string(), "/u".to_string())));
    assert_eq!(p.subsystems, vec![Subsystem::Memory, Subsystem::Cpuacct, Subsystem::Pids]);
    assert_eq!(p.limits.len(), 2);
    assert_eq!(p.time_limit, Some(Duration::from_millis(10)));
}

#[test]
fn plan_without_overlay_keeps_root() {
    let p = SandboxBuilder::new("echo".to_string()).arg("hi".to_string()).plan().expect("a name");
    assert!(!p.chroot);
    assert!(p.overlay.is_none());
    assert!(p.limits.is_empty());
    assert_eq!(p.group_name.len(), 36);
    assert!(p.time_limit.is_none());
}

#[test]
fn settle_deadline_is_elapsed() {
    let r: Result<i32, SandboxError> = settle(None);
    assert!(matches!(r, Err(SandboxError::Elapsed)));
}

#[test]
fn settle_passes_result_through() {
    assert!(matches!(settle(Some(Ok(7))), Ok(7)));
    let e = std::io::Error::new(std::io::ErrorKind::Other, "wait failed");
    let r: Result<i32, SandboxError> = settle(Some(Err(e)));
    match r {
        Err(SandboxError::IOError(e)) => assert_eq!(e.to_string(), "wait failed"),
        _ => panic!("expected an IOError"),
    }
}

#[test]
fn run_state_machine() {
    assert_eq!(step(RunState::Prepared, RunEvent::Launched), (RunState::Running, RunAction::Wait));
    assert_eq!(
        step(RunState::Running, RunEvent::Exited),
        (RunState::Completed, RunAction::SampleUsage)
    );
    assert_eq!(
        step(RunState::Running, RunEvent::WaitFailed),
        (RunState::Failed, RunAction::SampleUsage)
    );
    assert_eq!(
        step(RunState::Running, RunEvent::DeadlineFired),
        (RunState::TimedOut, RunAction::KillThenSample)
    );
    assert_eq!(
        step(RunState::TimedOut, RunEvent::Exited),
        (RunState::TimedOut, RunAction::Ignore)
    );
    assert_eq!(
        step(RunState::Prepared, RunEvent::Exited),
        (RunState::Prepared, RunAction::Ignore)
    );
}

#[test]
fn release_in_order_and_once() {
    let mut r = Resources::new();
    r.record_scratch();
    r.record_mount();
    r.record_groups();
    assert!(r.is_mounted());
    r.record_unmount(true);
    assert!(!r.is_mounted());
    assert_eq!(r.release(), vec![ReleaseStep::RemoveScratch, ReleaseStep::RemoveGroups]);
    assert!(!r.has_scratch());
    assert!(r.release().is_empty());
}

#[test]
fn failed_unmount_keeps_scratch() {
    let mut r = Resources::new();
    r.record_scratch();
    r.record_mount();
    r.record_groups();
    r.record_unmount(false);
    assert!(r.is_mounted());
    assert_eq!(r.release(), vec![ReleaseStep::RemoveGroups]);
    assert!(r.has_scratch());
    assert!(r.release().is_empty());
    r.record_unmount(true);
    assert_eq!(r.release(), vec![ReleaseStep::RemoveScratch]);
    assert!(r.release().is_empty());
}

#[test]
fn release_after_partial_build() {
    let mut r = Resources::new();
    r.record_scratch();
    assert_eq!(r.release(), vec![ReleaseStep::RemoveScratch]);
    let mut g = Resources::new();
    g.record_groups();
    assert_eq!(g.release(), vec![ReleaseStep::RemoveGroups]);
    assert!(Resources::new().release().is_empty());
}

#[test]
fn usage_from_counters() {
    let u = SandboxUsage::from_counters(4096, 1_500_000_000);
    assert_eq!(u.memory, 4096);
    assert_eq!(u.time, Duration::new(1, 500_000_000));
    let z = SandboxUsage::from_counters(0, 0);
    assert_eq!(z.time, Duration::ZERO);
}
