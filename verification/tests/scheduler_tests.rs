use matrix_runner::scheduler::{final_exit_status, shutdown_plan, Registry, Scheduler};

#[test]
fn at_most_par_tasks_run_at_once() {
    // 3 toolchains, par = 2: the third must wait for a free slot
    let mut s = Scheduler::new(3, 2);
    assert_eq!(s.try_start(), Some(0));
    assert_eq!(s.try_start(), Some(1));
    assert_eq!(s.try_start(), None);
    assert_eq!(s.running, 2);
    s.task_done();
    assert_eq!(s.try_start(), Some(2));
    assert_eq!(s.try_start(), None);
    assert_eq!(s.running, 2);
    s.task_done();
    s.task_done();
    assert_eq!(s.running, 0);
    assert_eq!(s.try_start(), None);
}

#[test]
fn cancellation_stops_new_tasks() {
    let mut s = Scheduler::new(3, 2);
    assert_eq!(s.try_start(), Some(0));
    s.cancel();
    assert_eq!(s.try_start(), None);
    // the task already running is not interrupted here
    assert_eq!(s.running, 1);
}

#[test]
fn interrupt_deletes_every_registered_workspace_and_exits_zero() {
    // interrupt arrives while 2 workspaces are registered and no test has
    // finished: both paths are deleted, exit status 0
    let mut reg = Registry::new();
    reg.register("/tmp/proj-1.40.0-abc".to_string());
    reg.register("/tmp/proj-stable-def".to_string());
    assert_eq!(reg.len(), 2);
    let plan = shutdown_plan(reg);
    assert_eq!(
        plan.delete,
        vec![
            "/tmp/proj-1.40.0-abc".to_string(),
            "/tmp/proj-stable-def".to_string(),
        ]
    );
    assert_eq!(plan.exit_status, 0);
}

#[test]
fn registration_order_is_kept() {
    let mut reg = Registry::new();
    for i in 0..5 {
        reg.register(format!("/tmp/ws-{}", i));
    }
    let plan = shutdown_plan(reg);
    let want: Vec<String> = (0..5).map(|i| format!("/tmp/ws-{}", i)).collect();
    assert_eq!(plan.delete, want);
}

#[test]
fn individual_failures_do_not_set_the_exit_status() {
    // only fatal setup errors make the process exit non-zero
    assert_eq!(final_exit_status(false), 0);
    assert_ne!(final_exit_status(true), 0);
}
