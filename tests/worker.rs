use linux_worker::{
    get_child, split_command, status_reply, ContainerConfig, JobManager,
    JobStatus, KillError, LaunchError, LookupError, Namespace, ProcessState, RootChange,
    RpcError, ServiceFault, SetupStep, StatusKind, StatusReply, SubmitError, TerminateError,
    WorkerService,
};

fn format_id(id: u128) -> String {
    WorkerService::format_job_id(id)
}

fn parse_id(text: &str) -> Option<u128> {
    WorkerService::parse_job_id(text).ok()
}

fn config() -> ContainerConfig {
    ContainerConfig::isolated("/srv/alpine-fs".to_string())
}

#[test]
fn split_command_on_ascii_whitespace() {
    assert_eq!(split_command("  ls \t-l\n/tmp  "), vec!["ls", "-l", "/tmp"]);
    assert_eq!(split_command("echo"), vec!["echo"]);
    assert_eq!(split_command("a\u{0C}b\rc"), vec!["a", "b", "c"]);
    assert!(split_command("").is_empty());
    assert!(split_command(" \t \n").is_empty());
}

#[test]
fn split_command_keeps_non_ascii_words() {
    assert_eq!(split_command("grüß  dich"), vec!["grüß", "dich"]);
}

#[test]
fn isolated_config_uses_every_namespace() {
    let c = config();
    assert_eq!(c.rootfs, "/srv/alpine-fs");
    assert_eq!(
        c.namespaces,
        vec![
            Namespace::Pid,
            Namespace::Uts,
            Namespace::Ipc,
            Namespace::Mount,
            Namespace::Net,
            Namespace::User
        ]
    );
    assert_eq!(c.hostname, "container");
    assert!(c.clear_env);
    assert_eq!(c.root_change, RootChange::Chroot);
}

#[test]
fn get_child_splits_program_and_arguments() {
    let plan = get_child("sh -c exit", config()).ok().unwrap();
    assert_eq!(plan.program, "sh");
    assert_eq!(plan.args, vec!["-c", "exit"]);
    assert_eq!(plan.setup, vec![SetupStep::SetHostname, SetupStep::MountProc]);
    assert!(plan.capture_stdout);
    assert_eq!(plan.config.rootfs, "/srv/alpine-fs");
}

#[test]
fn get_child_refuses_an_empty_command() {
    assert!(matches!(get_child("", config()), Err(LaunchError::InvalidCommand)));
    assert!(matches!(get_child("   \t", config()), Err(LaunchError::InvalidCommand)));
}

#[test]
fn format_id_is_hyphenated_lower_case() {
    assert_eq!(
        format_id(0x550e8400e29b41d4a716446655440000),
        "550e8400-e29b-41d4-a716-446655440000"
    );
    assert_eq!(format_id(0), "00000000-0000-0000-0000-000000000000");
    assert_eq!(format_id(u128::MAX), "ffffffff-ffff-ffff-ffff-ffffffffffff");
}

#[test]
fn parse_id_reads_uuid_text() {
    assert_eq!(
        parse_id("550e8400-e29b-41d4-a716-446655440000"),
        Some(0x550e8400e29b41d4a716446655440000)
    );
    assert_eq!(parse_id("550E8400E29B41D4A716446655440000"), Some(0x550e8400e29b41d4a716446655440000));
    assert_eq!(parse_id("not-a-uuid"), None);
    assert_eq!(WorkerService::parse_job_id("not-a-uuid"), Err(RpcError::InvalidArgument));
    assert_eq!(parse_id(""), None);
    let id = 0x0123456789abcdef0123456789abcdefu128;
    assert_eq!(parse_id(&format_id(id)), Some(id));
}

#[test]
fn submit_returns_distinct_fresh_ids() {
    let mut m = JobManager::new();
    let mut ids = Vec::new();
    for k in 0..64u32 {
        let id = m.submit(format!("sleep {}", k), Ok(())).unwrap();
        assert_eq!((id >> 76) & 0xf, 4);
        assert!(!ids.contains(&id));
        ids.push(id);
    }
    assert_eq!(m.job_count(), 64);
    for id in ids {
        assert_eq!(m.status(id), Ok(JobStatus::Running));
    }
}

#[test]
fn submit_refuses_an_invalid_command() {
    let mut m = JobManager::new();
    assert_eq!(
        m.submit(String::new(), Err(LaunchError::InvalidCommand)),
        Err(SubmitError::Launch(LaunchError::InvalidCommand))
    );
    assert_eq!(m.submit(" \t ".to_string(), Ok(())), Err(SubmitError::Launch(LaunchError::InvalidCommand)));
    assert_eq!(
        m.submit_with_id(3, String::new(), Ok(())),
        Err(SubmitError::Launch(LaunchError::InvalidCommand))
    );
    assert_eq!(m.job_count(), 0);
}

#[test]
fn every_launch_failure_gets_an_id() {
    let mut m = JobManager::new();
    let failures = [
        LaunchError::RootfsNotFound,
        LaunchError::SetupFailed(1),
        LaunchError::ChrootFailed(2),
        LaunchError::ExecFailed(2),
        LaunchError::SpawnFailed(11),
    ];
    for e in failures {
        let id = m.submit("prog arg".to_string(), Err(e)).unwrap();
        assert_eq!(m.status(id), Ok(JobStatus::Failed(e)));
    }
    assert_eq!(m.job_count(), 5);
}

#[test]
fn get_child_checks_the_root_change() {
    let relative = ContainerConfig::isolated("alpine-fs".to_string());
    assert!(matches!(get_child("ls", relative), Err(LaunchError::RootfsNotFound)));
    let mut inside = config();
    inside.root_change = RootChange::PivotRoot("/srv/alpine-fs/old".to_string());
    assert!(get_child("ls", inside).is_ok());
    let mut outside = config();
    outside.root_change = RootChange::PivotRoot("/srv/alpine-fs-old".to_string());
    assert!(matches!(get_child("ls", outside), Err(LaunchError::ChrootFailed(22))));
    let mut relative_old = config();
    relative_old.root_change = RootChange::PivotRoot("old".to_string());
    assert!(matches!(get_child("ls", relative_old), Err(LaunchError::ChrootFailed(22))));
    let empty_and_relative = ContainerConfig::isolated("alpine-fs".to_string());
    assert!(matches!(get_child("", empty_and_relative), Err(LaunchError::InvalidCommand)));
}

#[test]
fn submit_with_id_refuses_a_taken_id() {
    let mut m = JobManager::new();
    assert_eq!(m.submit_with_id(5, "true".to_string(), Ok(())), Ok(5));
    assert_eq!(m.submit_with_id(5, "false".to_string(), Ok(())), Err(SubmitError::IdTaken));
    assert_eq!(m.job_count(), 1);
}

#[test]
fn status_of_unknown_job_is_not_found() {
    let mut m = JobManager::new();
    assert_eq!(m.status(42), Err(LookupError::NotFound));
    assert_eq!(m.reconcile(42, ProcessState::Exited(0)), Err(LookupError::NotFound));
    m.submit_with_id(1, "true".to_string(), Ok(())).unwrap();
    assert_eq!(m.status(42), Err(LookupError::NotFound));
}

#[test]
fn exited_process_is_reported_with_its_code() {
    let mut m = JobManager::new();
    let id = m.submit("sh -c 'exit 7'".to_string(), Ok(())).unwrap();
    assert_eq!(m.reconcile(id, ProcessState::StillRunning), Ok(JobStatus::Running));
    assert_eq!(m.reconcile(id, ProcessState::Exited(7)), Ok(JobStatus::Exited(7)));
    assert_eq!(m.status(id), Ok(JobStatus::Exited(7)));
    assert_eq!(m.reconcile(id, ProcessState::Exited(0)), Ok(JobStatus::Exited(7)));
}

#[test]
fn missing_executable_is_a_failed_job() {
    let mut m = JobManager::new();
    let id = m.submit("/no/such/program".to_string(), Err(LaunchError::ExecFailed(2))).unwrap();
    assert_eq!(m.status(id), Ok(JobStatus::Failed(LaunchError::ExecFailed(2))));
    assert_eq!(m.reconcile(id, ProcessState::Exited(1)), Ok(JobStatus::Failed(LaunchError::ExecFailed(2))));
}

#[test]
fn kill_of_running_job_reports_killed() {
    let mut m = JobManager::new();
    let id = m.submit("sleep 100".to_string(), Ok(())).unwrap();
    assert_eq!(m.kill_target(id), Ok(()));
    assert_eq!(m.kill(id, Ok(())), Ok(()));
    assert_eq!(m.status(id), Ok(JobStatus::Killed));
    assert_eq!(m.reconcile(id, ProcessState::Exited(9)), Ok(JobStatus::Killed));
}

#[test]
fn kill_of_terminated_job_keeps_exit_status() {
    let mut m = JobManager::new();
    let id = m.submit("true".to_string(), Ok(())).unwrap();
    m.reconcile(id, ProcessState::Exited(0)).unwrap();
    assert_eq!(m.kill_target(id), Err(KillError::AlreadyTerminated));
    assert_eq!(m.kill(id, Ok(())), Err(KillError::AlreadyTerminated));
    assert_eq!(m.status(id), Ok(JobStatus::Exited(0)));
}

#[test]
fn kill_errors() {
    let mut m = JobManager::new();
    assert_eq!(m.kill_target(3), Err(KillError::NotFound));
    assert_eq!(m.kill(3, Ok(())), Err(KillError::NotFound));
    let id = m.submit("sleep 1".to_string(), Ok(())).unwrap();
    assert_eq!(m.kill(id, Err(TerminateError::SignalFailed(1))), Err(KillError::SignalFailed(1)));
    assert_eq!(m.status(id), Ok(JobStatus::Running));
    assert_eq!(m.kill(id, Err(TerminateError::AlreadyExited)), Err(KillError::AlreadyTerminated));
    assert_eq!(m.status(id), Ok(JobStatus::Running));
}

#[test]
fn status_reply_carries_exit_code() {
    assert_eq!(status_reply(JobStatus::Exited(3)), StatusReply { status: StatusKind::Exited, exit_code: 3 });
    assert_eq!(status_reply(JobStatus::Running), StatusReply { status: StatusKind::Running, exit_code: 0 });
    assert_eq!(status_reply(JobStatus::Killed), StatusReply { status: StatusKind::Killed, exit_code: 0 });
    assert_eq!(
        status_reply(JobStatus::Failed(LaunchError::SetupFailed(1))),
        StatusReply { status: StatusKind::Failed, exit_code: 0 }
    );
}

#[test]
fn service_round_trip() {
    let mut w = WorkerService::new();
    let text = w.submit("sleep 5".to_string(), Ok(())).unwrap();
    assert_eq!(text.len(), 36);
    let id = parse_id(&text).unwrap();
    assert_eq!(w.process_owed(&text), Some(id));
    assert_eq!(
        w.status(&text, ProcessState::StillRunning),
        Ok(StatusReply { status: StatusKind::Running, exit_code: 0 })
    );
    assert_eq!(w.stop(&text, Ok(())), Ok(()));
    assert_eq!(w.process_owed(&text), None);
    assert_eq!(
        w.status(&text, ProcessState::StillRunning),
        Ok(StatusReply { status: StatusKind::Killed, exit_code: 0 })
    );
    assert_eq!(
        w.stop(&text, Ok(())),
        Err(RpcError::Internal(ServiceFault::Kill(KillError::AlreadyTerminated)))
    );
}

#[test]
fn service_errors() {
    let mut w = WorkerService::new();
    assert_eq!(w.status("job-1", ProcessState::StillRunning), Err(RpcError::InvalidArgument));
    assert_eq!(w.stop("job-1", Ok(())), Err(RpcError::InvalidArgument));
    let unknown = format_id(77);
    assert_eq!(
        w.status(&unknown, ProcessState::StillRunning),
        Err(RpcError::Internal(ServiceFault::Lookup(LookupError::NotFound)))
    );
    assert_eq!(w.stop(&unknown, Ok(())), Err(RpcError::Internal(ServiceFault::Kill(KillError::NotFound))));
    assert_eq!(w.get_logs(&unknown), Err(RpcError::Unimplemented));
    assert_eq!(
        w.submit(String::new(), Err(LaunchError::InvalidCommand)),
        Err(RpcError::Internal(ServiceFault::Submit(SubmitError::Launch(LaunchError::InvalidCommand))))
    );
}

#[test]
fn signal_death_counts_as_exit() {
    assert_eq!(ProcessState::killed_by(9), ProcessState::Exited(137));
    assert_eq!(ProcessState::killed_by(15), ProcessState::Exited(143));
}
