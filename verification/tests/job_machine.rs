use deploy_docs::config::default_config;
use deploy_docs::job::Action;
use deploy_docs::job::DeployJob;
use deploy_docs::job::Event;
use deploy_docs::job::JobError;
use deploy_docs::job::JobState;
use deploy_docs::transcript::ShellCommand;

/// Feeds `n` success events, collecting the line of every send action the
/// job asked for along the way.
fn drive_successes(job: &mut DeployJob, n: usize) -> Vec<String> {
    let mut lines = Vec::new();
    for _ in 0..n {
        if let Some(Action::SendLine { line, .. }) = job.pending_action() {
            lines.push(line);
        }
        job.on_event(Event::Succeeded);
    }
    lines
}

#[test]
fn success_path_visits_every_state_in_order() {
    let mut job = DeployJob::new(default_config());
    assert_eq!(job.state, JobState::Ready);
    match job.pending_action() {
        Some(Action::SpawnCopy { command, timeout_ms }) => {
            assert_eq!(command, "scp /home/mpenning/ccp2.tar.gz chestnut.he.net:");
            assert_eq!(timeout_ms, 45_000);
        }
        _ => panic!("a fresh job must start by spawning the copy"),
    }
    job.on_event(Event::Succeeded);
    assert_eq!(job.state, JobState::CopyWait);
    assert!(matches!(job.pending_action(), Some(Action::AwaitCopyEnd)));
    job.on_event(Event::Succeeded);
    assert_eq!(job.state, JobState::ShellStart);
    match job.pending_action() {
        Some(Action::SpawnShell { command, timeout_ms }) => {
            assert_eq!(command, "ssh chestnut.he.net");
            assert_eq!(timeout_ms, 5_000);
        }
        _ => panic!("after the copy the job must spawn the shell"),
    }
    job.on_event(Event::Succeeded);

    let commands = [
        ShellCommand::ChangeDir,
        ShellCommand::RemoveAll,
        ShellCommand::CopyTarball,
        ShellCommand::ExtractTarball,
        ShellCommand::Exit,
    ];
    for (i, expected) in commands.iter().enumerate() {
        assert_eq!(job.state, JobState::SendCmd(*expected));
        match job.pending_action() {
            Some(Action::SendLine { cmd, .. }) => assert_eq!(cmd, *expected),
            _ => panic!("a send must be pending"),
        }
        job.on_event(Event::Succeeded);
        assert_eq!(job.state, JobState::AwaitReply(*expected));
        if i < 4 {
            assert!(matches!(job.pending_action(), Some(Action::AwaitPrompt)));
        } else {
            assert!(matches!(job.pending_action(), Some(Action::AwaitSessionEnd)));
        }
        job.on_event(Event::Succeeded);
    }
    assert_eq!(job.state, JobState::Done);
    assert!(job.is_finished());
    assert!(job.pending_action().is_none());
    assert_eq!(job.failure(), None);
}

#[test]
fn copy_spawn_failure_blocks_extraction() {
    let mut job = DeployJob::new(default_config());
    job.on_event(Event::Failed);
    assert_eq!(job.state, JobState::Failed(JobError::CopySpawnFailed));
    assert_eq!(job.failure(), Some(JobError::CopySpawnFailed));
    assert!(job.pending_action().is_none());
    let lines = drive_successes(&mut job, 10);
    assert_eq!(lines, Vec::<String>::new());
    assert_eq!(job.state, JobState::Failed(JobError::CopySpawnFailed));
}

#[test]
fn copy_timeout_reports_failure_and_sends_nothing() {
    let mut job = DeployJob::new(default_config());
    job.on_event(Event::Succeeded);
    assert_eq!(job.state, JobState::CopyWait);
    job.on_event(Event::Failed);
    assert_eq!(job.state, JobState::Failed(JobError::CopyTimedOut));
    assert_eq!(job.failure(), Some(JobError::CopyTimedOut));
    assert!(job.pending_action().is_none());
    let lines = drive_successes(&mut job, 10);
    assert_eq!(lines, Vec::<String>::new());
    assert_eq!(job.state, JobState::Failed(JobError::CopyTimedOut));
}

#[test]
fn shell_spawn_failure() {
    let mut job = DeployJob::new(default_config());
    job.on_event(Event::Succeeded);
    job.on_event(Event::Succeeded);
    assert_eq!(job.state, JobState::ShellStart);
    job.on_event(Event::Failed);
    assert_eq!(job.failure(), Some(JobError::ShellSpawnFailed));
}

#[test]
fn send_failure_names_the_command() {
    let mut job = DeployJob::new(default_config());
    job.on_event(Event::Succeeded);
    job.on_event(Event::Succeeded);
    job.on_event(Event::Succeeded);
    assert_eq!(job.state, JobState::SendCmd(ShellCommand::ChangeDir));
    job.on_event(Event::Failed);
    assert_eq!(job.failure(), Some(JobError::SendFailed(ShellCommand::ChangeDir)));
}

#[test]
fn third_exchange_timeout_halts_before_extraction() {
    let mut job = DeployJob::new(default_config());
    // Copy spawns and finishes, the shell spawns, the first two exchanges
    // complete, and the third command goes out.
    let mut lines = drive_successes(&mut job, 8);
    assert_eq!(job.state, JobState::AwaitReply(ShellCommand::CopyTarball));
    // No prompt follows the "copy tarball" command in time.
    job.on_event(Event::Failed);
    assert_eq!(job.state, JobState::Failed(JobError::PromptTimedOut(ShellCommand::CopyTarball)));
    assert_eq!(job.failure(), Some(JobError::PromptTimedOut(ShellCommand::CopyTarball)));
    assert!(job.pending_action().is_none());
    // Whatever happens later, the extract and exit lines are never sent.
    lines.extend(drive_successes(&mut job, 10));
    assert_eq!(
        lines,
        vec![
            String::from("cd public_html/py/ciscoconfparse2"),
            String::from("rm -rf *"),
            String::from("cp ~/ccp2.tar.gz ."),
        ]
    );
}

#[test]
fn session_end_timeout_after_exit() {
    let mut job = DeployJob::new(default_config());
    let lines = drive_successes(&mut job, 12);
    assert_eq!(lines.len(), 5);
    assert_eq!(job.state, JobState::AwaitReply(ShellCommand::Exit));
    job.on_event(Event::Failed);
    assert_eq!(job.failure(), Some(JobError::SessionEndTimedOut));
}

#[test]
fn done_absorbs_every_event() {
    let mut job = DeployJob::new(default_config());
    drive_successes(&mut job, 13);
    assert_eq!(job.state, JobState::Done);
    job.on_event(Event::Failed);
    assert_eq!(job.state, JobState::Done);
    job.on_event(Event::Succeeded);
    assert_eq!(job.state, JobState::Done);
}
