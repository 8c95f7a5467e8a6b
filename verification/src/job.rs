//! The deploy job as a state machine.
//!
//! The job never touches a process itself. At every point it exposes one
//! pending [`Action`] — spawn the copy process, wait for it to finish, spawn
//! the shell, send a line, wait for a prompt or for the session to end — and
//! an unverified driver performs that action and reports whether it
//! succeeded. The machine decides everything else: the order of the steps,
//! which command goes out next, and that the first failure ends the job for
//! good.

use vstd::prelude::*;
use crate::config::JobConfig;
use crate::config::spec_copy_command;
use crate::config::spec_shell_command;
use crate::transcript::ShellCommand;
use crate::transcript::spec_next_command;
use crate::transcript::next_command;
use crate::transcript::spec_command_line;
use crate::transcript::spec_awaits_session_end;

verus! {

/// What the driver reports about the one action the job asked for.
#[derive(Clone, Copy, Debug, PartialEq, Eq, Structural)]
pub enum Event {
    /// The action came off: the process spawned, the line was sent, the
    /// awaited prompt or end-of-output appeared in time.
    Succeeded,
    /// Anything else: a spawn error, a send error, or a wait that ran out
    /// before the expected output appeared.
    Failed,
}

/// Why a job stopped short. The step that failed determines the variant;
/// the job never retries or distinguishes causes beyond this.
#[derive(Clone, Copy, Debug, PartialEq, Eq, Structural)]
pub enum JobError {
    /// The secure-copy process could not be spawned.
    CopySpawnFailed,
    /// The secure-copy process gave no end-of-output in time.
    CopyTimedOut,
    /// The secure-shell process could not be spawned.
    ShellSpawnFailed,
    /// This transcript line could not be sent.
    SendFailed(ShellCommand),
    /// No shell prompt appeared in time after this transcript line.
    PromptTimedOut(ShellCommand),
    /// The session did not end in time after the final `exit`.
    SessionEndTimedOut,
}

/// Where the job stands. Every state but `Done` and `Failed` carries one
/// pending action; `Done` and `Failed` are terminal.
#[derive(Clone, Copy, Debug, PartialEq, Eq, Structural)]
pub enum JobState {
    /// Nothing has happened yet; the copy process is to be spawned.
    Ready,
    /// The copy process is live; the job waits for its end-of-output.
    CopyWait,
    /// The copy step finished; the shell process is to be spawned.
    ShellStart,
    /// The shell is live and this transcript command is to be sent.
    SendCmd(ShellCommand),
    /// This transcript command was sent; the job waits for a prompt
    /// (or, after `exit`, for the session to end).
    AwaitReply(ShellCommand),
    /// Every step came off; the session closed cleanly.
    Done,
    /// A step failed; the job halts here for good.
    Failed(JobError),
}

/// The error a failure event produces in state `s`. The two terminal states
/// record no new failure: `Done` never sees one, and `Failed` keeps the
/// error it already holds.
pub open spec fn spec_failure_of(s: JobState) -> JobError {
    match s {
        JobState::Ready => JobError::CopySpawnFailed,
        JobState::CopyWait => JobError::CopyTimedOut,
        JobState::ShellStart => JobError::ShellSpawnFailed,
        JobState::SendCmd(cmd) => JobError::SendFailed(cmd),
        JobState::AwaitReply(cmd) => if spec_awaits_session_end(cmd) {
            JobError::SessionEndTimedOut
        } else {
            JobError::PromptTimedOut(cmd)
        },
        JobState::Done => JobError::CopySpawnFailed,
        JobState::Failed(err) => err,
    }
}

/// The whole transition relation: one event moves the job one state onward.
/// A success event advances along the fixed path; a failure event in any
/// live state halts the job with that step's error; the two terminal states
/// absorb every event.
pub open spec fn spec_step(s: JobState, ev: Event) -> JobState {
    match s {
        JobState::Ready => match ev {
            Event::Succeeded => JobState::CopyWait,
            Event::Failed => JobState::Failed(JobError::CopySpawnFailed),
        },
        JobState::CopyWait => match ev {
            Event::Succeeded => JobState::ShellStart,
            Event::Failed => JobState::Failed(JobError::CopyTimedOut),
        },
        JobState::ShellStart => match ev {
            Event::Succeeded => JobState::SendCmd(ShellCommand::ChangeDir),
            Event::Failed => JobState::Failed(JobError::ShellSpawnFailed),
        },
        JobState::SendCmd(cmd) => match ev {
            Event::Succeeded => JobState::AwaitReply(cmd),
            Event::Failed => JobState::Failed(JobError::SendFailed(cmd)),
        },
        JobState::AwaitReply(cmd) => match ev {
            Event::Succeeded => match spec_next_command(cmd) {
                Some(next) => JobState::SendCmd(next),
                None => JobState::Done,
            },
            Event::Failed => JobState::Failed(spec_failure_of(s)),
        },
        JobState::Done => JobState::Done,
        JobState::Failed(err) => JobState::Failed(err),
    }
}

/// What the driver is to do next. Each variant carries exactly what the
/// driver needs: a full command line and a timeout for a spawn, the line for
/// a send, nothing for a wait.
pub enum Action {
    /// Spawn the secure-copy process with this command line, bounding the
    /// whole step by this many milliseconds.
    SpawnCopy { command: String, timeout_ms: u64 },
    /// Wait for the copy process to reach end-of-output.
    AwaitCopyEnd,
    /// Spawn the secure-shell process with this command line, bounding each
    /// later wait by this many milliseconds.
    SpawnShell { command: String, timeout_ms: u64 },
    /// Send this transcript command's line to the shell.
    SendLine { cmd: ShellCommand, line: String },
    /// Wait until a shell prompt (a `$` anywhere in the output) appears.
    AwaitPrompt,
    /// Wait for the shell session to reach end-of-output.
    AwaitSessionEnd,
}

/// `a` is the one action state `st` asks for under configuration `cfg`.
/// Terminal states ask for nothing.
pub open spec fn spec_action_for(cfg: JobConfig, st: JobState, a: Action) -> bool {
    match st {
        JobState::Ready => a matches Action::SpawnCopy { command, timeout_ms }
            && command@ == spec_copy_command(cfg) && timeout_ms == cfg.copy_timeout_ms,
        JobState::CopyWait => a is AwaitCopyEnd,
        JobState::ShellStart => a matches Action::SpawnShell { command, timeout_ms }
            && command@ == spec_shell_command(cfg) && timeout_ms == cfg.prompt_timeout_ms,
        JobState::SendCmd(cmd) => a matches Action::SendLine { cmd: sent, line }
            && sent == cmd && line@ == spec_command_line(cfg, cmd),
        JobState::AwaitReply(cmd) => if spec_awaits_session_end(cmd) {
            a is AwaitSessionEnd
        } else {
            a is AwaitPrompt
        },
        JobState::Done => false,
        JobState::Failed(_) => false,
    }
}

/// One deployment run: a configuration and where the run stands.
pub struct DeployJob {
    /// The fixed parameters of this run.
    pub config: JobConfig,
    /// Where the run stands.
    pub state: JobState,
}

impl DeployJob {
    /// A job that has not started; its first pending action spawns the copy.
    pub fn new(config: JobConfig) -> (r: DeployJob)
        ensures
            r.state == JobState::Ready,
            r.config == config,
    {
        DeployJob { config, state: JobState::Ready }
    }

    /// True once the job can do nothing more, well or badly.
    pub fn is_finished(&self) -> (r: bool)
        ensures
            r == (self.state is Done || self.state is Failed),
    {
        match self.state {
            JobState::Done => true,
            JobState::Failed(_) => true,
            _ => false,
        }
    }

    /// The action the driver is to perform now, or `None` once the job is
    /// finished.
    pub fn pending_action(&self) -> (r: Option<Action>)
        ensures
            (r is Some) == !(self.state is Done || self.state is Failed),
            r matches Some(a) ==> spec_action_for(self.config, self.state, a),
    {
        match self.state {
            JobState::Ready => Some(Action::SpawnCopy {
                command: self.config.copy_command(),
                timeout_ms: self.config.copy_timeout_ms,
            }),
            JobState::CopyWait => Some(Action::AwaitCopyEnd),
            JobState::ShellStart => Some(Action::SpawnShell {
                command: self.config.shell_command(),
                timeout_ms: self.config.prompt_timeout_ms,
            }),
            JobState::SendCmd(cmd) => Some(Action::SendLine {
                cmd,
                line: self.config.command_line(cmd),
            }),
            JobState::AwaitReply(cmd) => match cmd {
                ShellCommand::Exit => Some(Action::AwaitSessionEnd),
                _ => Some(Action::AwaitPrompt),
            },
            JobState::Done => None,
            JobState::Failed(_) => None,
        }
    }

    /// Feeds the outcome of the pending action back in and moves the job
    /// one state onward, exactly as [`spec_step`] says.
    pub fn on_event(&mut self, ev: Event)
        ensures
            final(self).state == spec_step(old(self).state, ev),
            final(self).config == old(self).config,
    {
        let next = match (self.state, ev) {
            (JobState::Ready, Event::Succeeded) => JobState::CopyWait,
            (JobState::Ready, Event::Failed) => JobState::Failed(JobError::CopySpawnFailed),
            (JobState::CopyWait, Event::Succeeded) => JobState::ShellStart,
            (JobState::CopyWait, Event::Failed) => JobState::Failed(JobError::CopyTimedOut),
            (JobState::ShellStart, Event::Succeeded) => JobState::SendCmd(ShellCommand::ChangeDir),
            (JobState::ShellStart, Event::Failed) => JobState::Failed(JobError::ShellSpawnFailed),
            (JobState::SendCmd(cmd), Event::Succeeded) => JobState::AwaitReply(cmd),
            (JobState::SendCmd(cmd), Event::Failed) => JobState::Failed(JobError::SendFailed(cmd)),
            (JobState::AwaitReply(cmd), Event::Succeeded) => match next_command(cmd) {
                Some(next) => JobState::SendCmd(next),
                None => JobState::Done,
            },
            (JobState::AwaitReply(cmd), Event::Failed) => match cmd {
                ShellCommand::Exit => JobState::Failed(JobError::SessionEndTimedOut),
                _ => JobState::Failed(JobError::PromptTimedOut(cmd)),
            },
            (JobState::Done, _) => JobState::Done,
            (JobState::Failed(err), _) => JobState::Failed(err),
        };
        self.state = next;
    }

    /// `Some(error)` exactly when the job has failed.
    pub fn failure(&self) -> (r: Option<JobError>)
        ensures
            match self.state {
                JobState::Failed(err) => r == Some(err),
                _ => r is None,
            },
    {
        match self.state {
            JobState::Failed(err) => Some(err),
            _ => None,
        }
    }
}

} // verus!
