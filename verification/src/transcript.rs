//! The fixed transcript the extract step sends to the remote shell.
//!
//! Five commands go out, in this order: change into the target directory,
//! remove everything in it, copy the tarball in from the remote home
//! directory, extract it, and leave the shell. After each of the first four
//! the job waits for a shell prompt; after the last it waits for the
//! session to end.

use vstd::prelude::*;
use vstd::string::StringExecFns;
use crate::config::JobConfig;
use crate::config::spec_basename;
use crate::config::basename;

verus! {

/// One command of the transcript, by its meaning rather than its text.
#[derive(Clone, Copy, Debug, PartialEq, Eq, Structural)]
pub enum ShellCommand {
    /// `cd <remote-dir>`: enter the directory to be replaced.
    ChangeDir,
    /// `rm -rf *`: clear out everything the directory held before.
    RemoveAll,
    /// `cp ~/<tarball-name> .`: bring the uploaded tarball in.
    CopyTarball,
    /// `tar xvfz <tarball-name>`: unpack it in place.
    ExtractTarball,
    /// `exit`: end the remote session.
    Exit,
}

/// The command sent after `cmd`, or `None` after the final `exit`.
pub open spec fn spec_next_command(cmd: ShellCommand) -> Option<ShellCommand> {
    match cmd {
        ShellCommand::ChangeDir => Some(ShellCommand::RemoveAll),
        ShellCommand::RemoveAll => Some(ShellCommand::CopyTarball),
        ShellCommand::CopyTarball => Some(ShellCommand::ExtractTarball),
        ShellCommand::ExtractTarball => Some(ShellCommand::Exit),
        ShellCommand::Exit => None,
    }
}

/// Successor of a transcript command in sending order.
pub fn next_command(cmd: ShellCommand) -> (r: Option<ShellCommand>)
    ensures
        r == spec_next_command(cmd),
{
    match cmd {
        ShellCommand::ChangeDir => Some(ShellCommand::RemoveAll),
        ShellCommand::RemoveAll => Some(ShellCommand::CopyTarball),
        ShellCommand::CopyTarball => Some(ShellCommand::ExtractTarball),
        ShellCommand::ExtractTarball => Some(ShellCommand::Exit),
        ShellCommand::Exit => None,
    }
}

/// How many commands the transcript holds.
pub open spec fn transcript_len() -> int {
    5
}

/// The `i`-th command of the transcript, in sending order.
pub open spec fn spec_command_at(i: int) -> ShellCommand {
    if i == 0 {
        ShellCommand::ChangeDir
    } else if i == 1 {
        ShellCommand::RemoveAll
    } else if i == 2 {
        ShellCommand::CopyTarball
    } else if i == 3 {
        ShellCommand::ExtractTarball
    } else {
        ShellCommand::Exit
    }
}

/// The whole transcript, in sending order.
pub open spec fn spec_transcript() -> Seq<ShellCommand> {
    Seq::new(transcript_len() as nat, |i: int| spec_command_at(i))
}

/// After the final `exit` the job waits for the session to end; after every
/// other command it waits for a shell prompt.
pub open spec fn spec_awaits_session_end(cmd: ShellCommand) -> bool {
    cmd is Exit
}

/// The exact line sent to the remote shell for `cmd` under configuration
/// `cfg`. The tarball is addressed by its file name: the copy step drops it
/// in the remote home directory under the local path's basename.
pub open spec fn spec_command_line(cfg: JobConfig, cmd: ShellCommand) -> Seq<char> {
    match cmd {
        ShellCommand::ChangeDir => "cd "@ + cfg.remote_dir@,
        ShellCommand::RemoveAll => "rm -rf *"@,
        ShellCommand::CopyTarball => "cp ~/"@ + spec_basename(cfg.local_tarball@) + " ."@,
        ShellCommand::ExtractTarball => "tar xvfz "@ + spec_basename(cfg.local_tarball@),
        ShellCommand::Exit => "exit"@,
    }
}

impl JobConfig {
    /// Renders the shell line for one transcript command.
    pub fn command_line(&self, cmd: ShellCommand) -> (r: String)
        ensures
            r@ == spec_command_line(*self, cmd),
    {
        match cmd {
            ShellCommand::ChangeDir => {
                let mut s = String::from_str("cd ");
                s.append(self.remote_dir.as_str());
                s
            },
            ShellCommand::RemoveAll => String::from_str("rm -rf *"),
            ShellCommand::CopyTarball => {
                let name = basename(&self.local_tarball);
                let mut s = String::from_str("cp ~/");
                s.append(name.as_str());
                s.append(" .");
                proof {
                    assert(s@ =~= spec_command_line(*self, cmd));
                }
                s
            },
            ShellCommand::ExtractTarball => {
                let name = basename(&self.local_tarball);
                let mut s = String::from_str("tar xvfz ");
                s.append(name.as_str());
                s
            },
            ShellCommand::Exit => String::from_str("exit"),
        }
    }
}

} // verus!
