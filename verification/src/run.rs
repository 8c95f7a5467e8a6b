//! A whole run of the job through an environment where every step succeeds.

use vstd::prelude::*;
use vstd::pervasive::unreached;
use crate::config::basename;
use crate::config::spec_basename;
use crate::job::DeployJob;
use crate::job::Event;
use crate::job::JobState;
use crate::job::Action;
use crate::transcript::ShellCommand;
use crate::transcript::spec_command_at;
use crate::transcript::spec_transcript;
use crate::remote::RemoteHostModel;
use crate::remote::spec_receive_tarball;
use crate::remote::spec_apply_prefix;
use crate::remote::spec_job_effect;
use crate::remote::lemma_job_effect_final;
use crate::remote::names_of;

verus! {

/// Drives a job from the start in an environment where every spawn, send
/// and wait succeeds, landing each completed step's effect on the remote
/// model; `members` are the file names the tarball's extraction yields.
///
/// Its contract is the shape of a successful run: the side effects happen
/// in transcript order — first the tarball lands on the remote host, then
/// the target directory is cleared, the tarball copied in and extracted —
/// the session closes with the job done, and the directory ends up holding
/// exactly the tarball and its extracted contents, whatever it held before.
pub fn run_succeeding(
    job: &mut DeployJob,
    remote: &mut RemoteHostModel,
    members: &Vec<String>,
) -> (sent: Vec<ShellCommand>)
    requires
        old(job).state == JobState::Ready,
    ensures
        final(job).state == JobState::Done,
        final(job).config == old(job).config,
        sent@ == spec_transcript(),
        final(remote)@ == spec_job_effect(
            old(remote)@,
            spec_basename(old(job).config.local_tarball@),
            names_of(members@),
        ),
        final(remote)@.home_has_tarball,
        final(remote)@.dir_files =~= seq![spec_basename(old(job).config.local_tarball@)]
            + names_of(members@),
{
    let name = basename(&job.config.local_tarball);
    let mut sent: Vec<ShellCommand> = Vec::new();

    // The copy process spawns ...
    job.on_event(Event::Succeeded);
    // ... and reaches end-of-output: the tarball is on the host.
    job.on_event(Event::Succeeded);
    remote.receive_tarball();
    // The shell spawns.
    job.on_event(Event::Succeeded);

    let mut k: usize = 0;
    while k < 5
        invariant
            0 <= k <= 5,
            job.config == old(job).config,
            name@ == spec_basename(old(job).config.local_tarball@),
            job.state == (if k < 5 {
                JobState::SendCmd(spec_command_at(k as int))
            } else {
                JobState::Done
            }),
            sent@ =~= spec_transcript().take(k as int),
            remote@ =~= spec_apply_prefix(
                spec_receive_tarball(old(remote)@),
                name@,
                names_of(members@),
                k as int,
            ),
        decreases 5 - k,
    {
        let cmd = match job.pending_action() {
            Some(Action::SendLine { cmd, line: _ }) => cmd,
            _ => unreached(),
        };
        sent.push(cmd);
        // The line goes out ...
        job.on_event(Event::Succeeded);
        // ... and the prompt (after `exit`: the end of the session)
        // follows: the command has taken effect.
        job.on_event(Event::Succeeded);
        remote.apply_command(cmd, &name, members);
        proof {
            assert(spec_transcript().take(k + 1) =~= spec_transcript().take(k as int).push(
                spec_command_at(k as int),
            ));
        }
        k = k + 1;
    }
    proof {
        assert(sent@ =~= spec_transcript());
        lemma_job_effect_final(old(remote)@, name@, names_of(members@));
    }
    sent
}

} // verus!
