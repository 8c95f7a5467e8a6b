//! A model of what the job does to the remote host.
//!
//! The job itself only spawns processes and watches their output; what those
//! processes do on the remote side is modelled here, so that the end state a
//! successful run leaves — and that re-running reproduces it — can be stated
//! and proved. The model tracks just what the transcript touches: whether
//! the uploaded tarball sits in the remote home directory, and which file
//! names the target directory holds.

use vstd::prelude::*;
use crate::transcript::ShellCommand;
use crate::transcript::spec_command_at;
use crate::transcript::transcript_len;

verus! {

/// The abstract remote state: the tarball's presence in the remote home
/// directory, and the file names in the target directory.
#[verifier::ext_equal]
pub struct RemoteView {
    /// Whether the copy step's upload sits in the remote home directory.
    pub home_has_tarball: bool,
    /// The names the target directory holds, in the order they appeared.
    pub dir_files: Seq<Seq<char>>,
}

/// An executable mirror of the remote state, for driving the model.
pub struct RemoteHostModel {
    /// Whether the copy step's upload sits in the remote home directory.
    pub home_has_tarball: bool,
    /// The names the target directory holds, in the order they appeared.
    pub dir_files: Vec<String>,
}

/// The names of `s`, each as its character sequence.
pub open spec fn names_of(s: Seq<String>) -> Seq<Seq<char>> {
    Seq::new(s.len(), |i: int| s[i]@)
}

/// Appending one name and then taking the characters is taking the
/// characters and then appending the name's.
proof fn lemma_names_of_push(s: Seq<String>, x: String)
    ensures
        names_of(s.push(x)) =~= names_of(s).push(x@),
{
    assert forall|i: int| 0 <= i < s.len() + 1 implies names_of(s.push(x))[i] == names_of(s).push(
        x@,
    )[i] by {
        if i < s.len() {
            assert(s.push(x)[i] == s[i]);
        } else {
            assert(s.push(x)[i] == x);
        }
    }
}

impl View for RemoteHostModel {
    type V = RemoteView;

    open spec fn view(&self) -> RemoteView {
        RemoteView { home_has_tarball: self.home_has_tarball, dir_files: names_of(self.dir_files@) }
    }
}

/// What a finished copy step leaves behind: the tarball in the remote home
/// directory; the target directory untouched.
pub open spec fn spec_receive_tarball(r: RemoteView) -> RemoteView {
    RemoteView { home_has_tarball: true, dir_files: r.dir_files }
}

/// What one transcript command, acknowledged by the next prompt, does to
/// the remote state. `name` is the tarball's file name and `members` are
/// the names its extraction yields. Changing directory and leaving the
/// shell touch nothing; the copy and the extraction only take effect when
/// their source is present.
pub open spec fn spec_apply_command(
    r: RemoteView,
    cmd: ShellCommand,
    name: Seq<char>,
    members: Seq<Seq<char>>,
) -> RemoteView {
    match cmd {
        ShellCommand::ChangeDir => r,
        ShellCommand::RemoveAll => RemoteView {
            home_has_tarball: r.home_has_tarball,
            dir_files: Seq::empty(),
        },
        ShellCommand::CopyTarball => if r.home_has_tarball {
            RemoteView { home_has_tarball: r.home_has_tarball, dir_files: r.dir_files.push(name) }
        } else {
            r
        },
        ShellCommand::ExtractTarball => if r.dir_files.contains(name) {
            RemoteView { home_has_tarball: r.home_has_tarball, dir_files: r.dir_files + members }
        } else {
            r
        },
        ShellCommand::Exit => r,
    }
}

/// The first `n` transcript commands applied in sending order.
pub open spec fn spec_apply_prefix(
    r: RemoteView,
    name: Seq<char>,
    members: Seq<Seq<char>>,
    n: int,
) -> RemoteView
    decreases n,
{
    if n <= 0 {
        r
    } else {
        spec_apply_command(
            spec_apply_prefix(r, name, members, n - 1),
            spec_command_at(n - 1),
            name,
            members,
        )
    }
}

/// What one whole successful run does to the remote state: the copy step's
/// upload, then every transcript command in order.
pub open spec fn spec_job_effect(
    r: RemoteView,
    name: Seq<char>,
    members: Seq<Seq<char>>,
) -> RemoteView {
    spec_apply_prefix(spec_receive_tarball(r), name, members, transcript_len())
}

/// A successful run leaves the same remote state whatever was there before:
/// the tarball in the remote home directory, and the target directory
/// holding exactly the tarball and what its extraction yields — nothing of
/// its prior contents survives.
pub proof fn lemma_job_effect_final(r: RemoteView, name: Seq<char>, members: Seq<Seq<char>>)
    ensures
        spec_job_effect(r, name, members).home_has_tarball,
        spec_job_effect(r, name, members).dir_files =~= seq![name] + members,
{
    let r0 = spec_receive_tarball(r);
    assert(spec_apply_prefix(r0, name, members, 0) == r0);
    let r1 = spec_apply_prefix(r0, name, members, 1);
    assert(r1 == r0);
    let r2 = spec_apply_prefix(r0, name, members, 2);
    assert(r2.dir_files =~= Seq::<Seq<char>>::empty());
    let r3 = spec_apply_prefix(r0, name, members, 3);
    assert(r3.dir_files =~= Seq::<Seq<char>>::empty().push(name));
    assert(r3.dir_files[0] == name);
    assert(r3.dir_files.contains(name));
    let r4 = spec_apply_prefix(r0, name, members, 4);
    assert(r4.dir_files =~= seq![name] + members);
    let r5 = spec_apply_prefix(r0, name, members, 5);
    assert(r5 == r4);
}

/// Running the job on the state a successful run left reproduces that
/// state exactly: the job is idempotent with respect to the remote
/// directory's contents, because the transcript clears the directory before
/// filling it.
pub proof fn lemma_rerun_idempotent(r: RemoteView, name: Seq<char>, members: Seq<Seq<char>>)
    ensures
        spec_job_effect(spec_job_effect(r, name, members), name, members) =~= spec_job_effect(
            r,
            name,
            members,
        ),
{
    lemma_job_effect_final(r, name, members);
    lemma_job_effect_final(spec_job_effect(r, name, members), name, members);
}

/// `name` occurs among the file names of `files`.
fn contains_file(files: &Vec<String>, name: &String) -> (r: bool)
    ensures
        r == names_of(files@).contains(name@),
{
    let n = files.len();
    let mut i: usize = 0;
    while i < n
        invariant
            0 <= i <= n,
            n == files.len(),
            forall|j: int| 0 <= j < i ==> names_of(files@)[j] != name@,
        decreases n - i,
    {
        if files[i].eq(name) {
            assert(names_of(files@)[i as int] == name@);
            return true;
        }
        i = i + 1;
    }
    false
}

impl RemoteHostModel {
    /// A remote host in an arbitrary starting state.
    pub fn new(home_has_tarball: bool, dir_files: Vec<String>) -> (r: RemoteHostModel)
        ensures
            r@.home_has_tarball == home_has_tarball,
            r@.dir_files == names_of(dir_files@),
    {
        RemoteHostModel { home_has_tarball, dir_files }
    }

    /// The copy step finished: the tarball now sits in the remote home
    /// directory.
    pub fn receive_tarball(&mut self)
        ensures
            final(self)@ == spec_receive_tarball(old(self)@),
    {
        self.home_has_tarball = true;
        proof {
            assert(final(self)@ =~= spec_receive_tarball(old(self)@));
        }
    }

    /// One transcript command completed: its effect lands on the remote
    /// state, exactly as [`spec_apply_command`] says.
    pub fn apply_command(&mut self, cmd: ShellCommand, tarball_name: &String, members: &Vec<String>)
        ensures
            final(self)@ == spec_apply_command(old(self)@, cmd, tarball_name@, names_of(members@)),
    {
        match cmd {
            ShellCommand::ChangeDir => {},
            ShellCommand::RemoveAll => {
                self.dir_files.clear();
                proof {
                    assert(final(self)@ =~= spec_apply_command(
                        old(self)@,
                        cmd,
                        tarball_name@,
                        names_of(members@),
                    ));
                }
            },
            ShellCommand::CopyTarball => {
                if self.home_has_tarball {
                    let ghost pre = self.dir_files@;
                    self.dir_files.push(tarball_name.clone());
                    proof {
                        lemma_names_of_push(pre, *tarball_name);
                        assert(final(self)@ =~= spec_apply_command(
                            old(self)@,
                            cmd,
                            tarball_name@,
                            names_of(members@),
                        ));
                    }
                }
            },
            ShellCommand::ExtractTarball => {
                if contains_file(&self.dir_files, tarball_name) {
                    let ghost dir0 = names_of(self.dir_files@);
                    let n = members.len();
                    let mut k: usize = 0;
                    while k < n
                        invariant
                            0 <= k <= n,
                            n == members.len(),
                            self.home_has_tarball == old(self).home_has_tarball,
                            names_of(self.dir_files@) =~= dir0 + names_of(members@).take(k as int),
                        decreases n - k,
                    {
                        let ghost pre = self.dir_files@;
                        let item = members[k].clone();
                        self.dir_files.push(item);
                        proof {
                            lemma_names_of_push(pre, members@[k as int]);
                            assert(names_of(members@).take(k + 1) =~= names_of(members@).take(
                                k as int,
                            ).push(names_of(members@)[k as int]));
                            assert((dir0 + names_of(members@).take(k as int)).push(
                                members@[k as int]@,
                            ) =~= dir0 + names_of(members@).take(k as int).push(
                                members@[k as int]@,
                            ));
                            assert(names_of(self.dir_files@) =~= dir0 + names_of(members@).take(
                                k + 1,
                            ));
                        }
                        k = k + 1;
                    }
                    proof {
                        assert(names_of(members@).take(n as int) =~= names_of(members@));
                        assert(final(self)@ =~= spec_apply_command(
                            old(self)@,
                            cmd,
                            tarball_name@,
                            names_of(members@),
                        ));
                    }
                }
            },
            ShellCommand::Exit => {},
        }
    }
}

} // verus!
