//! The job's parameters and the exact command strings built from them.

use vstd::prelude::*;
use vstd::string::StringExecFns;
use vstd::string::StrSliceExecFns;

verus! {

/// Everything one deployment run depends on: where the tarball lives
/// locally, which host and directory receive it, and how long each step
/// may block before it counts as a failure.
pub struct JobConfig {
    /// Path of the tarball on the local machine.
    pub local_tarball: String,
    /// Host that receives the tarball and runs the extraction commands.
    pub remote_host: String,
    /// Directory on the remote host whose contents are replaced.
    pub remote_dir: String,
    /// Upper bound, in milliseconds, on the whole secure-copy step.
    pub copy_timeout_ms: u64,
    /// Upper bound, in milliseconds, on each wait for a shell prompt
    /// (and on the final wait for the shell session to end).
    pub prompt_timeout_ms: u64,
}

/// The parameters the tool ships with: every value is fixed, the job takes
/// no input.
pub fn default_config() -> (r: JobConfig)
    ensures
        r.local_tarball@ == "/home/mpenning/ccp2.tar.gz"@,
        r.remote_host@ == "chestnut.he.net"@,
        r.remote_dir@ == "public_html/py/ciscoconfparse2"@,
        r.copy_timeout_ms == 45000,
        r.prompt_timeout_ms == 5000,
{
    JobConfig {
        local_tarball: String::from_str("/home/mpenning/ccp2.tar.gz"),
        remote_host: String::from_str("chestnut.he.net"),
        remote_dir: String::from_str("public_html/py/ciscoconfparse2"),
        copy_timeout_ms: 45000,
        prompt_timeout_ms: 5000,
    }
}

/// The file name part of a path: everything after the last `/`, the whole
/// path if it has no `/`, and empty if the path ends in `/`.
pub open spec fn spec_basename(path: Seq<char>) -> Seq<char>
    decreases path.len(),
{
    if path.len() == 0 {
        path
    } else if path.last() == '/' {
        Seq::empty()
    } else {
        spec_basename(path.drop_last()).push(path.last())
    }
}

/// The suffix of `path` that starts at `cut` is its basename, provided no
/// `/` occurs at or after `cut` and `cut` is 0 or sits right after a `/`.
proof fn lemma_basename_is_suffix(path: Seq<char>, cut: int)
    requires
        0 <= cut <= path.len(),
        cut == 0 || path[cut - 1] == '/',
        forall|j: int| cut <= j < path.len() ==> path[j] != '/',
    ensures
        spec_basename(path) =~= path.subrange(cut, path.len() as int),
    decreases path.len(),
{
    if path.len() == cut {
        if cut != 0 {
            assert(path.last() == '/');
        }
    } else {
        assert(path[path.len() - 1] != '/');
        lemma_basename_is_suffix(path.drop_last(), cut);
    }
}

/// Computes the basename of a path, one character at a time.
pub fn basename(path: &String) -> (r: String)
    ensures
        r@ == spec_basename(path@),
{
    let s = path.as_str();
    let n = s.unicode_len();
    let mut cut: usize = 0;
    let mut i: usize = 0;
    while i < n
        invariant
            0 <= cut <= i <= n,
            n == s@.len(),
            cut == 0 || s@[cut - 1] == '/',
            forall|j: int| cut <= j < i ==> s@[j] != '/',
        decreases n - i,
    {
        if s.get_char(i) == '/' {
            cut = i + 1;
        }
        i = i + 1;
    }
    let tail = s.substring_char(cut, n);
    proof {
        lemma_basename_is_suffix(path@, cut as int);
    }
    tail.to_owned()
}

/// The command line the copy step runs: `scp <local-tarball> <host>:`.
pub open spec fn spec_copy_command(cfg: JobConfig) -> Seq<char> {
    "scp "@ + cfg.local_tarball@ + " "@ + cfg.remote_host@ + ":"@
}

/// The command line the extract step runs to open the session:
/// `ssh <host>`.
pub open spec fn spec_shell_command(cfg: JobConfig) -> Seq<char> {
    "ssh "@ + cfg.remote_host@
}

impl JobConfig {
    /// Renders the secure-copy invocation for this configuration.
    pub fn copy_command(&self) -> (r: String)
        ensures
            r@ == spec_copy_command(*self),
    {
        let mut s = String::from_str("scp ");
        s.append(self.local_tarball.as_str());
        s.append(" ");
        s.append(self.remote_host.as_str());
        s.append(":");
        proof {
            assert(s@ =~= spec_copy_command(*self));
        }
        s
    }

    /// Renders the secure-shell invocation for this configuration.
    pub fn shell_command(&self) -> (r: String)
        ensures
            r@ == spec_shell_command(*self),
    {
        let mut s = String::from_str("ssh ");
        s.append(self.remote_host.as_str());
        proof {
            assert(s@ =~= spec_shell_command(*self));
        }
        s
    }
}

} // verus!
