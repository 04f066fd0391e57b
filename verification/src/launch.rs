//! Spawn configuration and command-line construction for the tool
//! process.
//!
//! The command line always carries the quiet-mode flag that switches the
//! tool to null-byte-terminated responses: that flag and the read loop
//! in `protocol` are one indivisible contract, so the flag is never
//! configurable.

use vstd::prelude::*;
use vstd::string::StringExecFns;

use crate::errors::Error;

verus! {

/// Options for spawning the analysis tool: the executable to run and
/// extra command-line arguments placed between the mandatory quiet-mode
/// flag and the target path. Immutable once handed to a spawn.
pub struct R2PipeSpawnOptions {
    pub exepath: String,
    pub args: Vec<String>,
}

impl Default for R2PipeSpawnOptions {
    /// The defaults used when a spawn is given no options: the
    /// well-known tool name, resolved through the executable search
    /// path, and no extra arguments.
    fn default() -> (r: Self)
        ensures
            r.exepath@ == "r2"@,
            r.args@.len() == 0,
    {
        R2PipeSpawnOptions { exepath: String::from_str("r2"), args: Vec::new() }
    }
}

/// A fully built spawn command line: the executable to start and its
/// argument vector, in order.
pub struct SpawnCommand {
    pub exe: String,
    pub argv: Vec<String>,
}

/// The quiet-mode flag: quiet output, responses terminated by a null
/// byte. The framing protocol depends on it, so it is always passed.
pub open spec fn quiet_flag() -> Seq<char> {
    seq!['-', 'q', '0']
}

/// The executable a spawn runs: the one the options name, or the
/// well-known tool name when no options are given.
pub open spec fn spec_exepath(opts: Option<R2PipeSpawnOptions>) -> Seq<char> {
    match opts {
        Some(o) => o.exepath@,
        None => seq!['r', '2'],
    }
}

/// The extra arguments a spawn carries: the caller's, or none.
pub open spec fn spec_extra_args(opts: Option<R2PipeSpawnOptions>) -> Seq<String> {
    match opts {
        Some(o) => o.args@,
        None => Seq::<String>::empty(),
    }
}

/// Builds the command line for one spawn: the configured executable,
/// invoked as `-q0 <extra args...> <target>` with the target path as
/// the final positional argument.
pub fn build_spawn_command(target: &str, opts: &Option<R2PipeSpawnOptions>) -> (r: SpawnCommand)
    ensures
        r.exe@ == spec_exepath(*opts),
        r.argv@.len() == spec_extra_args(*opts).len() + 2,
        r.argv@[0]@ == quiet_flag(),
        forall|i: int|
            0 <= i < spec_extra_args(*opts).len() ==> #[trigger] r.argv@[i + 1]
                == spec_extra_args(*opts)[i],
        r.argv@[r.argv@.len() - 1]@ == target@,
{
    let exe = match opts {
        Some(o) => o.exepath.clone(),
        None => String::from_str("r2"),
    };
    proof {
        reveal_strlit("r2");
        assert(exe@ =~= spec_exepath(*opts));
    }
    let mut argv: Vec<String> = Vec::new();
    let flag = String::from_str("-q0");
    proof {
        reveal_strlit("-q0");
        assert(flag@ =~= quiet_flag());
    }
    argv.push(flag);
    match opts {
        Some(o) => {
            let n = o.args.len();
            let mut i: usize = 0;
            while i < n
                invariant
                    n == o.args@.len(),
                    i <= n,
                    argv@.len() == i + 1,
                    argv@[0]@ == quiet_flag(),
                    forall|j: int| 0 <= j < i ==> #[trigger] argv@[j + 1] == o.args@[j],
                decreases n - i,
            {
                argv.push(o.args[i].clone());
                i = i + 1;
            }
        },
        None => {},
    }
    argv.push(String::from_str(target));
    SpawnCommand { exe, argv }
}

/// Classifies a failed startup-handshake read. A stream that ended at
/// once means the child could not really be started: it exited, or the
/// pipe broke, before emitting its startup byte. Any other read failure
/// is a transient I/O error.
pub fn classify_handshake_failure(end_of_stream: bool) -> (r: Error)
    ensures
        r == (if end_of_stream {
            Error::SpawnFailed
        } else {
            Error::IoError
        }),
{
    if end_of_stream {
        Error::SpawnFailed
    } else {
        Error::IoError
    }
}

} // verus!
