//! Building external commands and classifying how a launch ended.
//!
//! The library never spawns a process itself: a caller launches the built
//! command, reports what the operating system handed back as a
//! [`LaunchReport`], and [`CommandResults::classify`] turns that report
//! into the outcome taxonomy the reduction run works with.

use crate::tmp::TMPFile;
use vstd::prelude::*;
use vstd::string::StringExecFns;

verus! {

/// The reserved exit code by which a timeout-enforcing wrapper signals
/// that it forcibly terminated the wrapped command.
pub const TIMEOUT_EXIT_CODE: i32 = 124;

/// What the operating system handed back for one launch attempt.
pub enum LaunchReport {
    /// The process could not be spawned at all.
    SpawnFailure,
    /// The process ran; `code` is its exit code, or `None` when it was
    /// terminated without one (for example by a signal).  Output is the
    /// captured text of the two streams.
    Finished { code: Option<i32>, stdout: String, stderr: String },
}

/// The classified outcome of one launch, with the captured output.
#[derive(Clone)]
pub struct CommandResults {
    pub has_launch_failed: bool,
    pub has_timedout: bool,
    pub stdout: String,
    pub stderr: String,
}

impl CommandResults {
    /// Classifies a launch report: a spawn failure or a missing exit code
    /// is a launch failure, the reserved sentinel exit code is a timeout,
    /// and any other exit code — zero or not — is a success.
    pub fn classify(report: LaunchReport) -> (r: CommandResults)
        ensures
            report is SpawnFailure ==> {
                &&& r.has_launch_failed
                &&& !r.has_timedout
                &&& r.stdout@.len() == 0
                &&& r.stderr@.len() == 0
            },
            report matches LaunchReport::Finished { code, stdout, stderr } ==> {
                &&& r.stdout == stdout
                &&& r.stderr == stderr
                &&& (code is None ==> r.has_launch_failed && !r.has_timedout)
                &&& (code == Some(TIMEOUT_EXIT_CODE) ==> !r.has_launch_failed && r.has_timedout)
                &&& (code is Some && code != Some(TIMEOUT_EXIT_CODE) ==> !r.has_launch_failed
                    && !r.has_timedout)
            },
    {
        match report {
            LaunchReport::SpawnFailure => CommandResults {
                has_launch_failed: true,
                has_timedout: false,
                stdout: String::new(),
                stderr: String::new(),
            },
            LaunchReport::Finished { code, stdout, stderr } => {
                let (failed, timedout): (bool, bool) = match code {
                    None => (true, false),
                    Some(c) => {
                        if c == TIMEOUT_EXIT_CODE {
                            (false, true)
                        } else {
                            (false, false)
                        }
                    },
                };
                CommandResults { has_launch_failed: failed, has_timedout: timedout, stdout, stderr }
            },
        }
    }

    /// Whether the process could not be spawned or finished without a code.
    pub fn has_launch_failed(self) -> (r: bool)
        ensures
            r == self.has_launch_failed,
    {
        self.has_launch_failed
    }

    /// Whether the timeout wrapper terminated the process.
    pub fn has_timedout(&self) -> (r: bool)
        ensures
            r == self.has_timedout,
    {
        self.has_timedout
    }

    /// Whether the process ran to completion with an ordinary exit code.
    pub fn is_ok(self) -> (r: bool)
        ensures
            r == (!self.has_launch_failed && !self.has_timedout),
    {
        !self.has_launch_failed && !self.has_timedout
    }

    /// The captured standard output.
    pub fn stdout(self) -> (r: String)
        ensures
            r == self.stdout,
    {
        self.stdout
    }

    /// The captured standard error.
    pub fn stderr(self) -> (r: String)
        ensures
            r == self.stderr,
    {
        self.stderr
    }
}

/// The display of an argument list: each argument preceded by one space.
pub open spec fn spec_args_display(args: Seq<Seq<char>>) -> Seq<char>
    decreases args.len(),
{
    if args.len() == 0 {
        Seq::empty()
    } else {
        spec_args_display(args.drop_last()) + seq![' '] + args.last()
    }
}

/// A command line under construction: executable path, ordered arguments,
/// environment overrides, and an optional working directory.
#[derive(Clone)]
pub struct CommandBuilder {
    pub exec_path: String,
    pub args: Vec<String>,
    pub env: Vec<(String, String)>,
    pub dir: Option<String>,
}

impl CommandBuilder {
    /// A command with no arguments, no environment overrides and no
    /// working directory.
    pub fn new(exec_path: String) -> (c: Self)
        ensures
            c.exec_path == exec_path,
            c.args@.len() == 0,
            c.env@.len() == 0,
            c.dir is None,
    {
        CommandBuilder { exec_path, args: Vec::new(), env: Vec::new(), dir: None }
    }

    /// The command wrapped by a platform timeout-enforcing helper: the
    /// helper runs `exec_path` and terminates it with the reserved exit
    /// code once `seconds` (already rendered as text) have passed.
    pub fn new_with_timeout(exec_path: String, seconds: String) -> (c: Self)
        ensures
            c.exec_path@ == "timeout"@,
            c.args.deep_view() == seq![seconds@, exec_path@],
            c.env@.len() == 0,
            c.dir is None,
    {
        let mut c = Self::new(String::from_str("timeout"));
        c.arg(seconds);
        c.arg(exec_path);
        proof {
            assert(c.args.deep_view() =~= seq![seconds@, exec_path@]);
        }
        c
    }

    /// Appends one argument.
    pub fn arg(&mut self, arg: String)
        ensures
            final(self).exec_path == old(self).exec_path,
            final(self).args@ == old(self).args@.push(arg),
            final(self).env == old(self).env,
            final(self).dir == old(self).dir,
    {
        self.args.push(arg);
    }

    /// Appends one environment override.
    pub fn env(&mut self, key: String, value: String)
        ensures
            final(self).exec_path == old(self).exec_path,
            final(self).args == old(self).args,
            final(self).env@ == old(self).env@.push((key, value)),
            final(self).dir == old(self).dir,
    {
        self.env.push((key, value));
    }

    /// Sets the working directory.
    pub fn set_dir(&mut self, dir: String)
        ensures
            final(self).exec_path == old(self).exec_path,
            final(self).args == old(self).args,
            final(self).env == old(self).env,
            final(self).dir == (Some(dir)),
    {
        self.dir = Some(dir);
    }

    /// One-line rendering of the command: the executable path followed by
    /// each argument, separated by single spaces.
    pub fn display(self) -> (r: String)
        ensures
            r@ == self.exec_path@ + spec_args_display(self.args.deep_view()),
    {
        let mut out = self.exec_path.clone();
        let mut i: usize = 0;
        while i < self.args.len()
            invariant
                i <= self.args@.len(),
                out@ == self.exec_path@ + spec_args_display(self.args.deep_view().take(i as int)),
            decreases self.args@.len() - i,
        {
            proof {
                assert(self.args.deep_view().take(i + 1).drop_last() =~= self.args.deep_view().take(
                    i as int,
                ));
            }
            out.append(" ");
            out.append(self.args[i].as_str());
            proof {
                reveal_strlit(" ");
                assert(" "@ =~= seq![' ']);
            }
            i += 1;
        }
        proof {
            assert(self.args.deep_view().take(self.args@.len() as int) =~= self.args.deep_view());
        }
        out
    }
}

/// Whether `needle` occurs as a contiguous run of characters in `hay`.
pub open spec fn spec_text_contains(hay: Seq<char>, needle: Seq<char>) -> bool {
    exists|k: int|
        0 <= k && k + needle.len() <= hay.len() && #[trigger] hay.subrange(k, k + needle.len())
            == needle
}

/// Whether `needle` starts at position `k` of `hay`.
fn match_at(hay: &str, needle: &str, k: usize) -> (r: bool)
    requires
        k + needle@.len() <= hay@.len(),
        hay@.len() <= usize::MAX,
    ensures
        r == (hay@.subrange(k as int, k + needle@.len()) == needle@),
{
    let m: usize = needle.unicode_len();
    let mut j: usize = 0;
    while j < m
        invariant
            j <= m,
            m == needle@.len(),
            k + m <= hay@.len(),
            hay@.len() <= usize::MAX,
            forall|t: int| 0 <= t < j ==> hay@[k + t] == needle@[t],
        decreases m - j,
    {
        if hay.get_char(k + j) != needle.get_char(j) {
            proof {
                assert(hay@.subrange(k as int, k + needle@.len())[j as int] == hay@[k + j]);
            }
            return false;
        }
        j += 1;
    }
    proof {
        assert(hay@.subrange(k as int, k + needle@.len()) =~= needle@);
    }
    true
}

/// Whether `needle` occurs anywhere in `hay`.
pub fn text_contains(hay: &str, needle: &str) -> (r: bool)
    ensures
        r == spec_text_contains(hay@, needle@),
{
    let n: usize = hay.unicode_len();
    let m: usize = needle.unicode_len();
    if m > n {
        return false;
    }
    if m == 0 {
        proof {
            assert(spec_text_contains(hay@, needle@)) by {
                assert(hay@.subrange(0, 0 + needle@.len() as int) =~= needle@);
            }
        }
        return true;
    }
    let mut k: usize = 0;
    while k <= n - m
        invariant
            1 <= m <= n,
            n == hay@.len(),
            m == needle@.len(),
            k <= n - m + 1,
            forall|t: int| 0 <= t < k ==> #[trigger] hay@.subrange(t, t + m) != needle@,
        decreases n - m + 1 - k,
    {
        if match_at(hay, needle, k) {
            return true;
        }
        k += 1;
    }
    false
}

/// The decision inside the validity probe: `rustc`'s captured diagnostics
/// are taken to show an error exactly when they mention `error`.  The
/// caller compiles the candidate and hands the captured standard error in.
pub fn check_if_valid_rust(rustc_stderr: &str) -> (r: Result<(), String>)
    ensures
        r is Ok <==> !spec_text_contains(rustc_stderr@, "error"@),
        r matches Err(m) ==> m@ == "rustc error"@,
{
    if text_contains(rustc_stderr, "error") {
        Err(String::from_str("rustc error"))
    } else {
        Ok(())
    }
}

/// A planned compiler invocation: the `rustc` command line, the path the
/// produced executable will have, and the temporary source file it reads.
#[derive(Clone)]
pub struct CompileCommand {
    pub cmd: CommandBuilder,
    pub exec_path: String,
    pub src: TMPFile,
}

impl CompileCommand {
    /// Plans compiling the source file `<src_stem>.rs` into
    /// `<src_stem>.a`.  The caller supplies the path stem of a temporary
    /// source file it has written.
    pub fn compile_cmd(src_stem: &str) -> (c: CompileCommand)
        ensures
            c.cmd.exec_path@ == "rustc"@,
            c.cmd.args.deep_view() == seq![
                src_stem@ + ".rs"@,
                "--edition"@,
                "2021"@,
                "-o"@,
                src_stem@ + "."@ + "a"@,
            ],
            c.cmd.env@.len() == 0,
            c.cmd.dir is None,
            c.exec_path@ == src_stem@ + "."@ + "a"@,
            c.src.path@ == src_stem@ + ".rs"@,
    {
        Self::compile_cmd_ext(src_stem, "a")
    }

    /// Plans compiling the source file `<src_stem>.rs` into
    /// `<src_stem>.<ext>`.
    pub fn compile_cmd_ext(src_stem: &str, ext: &str) -> (c: CompileCommand)
        ensures
            c.cmd.exec_path@ == "rustc"@,
            c.cmd.args.deep_view() == seq![
                src_stem@ + ".rs"@,
                "--edition"@,
                "2021"@,
                "-o"@,
                src_stem@ + "."@ + ext@,
            ],
            c.cmd.env@.len() == 0,
            c.cmd.dir is None,
            c.exec_path@ == src_stem@ + "."@ + ext@,
            c.src.path@ == src_stem@ + ".rs"@,
    {
        let mut src_path = String::from_str(src_stem);
        src_path.append(".rs");
        let mut exec = String::from_str(src_stem);
        exec.append(".");
        exec.append(ext);
        let mut cmd = CommandBuilder::new(String::from_str("rustc"));
        cmd.arg(src_path.clone());
        cmd.arg(String::from_str("--edition"));
        cmd.arg(String::from_str("2021"));
        cmd.arg(String::from_str("-o"));
        cmd.arg(exec.clone());
        proof {
            assert(cmd.args.deep_view() =~= seq![
                src_stem@ + ".rs"@,
                "--edition"@,
                "2021"@,
                "-o"@,
                src_stem@ + "."@ + ext@,
            ]);
        }
        CompileCommand { cmd, exec_path: exec, src: TMPFile { path: src_path } }
    }

    /// Appends one argument to the compiler command line.
    pub fn arg(&mut self, arg: String)
        ensures
            final(self).cmd.exec_path == old(self).cmd.exec_path,
            final(self).cmd.args@ == old(self).cmd.args@.push(arg),
            final(self).cmd.env == old(self).cmd.env,
            final(self).cmd.dir == old(self).cmd.dir,
            final(self).exec_path == old(self).exec_path,
            final(self).src == old(self).src,
    {
        self.cmd.arg(arg);
    }

    /// Appends one environment override.
    pub fn env(&mut self, key: String, value: String)
        ensures
            final(self).cmd.exec_path == old(self).cmd.exec_path,
            final(self).cmd.args == old(self).cmd.args,
            final(self).cmd.env@ == old(self).cmd.env@.push((key, value)),
            final(self).cmd.dir == old(self).cmd.dir,
            final(self).exec_path == old(self).exec_path,
            final(self).src == old(self).src,
    {
        self.cmd.env(key, value);
    }

    /// Sets the working directory.
    pub fn set_dir(&mut self, dir: String)
        ensures
            final(self).cmd.exec_path == old(self).cmd.exec_path,
            final(self).cmd.args == old(self).cmd.args,
            final(self).cmd.env == old(self).cmd.env,
            final(self).cmd.dir == (Some(dir)),
            final(self).exec_path == old(self).exec_path,
            final(self).src == old(self).src,
    {
        self.cmd.set_dir(dir);
    }

    /// One-line rendering of the compiler command line.
    pub fn display(self) -> (r: String)
        ensures
            r@ == self.cmd.exec_path@ + spec_args_display(self.cmd.args.deep_view()),
    {
        self.cmd.display()
    }

    /// The path the produced executable will have.
    pub fn exec_file(self) -> (r: String)
        ensures
            r == self.exec_path,
    {
        self.exec_path
    }
}

} // verus!
