//! Planning uniquely named temporary files and crate scaffolds.
//!
//! The library only computes the paths: a random decimal suffix keeps
//! names collision-resistant, and the caller creates the file or the
//! scaffold at the planned path and deletes it when the last holder is
//! done with it.

use crate::command::CommandBuilder;
use vstd::prelude::*;
use vstd::string::StringExecFns;

verus! {

/// A run of one to ten decimal digits, as a `u32` renders.
pub open spec fn spec_is_decimal_suffix(d: Seq<char>) -> bool {
    &&& 1 <= d.len() <= 10
    &&& forall|i: int| 0 <= i < d.len() ==> '0' <= #[trigger] d[i] <= '9'
}

/// Relies on rand::random: draws one `u32` of randomness and renders it
/// in decimal for a unique-name suffix.  Nothing is promised of the drawn
/// value beyond the shape of its rendering.
#[verifier::external_body]
fn random_decimal_suffix() -> (r: String)
    ensures
        spec_is_decimal_suffix(r@),
{
    format!("{}", rand::random::<u32>())
}

/// A fresh path stem inside `dir`: `dir` plus `/tmp` plus a random
/// decimal suffix.
pub fn temp_stem(dir: &str) -> (r: String)
    ensures
        exists|d: Seq<char>|
            spec_is_decimal_suffix(d) && r@ == dir@ + "/tmp"@ + d,
{
    let mut out = String::from_str(dir);
    out.append("/tmp");
    let suffix = random_decimal_suffix();
    let ghost d = suffix@;
    out.append(suffix.as_str());
    proof {
        assert(spec_is_decimal_suffix(d) && out@ == dir@ + "/tmp"@ + d);
    }
    out
}

/// A handle on the planned path of a temporary file.  The caller writes
/// the file and removes it when the last holder releases the handle.
#[derive(Clone)]
pub struct TMPFile {
    pub path: String,
}

impl TMPFile {
    /// Plans a temporary file inside `dir`: a fresh random name with the
    /// given extension.
    pub fn new(dir: &str, extension: &str) -> (f: TMPFile)
        ensures
            exists|d: Seq<char>|
                spec_is_decimal_suffix(d) && f.path@ == dir@ + "/tmp"@ + d + "."@ + extension@,
    {
        let mut path = temp_stem(dir);
        path.append(".");
        path.append(extension);
        TMPFile { path }
    }

    /// The planned path.
    pub fn get_path(&self) -> (r: &String)
        ensures
            r@ == self.path@,
    {
        &self.path
    }
}

/// A handle on the planned layout of a temporary crate scaffold: the
/// scaffold directory and the entry-point file inside it.  The caller
/// initializes the scaffold, writes the entry point, and removes the
/// directory tree when the last holder releases the handle.
#[derive(Clone)]
pub struct TMPCrate {
    pub crate_path: String,
    pub main_path: String,
}

impl TMPCrate {
    /// Plans a crate scaffold inside `dir`: a fresh random directory name,
    /// with the entry point at `src/main.rs` inside it.
    pub fn new(dir: &str) -> (c: TMPCrate)
        ensures
            exists|d: Seq<char>|
                spec_is_decimal_suffix(d) && c.crate_path@ == dir@ + "/tmp"@ + d,
            c.main_path@ == c.crate_path@ + "/src/main.rs"@,
    {
        let crate_path = temp_stem(dir);
        let mut main_path = crate_path.clone();
        main_path.append("/src/main.rs");
        TMPCrate { crate_path, main_path }
    }

    /// A `cargo` command with the given subcommand, rooted at the
    /// scaffold directory.
    pub fn cargo_command(&self, command: String) -> (c: CommandBuilder)
        ensures
            c.exec_path@ == "cargo"@,
            c.args.deep_view() == seq![command@],
            c.env@.len() == 0,
            c.dir == (Some(self.crate_path)),
    {
        let mut c = CommandBuilder::new(String::from_str("cargo"));
        c.set_dir(self.crate_path.clone());
        c.arg(command);
        proof {
            assert(c.args.deep_view() =~= seq![c.args@[0]@]);
        }
        c
    }
}

} // verus!
