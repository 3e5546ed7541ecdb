//! Planning the CLI tool installation and the extension install.
//!
//! Nothing here touches the disk or spawns a process. The CLI tool
//! installation is a short sequence of filesystem steps followed by a
//! package-manager run; its control flow is a step function over explicit
//! phases, and a caller performs each requested action and reports how it
//! went. The extension install is planned up front: the argument lists, the
//! sandbox and configuration directories and the launch binary are all
//! computed and pinned down here, and a caller only has to run them.

use vstd::prelude::*;
use crate::paths::{join_path, join_spec, parent_of, parent_spec};

verus! {

/// Why planning an extension install failed.
#[derive(Clone, Copy, Debug, PartialEq, Eq)]
pub enum InstallError {
    /// No archive files were given.
    NoFiles,
}

impl InstallError {
    /// A description of the error, with the formats that would be accepted.
    pub fn message(&self) -> (s: String)
        ensures
            s@ == "No valid files provided.\nSupported formats:\n.vsix, .tar.gz, .tgz"@,
    {
        String::from_str("No valid files provided.\nSupported formats:\n.vsix, .tar.gz, .tgz")
    }
}

/// The versioned package specifier handed to the package manager.
pub open spec fn package_spec_of(version: Seq<char>) -> Seq<char> {
    "@zowe/cli@"@ + version
}

/// The local directory the CLI tool is installed under.
pub fn install_dir() -> (r: String)
    ensures
        r@ == "./node_modules"@,
{
    String::from_str("./node_modules")
}

/// The argument list for installing the CLI tool: a global, no-save install
/// of the versioned package, scoped to the local install directory.
pub fn npm_install_args(version: &str) -> (args: Vec<String>)
    ensures
        args@.len() == 6,
        args@[0]@ == "install"@,
        args@[1]@ == "-g"@,
        args@[2]@ == "--no-save"@,
        args@[3]@ == "--prefix"@,
        args@[4]@ == "./node_modules"@,
        args@[5]@ == package_spec_of(version@),
{
    let mut args: Vec<String> = Vec::new();
    args.push(String::from_str("install"));
    args.push(String::from_str("-g"));
    args.push(String::from_str("--no-save"));
    args.push(String::from_str("--prefix"));
    args.push(String::from_str("./node_modules"));
    args.push(String::from_str("@zowe/cli@").concat(version));
    args
}

/// The parent of a path, or the empty path where it has none.
pub open spec fn parent_or_empty(s: Seq<char>) -> Seq<char> {
    match parent_spec(s) {
        Some(p) => p,
        None => Seq::empty(),
    }
}

/// The directory layout around the editor binary that install planning
/// relies on: the binary sits two levels below a directory that itself has
/// a parent, so the path must hold at least three separators.
pub open spec fn editor_layout_ok(bin: Seq<char>) -> bool {
    &&& parent_spec(bin) is Some
    &&& parent_spec(parent_or_empty(bin)) is Some
    &&& parent_spec(parent_or_empty(parent_or_empty(bin))) is Some
}

/// The editor's directory: two levels up from the binary.
pub open spec fn editor_dir_spec(bin: Seq<char>) -> Seq<char> {
    parent_or_empty(parent_or_empty(bin))
}

/// The sandbox working directory: a sibling of the editor's directory.
pub open spec fn sandbox_dir_spec(bin: Seq<char>) -> Seq<char> {
    join_spec(parent_or_empty(editor_dir_spec(bin)), "sandbox"@)
}

/// The isolated configuration directory inside the sandbox.
pub open spec fn config_dir_spec(bin: Seq<char>) -> Seq<char> {
    join_spec(sandbox_dir_spec(bin), ".zowe"@)
}

/// The binary used for the launch, inside the editor's directory.
pub open spec fn launch_bin_spec(bin: Seq<char>, editor_name: Seq<char>) -> Seq<char> {
    join_spec(editor_dir_spec(bin), editor_name)
}

/// The `j`th archive file's slot in an install argument list: the install
/// flag, then the file itself.
pub open spec fn install_pair_at(args: Seq<String>, files: Seq<String>, j: int) -> bool {
    args[2 * j]@ == "--install-extension"@ && args[2 * j + 1]@ == files[j]@
}

/// Everything a caller needs to perform the extension install and the
/// editor launch.
pub struct LaunchPlan {
    /// Arguments of the install invocation: one `--install-extension` flag
    /// before each archive file.
    pub install_args: Vec<String>,
    /// The sandbox working directory the editor is pointed at.
    pub sandbox_dir: String,
    /// The configuration directory to create and to name in the launch
    /// environment.
    pub config_dir: String,
    /// The binary to launch.
    pub launch_bin: String,
    /// Arguments of the launch invocation: updates disabled, then the
    /// sandbox directory.
    pub launch_args: Vec<String>,
}

/// Whether the editor binary's path has the directory layout that
/// `plan_install` relies on.
pub fn editor_layout_is_ok(vsc_bin: &str) -> (b: bool)
    ensures
        b == editor_layout_ok(vsc_bin@),
{
    match parent_of(vsc_bin) {
        Some(p1) => match parent_of(p1.as_str()) {
            Some(p2) => match parent_of(p2.as_str()) {
                Some(_p3) => true,
                None => false,
            },
            None => false,
        },
        None => false,
    }
}

/// Plans the install of the given archive files into the editor at
/// `vsc_bin`, and the launch of `editor_name` from the editor's directory.
/// Fails exactly when `files` is empty.
pub fn plan_install(vsc_bin: &str, editor_name: &str, files: &Vec<String>) -> (r: Result<
    LaunchPlan,
    InstallError,
>)
    requires
        files@.len() == 0 || editor_layout_ok(vsc_bin@),
    ensures
        match r {
            Err(e) => files@.len() == 0 && e == InstallError::NoFiles,
            Ok(plan) => {
                &&& files@.len() > 0
                &&& plan.install_args@.len() == 2 * files@.len()
                &&& forall|j: int|
                    0 <= j < files@.len() ==> #[trigger] install_pair_at(
                        plan.install_args@,
                        files@,
                        j,
                    )
                &&& plan.sandbox_dir@ == sandbox_dir_spec(vsc_bin@)
                &&& plan.config_dir@ == config_dir_spec(vsc_bin@)
                &&& plan.launch_bin@ == launch_bin_spec(vsc_bin@, editor_name@)
                &&& plan.launch_args@.len() == 2
                &&& plan.launch_args@[0]@ == "--disable-updates"@
                &&& plan.launch_args@[1]@ == sandbox_dir_spec(vsc_bin@)
            },
        },
{
    if files.len() == 0 {
        return Err(InstallError::NoFiles);
    }
    let mut install_args: Vec<String> = Vec::new();
    let mut i: usize = 0;
    while i < files.len()
        invariant
            i <= files@.len(),
            install_args@.len() == 2 * i,
            forall|j: int| 0 <= j < i ==> #[trigger] install_pair_at(install_args@, files@, j),
        decreases files@.len() - i,
    {
        let ghost prev = install_args@;
        let flag = String::from_str("--install-extension");
        let fi = files[i].clone();
        let ghost gflag = flag;
        let ghost gfi = fi;
        install_args.push(flag);
        install_args.push(fi);
        proof {
            assert(install_args@ =~= prev.push(gflag).push(gfi));
            assert forall|j: int|
                0 <= j < i + 1 implies #[trigger] install_pair_at(install_args@, files@, j) by {
                if j < i as int {
                    assert(install_pair_at(prev, files@, j));
                    assert(install_args@[2 * j] == prev[2 * j]);
                    assert(install_args@[2 * j + 1] == prev[2 * j + 1]);
                } else {
                    assert(2 * j == prev.len());
                    assert(install_args@[2 * j] == gflag);
                    assert(install_args@[2 * j + 1] == gfi);
                }
            }
        }
        i = i + 1;
    }
    let bin_parent: String = match parent_of(vsc_bin) {
        Some(p) => p,
        None => unreached(),
    };
    let editor_dir: String = match parent_of(bin_parent.as_str()) {
        Some(p) => p,
        None => unreached(),
    };
    let editor_parent: String = match parent_of(editor_dir.as_str()) {
        Some(p) => p,
        None => unreached(),
    };
    let sandbox_dir = join_path(editor_parent.as_str(), "sandbox");
    let config_dir = join_path(sandbox_dir.as_str(), ".zowe");
    let launch_bin = join_path(editor_dir.as_str(), editor_name);
    let mut launch_args: Vec<String> = Vec::new();
    launch_args.push(String::from_str("--disable-updates"));
    launch_args.push(sandbox_dir.clone());
    Ok(LaunchPlan { install_args, sandbox_dir, config_dir, launch_bin, launch_args })
}

} // verus!
