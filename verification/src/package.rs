//! The helper package that the launcher depends on: its name, the one
//! version that is accepted, and where its entry script lies.

use crate::text::chars_of;
use vstd::prelude::*;
use vstd::string::StringExecFns;

verus! {

/// The name under which the helper package is installed.
pub const PACKAGE_NAME: &'static str = "mcp-remote";

/// The only version of the helper package that is accepted.
pub const PACKAGE_VERSION: &'static str = "0.1.37";

/// Where the entry script of the helper package lies, relative to the
/// directory in which the package is installed.
pub const ENTRY_SCRIPT: &'static str = "node_modules/mcp-remote/dist/proxy.js";

/// Whether an installation is due for the version that was found: it is,
/// unless the pinned version itself was found.
pub open spec fn install_due(installed: Option<Seq<char>>) -> bool {
    installed != Some(PACKAGE_VERSION@)
}

/// Decides whether the helper package has to be installed, given the
/// version that is installed now, if any.
pub fn needs_install(installed: Option<&str>) -> (due: bool)
    ensures
        due == install_due(installed.deep_view()),
{
    match installed {
        Some(version) => version.to_owned() != PACKAGE_VERSION.to_owned(),
        None => true,
    }
}

/// `relative` adjoined to `directory`, with one `/` between the two unless
/// the directory is empty or ends with `/` already.
pub open spec fn join_path(directory: Seq<char>, relative: Seq<char>) -> Seq<char> {
    if directory.len() == 0 || directory.last() == '/' {
        directory + relative
    } else {
        directory.push('/') + relative
    }
}

/// The path of the entry script for a package installed under `directory`.
pub open spec fn entry_script_in(directory: Seq<char>) -> Seq<char> {
    join_path(directory, ENTRY_SCRIPT@)
}

/// Resolves the path of the entry script against the working directory.
/// Nothing is looked up: the file need not exist.
pub fn entry_script_path(working_directory: &str) -> (path: String)
    ensures
        path@ == entry_script_in(working_directory@),
{
    let chars = chars_of(working_directory);
    let mut path = String::from_str(working_directory);
    if chars.len() > 0 && chars[chars.len() - 1] != '/' {
        path.push('/');
    }
    path.append(ENTRY_SCRIPT);
    path
}

} // verus!
