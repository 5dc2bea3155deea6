//! Finding executables and describing the command that runs them.

use vstd::prelude::*;

use crate::error::{ErrorKind, ErrorView};
use crate::text::{copy_string, opt_chars, owned, path_join};

verus! {

/// The kind of operating system a command is launched on. Launching a
/// program found in given directories differs between the two.
#[derive(Clone, Copy, Debug, PartialEq, Eq, Structural)]
pub enum Platform {
    Unix,
    Windows,
}

/// A command to launch: the program to run, the `PATH` it runs with where
/// the search was confined to given directories, and the path that the
/// search found.
#[derive(Debug, PartialEq, Eq)]
pub struct CommandSpec {
    pub program: String,
    pub path_env: Option<String>,
    pub resolved: Option<String>,
}

/// `CommandSpec` with its text as character sequences.
pub struct CommandView {
    pub program: Seq<char>,
    pub path_env: Option<Seq<char>>,
    pub resolved: Option<Seq<char>>,
}

impl View for CommandSpec {
    type V = CommandView;

    open spec fn view(&self) -> CommandView {
        CommandView {
            program: self.program@,
            path_env: opt_chars(self.path_env),
            resolved: opt_chars(self.resolved),
        }
    }
}

/// `p` names the executable `name` as a search finds it: `name` itself when
/// it is absolute, else `name` joined onto some directory.
pub open spec fn names_executable(p: Seq<char>, name: Seq<char>) -> bool {
    exists|dir: Seq<char>| p == #[trigger] path_join(dir, name)
}

/// The entries of a search path, as `std::env::split_paths` reads it on
/// Unix: the text between the `:` separators, in order; an empty search path
/// has one empty entry.
pub open spec fn search_dirs(paths: Seq<char>) -> Seq<Seq<char>>
    decreases paths.len(),
{
    if paths.len() == 0 {
        seq![Seq::empty()]
    } else {
        let rest = search_dirs(paths.drop_last());
        if paths.last() == ':' {
            rest.push(Seq::empty())
        } else {
            rest.update(rest.len() - 1, rest.last().push(paths.last()))
        }
    }
}

/// A search path entry whose first component is `~`, which the search
/// replaces by the home directory.
pub open spec fn tilde_entry(d: Seq<char>) -> bool {
    d.len() >= 1 && d[0] == '~' && (d.len() == 1 || d[1] == '/')
}

/// `p` is where a search of the entries `dirs` finds `name`: `name` joined
/// onto one of the entries, or onto the expansion of one that starts with
/// `~`. (For an absolute `name` that is `name` itself.)
pub open spec fn found_in_dirs(p: Seq<char>, name: Seq<char>, dirs: Seq<Seq<char>>) -> bool {
    exists|i: int|
        0 <= i < dirs.len() && (p == path_join(#[trigger] dirs[i], name) || (tilde_entry(dirs[i])
            && names_executable(p, name)))
}

/// The separator of path components on the host: `/` on Unix, `\` on
/// Windows.
///
/// Trusted: reads `std::path::MAIN_SEPARATOR`, which std documents as the
/// primary separator of path components for the current platform, `/` or
/// `\`. Which of the two it is depends on the platform, so only that is
/// stated.
#[verifier::external_body]
fn main_separator() -> (sep: char)
    ensures
        sep == '/' || sep == '\\',
{
    std::path::MAIN_SEPARATOR
}

/// The platform this program runs on, as its path separator shows it.
pub fn host_platform() -> (p: Platform) {
    if main_separator() == '\\' {
        Platform::Windows
    } else {
        Platform::Unix
    }
}

/// Looks `name` up on the process's `PATH`, not in the working directory,
/// and gives the first executable found as a path, with the host's path
/// separator.
///
/// Trusted: calls `which::which_global` and reads `std::path::MAIN_SEPARATOR`.
/// Whether it finds anything, and in which directory, depends on the
/// environment and on the file system, so that is left unsaid. Where paths
/// use `/` (Unix), its source shows that a path it finds is `name` itself
/// when `name` is absolute, and otherwise a directory of `PATH` joined with
/// `name` (`Path::join`); text that is not UTF-8 in the directory is
/// replaced, which leaves its separators alone. On Windows it may add an
/// extension and correct the case of the name, so nothing is stated there.
#[verifier::external_body]
fn which_global_path(name: &str) -> (r: (Option<String>, char))
    ensures
        r.1 == '/' || r.1 == '\\',
        r.1 == '/' ==> (r.0 matches Some(p) ==> names_executable(p@, name@)),
{
    let found = match which::which_global(name) {
        Ok(path) => Some(path.to_string_lossy().into_owned()),
        Err(_) => None,
    };
    (found, std::path::MAIN_SEPARATOR)
}

/// Looks `name` up in the directories of the search path `paths`, and gives
/// the first executable found as a path, with the host's path separator.
///
/// Trusted: calls `which::which_in_global`, takes the first item of the
/// iterator it returns, and reads `std::path::MAIN_SEPARATOR`. Whether it
/// finds anything depends on the file system, so that is not stated. Where
/// paths use `/` (Unix), its source shows that a path it finds is `name`
/// itself when `name` is absolute, and otherwise one of the `:`-separated
/// entries of `paths` joined with `name` (`Path::join`), an entry starting
/// with `~` having that replaced by the home directory first. On Windows it
/// splits on `;`, may add an extension and may correct the case of the
/// name, so nothing is stated there.
#[verifier::external_body]
fn which_in_paths(name: &str, paths: &str) -> (r: (Option<String>, char))
    ensures
        r.1 == '/' || r.1 == '\\',
        r.1 == '/' ==> (r.0 matches Some(p) ==> found_in_dirs(p@, name@, search_dirs(paths@))),
{
    let found = match which::which_in_global(name, Some(paths)) {
        Ok(mut all) => match all.next() {
            Some(path) => Some(path.to_string_lossy().into_owned()),
            None => None,
        },
        Err(_) => None,
    };
    (found, std::path::MAIN_SEPARATOR)
}

/// The command for `name` given what the lookup found: the path found, or
/// `BinaryNotFound` naming `name` when nothing was found.
pub fn command_lookup(name: &str, lookup: Option<String>) -> (res: Result<CommandSpec, ErrorKind>)
    ensures
        match lookup {
            Some(path) => res matches Ok(c) && c@ == (CommandView {
                program: path@,
                path_env: None,
                resolved: Some(path@),
            }),
            None => res matches Err(e) && e@ == (ErrorView::BinaryNotFound { name: name@ }),
        },
{
    match lookup {
        Some(path) => {
            let resolved = copy_string(&path);
            Ok(CommandSpec { program: path, path_env: None, resolved: Some(resolved) })
        },
        None => Err(ErrorKind::BinaryNotFound { name: owned(name) }),
    }
}

/// Creates a command for `exe`, searching the default `PATH` of the host,
/// which runs on `platform`.
///
/// The command runs the path that the search found, with the environment
/// left as it is; on Unix that path is `exe` itself or `exe` in one of the
/// searched directories. When the search finds nothing, or `platform` is
/// not the host's, the error is `BinaryNotFound` naming `exe`.
pub fn create_command(exe: &str, platform: Platform) -> (res: Result<CommandSpec, ErrorKind>)
    ensures
        res matches Ok(c) ==> {
            &&& c.path_env is None
            &&& c@.resolved == Some(c@.program)
            &&& platform is Unix ==> names_executable(c@.program, exe@)
        },
        res matches Err(e) ==> e@ == (ErrorView::BinaryNotFound { name: exe@ }),
{
    let (found, sep) = which_global_path(exe);
    let host_matches = match platform {
        Platform::Unix => sep == '/',
        Platform::Windows => sep == '\\',
    };
    if host_matches {
        command_lookup(exe, found)
    } else {
        command_lookup(exe, None)
    }
}

/// The program that launches `exe` found at `resolved` within the search
/// path: on Unix the bare name, which the operating system resolves as a
/// shell would; on Windows the absolute path found, which launching needs.
pub open spec fn program_in_paths(platform: Platform, exe: Seq<char>, resolved: Seq<char>) -> Seq<
    char,
> {
    match platform {
        Platform::Unix => exe,
        Platform::Windows => resolved,
    }
}

/// The command for `exe` confined to the search path `paths`, given what the
/// search found: the program `program_in_paths` names, run with `PATH` set
/// to `paths`, or `BinaryNotFound` naming `exe` when nothing was found.
pub fn command_in_lookup(exe: &str, paths: &str, lookup: Option<String>, platform: Platform) -> (res:
    Result<CommandSpec, ErrorKind>)
    ensures
        match lookup {
            Some(found) => res matches Ok(c) && c@ == (CommandView {
                program: program_in_paths(platform, exe@, found@),
                path_env: Some(paths@),
                resolved: Some(found@),
            }),
            None => res matches Err(e) && e@ == (ErrorView::BinaryNotFound { name: exe@ }),
        },
{
    match lookup {
        Some(found) => {
            let program = match platform {
                Platform::Unix => owned(exe),
                Platform::Windows => copy_string(&found),
            };
            Ok(CommandSpec { program, path_env: Some(owned(paths)), resolved: Some(found) })
        },
        None => Err(ErrorKind::BinaryNotFound { name: owned(exe) }),
    }
}

/// Creates a command for `exe`, searching only the directories of `paths`,
/// on the host, which runs on `platform`.
///
/// The executable must exist in those directories; on Unix the path found
/// is `exe` joined onto one of the `:`-separated entries of `paths` (or onto
/// the home directory that replaces a leading `~`). On Unix the command
/// names it bare, so that the operating system resolves it as `execvp`
/// does; on Windows it names the absolute path found, which launching there
/// needs. Either way `PATH` is set to `paths`, so that nested launches see
/// the same directories. When the search finds nothing, or `platform` is not
/// the host's, the error is `BinaryNotFound` naming `exe`.
pub fn create_command_in(exe: &str, paths: &str, platform: Platform) -> (res: Result<
    CommandSpec,
    ErrorKind,
>)
    ensures
        res matches Ok(c) ==> {
            &&& c@.path_env == Some(paths@)
            &&& c@.resolved is Some
            &&& c@.program == program_in_paths(platform, exe@, c@.resolved->0)
            &&& platform is Unix ==> found_in_dirs(c@.resolved->0, exe@, search_dirs(paths@))
        },
        res matches Err(e) ==> e@ == (ErrorView::BinaryNotFound { name: exe@ }),
{
    let (found, sep) = which_in_paths(exe, paths);
    let host_matches = match platform {
        Platform::Unix => sep == '/',
        Platform::Windows => sep == '\\',
    };
    if host_matches {
        command_in_lookup(exe, paths, found, platform)
    } else {
        command_in_lookup(exe, paths, None, platform)
    }
}

} // verus!
