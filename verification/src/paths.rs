//! Home-directory expansion for arguments and paths, and the choice of the
//! shell's configuration file.

use vstd::prelude::*;
use crate::text::{
    begins_with, contains_text, is_prefix, occurs_in, owned, same_text, strings_view, text_view,
};

verus! {

/// An argument with a leading `~` replaced by the home directory; any other
/// argument as it is.
pub open spec fn expand_home(arg: Seq<char>, home: Seq<char>) -> Seq<char> {
    if is_prefix("~"@, arg) {
        home + arg.subrange(1, arg.len() as int)
    } else {
        arg
    }
}

/// Every argument expanded, in order.
pub open spec fn expand_all(args: Seq<Seq<char>>, home: Seq<char>) -> Seq<Seq<char>> {
    Seq::new(args.len(), |i: int| expand_home(args[i], home))
}

/// A path given on the command line: `~` alone or a leading `~/` stands for
/// the home directory; any other path is taken as it is.
pub open spec fn expand_path(path: Seq<char>, home: Seq<char>) -> Seq<char> {
    if path == "~"@ || is_prefix("~/"@, path) {
        home + path.subrange(1, path.len() as int)
    } else {
        path
    }
}

fn after_first(s: &str, home: &str) -> (out: String)
    requires
        s@.len() >= 1,
    ensures
        out@ == home@ + s@.subrange(1, s@.len() as int),
{
    let mut out = owned(home);
    out.append(s.substring_char(1, s.unicode_len()));
    out
}

/// Expands a leading `~` of one argument to `home`.
pub fn expand_tilde(arg: &str, home: &str) -> (out: String)
    ensures
        out@ == expand_home(arg@, home@),
{
    proof {
        reveal_strlit("~");
    }
    if begins_with(arg, "~") {
        after_first(arg, home)
    } else {
        owned(arg)
    }
}

/// Expands the arguments of a command before it is started.
pub fn expand_args(args: &Vec<String>, home: &str) -> (out: Vec<String>)
    ensures
        strings_view(out@) == expand_all(strings_view(args@), home@),
{
    let mut out: Vec<String> = Vec::new();
    let mut i: usize = 0;
    while i < args.len()
        invariant
            i <= args@.len(),
            out@.len() == i,
            forall|j: int| 0 <= j < i ==> #[trigger] out@[j]@ == expand_home(args@[j]@, home@),
        decreases args@.len() - i,
    {
        out.push(expand_tilde(args[i].as_str(), home));
        i += 1;
    }
    proof {
        assert(strings_view(out@) =~= expand_all(strings_view(args@), home@));
    }
    out
}

/// Expands the path of a configuration file given on the command line.
pub fn expand_config_path(path: &str, home: &str) -> (out: String)
    ensures
        out@ == expand_path(path@, home@),
{
    proof {
        reveal_strlit("~");
        reveal_strlit("~/");
    }
    if same_text(path, "~") || begins_with(path, "~/") {
        after_first(path, home)
    } else {
        owned(path)
    }
}

/// The configuration file of the shell whose program path is `shell`: the
/// first of zsh, bash, fish, ksh and tcsh that the path mentions decides,
/// and bash's file stands in for any other shell.
pub open spec fn shell_config_file(shell: Seq<char>) -> Seq<char> {
    if occurs_in("zsh"@, shell) {
        "~/.zshrc"@
    } else if occurs_in("bash"@, shell) {
        "~/.bashrc"@
    } else if occurs_in("fish"@, shell) {
        "~/.config/fish/config.fish"@
    } else if occurs_in("ksh"@, shell) {
        "~/.kshrc"@
    } else if occurs_in("tcsh"@, shell) {
        "~/.tcshrc"@
    } else {
        "~/.bashrc"@
    }
}

/// The shell's configuration file, given the shell that the environment
/// names; none where it names no shell.
pub fn detect_shell_config(shell: Option<&str>) -> (file: Option<String>)
    ensures
        file is Some <==> shell is Some,
        file is Some ==> file->0@ == shell_config_file(shell->0@),
{
    match shell {
        None => None,
        Some(shell) => {
            let config_file = if contains_text(shell, "zsh") {
                "~/.zshrc"
            } else if contains_text(shell, "bash") {
                "~/.bashrc"
            } else if contains_text(shell, "fish") {
                "~/.config/fish/config.fish"
            } else if contains_text(shell, "ksh") {
                "~/.kshrc"
            } else if contains_text(shell, "tcsh") {
                "~/.tcshrc"
            } else {
                "~/.bashrc"
            };
            Some(owned(config_file))
        },
    }
}

/// What `Path::join` of the standard library makes of a base path and a
/// relative part: the base, a separator where one is needed, and the part.
pub uninterp spec fn joined_path(base: Seq<char>, part: Seq<char>) -> Seq<char>;

/// Trusted: `Path::join` from the standard library, on paths given and
/// returned as text. The contract only gives the result a name.
#[verifier::external_body]
fn join_path(base: &str, part: &str) -> (out: String)
    ensures
        out@ == joined_path(base@, part@),
{
    std::path::Path::new(base).join(part).to_string_lossy().into_owned()
}

/// The directory that holds configuration: the one the environment names
/// for it, else `.config` under the home directory, else `.config` under
/// the working directory.
pub open spec fn config_dir(xdg: Option<Seq<char>>, home: Option<Seq<char>>) -> Seq<char> {
    match xdg {
        Some(dir) => dir,
        None => joined_path(
            match home {
                Some(dir) => dir,
                None => "."@,
            },
            ".config"@,
        ),
    }
}

/// The default place of the launcher's configuration file.
pub open spec fn default_config_path(xdg: Option<Seq<char>>, home: Option<Seq<char>>) -> Seq<char> {
    joined_path(joined_path(config_dir(xdg, home), "dott"@), "config.toml"@)
}

/// The default place of the configuration file, given what the
/// environment says of the configuration directory and the home directory.
pub fn config_path(xdg: Option<&str>, home: Option<&str>) -> (path: String)
    ensures
        path@ == default_config_path(text_view(xdg), text_view(home)),
{
    let dir = match xdg {
        Some(dir) => owned(dir),
        None => match home {
            Some(home) => join_path(home, ".config"),
            None => join_path(".", ".config"),
        },
    };
    let app_dir = join_path(dir.as_str(), "dott");
    join_path(app_dir.as_str(), "config.toml")
}

/// The configuration file in force: the one named on the command line, or
/// the default one where none was named.
pub open spec fn live_config_file(
    explicit: Option<Seq<char>>,
    xdg: Option<Seq<char>>,
    home: Option<Seq<char>>,
) -> Seq<char> {
    match explicit {
        Some(path) => path,
        None => default_config_path(xdg, home),
    }
}

/// The file that the editing action opens: the configuration file in
/// force. `explicit` is the path that the configuration was read from where
/// one was given; `xdg` and `home` are what the environment says of the
/// configuration directory and the home directory.
pub fn editor_target(explicit: Option<&str>, xdg: Option<&str>, home: Option<&str>) -> (path: String)
    ensures
        path@ == live_config_file(text_view(explicit), text_view(xdg), text_view(home)),
{
    match explicit {
        Some(path) => owned(path),
        None => config_path(xdg, home),
    }
}

} // verus!
