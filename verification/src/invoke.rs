//! Calling another plugin: the environment it is given, where its executable
//! is looked for, and how its exit is judged.

use vstd::prelude::*;
use crate::error::{Error, ErrorKind};
use crate::text::{i32_to_string, signed_decimal_text, split, split_text};
use crate::types::texts;

verus! {

/// The characters of each name and value of a list of variables.
pub open spec fn vars_view(vars: Seq<(String, String)>) -> Seq<(Seq<char>, Seq<char>)> {
    vars.map_values(|p: (String, String)| (p.0@, p.1@))
}

/// Something that sets variables in the environment of a plugin.
pub trait Args {
    /// The variables that are set, in order, each with its value.
    spec fn vars(&self) -> Seq<(Seq<char>, Seq<char>)>;

    /// The variables to set on top of the caller's own environment.
    fn as_env(&self) -> (env: Vec<(String, String)>)
        ensures
            vars_view(env@) == self.vars(),
    ;
}

/// The full set of arguments of a plugin invocation.
pub struct CNIArgs {
    pub command: String,
    pub containerid: String,
    pub netns: String,
    /// Free-form pairs of key and value, in the order in which they are passed on.
    pub args: Vec<(String, String)>,
    pub ifname: String,
    pub path: String,
}

/// The arguments of a delegated invocation: only the command.
pub struct DelegateArgs {
    pub command: String,
}

/// Pairs of key and value in one text: each as `key=value;`, in order.
pub open spec fn stringified(args: Seq<(Seq<char>, Seq<char>)>) -> Seq<char>
    decreases args.len(),
{
    if args.len() == 0 {
        Seq::<char>::empty()
    } else {
        stringified(args.drop_last()) + args.last().0 + seq!['='] + args.last().1 + seq![';']
    }
}

/// Pairs of key and value in one text: each as `key=value;`, in order.
pub fn stringify_args(args: &Vec<(String, String)>) -> (s: String)
    ensures
        s@ == stringified(vars_view(args@)),
{
    let mut result = String::new();
    let mut i: usize = 0;
    proof {
        reveal_strlit("=");
        reveal_strlit(";");
        assert(vars_view(args@).take(0) =~= Seq::<(Seq<char>, Seq<char>)>::empty());
    }
    while i < args.len()
        invariant
            i <= args.len(),
            "="@ == seq!['='],
            ";"@ == seq![';'],
            result@ == stringified(vars_view(args@).take(i as int)),
        decreases args.len() - i,
    {
        proof {
            let all = vars_view(args@);
            assert(all.take(i + 1).drop_last() =~= all.take(i as int));
            assert(all.take(i + 1).last() == (args@[i as int].0@, args@[i as int].1@));
        }
        result.append(args[i].0.as_str());
        result.append("=");
        result.append(args[i].1.as_str());
        result.append(";");
        i = i + 1;
    }
    proof {
        assert(vars_view(args@).take(i as int) =~= vars_view(args@));
    }
    result
}

impl Args for CNIArgs {
    open spec fn vars(&self) -> Seq<(Seq<char>, Seq<char>)> {
        seq![
            ("CNI_COMMAND"@, self.command@),
            ("CNI_CONTAINERID"@, self.containerid@),
            ("CNI_NETNS"@, self.netns@),
            ("CNI_ARGS"@, stringified(vars_view(self.args@))),
            ("CNI_IFNAME"@, self.ifname@),
            ("CNI_PATH"@, self.path@),
        ]
    }

    fn as_env(&self) -> (env: Vec<(String, String)>) {
        let mut env: Vec<(String, String)> = Vec::new();
        env.push((String::from_str("CNI_COMMAND"), self.command.clone()));
        env.push((String::from_str("CNI_CONTAINERID"), self.containerid.clone()));
        env.push((String::from_str("CNI_NETNS"), self.netns.clone()));
        env.push((String::from_str("CNI_ARGS"), stringify_args(&self.args)));
        env.push((String::from_str("CNI_IFNAME"), self.ifname.clone()));
        env.push((String::from_str("CNI_PATH"), self.path.clone()));
        assert(vars_view(env@) =~= self.vars());
        env
    }
}

impl Args for DelegateArgs {
    open spec fn vars(&self) -> Seq<(Seq<char>, Seq<char>)> {
        seq![("CNI_COMMAND"@, self.command@)]
    }

    fn as_env(&self) -> (env: Vec<(String, String)>) {
        let mut env: Vec<(String, String)> = Vec::new();
        env.push((String::from_str("CNI_COMMAND"), self.command.clone()));
        assert(vars_view(env@) =~= self.vars());
        env
    }
}

/// The path of an entry `name` below the directory `dir`.
pub uninterp spec fn joined_path(dir: Seq<char>, name: Seq<char>) -> Seq<char>;

/// `std::path::Path::join`: the path of `name` below `dir`.
#[verifier::external_body]
fn join_path(dir: &str, name: &str) -> (p: String)
    ensures
        p@ == joined_path(dir@, name@),
{
    std::path::Path::new(dir).join(name).to_string_lossy().into_owned()
}

/// Where the executable of `plugin` may lie: below each directory of
/// `paths`, in order.
pub fn exec_candidates(plugin: &str, paths: &Vec<String>) -> (c: Vec<String>)
    ensures
        c.len() == paths.len(),
        forall|i: int| 0 <= i < c.len() ==> (#[trigger] c[i])@ == joined_path(paths[i]@, plugin@),
{
    let mut c: Vec<String> = Vec::new();
    let mut i: usize = 0;
    while i < paths.len()
        invariant
            i <= paths.len(),
            c.len() == i,
            forall|j: int| 0 <= j < i ==> (#[trigger] c[j])@ == joined_path(paths[j]@, plugin@),
        decreases paths.len() - i,
    {
        c.push(join_path(paths[i].as_str(), plugin));
        i = i + 1;
    }
    c
}

/// Whether the probe of candidate `i` found an executable file.
pub open spec fn probed(is_file: Seq<bool>, i: int) -> bool {
    0 <= i < is_file.len() && is_file[i]
}

/// The executable of `plugin`: the first candidate below `paths` whose probe
/// found a file. `is_file` holds the probes of `exec_candidates(plugin,
/// paths)`, one for each; a candidate without a probe counts as not found.
pub fn find_exec_in_path(plugin: &str, paths: &Vec<String>, is_file: &Vec<bool>) -> (r: Option<
    String,
>)
    ensures
        match r {
            Some(p) => exists|i: int|
                0 <= i < paths.len() && probed(is_file@, i) && p@ == joined_path(
                    paths[i]@,
                    plugin@,
                ) && forall|j: int| 0 <= j < i ==> !probed(is_file@, j),
            None => forall|j: int| 0 <= j < paths.len() ==> !probed(is_file@, j),
        },
{
    let mut i: usize = 0;
    while i < paths.len()
        invariant
            i <= paths.len(),
            forall|j: int| 0 <= j < i ==> !probed(is_file@, j),
        decreases paths.len() - i,
    {
        if i < is_file.len() && is_file[i] {
            let p = join_path(paths[i].as_str(), plugin);
            assert(probed(is_file@, i as int) && p@ == joined_path(paths[i as int]@, plugin@));
            return Some(p);
        }
        i = i + 1;
    }
    None
}

/// Bytes read as text, with a replacement character wherever they are not
/// well-formed.
pub uninterp spec fn lossy_text(bytes: Seq<u8>) -> Seq<char>;

/// `String::from_utf8_lossy`: the bytes as text, with a replacement
/// character wherever they are not well-formed.
#[verifier::external_body]
fn text_of(bytes: &[u8]) -> (s: String)
    ensures
        s@ == lossy_text(bytes@),
{
    String::from_utf8_lossy(bytes).into_owned()
}

/// The message that reports a plugin that exited with a failure: the exit
/// code, and what the plugin wrote.
pub open spec fn exit_text(code: i32, output: Seq<u8>) -> Seq<char> {
    "plugin exited with non-zero exit code: "@ + signed_decimal_text(code as int) + ": "@
        + lossy_text(output)
}

/// The output of a plugin that has exited, or a `Delegate` error if it
/// exited with a code other than zero; the error carries the code and what
/// the plugin wrote. A plugin that a signal ended has no exit code and is
/// judged by its output alone.
pub fn exec_plugin_with_result(exit_code: Option<i32>, output: Vec<u8>) -> (r: Result<
    Vec<u8>,
    Error,
>)
    ensures
        match exit_code {
            Some(code) if code != 0 => r is Err && r->Err_0.kind == ErrorKind::Delegate
                && r->Err_0.message@ == exit_text(code, output@),
            _ => r == Ok::<Vec<u8>, Error>(output),
        },
{
    match exit_code {
        Some(code) => {
            if code != 0 {
                let mut message = String::from_str("plugin exited with non-zero exit code: ");
                message.append(i32_to_string(code).as_str());
                message.append(": ");
                message.append(text_of(output.as_slice()).as_str());
                return Err(Error::new(ErrorKind::Delegate, message.as_str()));
            }
        },
        None => {},
    }
    Ok(output)
}

/// The directories that a search path lists, separated by colons.
pub open spec fn split_at_colons(s: Seq<char>) -> Seq<Seq<char>> {
    split_text(s, ':')
}

/// The directories of a search path, which lists them separated by colons.
pub fn search_dirs(cni_path: &str) -> (dirs: Vec<String>)
    ensures
        texts(dirs@) == split_at_colons(cni_path@),
{
    split(cni_path, ':')
}

/// Whether the probes find the executable of a plugin below some directory
/// of a search path.
pub open spec fn plugin_found(cni_path: Seq<char>, is_file: Seq<bool>) -> bool {
    exists|i: int| 0 <= i < split_at_colons(cni_path).len() && probed(is_file, i)
}

/// The executable of `plugin`: below the first directory of the search path
/// `cni_path` whose probe found a file; `is_file` holds one probe for each
/// directory, made on `exec_candidates(plugin, search_dirs(cni_path))`. A
/// plugin that no probe found is a `Delegate` error that names the plugin
/// and the search path.
pub fn delegate_common(plugin: &str, cni_path: &str, is_file: &Vec<bool>) -> (r: Result<
    String,
    Error,
>)
    ensures
        match r {
            Ok(p) => exists|i: int|
                0 <= i < split_at_colons(cni_path@).len() && probed(is_file@, i) && p@
                    == joined_path(split_at_colons(cni_path@)[i], plugin@) && forall|j: int|
                    0 <= j < i ==> !probed(is_file@, j),
            Err(e) => !plugin_found(cni_path@, is_file@) && e.kind == ErrorKind::Delegate
                && e.message@ == "plugin "@ + plugin@ + " not found in CNI_PATH: "@ + cni_path@,
        },
{
    let dirs = search_dirs(cni_path);
    match find_exec_in_path(plugin, &dirs, is_file) {
        Some(p) => {
            proof {
                let i = choose|i: int|
                    0 <= i < dirs.len() && probed(is_file@, i) && p@ == joined_path(
                        dirs[i]@,
                        plugin@,
                    ) && forall|j: int| 0 <= j < i ==> !probed(is_file@, j);
                assert(texts(dirs@)[i] == dirs[i]@);
            }
            Ok(p)
        },
        None => {
            let mut message = String::from_str("plugin ");
            message.append(plugin);
            message.append(" not found in CNI_PATH: ");
            message.append(cni_path);
            proof {
                assert(texts(dirs@).len() == dirs.len());
                assert(message@ =~= "plugin "@ + plugin@ + " not found in CNI_PATH: "@ + cni_path@);
            }
            Err(Error::new(ErrorKind::Delegate, message.as_str()))
        },
    }
}

/// What is to be run for a delegated ADD: the executable, and the variables
/// to set in its environment.
#[derive(Debug)]
pub struct DelegateCall {
    pub path: String,
    pub env: Vec<(String, String)>,
}

/// Prepares the ADD command of `plugin`: its executable as `delegate_common`
/// finds it, to be run with the command `ADD` in its environment.
pub fn delegate_add(plugin: &str, cni_path: &str, is_file: &Vec<bool>) -> (r: Result<
    DelegateCall,
    Error,
>)
    ensures
        match r {
            Ok(call) => vars_view(call.env@) == seq![("CNI_COMMAND"@, "ADD"@)] && exists|i: int|
                0 <= i < split_at_colons(cni_path@).len() && probed(is_file@, i) && call.path@
                    == joined_path(split_at_colons(cni_path@)[i], plugin@) && forall|j: int|
                    0 <= j < i ==> !probed(is_file@, j),
            Err(e) => !plugin_found(cni_path@, is_file@) && e.kind == ErrorKind::Delegate,
        },
{
    match delegate_common(plugin, cni_path, is_file) {
        Ok(path) => {
            let args = DelegateArgs { command: String::from_str("ADD") };
            Ok(DelegateCall { path, env: args.as_env() })
        },
        Err(e) => Err(e),
    }
}

} // verus!
