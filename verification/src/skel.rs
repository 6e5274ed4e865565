//! The entry of a plugin: the command and arguments that the runtime passes
//! in the environment, and the dispatch to the handler of the command.

use vstd::prelude::*;
use crate::error::{Error, ErrorKind};
use crate::text::str_eq;

verus! {

/// The arguments of one invocation.
#[derive(Debug)]
pub struct CmdArgs {
    pub container_id: String,
    pub netns: String,
    pub if_name: String,
    pub args: String,
    pub path: String,
}

/// What `CmdArgs` holds, as mathematical values.
pub struct CmdArgsView {
    pub container_id: Seq<char>,
    pub netns: Seq<char>,
    pub if_name: Seq<char>,
    pub args: Seq<char>,
    pub path: Seq<char>,
}

impl View for CmdArgs {
    type V = CmdArgsView;

    open spec fn view(&self) -> CmdArgsView {
        CmdArgsView {
            container_id: self.container_id@,
            netns: self.netns@,
            if_name: self.if_name@,
            args: self.args@,
            path: self.path@,
        }
    }
}

/// The command verb of an invocation.
#[derive(Clone, Copy, Debug, PartialEq, Eq, Structural)]
pub enum Cmd {
    Add,
    Del,
    Check,
    Version,
}

/// The variables of the environment that an invocation reads, each as it was
/// found: absent, or present with a value.
#[derive(Clone, Debug, Default)]
pub struct CniEnv {
    pub command: Option<String>,
    pub container_id: Option<String>,
    pub netns: Option<String>,
    pub if_name: Option<String>,
    pub args: Option<String>,
    pub path: Option<String>,
}

/// The value of a variable, the empty text where the variable is absent.
pub open spec fn var_text(v: Option<String>) -> Seq<char> {
    match v {
        Some(s) => s@,
        None => Seq::<char>::empty(),
    }
}

/// The value of a variable, the empty text where the variable is absent.
fn var_or_empty(v: &Option<String>) -> (s: String)
    ensures
        s@ == var_text(*v),
{
    match v {
        Some(s) => s.clone(),
        None => String::new(),
    }
}

impl Cmd {
    /// The verb as the runtime writes it.
    pub open spec fn text(self) -> Seq<char> {
        match self {
            Cmd::Add => "ADD"@,
            Cmd::Del => "DEL"@,
            Cmd::Check => "CHECK"@,
            Cmd::Version => "VERSION"@,
        }
    }

    /// The command that a text names, if it names one.
    pub open spec fn parse(s: Seq<char>) -> Option<Cmd> {
        if s == "ADD"@ {
            Some(Cmd::Add)
        } else if s == "DEL"@ {
            Some(Cmd::Del)
        } else if s == "CHECK"@ {
            Some(Cmd::Check)
        } else if s == "VERSION"@ {
            Some(Cmd::Version)
        } else {
            None
        }
    }

    /// The verb as the runtime writes it.
    pub fn to_string(&self) -> (s: String)
        ensures
            s@ == self.text(),
    {
        match self {
            Cmd::Add => String::from_str("ADD"),
            Cmd::Del => String::from_str("DEL"),
            Cmd::Check => String::from_str("CHECK"),
            Cmd::Version => String::from_str("VERSION"),
        }
    }

    /// The command that `s` names, or a `Config` error if it names none.
    pub fn from_str(s: &str) -> (r: Result<Cmd, Error>)
        ensures
            match r {
                Ok(c) => Self::parse(s@) == Some(c),
                Err(e) => Self::parse(s@).is_none() && e.kind == ErrorKind::Config,
            },
    {
        if str_eq(s, "ADD") {
            Ok(Cmd::Add)
        } else if str_eq(s, "DEL") {
            Ok(Cmd::Del)
        } else if str_eq(s, "CHECK") {
            Ok(Cmd::Check)
        } else if str_eq(s, "VERSION") {
            Ok(Cmd::Version)
        } else {
            let mut message = String::from_str("unknown command: ");
            message.append(s);
            Err(Error::new(ErrorKind::Config, message.as_str()))
        }
    }
}

/// Every verb is read back as itself.
pub proof fn lemma_cmd_text_round_trip(c: Cmd)
    ensures
        Cmd::parse(c.text()) == Some(c),
{
    reveal_strlit("ADD");
    reveal_strlit("DEL");
    reveal_strlit("CHECK");
    reveal_strlit("VERSION");
    assert("ADD"@.len() == 3 && "DEL"@.len() == 3 && "CHECK"@.len() == 5 && "VERSION"@.len() == 7);
    assert("ADD"@[0] == 'A' && "DEL"@[0] == 'D');
}

/// The arguments that an environment holds.
pub open spec fn env_args(env: CniEnv) -> CmdArgsView {
    CmdArgsView {
        container_id: var_text(env.container_id),
        netns: var_text(env.netns),
        if_name: var_text(env.if_name),
        args: var_text(env.args),
        path: var_text(env.path),
    }
}

/// The command and the arguments of this invocation. A variable that is
/// absent counts as empty; the command must name one of the four verbs, or
/// the result is a `Config` error.
pub fn get_cmd_args_from_env(env: &CniEnv) -> (r: Result<(Cmd, CmdArgs), Error>)
    ensures
        match r {
            Ok((cmd, args)) => Cmd::parse(var_text(env.command)) == Some(cmd) && args@ == env_args(
                *env,
            ),
            Err(e) => Cmd::parse(var_text(env.command)).is_none() && e.kind == ErrorKind::Config,
        },
{
    let command = var_or_empty(&env.command);
    let cmd = match Cmd::from_str(command.as_str()) {
        Ok(cmd) => cmd,
        Err(e) => {
            return Err(e);
        },
    };
    let args = CmdArgs {
        container_id: var_or_empty(&env.container_id),
        netns: var_or_empty(&env.netns),
        if_name: var_or_empty(&env.if_name),
        args: var_or_empty(&env.args),
        path: var_or_empty(&env.path),
    };
    Ok((cmd, args))
}

/// What `plugin_main` owes for a given environment: a `Config` error where
/// the command names no verb or names `VERSION`, which has no handler; else a
/// result that the handler of the command may give on the arguments read.
pub open spec fn plugin_main_result<A, D, C>(
    env: CniEnv,
    add_fn: A,
    del_fn: D,
    check_fn: C,
    r: Result<(), Error>,
) -> bool where
    A: FnOnce(CmdArgs) -> Result<(), Error>,
    D: FnOnce(CmdArgs) -> Result<(), Error>,
    C: FnOnce(CmdArgs) -> Result<(), Error>,
 {
    match Cmd::parse(var_text(env.command)) {
        None => r is Err && r->Err_0.kind == ErrorKind::Config,
        Some(Cmd::Version) => r is Err && r->Err_0.kind == ErrorKind::Config,
        Some(Cmd::Add) => exists|a: CmdArgs| a@ == env_args(env) && add_fn.ensures((a,), r),
        Some(Cmd::Del) => exists|a: CmdArgs| a@ == env_args(env) && del_fn.ensures((a,), r),
        Some(Cmd::Check) => exists|a: CmdArgs| a@ == env_args(env) && check_fn.ensures((a,), r),
    }
}

/// Reads command and arguments from `env` and runs the handler of the
/// command on the arguments.
pub fn plugin_main<A, D, C>(env: &CniEnv, add_fn: A, del_fn: D, check_fn: C) -> (r: Result<
    (),
    Error,
>) where
    A: FnOnce(CmdArgs) -> Result<(), Error>,
    D: FnOnce(CmdArgs) -> Result<(), Error>,
    C: FnOnce(CmdArgs) -> Result<(), Error>,

    requires
        forall|a: CmdArgs| add_fn.requires((a,)),
        forall|a: CmdArgs| del_fn.requires((a,)),
        forall|a: CmdArgs| check_fn.requires((a,)),
    ensures
        plugin_main_result(*env, add_fn, del_fn, check_fn, r),
{
    let (cmd, args) = match get_cmd_args_from_env(env) {
        Ok(x) => x,
        Err(e) => {
            return Err(e);
        },
    };
    match cmd {
        Cmd::Add => add_fn(args),
        Cmd::Del => del_fn(args),
        Cmd::Check => check_fn(args),
        Cmd::Version => Err(Error::new(ErrorKind::Config, "VERSION is not supported")),
    }
}

} // verus!
