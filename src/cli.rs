//! The decisions behind the one-shot subcommands: which session a command
//! acts on, what an alias command asks for, whether an answer confirms, and
//! which snapshot sessions to restore.

use vstd::prelude::*;
use crate::session::TmuxSession;
use crate::text::{contains, is_blank_char, is_blank_char_exec, str_chars, str_contains};

verus! {

/// Why a subcommand cannot pick its session.
#[derive(Debug, Clone)]
pub enum CliError {
    /// No session exists.
    NoSessions,
    /// The command needs a session name and got none.
    NameRequired,
    /// No session has this name.
    NotFound(String),
}

/// Whether a session named `name` is in `sessions`.
pub open spec fn has_session(sessions: Seq<TmuxSession>, name: Seq<char>) -> bool {
    exists|i: int| 0 <= i < sessions.len() && (#[trigger] sessions[i]).name@ == name
}

/// Index of the first session named `name`.
pub fn find_session(sessions: &Vec<TmuxSession>, name: &String) -> (r: Option<usize>)
    ensures
        match r {
            Some(i) => i < sessions@.len() && sessions@[i as int].name@ == name@ && forall|j: int|
                0 <= j < i ==> (#[trigger] sessions@[j]).name@ != name@,
            None => !has_session(sessions@, name@),
        },
{
    let mut i: usize = 0;
    while i < sessions.len()
        invariant
            i <= sessions@.len(),
            forall|j: int| 0 <= j < i ==> (#[trigger] sessions@[j]).name@ != name@,
        decreases sessions@.len() - i,
    {
        if sessions[i].name == *name {
            return Some(i);
        }
        i += 1;
    }
    None
}

/// The session to attach to: the one named, else the first one.
pub fn choose_attach_target(requested: Option<String>, sessions: &Vec<TmuxSession>) -> (r: Result<
    String,
    CliError,
>)
    ensures
        requested is Some ==> r == Ok::<String, CliError>(requested->0),
        requested is None && sessions@.len() == 0 ==> r matches Err(CliError::NoSessions),
        requested is None && sessions@.len() > 0 ==> r is Ok && r->Ok_0@ == sessions@[0].name@,
{
    match requested {
        Some(name) => Ok(name),
        None => {
            if sessions.len() == 0 {
                Err(CliError::NoSessions)
            } else {
                Ok(sessions[0].name.clone())
            }
        },
    }
}

/// The session to kill: only a named one; without a name the command is
/// refused.
pub fn choose_kill_target(requested: Option<String>, sessions: &Vec<TmuxSession>) -> (r: Result<
    String,
    CliError,
>)
    ensures
        requested is Some ==> r == Ok::<String, CliError>(requested->0),
        requested is None && sessions@.len() == 0 ==> r matches Err(CliError::NoSessions),
        requested is None && sessions@.len() > 0 ==> r matches Err(CliError::NameRequired),
{
    match requested {
        Some(name) => Ok(name),
        None => {
            if sessions.len() == 0 {
                Err(CliError::NoSessions)
            } else {
                Err(CliError::NameRequired)
            }
        },
    }
}

/// The session to describe, as an index: the first one of the requested
/// name, or the first session when no name is given.
pub fn choose_info_target(requested: &Option<String>, sessions: &Vec<TmuxSession>) -> (r: Result<
    usize,
    CliError,
>)
    ensures
        match requested {
            Some(name) => if has_session(sessions@, name@) {
                r is Ok && r->Ok_0 < sessions@.len() && sessions@[r->Ok_0 as int].name@ == name@
                    && forall|j: int| 0 <= j < r->Ok_0 ==> (#[trigger] sessions@[j]).name@ != name@
            } else {
                r matches Err(CliError::NotFound(n)) && n@ == name@
            },
            None => if sessions@.len() == 0 {
                r matches Err(CliError::NoSessions)
            } else {
                r == Ok::<usize, CliError>(0)
            },
        },
{
    match requested {
        Some(name) => match find_session(sessions, name) {
            Some(i) => Ok(i),
            None => Err(CliError::NotFound(name.clone())),
        },
        None => {
            if sessions.len() == 0 {
                Err(CliError::NoSessions)
            } else {
                Ok(0)
            }
        },
    }
}

/// Whether a session from a snapshot is to be created again: only when no
/// session of its name exists.
pub fn should_restore(name: &String, existing: &Vec<TmuxSession>) -> (r: bool)
    ensures
        r == !has_session(existing@, name@),
{
    find_session(existing, name).is_none()
}

/// What an alias command asks for.
#[derive(Debug, Clone)]
pub enum AliasCommand {
    /// Map the alias to the session.
    Assign { alias: String, session: String },
    /// Show what the alias maps to.
    Show(String),
    /// List every alias.
    List,
    /// A session without an alias name.
    Invalid,
}

/// Reads the alias command's arguments.
pub fn alias_command(name: Option<String>, session: Option<String>) -> (r: AliasCommand)
    ensures
        match (name, session) {
            (Some(n), Some(s)) => r == (AliasCommand::Assign { alias: n, session: s }),
            (Some(n), None) => r == AliasCommand::Show(n),
            (None, None) => r is List,
            (None, Some(_)) => r is Invalid,
        },
{
    match (name, session) {
        (Some(alias), Some(session)) => AliasCommand::Assign { alias, session },
        (Some(alias), None) => AliasCommand::Show(alias),
        (None, None) => AliasCommand::List,
        (None, Some(_)) => AliasCommand::Invalid,
    }
}

/// An answer that confirms: a single `y` or `Y`, with blanks around it.
pub open spec fn confirms_spec(answer: Seq<char>) -> bool {
    exists|i: int|
        0 <= i < answer.len() && (answer[i] == 'y' || answer[i] == 'Y') && forall|j: int|
            0 <= j < answer.len() && j != i ==> is_blank_char(#[trigger] answer[j])
}

/// Whether the answer to "kill all sessions?" says yes.
pub fn confirms(answer: &str) -> (r: bool)
    ensures
        r == confirms_spec(answer@),
{
    let chars = str_chars(answer);
    let mut found: Option<usize> = None;
    let mut i: usize = 0;
    while i < chars.len()
        invariant
            i <= chars@.len(),
            chars@ == answer@,
            match found {
                Some(k) => k < i && (chars@[k as int] == 'y' || chars@[k as int] == 'Y') && forall|
                    j: int,
                | 0 <= j < i && j != k ==> is_blank_char(#[trigger] chars@[j]),
                None => forall|j: int| 0 <= j < i ==> is_blank_char(#[trigger] chars@[j]),
            },
        decreases chars@.len() - i,
    {
        let c = chars[i];
        if !is_blank_char_exec(c) {
            if found.is_none() && (c == 'y' || c == 'Y') {
                found = Some(i);
            } else {
                proof {
                    if confirms_spec(answer@) {
                        let w = choose|w: int|
                            0 <= w < answer@.len() && (answer@[w] == 'y' || answer@[w] == 'Y')
                                && forall|j: int|
                                0 <= j < answer@.len() && j != w ==> is_blank_char(
                                    #[trigger] answer@[j],
                                );
                        match found {
                            Some(k) => {
                                assert(k == w || is_blank_char(answer@[k as int]));
                                assert(i == w || is_blank_char(answer@[i as int]));
                            },
                            None => {
                                assert(w < i ==> is_blank_char(answer@[w]));
                                assert(i == w);
                            },
                        }
                    }
                }
                return false;
            }
        }
        i += 1;
    }
    match found {
        Some(_) => true,
        None => {
            proof {
                if confirms_spec(answer@) {
                    let w = choose|w: int|
                        0 <= w < answer@.len() && (answer@[w] == 'y' || answer@[w] == 'Y')
                            && forall|j: int|
                            0 <= j < answer@.len() && j != w ==> is_blank_char(#[trigger] answer@[j]);
                    assert(is_blank_char(answer@[w]));
                }
            }
            false
        },
    }
}

/// The number of sessions with clients attached.
pub fn attached_count(sessions: &Vec<TmuxSession>) -> (r: usize)
    ensures
        r == sessions@.filter(|t: TmuxSession| t.attached).len(),
{
    let mut n: usize = 0;
    let mut i: usize = 0;
    assert(sessions@.subrange(0, 0) =~= Seq::<TmuxSession>::empty());
    while i < sessions.len()
        invariant
            i <= sessions@.len(),
            n == sessions@.subrange(0, i as int).filter(|t: TmuxSession| t.attached).len(),
            n <= i,
        decreases sessions@.len() - i,
    {
        let ghost sub = sessions@.subrange(0, i + 1);
        assert(sub.drop_last() =~= sessions@.subrange(0, i as int));
        reveal(Seq::filter);
        if sessions[i].attached {
            n += 1;
        }
        i += 1;
    }
    assert(sessions@.subrange(0, sessions@.len() as int) =~= sessions@);
    n
}

/// Whether some argument of a process's command line mentions the
/// multiplexer or the session's name.
pub open spec fn mentions_session(args: Seq<String>, name: Seq<char>) -> bool {
    exists|i: int|
        0 <= i < args.len() && (contains((#[trigger] args[i])@, "tmux"@) || contains(args[i]@, name))
}

/// Whether a process belongs to a session, judged by its command line.
pub fn command_mentions_session(args: &Vec<String>, name: &String) -> (r: bool)
    ensures
        r == mentions_session(args@, name@),
{
    let mut i: usize = 0;
    while i < args.len()
        invariant
            i <= args@.len(),
            forall|j: int|
                0 <= j < i ==> !(contains((#[trigger] args@[j])@, "tmux"@) || contains(
                    args@[j]@,
                    name@,
                )),
        decreases args@.len() - i,
    {
        if str_contains(args[i].as_str(), "tmux") || str_contains(args[i].as_str(), name.as_str()) {
            return true;
        }
        i += 1;
    }
    false
}

} // verus!
