//! What to run to list, create, kill or attach sessions, locally or on a
//! remote host over ssh, and how to read what a listing returned.

use vstd::prelude::*;
use vstd::string::*;
use crate::entries::{Origin, RemoteHostResult};
use crate::hosts::HostConfig;
use crate::session::{parse_spec, parse_tmux_sessions, TmuxSession};
use crate::text::{contains, push_char, str_chars, str_contains};

verus! {

/// The listing format: one `name:windows:attached_clients:created:activity`
/// line per session.
pub const LIST_FORMAT: &'static str =
    "#{session_name}:#{session_windows}:#{session_attached}:#{session_created}:#{session_activity}";

/// Seconds that ssh waits for a connection before it gives up.
pub const CONNECT_TIMEOUT: &'static str = "ConnectTimeout=5";

/// Messages with which the multiplexer says that nothing runs, as opposed to
/// a failure.
pub open spec fn is_idle_message(stderr: Seq<char>) -> bool {
    ||| contains(stderr, "no server running"@)
    ||| contains(stderr, "no sessions"@)
    ||| contains(stderr, "no current client"@)
    ||| contains(stderr, "can't find session"@)
    ||| contains(stderr, "server not found"@)
    ||| contains(stderr, "error connecting to"@)
}

/// Whether a failed listing's error text means an idle multiplexer.
pub fn is_idle_error(stderr: &str) -> (r: bool)
    ensures
        r == is_idle_message(stderr@),
{
    str_contains(stderr, "no server running") || str_contains(stderr, "no sessions")
        || str_contains(stderr, "no current client") || str_contains(stderr, "can't find session")
        || str_contains(stderr, "server not found") || str_contains(stderr, "error connecting to")
}

/// Reads the outcome of a listing: the parsed sessions on success, none when
/// the failure means an idle multiplexer, else the error text.
pub fn classify_listing(success: bool, stdout: &str, stderr: &str) -> (r: Result<
    Vec<TmuxSession>,
    String,
>)
    ensures
        success ==> r is Ok && r->Ok_0@.map_values(|t: TmuxSession| t@) == parse_spec(stdout@),
        !success && is_idle_message(stderr@) ==> r is Ok && r->Ok_0@.len() == 0,
        !success && !is_idle_message(stderr@) ==> r is Err && r->Err_0@ == stderr@,
        r is Ok ==> forall|i: int|
            0 <= i < r->Ok_0@.len() ==> (#[trigger] r->Ok_0@[i]).wf(),
{
    if success {
        Ok(parse_tmux_sessions(stdout))
    } else if is_idle_error(stderr) {
        Ok(Vec::new())
    } else {
        Err(String::from_str(stderr))
    }
}

/// The result for one remote host: its sessions, or its error; a transport
/// that could not be started counts as an error too.
pub fn remote_host_result(host: HostConfig, outcome: HostOutcome) -> (r: RemoteHostResult)
    ensures
        host_result_spec(host, outcome, r),
{
    match outcome {
        Ok((success, stdout, stderr)) => match classify_listing(
            success,
            stdout.as_str(),
            stderr.as_str(),
        ) {
            Ok(sessions) => RemoteHostResult::reached(host, sessions),
            Err(e) => RemoteHostResult::unreachable(host, e),
        },
        Err(e) => RemoteHostResult::unreachable(host, e),
    }
}

/// The outcome of one host's listing: exit success, standard output and
/// standard error, or why the transport could not be started.
pub type HostOutcome = Result<(bool, String, String), String>;

/// What `remote_host_result` makes of a host and its outcome.
pub open spec fn host_result_spec(host: HostConfig, outcome: HostOutcome, r: RemoteHostResult) -> bool {
    &&& r.host == host
    &&& r.wf()
    &&& match outcome {
        Ok((success, stdout, stderr)) => {
            &&& success ==> r.error is None && r.sessions@.map_values(|t: TmuxSession| t@)
                == parse_spec(stdout@)
            &&& !success && is_idle_message(stderr@) ==> r.error is None && r.sessions@.len() == 0
            &&& !success && !is_idle_message(stderr@) ==> r.error is Some && r.error->0@ == stderr@
                && r.sessions@.len() == 0
        },
        Err(e) => r.error == Some(e) && r.sessions@.len() == 0,
    }
}

/// One result per configured host, in registry order, each from that host's
/// outcome; a failed host is kept as unreachable, never dropped.
pub fn collect_remote_results(hosts: &Vec<HostConfig>, outcomes: Vec<HostOutcome>) -> (r: Vec<
    RemoteHostResult,
>)
    requires
        outcomes@.len() == hosts@.len(),
    ensures
        r@.len() == hosts@.len(),
        forall|i: int|
            0 <= i < hosts@.len() ==> host_result_spec(hosts@[i], outcomes@[i], #[trigger] r@[i]),
{
    let ghost given = outcomes@;
    let mut rest = outcomes;
    let mut out: Vec<RemoteHostResult> = Vec::new();
    let mut i: usize = 0;
    while i < hosts.len()
        invariant
            i <= hosts@.len(),
            given.len() == hosts@.len(),
            rest@ == given.subrange(i as int, given.len() as int),
            out@.len() == i,
            forall|k: int| 0 <= k < i ==> host_result_spec(hosts@[k], given[k], #[trigger] out@[k]),
        decreases hosts@.len() - i,
    {
        let outcome = rest.remove(0);
        assert(outcome == given[i as int]);
        let r = remote_host_result(hosts[i].duplicate(), outcome);
        out.push(r);
        assert(rest@ =~= given.subrange(i + 1, given.len() as int));
        i += 1;
    }
    out
}

/// An operation on a named session.
#[derive(Debug, Clone, Copy, PartialEq, Eq, Structural)]
pub enum SessionOp {
    Create,
    Kill,
    Attach,
}

/// A program and its arguments.
#[derive(Debug, Clone)]
pub struct Invocation {
    pub program: String,
    pub args: Vec<String>,
}

pub open spec fn string_views(v: Seq<String>) -> Seq<Seq<char>> {
    v.map_values(|s: String| s@)
}

/// Multiplexer arguments for an operation on session `name`. A new session
/// starts detached, so that the dashboard keeps the terminal.
pub open spec fn op_args(op: SessionOp, name: Seq<char>) -> Seq<Seq<char>> {
    match op {
        SessionOp::Create => seq!["new-session"@, "-d"@, "-s"@, name],
        SessionOp::Kill => seq!["kill-session"@, "-t"@, name],
        SessionOp::Attach => seq!["attach-session"@, "-t"@, name],
    }
}

/// Multiplexer arguments for the session listing.
pub open spec fn list_args() -> Seq<Seq<char>> {
    seq!["list-sessions"@, "-F"@, LIST_FORMAT@]
}

/// The characters between single quotes that stand for `s` in a POSIX shell:
/// each `'` becomes `'\''`.
pub open spec fn quote_body(s: Seq<char>) -> Seq<char>
    decreases s.len(),
{
    if s.len() == 0 {
        s
    } else if s.last() == '\'' {
        quote_body(s.drop_last()) + seq!['\'', '\\', '\'', '\'']
    } else {
        quote_body(s.drop_last()).push(s.last())
    }
}

/// `s` as one single-quoted shell word.
pub open spec fn shell_word(s: Seq<char>) -> Seq<char> {
    seq!['\''] + quote_body(s) + seq!['\'']
}

/// The remote shell command `tmux` followed by each argument as a quoted
/// word.
pub open spec fn remote_command(args: Seq<Seq<char>>) -> Seq<char>
    decreases args.len(),
{
    if args.len() == 0 {
        "tmux"@
    } else {
        remote_command(args.drop_last()) + seq![' '] + shell_word(args.last())
    }
}

/// ssh arguments to run `command` on `h`: batch mode (no password prompt)
/// and a connect timeout for queries, a terminal for interactive use, the
/// credential file when one is configured.
pub open spec fn ssh_args(h: HostConfig, interactive: bool, command: Seq<char>) -> Seq<Seq<char>> {
    let mode = if interactive {
        seq!["-t"@]
    } else {
        seq!["-o"@, "BatchMode=yes"@]
    };
    let key = match h.key {
        Some(k) => seq!["-i"@, k@],
        None => Seq::empty(),
    };
    mode + seq!["-o"@, CONNECT_TIMEOUT@] + key + seq![h.host@, command]
}

/// The invocation that runs the multiplexer with `args` at `origin`; on a
/// remote host it is interactive when `interactive` holds.
pub open spec fn invocation_spec(origin: Origin, args: Seq<Seq<char>>, interactive: bool) -> (
    Seq<char>,
    Seq<Seq<char>>,
) {
    match origin {
        Origin::Local => ("tmux"@, args),
        Origin::Remote(h) => ("ssh"@, ssh_args(h, interactive, remote_command(args))),
    }
}

/// `s` as one single-quoted shell word.
pub fn quote_word(s: &String) -> (r: String)
    ensures
        r@ == shell_word(s@),
{
    let chars = str_chars(s.as_str());
    let mut out = String::new();
    push_char(&mut out, '\'');
    let mut i: usize = 0;
    assert(chars@.subrange(0, 0) =~= Seq::<char>::empty());
    while i < chars.len()
        invariant
            i <= chars@.len(),
            chars@ == s@,
            out@ == seq!['\''] + quote_body(chars@.subrange(0, i as int)),
        decreases chars@.len() - i,
    {
        let c = chars[i];
        let ghost sub = chars@.subrange(0, i + 1);
        assert(sub.drop_last() =~= chars@.subrange(0, i as int));
        if c == '\'' {
            push_char(&mut out, '\'');
            push_char(&mut out, '\\');
            push_char(&mut out, '\'');
            push_char(&mut out, '\'');
            assert(out@ =~= seq!['\''] + quote_body(sub));
        } else {
            push_char(&mut out, c);
            assert(out@ =~= seq!['\''] + quote_body(sub));
        }
        i += 1;
    }
    assert(chars@.subrange(0, chars@.len() as int) =~= chars@);
    push_char(&mut out, '\'');
    assert(out@ =~= shell_word(s@));
    out
}

/// The remote shell command for `args`.
pub fn remote_command_text(args: &Vec<String>) -> (r: String)
    ensures
        r@ == remote_command(string_views(args@)),
{
    let mut out = String::from_str("tmux");
    let mut i: usize = 0;
    assert(string_views(args@).subrange(0, 0) =~= Seq::<Seq<char>>::empty());
    while i < args.len()
        invariant
            i <= args@.len(),
            out@ == remote_command(string_views(args@).subrange(0, i as int)),
        decreases args@.len() - i,
    {
        let ghost sub = string_views(args@).subrange(0, i + 1);
        assert(sub.drop_last() =~= string_views(args@).subrange(0, i as int));
        push_char(&mut out, ' ');
        let w = quote_word(&args[i]);
        out.append(w.as_str());
        i += 1;
    }
    assert(string_views(args@).subrange(0, args@.len() as int) =~= string_views(args@));
    out
}

fn words(items: Vec<&str>) -> (r: Vec<String>)
    ensures
        string_views(r@) == items@.map_values(|s: &str| s@),
{
    let mut out: Vec<String> = Vec::new();
    let mut i: usize = 0;
    while i < items.len()
        invariant
            i <= items@.len(),
            string_views(out@) =~= items@.subrange(0, i as int).map_values(|s: &str| s@),
        decreases items@.len() - i,
    {
        let ghost before = string_views(out@);
        out.push(String::from_str(items[i]));
        assert(string_views(out@) =~= before.push(items@[i as int]@));
        assert(items@.subrange(0, i + 1).map_values(|s: &str| s@) =~= items@.subrange(
            0,
            i as int,
        ).map_values(|s: &str| s@).push(items@[i as int]@));
        i += 1;
    }
    assert(items@.subrange(0, items@.len() as int) =~= items@);
    out
}

/// Multiplexer arguments for the listing.
pub fn list_arguments() -> (r: Vec<String>)
    ensures
        string_views(r@) == list_args(),
{
    let r = words(vec!["list-sessions", "-F", LIST_FORMAT]);
    assert(string_views(r@) =~= list_args());
    r
}

/// Multiplexer arguments for `op` on session `name`.
pub fn op_arguments(op: SessionOp, name: &String) -> (r: Vec<String>)
    ensures
        string_views(r@) == op_args(op, name@),
{
    let mut r = match op {
        SessionOp::Create => words(vec!["new-session", "-d", "-s"]),
        SessionOp::Kill => words(vec!["kill-session", "-t"]),
        SessionOp::Attach => words(vec!["attach-session", "-t"]),
    };
    let ghost before = string_views(r@);
    r.push(name.clone());
    assert(string_views(r@) =~= before.push(name@));
    assert(string_views(r@) =~= op_args(op, name@));
    r
}

/// The invocation that runs the multiplexer with `args` at `origin`.
pub fn invocation_at(origin: &Origin, args: Vec<String>, interactive: bool) -> (r: Invocation)
    ensures
        (r.program@, string_views(r.args@)) == invocation_spec(*origin, string_views(args@), interactive),
{
    match origin {
        Origin::Local => Invocation { program: String::from_str("tmux"), args },
        Origin::Remote(h) => {
            let command = remote_command_text(&args);
            let mut out: Vec<String> = if interactive {
                words(vec!["-t"])
            } else {
                words(vec!["-o", "BatchMode=yes"])
            };
            let ghost mode = string_views(out@);
            assert(mode =~= (if interactive {
                seq!["-t"@]
            } else {
                seq!["-o"@, "BatchMode=yes"@]
            }));
            out.push(String::from_str("-o"));
            out.push(String::from_str(CONNECT_TIMEOUT));
            assert(string_views(out@) =~= mode + seq!["-o"@, CONNECT_TIMEOUT@]);
            let ghost with_timeout = string_views(out@);
            match &h.key {
                Some(k) => {
                    out.push(String::from_str("-i"));
                    out.push(k.clone());
                    assert(string_views(out@) =~= with_timeout + seq!["-i"@, k@]);
                },
                None => {
                    assert(string_views(out@) =~= with_timeout + Seq::<Seq<char>>::empty());
                },
            }
            let ghost with_key = string_views(out@);
            out.push(h.host.clone());
            out.push(command);
            assert(string_views(out@) =~= with_key + seq![h.host@, command@]);
            Invocation { program: String::from_str("ssh"), args: out }
        },
    }
}

/// What to run to list the sessions at `origin`.
pub fn list_invocation(origin: &Origin) -> (r: Invocation)
    ensures
        (r.program@, string_views(r.args@)) == invocation_spec(*origin, list_args(), false),
{
    invocation_at(origin, list_arguments(), false)
}

/// What to run for `op` on session `name` at `origin`; attaching to a remote
/// session asks ssh for a terminal.
pub fn session_invocation(origin: &Origin, op: SessionOp, name: &String) -> (r: Invocation)
    ensures
        (r.program@, string_views(r.args@)) == invocation_spec(
            *origin,
            op_args(op, name@),
            op == SessionOp::Attach,
        ),
{
    invocation_at(origin, op_arguments(op, name), op == SessionOp::Attach)
}

} // verus!
