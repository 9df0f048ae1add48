//! The merged, navigable list of entries: group headers and session rows from
//! the local multiplexer and from each configured remote host.

use vstd::prelude::*;
use vstd::string::*;
use crate::hosts::HostConfig;
use crate::session::TmuxSession;

verus! {

/// Where a session lives.
#[derive(Debug, Clone)]
pub enum Origin {
    Local,
    Remote(HostConfig),
}

impl Origin {
    /// A copy of this origin.
    pub fn duplicate(&self) -> (r: Origin)
        ensures
            r == *self,
    {
        match self {
            Origin::Local => Origin::Local,
            Origin::Remote(h) => Origin::Remote(h.duplicate()),
        }
    }
}

/// What the query of one remote host gave: its sessions, or the error that
/// made it unreachable.
#[derive(Debug, Clone)]
pub struct RemoteHostResult {
    pub host: HostConfig,
    pub sessions: Vec<TmuxSession>,
    pub error: Option<String>,
}

impl RemoteHostResult {
    /// A failed host has no sessions.
    pub open spec fn wf(&self) -> bool {
        self.error is Some ==> self.sessions@.len() == 0
    }

    /// The result of a host that answered.
    pub fn reached(host: HostConfig, sessions: Vec<TmuxSession>) -> (r: RemoteHostResult)
        ensures
            r.host == host,
            r.sessions == sessions,
            r.error is None,
            r.wf(),
    {
        RemoteHostResult { host, sessions, error: None }
    }

    /// The result of a host that could not be queried.
    pub fn unreachable(host: HostConfig, error: String) -> (r: RemoteHostResult)
        ensures
            r.host == host,
            r.sessions@.len() == 0,
            r.error == Some(error),
            r.wf(),
    {
        RemoteHostResult { host, sessions: Vec::new(), error: Some(error) }
    }
}

/// One addressable row of the list.
#[derive(Debug, Clone)]
pub enum ListEntry {
    Header { title: String, host: Option<HostConfig> },
    SessionRow { origin: Origin, session: TmuxSession },
}

/// A list entry with its title as characters.
pub enum EntryModel {
    Header { title: Seq<char>, host: Option<HostConfig> },
    Row { origin: Origin, session: TmuxSession },
}

impl View for ListEntry {
    type V = EntryModel;

    open spec fn view(&self) -> EntryModel {
        match self {
            ListEntry::Header { title, host } => EntryModel::Header { title: title@, host: *host },
            ListEntry::SessionRow { origin, session } => EntryModel::Row {
                origin: *origin,
                session: *session,
            },
        }
    }
}

pub open spec fn entry_views(v: Seq<ListEntry>) -> Seq<EntryModel> {
    v.map_values(|e: ListEntry| e@)
}

/// Title of the local group's header.
pub open spec fn local_title() -> Seq<char> {
    "Local"@
}

/// Title of a remote host's header: its name, with ` - offline` added when
/// its query failed.
pub open spec fn host_title(r: RemoteHostResult) -> Seq<char> {
    if r.error is Some {
        r.host.name@ + " - offline"@
    } else {
        r.host.name@
    }
}

/// One row per session, in order.
pub open spec fn session_rows(origin: Origin, ss: Seq<TmuxSession>) -> Seq<EntryModel> {
    ss.map_values(|s: TmuxSession| EntryModel::Row { origin: origin, session: s })
}

/// A remote host's group: its header, then its sessions.
pub open spec fn remote_group(r: RemoteHostResult) -> Seq<EntryModel> {
    seq![EntryModel::Header { title: host_title(r), host: Some(r.host) }] + session_rows(
        Origin::Remote(r.host),
        r.sessions@,
    )
}

/// The groups of the remote hosts, in registry order.
pub open spec fn remote_groups(rs: Seq<RemoteHostResult>) -> Seq<EntryModel>
    decreases rs.len(),
{
    if rs.len() == 0 {
        Seq::empty()
    } else {
        remote_groups(rs.drop_last()) + remote_group(rs.last())
    }
}

/// The entry list: a `Local` header only when there are remote hosts, the
/// local sessions, then each remote host's group.
pub open spec fn entries_spec(local: Seq<TmuxSession>, remote: Seq<RemoteHostResult>) -> Seq<
    EntryModel,
> {
    let head = if remote.len() > 0 {
        seq![EntryModel::Header { title: local_title(), host: None }]
    } else {
        Seq::empty()
    };
    head + session_rows(Origin::Local, local) + remote_groups(remote)
}

/// Number of sessions over all remote results.
pub open spec fn remote_rows(rs: Seq<RemoteHostResult>) -> nat
    decreases rs.len(),
{
    if rs.len() == 0 {
        0
    } else {
        remote_rows(rs.drop_last()) + rs.last().sessions@.len()
    }
}

/// Appends one row per session of `ss`.
fn push_rows(out: &mut Vec<ListEntry>, origin: &Origin, ss: &Vec<TmuxSession>)
    ensures
        entry_views(final(out)@) == entry_views(old(out)@) + session_rows(*origin, ss@),
{
    let ghost start = entry_views(out@);
    let mut i: usize = 0;
    assert(ss@.subrange(0, 0) =~= Seq::<TmuxSession>::empty());
    assert(entry_views(out@) =~= start + session_rows(*origin, ss@.subrange(0, 0)));
    while i < ss.len()
        invariant
            i <= ss@.len(),
            entry_views(out@) == start + session_rows(*origin, ss@.subrange(0, i as int)),
        decreases ss@.len() - i,
    {
        let ghost before = entry_views(out@);
        out.push(ListEntry::SessionRow { origin: origin.duplicate(), session: ss[i].duplicate() });
        assert(entry_views(out@) =~= before.push(
            EntryModel::Row { origin: *origin, session: ss@[i as int] },
        ));
        assert(session_rows(*origin, ss@.subrange(0, i + 1)) =~= session_rows(
            *origin,
            ss@.subrange(0, i as int),
        ).push(EntryModel::Row { origin: *origin, session: ss@[i as int] }));
        i += 1;
    }
    assert(ss@.subrange(0, ss@.len() as int) =~= ss@);
}

/// The header title of a remote host's group.
pub fn host_header_title(r: &RemoteHostResult) -> (t: String)
    ensures
        t@ == host_title(*r),
{
    match &r.error {
        Some(_) => r.host.name.clone().concat(" - offline"),
        None => r.host.name.clone(),
    }
}

/// Builds the entry list from the local sessions and the remote results, in
/// registry order. Reads its inputs only.
pub fn build_entries(local: &Vec<TmuxSession>, remote: &Vec<RemoteHostResult>) -> (r: Vec<
    ListEntry,
>)
    ensures
        entry_views(r@) == entries_spec(local@, remote@),
{
    let mut out: Vec<ListEntry> = Vec::new();
    if remote.len() > 0 {
        out.push(ListEntry::Header { title: String::from_str("Local"), host: None });
    }
    let ghost head = entry_views(out@);
    assert(remote@.len() > 0 ==> head =~= seq![
        EntryModel::Header { title: local_title(), host: None },
    ]);
    assert(remote@.len() == 0 ==> head =~= Seq::<EntryModel>::empty());
    push_rows(&mut out, &Origin::Local, local);
    let ghost base = entry_views(out@);
    let mut i: usize = 0;
    assert(remote@.subrange(0, 0) =~= Seq::<RemoteHostResult>::empty());
    assert(base + remote_groups(remote@.subrange(0, 0)) =~= base);
    while i < remote.len()
        invariant
            i <= remote@.len(),
            entry_views(out@) == base + remote_groups(remote@.subrange(0, i as int)),
        decreases remote@.len() - i,
    {
        let r = &remote[i];
        let ghost before = entry_views(out@);
        out.push(ListEntry::Header { title: host_header_title(r), host: Some(r.host.duplicate()) });
        let origin = Origin::Remote(r.host.duplicate());
        push_rows(&mut out, &origin, &r.sessions);
        let ghost sub = remote@.subrange(0, i + 1);
        assert(sub.drop_last() =~= remote@.subrange(0, i as int));
        assert(sub.last() == remote@[i as int]);
        assert(entry_views(out@) =~= before + remote_group(remote@[i as int]));
        i += 1;
    }
    assert(remote@.subrange(0, remote@.len() as int) =~= remote@);
    out
}

proof fn lemma_remote_groups_len(rs: Seq<RemoteHostResult>)
    ensures
        remote_groups(rs).len() == rs.len() + remote_rows(rs),
    decreases rs.len(),
{
    if rs.len() > 0 {
        lemma_remote_groups_len(rs.drop_last());
    }
}

/// The entry count is the local rows, plus a header for the local group when
/// there are remote hosts, plus one header and the session rows of each
/// remote host, offline hosts included.
pub proof fn lemma_entry_count(local: Seq<TmuxSession>, remote: Seq<RemoteHostResult>)
    ensures
        entries_spec(local, remote).len() == (if remote.len() > 0 {
            1nat
        } else {
            0nat
        }) + local.len() + remote.len() + remote_rows(remote),
{
    lemma_remote_groups_len(remote);
}

} // verus!
