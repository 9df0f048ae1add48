//! Session records and the parser for the multiplexer's colon-separated
//! status lines (`name:windows:attached_clients:created:activity`).

use vstd::prelude::*;
use crate::text::{str_chars, string_of};

verus! {

/// The contents of each element of a sequence of character vectors.
pub open spec fn char_views(v: Seq<Vec<char>>) -> Seq<Seq<char>> {
    v.map_values(|l: Vec<char>| l@)
}

/// The pieces of `s` between occurrences of `sep`, in order; there is always
/// one piece more than there are separators.
pub open spec fn split_on(s: Seq<char>, sep: char) -> Seq<Seq<char>>
    decreases s.len(),
{
    if s.len() == 0 {
        seq![Seq::<char>::empty()]
    } else {
        let rest = split_on(s.drop_last(), sep);
        if s.last() == sep {
            rest.push(Seq::<char>::empty())
        } else {
            rest.update(rest.len() - 1, rest.last().push(s.last()))
        }
    }
}

pub proof fn lemma_split_on_nonempty(s: Seq<char>, sep: char)
    ensures
        split_on(s, sep).len() >= 1,
    decreases s.len(),
{
    if s.len() > 0 {
        lemma_split_on_nonempty(s.drop_last(), sep);
    }
}

/// A line without the carriage return that ended it.
pub open spec fn strip_cr(l: Seq<char>) -> Seq<char> {
    if l.len() > 0 && l.last() == '\r' {
        l.drop_last()
    } else {
        l
    }
}

/// The lines of a text, as `str::lines` yields them: split at `\n`, a `\r`
/// right before a `\n` removed, and no empty line after a final `\n`.
pub open spec fn lines_of(s: Seq<char>) -> Seq<Seq<char>> {
    let pieces = split_on(s, '\n');
    let ended = pieces.drop_last().map_values(|l: Seq<char>| strip_cr(l));
    if s.len() == 0 || s.last() == '\n' {
        ended
    } else {
        ended.push(pieces.last())
    }
}

pub open spec fn is_digit(c: char) -> bool {
    '0' <= c && c <= '9'
}

pub open spec fn all_digits(s: Seq<char>) -> bool {
    forall|i: int| 0 <= i < s.len() ==> is_digit(#[trigger] s[i])
}

/// The number that a string of decimal digits denotes.
pub open spec fn digits_value(s: Seq<char>) -> nat
    decreases s.len(),
{
    if s.len() == 0 {
        0
    } else {
        digits_value(s.drop_last()) * 10 + ((s.last() as u32) - ('0' as u32)) as nat
    }
}

/// The digits of a count, after an optional leading `+`.
pub open spec fn unsigned_digits(s: Seq<char>) -> Seq<char> {
    if s.len() > 0 && s[0] == '+' {
        s.drop_first()
    } else {
        s
    }
}

/// A field read as a non-negative count: the value when the field is a
/// decimal number (with an optional `+`) that fits in `usize`, else 0.
pub open spec fn count_value(s: Seq<char>) -> usize {
    let d = unsigned_digits(s);
    if d.len() > 0 && all_digits(d) && digits_value(d) <= usize::MAX {
        digits_value(d) as usize
    } else {
        0
    }
}

/// What the parser reads from one status line.
pub struct SessionModel {
    pub name: Seq<char>,
    pub windows: usize,
    pub attached_clients: usize,
    pub attached: bool,
    pub created: Seq<char>,
    pub activity: Seq<char>,
}

/// The record of one status line: present iff the line has at least five
/// colon-separated fields; later fields are ignored.
pub open spec fn record_of(line: Seq<char>) -> Option<SessionModel> {
    let f = split_on(line, ':');
    if f.len() >= 5 {
        Some(
            SessionModel {
                name: f[0],
                windows: count_value(f[1]),
                attached_clients: count_value(f[2]),
                attached: count_value(f[2]) > 0,
                created: f[3],
                activity: f[4],
            },
        )
    } else {
        None
    }
}

/// The records of the lines that have one, in order.
pub open spec fn records_of(ls: Seq<Seq<char>>) -> Seq<SessionModel>
    decreases ls.len(),
{
    if ls.len() == 0 {
        Seq::empty()
    } else {
        let prev = records_of(ls.drop_last());
        match record_of(ls.last()) {
            Some(r) => prev.push(r),
            None => prev,
        }
    }
}

/// What `parse_tmux_sessions` returns for a text.
pub open spec fn parse_spec(text: Seq<char>) -> Seq<SessionModel> {
    records_of(lines_of(text))
}

/// The process that a session was matched with.
#[derive(Debug, Clone)]
pub struct ProcessInfo {
    pub pid: Option<u32>,
    pub command: String,
    pub user: String,
}

/// Resource use of a session's processes: memory in bytes, CPU in hundredths
/// of a percent.
#[derive(Debug, Clone)]
pub struct ResourceInfo {
    pub memory_bytes: u64,
    pub cpu_centipercent: u32,
}

/// One multiplexer session.
#[derive(Debug, Clone)]
pub struct TmuxSession {
    pub name: String,
    pub windows: usize,
    pub attached_clients: usize,
    pub attached: bool,
    pub created: String,
    pub activity: String,
    pub process_info: Option<ProcessInfo>,
    pub resource_info: Option<ResourceInfo>,
}

impl View for TmuxSession {
    type V = SessionModel;

    open spec fn view(&self) -> SessionModel {
        SessionModel {
            name: self.name@,
            windows: self.windows,
            attached_clients: self.attached_clients,
            attached: self.attached,
            created: self.created@,
            activity: self.activity@,
        }
    }
}

impl TmuxSession {
    /// The record is attached exactly when it has clients.
    pub open spec fn wf(&self) -> bool {
        self.attached == (self.attached_clients > 0)
    }

    /// A session without process or resource annotations.
    pub fn new(
        name: String,
        windows: usize,
        attached_clients: usize,
        created: String,
        activity: String,
    ) -> (r: TmuxSession)
        ensures
            r.name == name,
            r.windows == windows,
            r.attached_clients == attached_clients,
            r.attached == (attached_clients > 0),
            r.created == created,
            r.activity == activity,
            r.process_info is None,
            r.resource_info is None,
            r.wf(),
    {
        TmuxSession {
            name,
            windows,
            attached_clients,
            attached: attached_clients > 0,
            created,
            activity,
            process_info: None,
            resource_info: None,
        }
    }
}

impl ProcessInfo {
    /// A copy of this record.
    pub fn duplicate(&self) -> (r: ProcessInfo)
        ensures
            r == *self,
    {
        ProcessInfo { pid: self.pid, command: self.command.clone(), user: self.user.clone() }
    }
}

impl TmuxSession {
    /// A copy of this session.
    pub fn duplicate(&self) -> (r: TmuxSession)
        ensures
            r == *self,
    {
        let process_info = match &self.process_info {
            Some(p) => Some(p.duplicate()),
            None => None,
        };
        let resource_info = match &self.resource_info {
            Some(ri) => Some(ResourceInfo { memory_bytes: ri.memory_bytes, cpu_centipercent: ri.cpu_centipercent }),
            None => None,
        };
        TmuxSession {
            name: self.name.clone(),
            windows: self.windows,
            attached_clients: self.attached_clients,
            attached: self.attached,
            created: self.created.clone(),
            activity: self.activity.clone(),
            process_info,
            resource_info,
        }
    }
}

/// The client count of a session read back from a stored snapshot: the stored
/// count, or one client when only the attached flag was stored.
pub fn restored_client_count(attached: bool, clients: usize) -> (r: usize)
    ensures
        r == (if clients == 0 && attached {
            1
        } else {
            clients
        }),
        r > 0 <==> (attached || clients > 0),
{
    if clients == 0 && attached {
        1
    } else {
        clients
    }
}

/// Splits `s` at every `sep`.
pub fn split_chars(s: &[char], sep: char) -> (r: Vec<Vec<char>>)
    ensures
        char_views(r@) == split_on(s@, sep),
{
    let mut pieces: Vec<Vec<char>> = Vec::new();
    let mut cur: Vec<char> = Vec::new();
    let mut i: usize = 0;
    assert(s@.subrange(0, 0) =~= Seq::<char>::empty());
    assert(char_views(pieces@).push(cur@) =~= split_on(s@.subrange(0, 0), sep));
    while i < s.len()
        invariant
            i <= s@.len(),
            char_views(pieces@).push(cur@) == split_on(s@.subrange(0, i as int), sep),
        decreases s@.len() - i,
    {
        let c = s[i];
        let ghost p = s@.subrange(0, i as int);
        let ghost old_views = char_views(pieces@);
        assert(s@.subrange(0, i + 1).drop_last() =~= p);
        assert(s@.subrange(0, i + 1).last() == c);
        if c == sep {
            pieces.push(cur);
            cur = Vec::new();
            assert(char_views(pieces@) =~= old_views.push(
                split_on(p, sep).last(),
            ));
            assert(char_views(pieces@).push(cur@) =~= split_on(s@.subrange(0, i + 1), sep));
        } else {
            let ghost old_cur = cur@;
            cur.push(c);
            assert(char_views(pieces@).push(cur@) =~= old_views.push(old_cur).update(
                old_views.len() as int,
                old_cur.push(c),
            ));
        }
        i += 1;
    }
    assert(s@.subrange(0, s@.len() as int) =~= s@);
    let ghost before = char_views(pieces@);
    pieces.push(cur);
    assert(char_views(pieces@) =~= before.push(cur@));
    pieces
}

/// `l` without a final carriage return.
fn strip_cr_exec(l: Vec<char>) -> (r: Vec<char>)
    ensures
        r@ == strip_cr(l@),
{
    let mut l = l;
    if l.len() > 0 && l[l.len() - 1] == '\r' {
        l.pop();
    }
    l
}

/// The lines of a text, as `str::lines` yields them.
pub fn text_lines(s: &[char]) -> (r: Vec<Vec<char>>)
    ensures
        char_views(r@) == lines_of(s@),
{
    let mut pieces = split_chars(s, '\n');
    proof {
        lemma_split_on_nonempty(s@, '\n');
    }
    let ghost all = char_views(pieces@);
    let last = pieces.pop().unwrap();
    let mut r: Vec<Vec<char>> = Vec::new();
    let mut i: usize = 0;
    while i < pieces.len()
        invariant
            i <= pieces@.len(),
            all == split_on(s@, '\n'),
            char_views(pieces@) =~= all.drop_last(),
            char_views(r@) =~= all.drop_last().subrange(0, i as int).map_values(
                |l: Seq<char>| strip_cr(l),
            ),
        decreases pieces@.len() - i,
    {
        let piece = pieces[i].clone();
        assert(piece@ == all.drop_last()[i as int]);
        let stripped = strip_cr_exec(piece);
        let ghost before = char_views(r@);
        r.push(stripped);
        assert(char_views(r@) =~= before.push(stripped@));
        assert(all.drop_last().subrange(0, i + 1).map_values(|l: Seq<char>| strip_cr(l))
            =~= all.drop_last().subrange(0, i as int).map_values(|l: Seq<char>| strip_cr(l)).push(
            strip_cr(all.drop_last()[i as int]),
        ));
        i += 1;
    }
    assert(all.drop_last().subrange(0, pieces@.len() as int) =~= all.drop_last());
    if !(s.len() == 0 || s[s.len() - 1] == '\n') {
        let ghost before = char_views(r@);
        r.push(last);
        assert(char_views(r@) =~= before.push(last@));
    }
    r
}

proof fn lemma_digits_prefix_le(d: Seq<char>, k: int)
    requires
        all_digits(d),
        0 <= k <= d.len(),
    ensures
        digits_value(d.subrange(0, k)) <= digits_value(d),
    decreases d.len(),
{
    if k < d.len() {
        let p = d.drop_last();
        assert(all_digits(p));
        assert(d.subrange(0, k) =~= p.subrange(0, k));
        lemma_digits_prefix_le(p, k);
    } else {
        assert(d.subrange(0, k) =~= d);
    }
}

fn is_digit_exec(c: char) -> (r: bool)
    ensures
        r == is_digit(c),
{
    '0' <= c && c <= '9'
}

/// Reads a field as a non-negative count, falling back to 0 on anything that
/// is not a decimal number that fits in `usize`.
pub fn parse_count(s: &[char]) -> (r: usize)
    ensures
        r == count_value(s@),
{
    let start: usize = if s.len() > 0 && s[0] == '+' {
        1
    } else {
        0
    };
    let ghost d = unsigned_digits(s@);
    assert(d =~= s@.subrange(start as int, s@.len() as int));
    if start >= s.len() {
        return 0;
    }
    let mut v: usize = 0;
    let mut i: usize = start;
    assert(d.subrange(0, 0) =~= Seq::<char>::empty());
    while i < s.len()
        invariant
            start <= i <= s@.len(),
            d == unsigned_digits(s@),
            d =~= s@.subrange(start as int, s@.len() as int),
            forall|j: int| start <= j < i ==> is_digit(#[trigger] s@[j]),
            v == digits_value(d.subrange(0, i - start)),
        decreases s@.len() - i,
    {
        let c = s[i];
        if !is_digit_exec(c) {
            assert(!is_digit(d[i - start]));
            return 0;
        }
        let digit = (c as u32 - '0' as u32) as usize;
        let ghost next = d.subrange(0, i - start + 1);
        assert(next.drop_last() =~= d.subrange(0, i - start));
        assert(next.last() == c);
        assert(digits_value(next) == v * 10 + digit);
        if v > (usize::MAX - digit) / 10 {
            assert(v * 10 + digit > usize::MAX) by (nonlinear_arith)
                requires
                    v > (usize::MAX - digit) / 10,
                    digit <= 9,
            ;
            proof {
                if all_digits(d) {
                    lemma_digits_prefix_le(d, i - start + 1);
                }
            }
            return 0;
        }
        assert(v * 10 + digit <= usize::MAX) by (nonlinear_arith)
            requires
                v <= (usize::MAX - digit) / 10,
                digit <= 9,
        ;
        v = v * 10 + digit;
        i += 1;
    }
    assert(d.subrange(0, i - start) =~= d);
    v
}

/// The record of one status line, if it has at least five fields.
pub fn parse_record(line: &[char]) -> (r: Option<TmuxSession>)
    ensures
        match r {
            Some(t) => record_of(line@) == Some(t@) && t.wf() && t.process_info is None
                && t.resource_info is None,
            None => record_of(line@) is None,
        },
{
    let fields = split_chars(line, ':');
    if fields.len() < 5 {
        return None;
    }
    assert(fields@[0]@ == split_on(line@, ':')[0]);
    assert(fields@[1]@ == split_on(line@, ':')[1]);
    assert(fields@[2]@ == split_on(line@, ':')[2]);
    assert(fields@[3]@ == split_on(line@, ':')[3]);
    assert(fields@[4]@ == split_on(line@, ':')[4]);
    let name = string_of(fields[0].as_slice());
    let windows = parse_count(fields[1].as_slice());
    let clients = parse_count(fields[2].as_slice());
    let created = string_of(fields[3].as_slice());
    let activity = string_of(fields[4].as_slice());
    Some(TmuxSession::new(name, windows, clients, created, activity))
}

/// Parses the multiplexer's session listing, one record per line of at least
/// five colon-separated fields; other lines are skipped. The name is kept as
/// it stands, whitespace included.
pub fn parse_tmux_sessions(output: &str) -> (r: Vec<TmuxSession>)
    ensures
        r@.map_values(|t: TmuxSession| t@) == parse_spec(output@),
        forall|i: int|
            0 <= i < r@.len() ==> (#[trigger] r@[i]).wf() && r@[i].process_info is None
                && r@[i].resource_info is None,
{
    let chars = str_chars(output);
    let lines = text_lines(chars.as_slice());
    let ghost ls = char_views(lines@);
    let mut out: Vec<TmuxSession> = Vec::new();
    let mut i: usize = 0;
    assert(ls.subrange(0, 0) =~= Seq::<Seq<char>>::empty());
    while i < lines.len()
        invariant
            i <= lines@.len(),
            ls == char_views(lines@),
            ls == lines_of(output@),
            out@.map_values(|t: TmuxSession| t@) == records_of(ls.subrange(0, i as int)),
            forall|k: int|
                0 <= k < out@.len() ==> (#[trigger] out@[k]).wf() && out@[k].process_info is None
                    && out@[k].resource_info is None,
        decreases lines@.len() - i,
    {
        let ghost sub = ls.subrange(0, i + 1);
        assert(sub.drop_last() =~= ls.subrange(0, i as int));
        assert(sub.last() == lines@[i as int]@);
        let ghost before = out@.map_values(|t: TmuxSession| t@);
        match parse_record(lines[i].as_slice()) {
            Some(t) => {
                out.push(t);
                assert(out@.map_values(|t: TmuxSession| t@) =~= before.push(t@));
            },
            None => {},
        }
        i += 1;
    }
    assert(ls.subrange(0, lines@.len() as int) =~= ls);
    out
}

proof fn lemma_records_bounded(ls: Seq<Seq<char>>)
    ensures
        records_of(ls).len() <= ls.len(),
        forall|i: int|
            0 <= i < records_of(ls).len() ==> (#[trigger] records_of(ls)[i]).attached == (
            records_of(ls)[i].attached_clients > 0),
        (forall|j: int| 0 <= j < ls.len() ==> split_on(#[trigger] ls[j], ':').len() < 5)
            ==> records_of(ls).len() == 0,
    decreases ls.len(),
{
    if ls.len() > 0 {
        let prev = ls.drop_last();
        lemma_records_bounded(prev);
        if forall|j: int| 0 <= j < ls.len() ==> split_on(#[trigger] ls[j], ':').len() < 5 {
            assert forall|j: int| 0 <= j < prev.len() implies split_on(#[trigger] prev[j], ':').len()
                < 5 by {
                assert(prev[j] == ls[j]);
            }
            assert(split_on(ls[ls.len() - 1], ':').len() < 5);
        }
    }
}

/// For any text the parser yields at most one record per line, none for a
/// line of fewer than five fields, and each record is attached exactly when
/// its client count is above zero.
pub proof fn lemma_parse_bounded(text: Seq<char>)
    ensures
        parse_spec(text).len() <= lines_of(text).len(),
        forall|i: int|
            0 <= i < parse_spec(text).len() ==> (#[trigger] parse_spec(text)[i]).attached == (
            parse_spec(text)[i].attached_clients > 0),
        (forall|j: int|
            0 <= j < lines_of(text).len() ==> split_on(#[trigger] lines_of(text)[j], ':').len()
                < 5) ==> parse_spec(text).len() == 0,
{
    lemma_records_bounded(lines_of(text));
}

} // verus!
