//! Remote host configuration and the in-memory registry of configured hosts.

use vstd::prelude::*;
use crate::text::{all_blank, is_blank, string_of, string_of_range};

verus! {

/// A remote target: its display name, the connection target and an optional
/// credential path.
#[derive(Debug, Clone)]
pub struct HostConfig {
    pub name: String,
    pub host: String,
    pub key: Option<String>,
}

/// The part of a host string after its last `@`; the whole string when it
/// holds none.
pub open spec fn after_last_at(h: Seq<char>) -> Seq<char>
    decreases h.len(),
{
    if h.len() == 0 {
        h
    } else if h.last() == '@' {
        Seq::empty()
    } else {
        after_last_at(h.drop_last()).push(h.last())
    }
}

/// Why a host could not be added or removed.
#[derive(Debug, Clone)]
pub enum HostError {
    /// The host string was empty.
    EmptyHost,
    /// A host of this name is configured already.
    DuplicateName(String),
    /// No host of this name is configured.
    NotFound(String),
}

pub fn copy_opt_string(s: &Option<String>) -> (r: Option<String>)
    ensures
        r == *s,
{
    match s {
        Some(v) => Some(v.clone()),
        None => None,
    }
}

impl HostConfig {
    /// A copy of this configuration.
    pub fn duplicate(&self) -> (r: HostConfig)
        ensures
            r == *self,
    {
        HostConfig { name: self.name.clone(), host: self.host.clone(), key: copy_opt_string(&self.key) }
    }
}

/// The part of `host` after its last `@`, the display name a host gets when
/// none is given.
pub fn default_host_name(host: &[char]) -> (r: String)
    ensures
        r@ == after_last_at(host@),
{
    let mut start: usize = host.len();
    while start > 0 && host[start - 1] != '@'
        invariant
            start <= host@.len(),
            forall|j: int| start <= j < host@.len() ==> host@[j] != '@',
        decreases start,
    {
        start -= 1;
    }
    proof {
        lemma_after_last_at(host@, start as int);
    }
    string_of_range(host, start, host.len())
}

proof fn lemma_after_last_at(h: Seq<char>, start: int)
    requires
        0 <= start <= h.len(),
        forall|j: int| start <= j < h.len() ==> h[j] != '@',
        start == 0 || h[start - 1] == '@',
    ensures
        after_last_at(h) == h.subrange(start, h.len() as int),
    decreases h.len(),
{
    if h.len() == 0 {
        assert(h.subrange(start, 0) =~= h);
    } else if h.last() == '@' {
        assert(start == h.len());
        assert(h.subrange(start, h.len() as int) =~= Seq::<char>::empty());
    } else {
        lemma_after_last_at(h.drop_last(), start);
        assert(h.subrange(start, h.len() as int) =~= h.drop_last().subrange(
            start,
            h.len() - 1,
        ).push(h.last()));
    }
}

/// The configuration that a host-add form yields: `Err(EmptyHost)` when the
/// host field is empty; otherwise the host as typed, named by the name field,
/// or by `after_last_at` of the host when the name field is blank.
pub fn host_from_form(name: &[char], host: &[char], key: Option<String>) -> (r: Result<
    HostConfig,
    HostError,
>)
    ensures
        host@.len() == 0 <==> r is Err,
        r is Err ==> r->Err_0 is EmptyHost,
        r is Ok ==> {
            &&& r->Ok_0.host@ == host@
            &&& r->Ok_0.key == key
            &&& r->Ok_0.name@ == (if is_blank(name@) {
                after_last_at(host@)
            } else {
                name@
            })
        },
{
    if host.len() == 0 {
        return Err(HostError::EmptyHost);
    }
    let display = if all_blank(name) {
        default_host_name(host)
    } else {
        string_of(name)
    };
    Ok(HostConfig { name: display, host: string_of(host), key })
}

/// The configured remote hosts, in the order they were added.
#[derive(Debug, Clone)]
pub struct HostRegistry {
    pub hosts: Vec<HostConfig>,
}

impl HostRegistry {
    pub fn new() -> (r: HostRegistry)
        ensures
            r.hosts@.len() == 0,
    {
        HostRegistry { hosts: Vec::new() }
    }

    /// A registry holding `hosts`, as loaded from the store.
    pub fn from_hosts(hosts: Vec<HostConfig>) -> (r: HostRegistry)
        ensures
            r.hosts == hosts,
    {
        HostRegistry { hosts }
    }

    /// Whether a host of this name is configured.
    pub open spec fn has_name(&self, name: Seq<char>) -> bool {
        exists|i: int| 0 <= i < self.hosts@.len() && (#[trigger] self.hosts@[i]).name@ == name
    }

    /// Index of the first host named `name`.
    pub fn position(&self, name: &String) -> (r: Option<usize>)
        ensures
            match r {
                Some(i) => i < self.hosts@.len() && self.hosts@[i as int].name@ == name@
                    && forall|j: int| 0 <= j < i ==> (#[trigger] self.hosts@[j]).name@ != name@,
                None => !self.has_name(name@),
            },
    {
        let mut i: usize = 0;
        while i < self.hosts.len()
            invariant
                i <= self.hosts@.len(),
                forall|j: int| 0 <= j < i ==> (#[trigger] self.hosts@[j]).name@ != name@,
            decreases self.hosts@.len() - i,
        {
            if self.hosts[i].name == *name {
                return Some(i);
            }
            i += 1;
        }
        None
    }

    /// Adds `host` at the end; a name that is configured already is refused
    /// and leaves the registry as it was.
    pub fn add(&mut self, host: HostConfig) -> (r: Result<(), HostError>)
        ensures
            old(self).has_name(host.name@) ==> {
                &&& r is Err
                &&& r->Err_0 is DuplicateName
                &&& r->Err_0->DuplicateName_0@ == host.name@
                &&& *final(self) == *old(self)
            },
            !old(self).has_name(host.name@) ==> r is Ok && final(self).hosts@ == old(
                self,
            ).hosts@.push(host),
    {
        match self.position(&host.name) {
            Some(_) => Err(HostError::DuplicateName(host.name)),
            None => {
                self.hosts.push(host);
                Ok(())
            },
        }
    }

    /// Removes the first host named `name` and returns it.
    pub fn remove(&mut self, name: &String) -> (r: Result<HostConfig, HostError>)
        ensures
            !old(self).has_name(name@) ==> {
                &&& r is Err
                &&& r->Err_0 is NotFound
                &&& r->Err_0->NotFound_0@ == name@
                &&& *final(self) == *old(self)
            },
            old(self).has_name(name@) ==> exists|i: int|
                0 <= i < old(self).hosts@.len() && (#[trigger] old(self).hosts@[i]).name@ == name@
                    && (forall|j: int| 0 <= j < i ==> (#[trigger] old(self).hosts@[j]).name@ != name@)
                    && r == Ok::<HostConfig, HostError>(old(self).hosts@[i])
                    && final(self).hosts@ == old(self).hosts@.remove(i),
    {
        match self.position(name) {
            Some(i) => {
                let h = self.hosts.remove(i);
                Ok(h)
            },
            None => Err(HostError::NotFound(name.clone())),
        }
    }

    pub fn len(&self) -> (r: usize)
        ensures
            r == self.hosts@.len(),
    {
        self.hosts.len()
    }
}

} // verus!
