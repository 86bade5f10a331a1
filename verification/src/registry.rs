//! The project registry and its reconciliation against filesystem
//! observations.
//!
//! The registry maps project identifiers to absolute paths, identifiers
//! unique, insertion order kept. Reconciliation classifies each entry from
//! an observation of its path, removes the stale ones, re-registers the ones
//! whose manifest declares another identifier (the manifest wins there), and
//! registers newly discovered projects unless their identifier is already
//! taken (the first registration wins there).

use vstd::prelude::*;

use crate::manifest::extract_id;
use crate::manifest::extract_module_id;
use crate::num::dec_of;
use crate::num::push_dec_u64;
use crate::text::string_eq_str;

verus! {

/// An identifier/path pair as the specification sees it.
pub type EntryModel = (Seq<char>, Seq<char>);

/// The first path registered under `id`, if any.
pub open spec fn lookup(s: Seq<EntryModel>, id: Seq<char>) -> Option<Seq<char>>
    decreases s.len(),
{
    if s.len() == 0 {
        None
    } else if s[0].0 == id {
        Some(s[0].1)
    } else {
        lookup(s.drop_first(), id)
    }
}

/// Some entry carries `id`.
pub open spec fn contains_id(s: Seq<EntryModel>, id: Seq<char>) -> bool {
    exists|i: int| 0 <= i < s.len() && (#[trigger] s[i]).0 == id
}

/// No identifier is registered twice.
pub open spec fn unique_ids(s: Seq<EntryModel>) -> bool {
    forall|i: int, j: int| 0 <= i < j < s.len() ==> (#[trigger] s[i]).0 != (#[trigger] s[j]).0
}

/// Registration: the entry with `id` is updated in place when one exists,
/// appended otherwise.
pub open spec fn spec_add(s: Seq<EntryModel>, id: Seq<char>, path: Seq<char>) -> Seq<EntryModel>
    decreases s.len(),
{
    if s.len() == 0 {
        seq![(id, path)]
    } else if s[0].0 == id {
        seq![(id, path)] + s.drop_first()
    } else {
        seq![s[0]] + spec_add(s.drop_first(), id, path)
    }
}

/// Deregistration: the first entry with `id` is dropped, order kept.
pub open spec fn spec_remove(s: Seq<EntryModel>, id: Seq<char>) -> Seq<EntryModel>
    decreases s.len(),
{
    if s.len() == 0 {
        s
    } else if s[0].0 == id {
        s.drop_first()
    } else {
        seq![s[0]] + spec_remove(s.drop_first(), id)
    }
}

/// What registration does to lookups: the registered identifier now maps to
/// the new path, every other identifier is untouched.
pub proof fn lemma_lookup_add(s: Seq<EntryModel>, id: Seq<char>, path: Seq<char>, q: Seq<char>)
    ensures
        lookup(spec_add(s, id, path), q) == if q == id {
            Some(path)
        } else {
            lookup(s, q)
        },
    decreases s.len(),
{
    if s.len() == 0 {
        let t = spec_add(s, id, path);
        assert(t[0] == (id, path));
        assert(t.drop_first() =~= Seq::<EntryModel>::empty());
        assert(lookup(Seq::<EntryModel>::empty(), q) is None);
        assert(lookup(t, q) == if q == id { Some(path) } else { lookup(t.drop_first(), q) });
    } else if s[0].0 == id {
        let t = spec_add(s, id, path);
        assert(t[0] == (id, path));
        assert(t.drop_first() =~= s.drop_first());
        assert(lookup(t, q) == if q == id { Some(path) } else { lookup(t.drop_first(), q) });
        assert(lookup(s, q) == if q == id { Some(s[0].1) } else { lookup(s.drop_first(), q) });
    } else {
        lemma_lookup_add(s.drop_first(), id, path, q);
        let t = spec_add(s, id, path);
        assert(t[0] == s[0]);
        assert(t.drop_first() =~= spec_add(s.drop_first(), id, path));
        assert(lookup(t, q) == if q == t[0].0 { Some(t[0].1) } else { lookup(t.drop_first(), q) });
        assert(lookup(s, q) == if q == s[0].0 { Some(s[0].1) } else { lookup(s.drop_first(), q) });
    }
}

/// Registration keeps identifiers unique.
pub proof fn lemma_add_unique(s: Seq<EntryModel>, id: Seq<char>, path: Seq<char>)
    requires
        unique_ids(s),
    ensures
        unique_ids(spec_add(s, id, path)),
        forall|q: Seq<char>|
            #[trigger] contains_id(spec_add(s, id, path), q) <==> (contains_id(s, q) || q == id),
    decreases s.len(),
{
    let t = spec_add(s, id, path);
    if s.len() == 0 {
        assert forall|q: Seq<char>| #[trigger] contains_id(t, q) <==> (contains_id(s, q) || q
            == id) by {
            assert(t[0].0 == id);
            if contains_id(t, q) {
                let i = choose|i: int| 0 <= i < t.len() && t[i].0 == q;
                assert(i == 0);
            }
        }
    } else if s[0].0 == id {
        assert(t.drop_first() =~= s.drop_first());
        assert forall|i: int, j: int| 0 <= i < j < t.len() implies (#[trigger] t[i]).0 != (
        #[trigger] t[j]).0 by {
            assert(t[j] == s[j]);
            if i > 0 {
                assert(t[i] == s[i]);
            }
        }
        assert forall|q: Seq<char>| #[trigger] contains_id(t, q) <==> (contains_id(s, q) || q
            == id) by {
            if contains_id(t, q) {
                let i = choose|i: int| 0 <= i < t.len() && t[i].0 == q;
                if i == 0 {
                    assert(s[0].0 == q);
                } else {
                    assert(s[i].0 == q);
                }
            }
            if contains_id(s, q) {
                let i = choose|i: int| 0 <= i < s.len() && s[i].0 == q;
                if i == 0 {
                    assert(t[0].0 == q);
                } else {
                    assert(t[i].0 == q);
                }
            }
            if q == id {
                assert(t[0].0 == q);
            }
        }
    } else {
        assert(forall|k: int|
            0 <= k < s.drop_first().len() ==> (#[trigger] s.drop_first()[k]) == s[k + 1]);
        lemma_add_unique(s.drop_first(), id, path);
        let u = spec_add(s.drop_first(), id, path);
        assert(t[0] == s[0]);
        assert(t.drop_first() =~= u);
        assert forall|i: int, j: int| 0 <= i < j < t.len() implies (#[trigger] t[i]).0 != (
        #[trigger] t[j]).0 by {
            if i == 0 {
                assert(t[j] == u[j - 1]);
                assert(contains_id(u, t[j].0));
                if t[j].0 == s[0].0 {
                    if contains_id(s.drop_first(), s[0].0) {
                        let k = choose|k: int|
                            0 <= k < s.drop_first().len() && s.drop_first()[k].0 == s[0].0;
                        assert(s[k + 1].0 == s[0].0);
                        assert(false);
                    }
                }
            } else {
                assert(t[i] == u[i - 1]);
                assert(t[j] == u[j - 1]);
            }
        }
        assert forall|q: Seq<char>| #[trigger] contains_id(t, q) <==> (contains_id(s, q) || q
            == id) by {
            if contains_id(t, q) {
                let i = choose|i: int| 0 <= i < t.len() && t[i].0 == q;
                if i == 0 {
                    assert(s[0].0 == q);
                } else {
                    assert(u[i - 1].0 == q);
                    assert(contains_id(u, q));
                    if contains_id(s.drop_first(), q) {
                        let k = choose|k: int|
                            0 <= k < s.drop_first().len() && s.drop_first()[k].0 == q;
                        assert(s[k + 1].0 == q);
                    }
                }
            }
            if contains_id(s, q) {
                let i = choose|i: int| 0 <= i < s.len() && s[i].0 == q;
                if i == 0 {
                    assert(t[0].0 == q);
                } else {
                    assert(s.drop_first()[i - 1].0 == q);
                    assert(contains_id(s.drop_first(), q));
                    assert(contains_id(u, q));
                    let k = choose|k: int| 0 <= k < u.len() && u[k].0 == q;
                    assert(t[k + 1].0 == q);
                }
            }
            if q == id {
                assert(contains_id(u, q));
                let k = choose|k: int| 0 <= k < u.len() && u[k].0 == q;
                assert(t[k + 1].0 == q);
            }
        }
    }
}

/// The persistent identifier-to-path registry.
pub struct Registry {
    entries: Vec<(String, String)>,
}

impl View for Registry {
    type V = Seq<EntryModel>;

    closed spec fn view(&self) -> Seq<EntryModel> {
        self.entries@.map_values(|e: (String, String)| (e.0@, e.1@))
    }
}

impl Registry {
    /// Identifiers are registered at most once.
    pub open spec fn wf(&self) -> bool {
        unique_ids(self@)
    }

    /// An empty registry: what loading a missing store yields.
    pub fn new() -> (r: Registry)
        ensures
            r@ =~= Seq::<EntryModel>::empty(),
            r.wf(),
    {
        let r = Registry { entries: Vec::new() };
        proof {
            assert(r@ =~= Seq::<EntryModel>::empty());
        }
        r
    }

    /// How many projects are registered.
    pub fn len(&self) -> (n: usize)
        ensures
            n == self@.len(),
    {
        self.entries.len()
    }

    /// The entry at one position, for iteration and persistence.
    pub fn entry_at(&self, i: usize) -> (e: (&String, &String))
        requires
            i < self@.len(),
        ensures
            e.0@ == self@[i as int].0,
            e.1@ == self@[i as int].1,
    {
        let p = &self.entries[i];
        (&p.0, &p.1)
    }

    /// The path registered under `id`, if any.
    pub fn get_project_path(&self, id: &str) -> (r: Option<&String>)
        ensures
            match r {
                Some(p) => lookup(self@, id@) == Some(p@),
                None => lookup(self@, id@) is None,
            },
    {
        let ghost s = self@;
        let mut i: usize = 0;
        while i < self.entries.len()
            invariant
                0 <= i <= self.entries@.len(),
                s == self@,
                s.len() == self.entries@.len(),
                forall|k: int| 0 <= k < s.len() ==> (#[trigger] s[k]) == (
                self.entries@[k].0@,
                self.entries@[k].1@,
                ),
                forall|k: int| 0 <= k < i ==> (#[trigger] s[k]).0 != id@,
            decreases self.entries@.len() - i,
        {
            if string_eq_str(&self.entries[i].0, id) {
                proof {
                    lemma_lookup_at(s, id@, i as int);
                }
                return Some(&self.entries[i].1);
            }
            i = i + 1;
        }
        proof {
            lemma_lookup_at(s, id@, s.len() as int);
        }
        None
    }

    /// Registers `id` at `path`, updating in place when `id` is already
    /// present and appending otherwise.
    pub fn add_project(&mut self, id: String, path: String)
        requires
            old(self).wf(),
        ensures
            final(self).wf(),
            final(self)@ == spec_add(old(self)@, id@, path@),
    {
        let ghost s = self@;
        let mut i: usize = 0;
        while i < self.entries.len()
            invariant
                0 <= i <= self.entries@.len(),
                s == self@,
                old(self)@ == s,
                old(self).wf(),
                self.wf(),
                s.len() == self.entries@.len(),
                forall|k: int| 0 <= k < s.len() ==> (#[trigger] s[k]) == (
                self.entries@[k].0@,
                self.entries@[k].1@,
                ),
                forall|k: int| 0 <= k < i ==> (#[trigger] s[k]).0 != id@,
            decreases self.entries@.len() - i,
        {
            if string_eq_str(&self.entries[i].0, id.as_str()) {
                let ghost e0 = self.entries@;
                self.entries[i] = (id, path);
                proof {
                    assert(self.entries@ == e0.update(i as int, (id, path)));
                    lemma_spec_add_at(s, id@, path@, i as int);
                    assert(self@ =~= s.update(i as int, (id@, path@)));
                    lemma_add_unique(s, id@, path@);
                }
                return ;
            }
            i = i + 1;
        }
        let ghost e0 = self.entries@;
        self.entries.push((id, path));
        proof {
            lemma_spec_add_at(s, id@, path@, s.len() as int);
            assert(self@ =~= s.push((id@, path@)));
            lemma_add_unique(s, id@, path@);
        }
    }

    /// Deregisters `id`; reports whether an entry was dropped.
    pub fn remove_project(&mut self, id: &str) -> (removed: bool)
        requires
            old(self).wf(),
        ensures
            final(self).wf(),
            final(self)@ == spec_remove(old(self)@, id@),
            removed == contains_id(old(self)@, id@),
    {
        let ghost s = self@;
        let mut i: usize = 0;
        while i < self.entries.len()
            invariant
                0 <= i <= self.entries@.len(),
                s == self@,
                old(self)@ == s,
                old(self).wf(),
                self.wf(),
                s.len() == self.entries@.len(),
                forall|k: int| 0 <= k < s.len() ==> (#[trigger] s[k]) == (
                self.entries@[k].0@,
                self.entries@[k].1@,
                ),
                forall|k: int| 0 <= k < i ==> (#[trigger] s[k]).0 != id@,
            decreases self.entries@.len() - i,
        {
            if string_eq_str(&self.entries[i].0, id) {
                let ghost e0 = self.entries@;
                self.entries.remove(i);
                proof {
                    assert(self.entries@ == e0.remove(i as int));
                    lemma_spec_remove_at(s, id@, i as int);
                    assert(self@ =~= s.remove(i as int));
                    lemma_remove_unique(s, id@);
                    assert(s[i as int].0 == id@);
                    assert(contains_id(s, id@));
                }
                return true;
            }
            i = i + 1;
        }
        proof {
            lemma_spec_remove_absent(s, id@);
            if contains_id(s, id@) {
                let k = choose|k: int| 0 <= k < s.len() && s[k].0 == id@;
                assert(false);
            }
        }
        false
    }
}

/// `lookup` finds exactly the first matching position.
proof fn lemma_lookup_at(s: Seq<EntryModel>, id: Seq<char>, i: int)
    requires
        0 <= i <= s.len(),
        forall|k: int| 0 <= k < i ==> (#[trigger] s[k]).0 != id,
        i < s.len() ==> s[i].0 == id,
    ensures
        i < s.len() ==> lookup(s, id) == Some(s[i].1),
        i == s.len() ==> lookup(s, id) is None,
    decreases i,
{
    if i == 0 {
    } else {
        assert(forall|k: int|
            0 <= k < s.drop_first().len() ==> (#[trigger] s.drop_first()[k]) == s[k + 1]);
        lemma_lookup_at(s.drop_first(), id, i - 1);
    }
}

/// `spec_add` updates in place at the first matching position, or appends.
proof fn lemma_spec_add_at(s: Seq<EntryModel>, id: Seq<char>, path: Seq<char>, i: int)
    requires
        0 <= i <= s.len(),
        forall|k: int| 0 <= k < i ==> (#[trigger] s[k]).0 != id,
        i < s.len() ==> s[i].0 == id,
    ensures
        i < s.len() ==> spec_add(s, id, path) =~= s.update(i, (id, path)),
        i == s.len() ==> spec_add(s, id, path) =~= s.push((id, path)),
    decreases i,
{
    if i == 0 {
        if s.len() > 0 {
            assert(spec_add(s, id, path) == seq![(id, path)] + s.drop_first());
        }
    } else {
        assert(forall|k: int|
            0 <= k < s.drop_first().len() ==> (#[trigger] s.drop_first()[k]) == s[k + 1]);
        lemma_spec_add_at(s.drop_first(), id, path, i - 1);
        assert(spec_add(s, id, path) == seq![s[0]] + spec_add(s.drop_first(), id, path));
    }
}

/// `spec_remove` deletes exactly the first matching position.
proof fn lemma_spec_remove_at(s: Seq<EntryModel>, id: Seq<char>, i: int)
    requires
        0 <= i < s.len(),
        forall|k: int| 0 <= k < i ==> (#[trigger] s[k]).0 != id,
        s[i].0 == id,
    ensures
        spec_remove(s, id) =~= s.remove(i),
    decreases i,
{
    if i == 0 {
        assert(spec_remove(s, id) == s.drop_first());
    } else {
        assert(forall|k: int|
            0 <= k < s.drop_first().len() ==> (#[trigger] s.drop_first()[k]) == s[k + 1]);
        lemma_spec_remove_at(s.drop_first(), id, i - 1);
        assert(spec_remove(s, id) == seq![s[0]] + spec_remove(s.drop_first(), id));
    }
}

/// Removing an absent identifier changes nothing.
proof fn lemma_spec_remove_absent(s: Seq<EntryModel>, id: Seq<char>)
    requires
        forall|k: int| 0 <= k < s.len() ==> (#[trigger] s[k]).0 != id,
    ensures
        spec_remove(s, id) =~= s,
    decreases s.len(),
{
    if s.len() > 0 {
        assert(forall|k: int|
            0 <= k < s.drop_first().len() ==> (#[trigger] s.drop_first()[k]) == s[k + 1]);
        lemma_spec_remove_absent(s.drop_first(), id);
        assert(spec_remove(s, id) == seq![s[0]] + spec_remove(s.drop_first(), id));
    }
}

/// Deregistration keeps identifiers unique.
pub proof fn lemma_remove_unique(s: Seq<EntryModel>, id: Seq<char>)
    requires
        unique_ids(s),
    ensures
        unique_ids(spec_remove(s, id)),
    decreases s.len(),
{
    if s.len() > 0 {
        assert(forall|k: int|
            0 <= k < s.drop_first().len() ==> (#[trigger] s.drop_first()[k]) == s[k + 1]);
        if s[0].0 == id {
        } else {
            lemma_remove_unique(s.drop_first(), id);
            let t = spec_remove(s, id);
            let u = spec_remove(s.drop_first(), id);
            assert(t == seq![s[0]] + u);
            lemma_remove_keeps_ids(s.drop_first(), id);
            assert forall|i: int, j: int| 0 <= i < j < t.len() implies (#[trigger] t[i]).0 != (
            #[trigger] t[j]).0 by {
                if i == 0 {
                    assert(t[j] == u[j - 1]);
                    assert(contains_id(u, u[j - 1].0));
                    assert(contains_id(s.drop_first(), u[j - 1].0));
                    if t[j].0 == s[0].0 {
                        let k = choose|k: int|
                            0 <= k < s.drop_first().len() && s.drop_first()[k].0 == s[0].0;
                        assert(s[k + 1].0 == s[0].0);
                    }
                } else {
                    assert(t[i] == u[i - 1]);
                    assert(t[j] == u[j - 1]);
                }
            }
        }
    }
}

/// Every identifier surviving a removal was registered before it.
proof fn lemma_remove_keeps_ids(s: Seq<EntryModel>, id: Seq<char>)
    ensures
        forall|q: Seq<char>|
            #[trigger] contains_id(spec_remove(s, id), q) ==> contains_id(s, q),
    decreases s.len(),
{
    let t = spec_remove(s, id);
    if s.len() == 0 {
    } else if s[0].0 == id {
        assert forall|q: Seq<char>| #[trigger] contains_id(t, q) implies contains_id(s, q) by {
            let i = choose|i: int| 0 <= i < t.len() && t[i].0 == q;
            assert(s[i + 1].0 == q);
        }
    } else {
        lemma_remove_keeps_ids(s.drop_first(), id);
        assert(t == seq![s[0]] + spec_remove(s.drop_first(), id));
        assert forall|q: Seq<char>| #[trigger] contains_id(t, q) implies contains_id(s, q) by {
            let i = choose|i: int| 0 <= i < t.len() && t[i].0 == q;
            if i == 0 {
                assert(s[0].0 == q);
            } else {
                assert(spec_remove(s.drop_first(), id)[i - 1].0 == q);
                assert(contains_id(spec_remove(s.drop_first(), id), q));
                assert(contains_id(s.drop_first(), q));
                let k = choose|k: int|
                    0 <= k < s.drop_first().len() && s.drop_first()[k].0 == q;
                assert(s[k + 1].0 == q);
            }
        }
    }
}

/// What the filesystem showed for one registered path.
pub enum EntryStatus {
    /// The path no longer exists.
    PathMissing,
    /// The path exists but lacks the marker directory or the manifest.
    NotAProject,
    /// The manifest exists but could not be read.
    Unreadable,
    /// The manifest's text.
    Readable(String),
}

pub ghost enum StatusModel {
    PathMissing,
    NotAProject,
    Unreadable,
    Readable(Seq<char>),
}

impl View for EntryStatus {
    type V = StatusModel;

    open spec fn view(&self) -> StatusModel {
        match self {
            EntryStatus::PathMissing => StatusModel::PathMissing,
            EntryStatus::NotAProject => StatusModel::NotAProject,
            EntryStatus::Unreadable => StatusModel::Unreadable,
            EntryStatus::Readable(c) => StatusModel::Readable(c@),
        }
    }
}

/// The verdict on one registered entry.
pub enum EntryClass {
    /// Kept and counted as valid.
    Valid,
    /// Dropped from the registry.
    Remove,
    /// Dropped, then re-registered under the identifier the manifest
    /// declares, at the same path.
    Reregister(String),
}

pub ghost enum ClassModel {
    Valid,
    Remove,
    Reregister(Seq<char>),
}

impl View for EntryClass {
    type V = ClassModel;

    open spec fn view(&self) -> ClassModel {
        match self {
            EntryClass::Valid => ClassModel::Valid,
            EntryClass::Remove => ClassModel::Remove,
            EntryClass::Reregister(id) => ClassModel::Reregister(id@),
        }
    }
}

/// The verdict for a registered identifier given its observation: a missing
/// or unrecognizable path is dropped; a readable manifest declaring another
/// identifier wins over the registry key; everything else is valid.
pub open spec fn spec_classify(id: Seq<char>, st: StatusModel) -> ClassModel {
    match st {
        StatusModel::PathMissing => ClassModel::Remove,
        StatusModel::NotAProject => ClassModel::Remove,
        StatusModel::Unreadable => ClassModel::Valid,
        StatusModel::Readable(c) => match extract_id(c) {
            None => ClassModel::Valid,
            Some(pid) => if pid == id {
                ClassModel::Valid
            } else {
                ClassModel::Reregister(pid)
            },
        },
    }
}

/// Classifies one registered entry from what the filesystem showed.
pub fn classify_entry(id: &str, status: &EntryStatus) -> (c: EntryClass)
    ensures
        c@ == spec_classify(id@, status@),
{
    match status {
        EntryStatus::PathMissing => EntryClass::Remove,
        EntryStatus::NotAProject => EntryClass::Remove,
        EntryStatus::Unreadable => EntryClass::Valid,
        EntryStatus::Readable(content) => match extract_module_id(content.as_str()) {
            Err(_) => EntryClass::Valid,
            Ok(pid) => {
                if string_eq_str(&pid, id) {
                    EntryClass::Valid
                } else {
                    EntryClass::Reregister(pid)
                }
            },
        },
    }
}

pub open spec fn stats_view(s: Seq<EntryStatus>) -> Seq<StatusModel> {
    s.map_values(|x: EntryStatus| x@)
}

/// The outcome of the classification pass over a registry: the entries
/// kept, the re-registrations queued, and the counts.
#[verifier::ext_equal]
pub ghost struct ReconModel {
    pub kept: Seq<EntryModel>,
    pub readds: Seq<EntryModel>,
    pub valid: int,
    pub removed: int,
}

/// Classification of every entry against its observation, in order:
/// valid entries are kept, the others are dropped, and an identifier
/// mismatch queues a re-registration of the manifest's identifier at the
/// old path.
pub open spec fn recon_scan(entries: Seq<EntryModel>, stats: Seq<StatusModel>) -> ReconModel
    decreases entries.len(),
{
    if entries.len() == 0 || stats.len() == 0 {
        ReconModel { kept: Seq::empty(), readds: Seq::empty(), valid: 0, removed: 0 }
    } else {
        let rest = recon_scan(entries.drop_first(), stats.drop_first());
        match spec_classify(entries[0].0, stats[0]) {
            ClassModel::Valid => ReconModel {
                kept: seq![entries[0]] + rest.kept,
                valid: rest.valid + 1,
                ..rest
            },
            ClassModel::Remove => ReconModel { removed: rest.removed + 1, ..rest },
            ClassModel::Reregister(pid) => ReconModel {
                readds: seq![(pid, entries[0].1)] + rest.readds,
                removed: rest.removed + 1,
                ..rest
            },
        }
    }
}

/// Registrations applied one after the other, in order.
pub open spec fn apply_adds(base: Seq<EntryModel>, adds: Seq<EntryModel>) -> Seq<EntryModel>
    decreases adds.len(),
{
    if adds.len() == 0 {
        base
    } else {
        apply_adds(spec_add(base, adds[0].0, adds[0].1), adds.drop_first())
    }
}

/// The registry after a full reconciliation pass: the kept entries, then
/// the queued re-registrations applied in order.
pub open spec fn spec_reconcile(entries: Seq<EntryModel>, stats: Seq<StatusModel>) -> Seq<
    EntryModel,
> {
    let m = recon_scan(entries, stats);
    apply_adds(m.kept, m.readds)
}

/// The tallies a reconciliation reports.
pub struct SyncCounts {
    pub valid: usize,
    pub added: usize,
    pub removed: usize,
}

proof fn lemma_apply_adds_wf(base: Seq<EntryModel>, adds: Seq<EntryModel>)
    requires
        unique_ids(base),
    ensures
        unique_ids(apply_adds(base, adds)),
    decreases adds.len(),
{
    if adds.len() > 0 {
        lemma_add_unique(base, adds[0].0, adds[0].1);
        lemma_apply_adds_wf(spec_add(base, adds[0].0, adds[0].1), adds.drop_first());
    }
}

/// The kept entries of a classification pass form a well-formed registry
/// whose identifiers all come from the original.
proof fn lemma_recon_kept_wf(entries: Seq<EntryModel>, stats: Seq<StatusModel>)
    requires
        unique_ids(entries),
    ensures
        unique_ids(recon_scan(entries, stats).kept),
        forall|q: Seq<char>|
            #[trigger] contains_id(recon_scan(entries, stats).kept, q) ==> contains_id(
                entries,
                q,
            ),
    decreases entries.len(),
{
    let m = recon_scan(entries, stats);
    if entries.len() == 0 || stats.len() == 0 {
    } else {
        assert(forall|k: int|
            0 <= k < entries.drop_first().len() ==> (#[trigger] entries.drop_first()[k])
                == entries[k + 1]);
        lemma_recon_kept_wf(entries.drop_first(), stats.drop_first());
        let rest = recon_scan(entries.drop_first(), stats.drop_first());
        match spec_classify(entries[0].0, stats[0]) {
            ClassModel::Valid => {
                assert(m.kept == seq![entries[0]] + rest.kept);
                assert forall|i: int, j: int| 0 <= i < j < m.kept.len() implies (
                #[trigger] m.kept[i]).0 != (#[trigger] m.kept[j]).0 by {
                    if i == 0 {
                        assert(m.kept[j] == rest.kept[j - 1]);
                        assert(contains_id(rest.kept, rest.kept[j - 1].0));
                        assert(contains_id(entries.drop_first(), m.kept[j].0));
                        if m.kept[j].0 == entries[0].0 {
                            let k = choose|k: int|
                                0 <= k < entries.drop_first().len() && entries.drop_first()[k].0
                                    == entries[0].0;
                            assert(entries[k + 1].0 == entries[0].0);
                        }
                    } else {
                        assert(m.kept[i] == rest.kept[i - 1]);
                        assert(m.kept[j] == rest.kept[j - 1]);
                    }
                }
                assert forall|q: Seq<char>| #[trigger] contains_id(m.kept, q) implies contains_id(
                    entries,
                    q,
                ) by {
                    let i = choose|i: int| 0 <= i < m.kept.len() && m.kept[i].0 == q;
                    if i == 0 {
                        assert(entries[0].0 == q);
                    } else {
                        assert(rest.kept[i - 1].0 == q);
                        assert(contains_id(rest.kept, q));
                        assert(contains_id(entries.drop_first(), q));
                        let k = choose|k: int|
                            0 <= k < entries.drop_first().len() && entries.drop_first()[k].0 == q;
                        assert(entries[k + 1].0 == q);
                    }
                }
            },
            ClassModel::Remove => {
                assert(m.kept == rest.kept);
                assert forall|q: Seq<char>| #[trigger] contains_id(m.kept, q) implies contains_id(
                    entries,
                    q,
                ) by {
                    assert(contains_id(entries.drop_first(), q));
                    let k = choose|k: int|
                        0 <= k < entries.drop_first().len() && entries.drop_first()[k].0 == q;
                    assert(entries[k + 1].0 == q);
                }
            },
            ClassModel::Reregister(_) => {
                assert(m.kept == rest.kept);
                assert forall|q: Seq<char>| #[trigger] contains_id(m.kept, q) implies contains_id(
                    entries,
                    q,
                ) by {
                    assert(contains_id(entries.drop_first(), q));
                    let k = choose|k: int|
                        0 <= k < entries.drop_first().len() && entries.drop_first()[k].0 == q;
                    assert(entries[k + 1].0 == q);
                }
            },
        }
    }
}

/// Reconciles every registered entry against the observation of its path,
/// applies the removals and re-registrations, and reports the tallies.
pub fn reconcile(reg: &mut Registry, statuses: &Vec<EntryStatus>) -> (c: SyncCounts)
    requires
        old(reg).wf(),
        statuses@.len() == old(reg)@.len(),
    ensures
        final(reg).wf(),
        final(reg)@ == spec_reconcile(old(reg)@, stats_view(statuses@)),
        c.valid == recon_scan(old(reg)@, stats_view(statuses@)).valid,
        c.removed == recon_scan(old(reg)@, stats_view(statuses@)).removed,
        c.added == recon_scan(old(reg)@, stats_view(statuses@)).readds.len(),
{
    let ghost entries0 = reg@;
    let ghost stats0 = stats_view(statuses@);
    let n = reg.len();
    let mut kept: Vec<(String, String)> = Vec::new();
    let mut readds: Vec<(String, String)> = Vec::new();
    let mut valid: usize = 0;
    let mut removed: usize = 0;
    let mut i: usize = 0;
    proof {
        assert(entries0.skip(0) =~= entries0);
        assert(stats0.skip(0) =~= stats0);
    }
    while i < n
        invariant
            0 <= i <= n,
            n == entries0.len(),
            reg@ == entries0,
            reg.wf(),
            statuses@.len() == entries0.len(),
            stats0 == stats_view(statuses@),
            valid <= i,
            removed <= i,
            readds@.len() <= i,
            ({
                let m = recon_scan(entries0, stats0);
                let rest = recon_scan(entries0.skip(i as int), stats0.skip(i as int));
                &&& m.kept == kept@.map_values(|e: (String, String)| (e.0@, e.1@)) + rest.kept
                &&& m.readds == readds@.map_values(|e: (String, String)| (e.0@, e.1@))
                    + rest.readds
                &&& m.valid == valid + rest.valid
                &&& m.removed == removed + rest.removed
            }),
        decreases n - i,
    {
        let ghost erest = entries0.skip(i as int);
        let ghost srest = stats0.skip(i as int);
        proof {
            assert(erest[0] == entries0[i as int]);
            assert(srest[0] == stats0[i as int]);
            assert(erest.drop_first() =~= entries0.skip(i as int + 1));
            assert(srest.drop_first() =~= stats0.skip(i as int + 1));
            assert(stats0[i as int] == statuses@[i as int]@);
        }
        let (id_ref, path_ref) = reg.entry_at(i);
        let id = id_ref.clone();
        let path = path_ref.clone();
        let cls = classify_entry(id.as_str(), &statuses[i]);
        match cls {
            EntryClass::Valid => {
                let ghost k0 = kept@;
                kept.push((id, path));
                valid = valid + 1;
                proof {
                    assert(kept@.map_values(|e: (String, String)| (e.0@, e.1@)) =~= k0.map_values(
                        |e: (String, String)| (e.0@, e.1@),
                    ).push(entries0[i as int]));
                    assert(seq![erest[0]] + recon_scan(erest.drop_first(), srest.drop_first()).kept
                        =~= recon_scan(erest, srest).kept);
                }
            },
            EntryClass::Remove => {
                removed = removed + 1;
            },
            EntryClass::Reregister(pid) => {
                let ghost r0 = readds@;
                readds.push((pid, path));
                removed = removed + 1;
                proof {
                    assert(readds@.map_values(|e: (String, String)| (e.0@, e.1@))
                        =~= r0.map_values(|e: (String, String)| (e.0@, e.1@)).push(
                        recon_scan(erest, srest).readds[0],
                    ));
                }
            },
        }
        proof {
            let m = recon_scan(entries0, stats0);
            let rest = recon_scan(erest, srest);
            let rest2 = recon_scan(entries0.skip(i as int + 1), stats0.skip(i as int + 1));
            assert(m.kept =~= kept@.map_values(|e: (String, String)| (e.0@, e.1@)) + rest2.kept);
            assert(m.readds =~= readds@.map_values(|e: (String, String)| (e.0@, e.1@))
                + rest2.readds);
        }
        i = i + 1;
    }
    proof {
        assert(entries0.skip(n as int) =~= Seq::<EntryModel>::empty());
        assert(stats0.skip(n as int) =~= Seq::<StatusModel>::empty());
        let m = recon_scan(entries0, stats0);
        assert(m.kept =~= kept@.map_values(|e: (String, String)| (e.0@, e.1@)));
        assert(m.readds =~= readds@.map_values(|e: (String, String)| (e.0@, e.1@)));
        lemma_recon_kept_wf(entries0, stats0);
    }
    let added = readds.len();
    reg.entries = kept;
    proof {
        assert(reg@ =~= recon_scan(entries0, stats0).kept);
    }
    let ghost madds = recon_scan(entries0, stats0).readds;
    proof {
        assert(madds.skip(0) =~= madds);
        assert(spec_reconcile(entries0, stats0) == apply_adds(
            recon_scan(entries0, stats0).kept,
            madds,
        ));
    }
    let mut j: usize = 0;
    let total = added;
    while j < total
        invariant
            0 <= j <= total,
            total == readds@.len() + j,
            reg.wf(),
            madds.len() == total,
            forall|k: int|
                0 <= k < readds@.len() ==> (#[trigger] readds@[k].0@, readds@[k].1@) == madds[j
                    + k],
            spec_reconcile(entries0, stats0) == apply_adds(
                reg@,
                madds.skip(j as int),
            ),
        decreases total - j,
    {
        proof {
            assert(madds.skip(j as int)[0] == madds[j as int]);
            assert(madds.skip(j as int).drop_first() =~= madds.skip(j as int + 1));
            assert((readds@[0].0@, readds@[0].1@) == madds[j as int]);
        }
        let (pid, path) = readds.remove(0);
        reg.add_project(pid, path);
        j = j + 1;
    }
    proof {
        assert(madds.skip(total as int) =~= Seq::<EntryModel>::empty());
    }
    SyncCounts { valid, added, removed }
}

proof fn lemma_recon_counts_nonneg(entries: Seq<EntryModel>, stats: Seq<StatusModel>)
    ensures
        recon_scan(entries, stats).valid >= 0,
        recon_scan(entries, stats).removed >= 0,
    decreases entries.len(),
{
    if entries.len() > 0 && stats.len() > 0 {
        lemma_recon_counts_nonneg(entries.drop_first(), stats.drop_first());
    }
}

/// Which entries reach `kept` and which reach `readds`: exactly the ones
/// the classification says.
proof fn lemma_recon_origin(entries: Seq<EntryModel>, stats: Seq<StatusModel>)
    requires
        entries.len() == stats.len(),
    ensures
        forall|q: Seq<char>|
            #[trigger] contains_id(recon_scan(entries, stats).kept, q) ==> exists|j: int|
                0 <= j < entries.len() && (#[trigger] entries[j]).0 == q && spec_classify(
                    entries[j].0,
                    stats[j],
                ) is Valid,
    decreases entries.len(),
{
    let m = recon_scan(entries, stats);
    if entries.len() == 0 {
    } else {
        assert(forall|k: int|
            0 <= k < entries.drop_first().len() ==> (#[trigger] entries.drop_first()[k])
                == entries[k + 1]);
        assert(forall|k: int|
            0 <= k < stats.drop_first().len() ==> (#[trigger] stats.drop_first()[k]) == stats[k
                + 1]);
        lemma_recon_origin(entries.drop_first(), stats.drop_first());
        let rest = recon_scan(entries.drop_first(), stats.drop_first());
        assert forall|q: Seq<char>| #[trigger] contains_id(m.kept, q) implies exists|j: int|
            0 <= j < entries.len() && (#[trigger] entries[j]).0 == q && spec_classify(
                entries[j].0,
                stats[j],
            ) is Valid by {
            match spec_classify(entries[0].0, stats[0]) {
                ClassModel::Valid => {
                    let i = choose|i: int| 0 <= i < m.kept.len() && m.kept[i].0 == q;
                    if i == 0 {
                        assert(entries[0].0 == q && spec_classify(entries[0].0, stats[0]) is Valid);
                    } else {
                        assert(m.kept[i] == rest.kept[i - 1]);
                        assert(contains_id(rest.kept, q));
                        let j = choose|j: int|
                            0 <= j < entries.drop_first().len() && (#[trigger] entries.drop_first()[j]).0
                                == q && spec_classify(
                                entries.drop_first()[j].0,
                                stats.drop_first()[j],
                            ) is Valid;
                        assert(entries[j + 1].0 == q && spec_classify(
                            entries[j + 1].0,
                            stats[j + 1],
                        ) is Valid);
                    }
                },
                _ => {
                    assert(contains_id(rest.kept, q));
                    let j = choose|j: int|
                        0 <= j < entries.drop_first().len() && (#[trigger] entries.drop_first()[j]).0
                            == q && spec_classify(
                            entries.drop_first()[j].0,
                            stats.drop_first()[j],
                        ) is Valid;
                    assert(entries[j + 1].0 == q && spec_classify(
                        entries[j + 1].0,
                        stats[j + 1],
                    ) is Valid);
                },
            }
        }
    }
}

/// With no identifier mismatch anywhere, nothing is queued for
/// re-registration.
proof fn lemma_recon_no_readds(entries: Seq<EntryModel>, stats: Seq<StatusModel>)
    requires
        entries.len() == stats.len(),
        forall|j: int|
            0 <= j < entries.len() ==> !(spec_classify((#[trigger] entries[j]).0, stats[j])
                is Reregister),
    ensures
        recon_scan(entries, stats).readds =~= Seq::<EntryModel>::empty(),
    decreases entries.len(),
{
    if entries.len() > 0 {
        assert(forall|k: int|
            0 <= k < entries.drop_first().len() ==> (#[trigger] entries.drop_first()[k])
                == entries[k + 1]);
        assert(forall|k: int|
            0 <= k < stats.drop_first().len() ==> (#[trigger] stats.drop_first()[k]) == stats[k
                + 1]);
        assert(!(spec_classify(entries[0].0, stats[0]) is Reregister));
        lemma_recon_no_readds(entries.drop_first(), stats.drop_first());
    }
}

/// With exactly one identifier mismatch, exactly one re-registration is
/// queued: the declared identifier at the old path.
proof fn lemma_recon_single_readd(
    entries: Seq<EntryModel>,
    stats: Seq<StatusModel>,
    i: int,
    new_id: Seq<char>,
)
    requires
        entries.len() == stats.len(),
        0 <= i < entries.len(),
        spec_classify(entries[i].0, stats[i]) == ClassModel::Reregister(new_id),
        forall|j: int|
            0 <= j < entries.len() && j != i ==> !(spec_classify(
                (#[trigger] entries[j]).0,
                stats[j],
            ) is Reregister),
    ensures
        recon_scan(entries, stats).readds =~= seq![(new_id, entries[i].1)],
    decreases i,
{
    assert(forall|k: int|
        0 <= k < entries.drop_first().len() ==> (#[trigger] entries.drop_first()[k]) == entries[k
            + 1]);
    assert(forall|k: int|
        0 <= k < stats.drop_first().len() ==> (#[trigger] stats.drop_first()[k]) == stats[k + 1]);
    if i == 0 {
        lemma_recon_no_readds(entries.drop_first(), stats.drop_first());
    } else {
        assert(!(spec_classify(entries[0].0, stats[0]) is Reregister));
        lemma_recon_single_readd(entries.drop_first(), stats.drop_first(), i - 1, new_id);
    }
}

/// An entry classified for removal raises the removal count.
proof fn lemma_recon_removed_pos(entries: Seq<EntryModel>, stats: Seq<StatusModel>, i: int)
    requires
        entries.len() == stats.len(),
        0 <= i < entries.len(),
        !(spec_classify(entries[i].0, stats[i]) is Valid),
    ensures
        recon_scan(entries, stats).removed >= 1,
    decreases i,
{
    assert(forall|k: int|
        0 <= k < entries.drop_first().len() ==> (#[trigger] entries.drop_first()[k]) == entries[k
            + 1]);
    assert(forall|k: int|
        0 <= k < stats.drop_first().len() ==> (#[trigger] stats.drop_first()[k]) == stats[k + 1]);
    lemma_recon_counts_nonneg(entries.drop_first(), stats.drop_first());
    if i == 0 {
    } else {
        lemma_recon_removed_pos(entries.drop_first(), stats.drop_first(), i - 1);
    }
}

/// A registered entry whose path no longer exists, or no longer looks like
/// a project, is gone after reconciliation and counted under `removed` —
/// provided no other entry re-registers the same identifier.
pub proof fn lemma_stale_entry_removed(entries: Seq<EntryModel>, stats: Seq<StatusModel>, i: int)
    requires
        unique_ids(entries),
        entries.len() == stats.len(),
        0 <= i < entries.len(),
        stats[i] is PathMissing || stats[i] is NotAProject,
        forall|j: int|
            0 <= j < entries.len() ==> !(spec_classify((#[trigger] entries[j]).0, stats[j])
                is Reregister),
    ensures
        !contains_id(spec_reconcile(entries, stats), entries[i].0),
        recon_scan(entries, stats).removed >= 1,
{
    let m = recon_scan(entries, stats);
    lemma_recon_no_readds(entries, stats);
    assert(spec_reconcile(entries, stats) == apply_adds(m.kept, m.readds));
    assert(apply_adds(m.kept, m.readds) == m.kept);
    lemma_recon_origin(entries, stats);
    if contains_id(m.kept, entries[i].0) {
        let j = choose|j: int|
            0 <= j < entries.len() && (#[trigger] entries[j]).0 == entries[i].0 && spec_classify(
                entries[j].0,
                stats[j],
            ) is Valid;
        if j < i {
            assert(entries[j].0 != entries[i].0);
        } else if j > i {
            assert(entries[i].0 != entries[j].0);
        }
        assert(j == i);
        assert(false);
    }
    lemma_recon_removed_pos(entries, stats, i);
}

/// A registered entry whose manifest declares another identifier is
/// re-registered under the declared identifier at its old path, and the old
/// identifier is gone — provided no other entry is itself re-registered.
pub proof fn lemma_id_mismatch_reregistered(
    entries: Seq<EntryModel>,
    stats: Seq<StatusModel>,
    i: int,
    new_id: Seq<char>,
)
    requires
        unique_ids(entries),
        entries.len() == stats.len(),
        0 <= i < entries.len(),
        stats[i] matches StatusModel::Readable(c) && extract_id(c) == Some(new_id),
        new_id != entries[i].0,
        forall|j: int|
            0 <= j < entries.len() && j != i ==> !(spec_classify(
                (#[trigger] entries[j]).0,
                stats[j],
            ) is Reregister),
    ensures
        !contains_id(spec_reconcile(entries, stats), entries[i].0),
        lookup(spec_reconcile(entries, stats), new_id) == Some(entries[i].1),
{
    let m = recon_scan(entries, stats);
    assert(spec_classify(entries[i].0, stats[i]) == ClassModel::Reregister(new_id));
    lemma_recon_single_readd(entries, stats, i, new_id);
    assert(m.readds =~= seq![(new_id, entries[i].1)]);
    let fin = spec_reconcile(entries, stats);
    assert(m.readds[0] == (new_id, entries[i].1));
    assert(m.readds.drop_first() =~= Seq::<EntryModel>::empty());
    assert(fin == apply_adds(m.kept, m.readds));
    assert(apply_adds(m.kept, m.readds) == apply_adds(
        spec_add(m.kept, new_id, entries[i].1),
        m.readds.drop_first(),
    ));
    assert(fin == spec_add(m.kept, new_id, entries[i].1));
    lemma_lookup_add(m.kept, new_id, entries[i].1, new_id);
    lemma_recon_kept_wf(entries, stats);
    lemma_add_unique(m.kept, new_id, entries[i].1);
    lemma_recon_origin(entries, stats);
    if contains_id(fin, entries[i].0) {
        assert(contains_id(m.kept, entries[i].0) || entries[i].0 == new_id);
        assert(contains_id(m.kept, entries[i].0));
        let j = choose|j: int|
            0 <= j < entries.len() && (#[trigger] entries[j]).0 == entries[i].0 && spec_classify(
                entries[j].0,
                stats[j],
            ) is Valid;
        if j < i {
            assert(entries[j].0 != entries[i].0);
        } else if j > i {
            assert(entries[i].0 != entries[j].0);
        }
        assert(j == i);
        assert(false);
    }
}

/// The verdict on a directory found during the discovery walk.
pub enum DiscoveryOutcome {
    /// A new project: registered and counted as added.
    Added,
    /// Already registered at this same path: nothing to do.
    AlreadyRegistered,
    /// Its identifier is registered at a different path: the existing
    /// registration is kept and the conflict reported.
    Conflict,
    /// Its manifest declares no identifier: not registrable.
    NoIdentifier,
}

/// Registers a discovered candidate project unless its identifier is
/// already taken: the first registration wins, a same-path rediscovery is a
/// no-op, and a manifest without an identifier is skipped.
pub fn register_discovered(reg: &mut Registry, content: &str, path: &str) -> (outcome:
    DiscoveryOutcome)
    requires
        old(reg).wf(),
    ensures
        final(reg).wf(),
        match extract_id(content@) {
            None => final(reg)@ == old(reg)@ && outcome is NoIdentifier,
            Some(id) => match lookup(old(reg)@, id) {
                None => final(reg)@ == spec_add(old(reg)@, id, path@) && outcome is Added,
                Some(p) => final(reg)@ == old(reg)@ && if p == path@ {
                    outcome is AlreadyRegistered
                } else {
                    outcome is Conflict
                },
            },
        },
{
    match extract_module_id(content) {
        Err(_) => DiscoveryOutcome::NoIdentifier,
        Ok(id) => {
            let registered = match reg.get_project_path(id.as_str()) {
                Some(existing) => Some(string_eq_str(existing, path)),
                None => None,
            };
            match registered {
                Some(true) => DiscoveryOutcome::AlreadyRegistered,
                Some(false) => DiscoveryOutcome::Conflict,
                None => {
                    reg.add_project(id, path.to_owned());
                    DiscoveryOutcome::Added
                },
            }
        },
    }
}

/// Whether the discovery walk should enter a directory: hidden names and
/// well-known build-output or dependency-cache directories are skipped, and
/// the walk keeps within three path components of its start.
pub fn should_descend(name: &str, relative_components: usize) -> (r: bool)
    ensures
        r == (!(name@.len() > 0 && name@[0] == '.') && name@ != "node_modules"@ && name@
            != "target"@ && name@ != "build"@ && relative_components <= 3),
{
    let v = crate::text::str_chars(name);
    if v.len() > 0 && v[0] == '.' {
        return false;
    }
    if crate::text::string_eq_str(&name.to_owned(), "node_modules") || crate::text::string_eq_str(
        &name.to_owned(),
        "target",
    ) || crate::text::string_eq_str(&name.to_owned(), "build") {
        return false;
    }
    relative_components <= 3
}

/// Corrects the registry to the current project's location: whatever was
/// registered under this identifier before, it now maps to the current
/// path (here the working tree wins over the registry). Reports whether a
/// correction was needed.
pub fn sync_registration(reg: &mut Registry, module_id: &str, current_path: &str) -> (changed:
    bool)
    requires
        old(reg).wf(),
    ensures
        final(reg).wf(),
        final(reg)@ == spec_add(old(reg)@, module_id@, current_path@),
        changed == (lookup(old(reg)@, module_id@) != Some(current_path@)),
{
    let ghost s = reg@;
    let needs_sync = match reg.get_project_path(module_id) {
        Some(registered) => !string_eq_str(registered, current_path),
        None => true,
    };
    if needs_sync {
        reg.add_project(module_id.to_owned(), current_path.to_owned());
    } else {
        proof {
            lemma_add_noop(s, module_id@, current_path@);
        }
    }
    needs_sync
}

/// Registering the path an identifier already maps to changes nothing.
proof fn lemma_add_noop(s: Seq<EntryModel>, id: Seq<char>, path: Seq<char>)
    requires
        lookup(s, id) == Some(path),
    ensures
        spec_add(s, id, path) =~= s,
    decreases s.len(),
{
    if s.len() > 0 {
        if s[0].0 == id {
            assert(spec_add(s, id, path) == seq![(id, path)] + s.drop_first());
            assert(s[0] == (id, path));
        } else {
            lemma_add_noop(s.drop_first(), id, path);
            assert(spec_add(s, id, path) == seq![s[0]] + spec_add(s.drop_first(), id, path));
        }
    }
}

/// Which operation a synchronization request selects.
pub enum SyncMode {
    /// Re-register the current project and upgrade its manifest version.
    UpgradeCurrent,
    /// Reconcile every registered project and discover new ones.
    FullSync,
}

/// Decides the synchronization mode from the command arguments: `-U` as
/// the first argument selects the current-project upgrade.
pub fn cmd_sync(args: &[String]) -> (m: SyncMode)
    ensures
        (m is UpgradeCurrent) == (args@.len() > 0 && args@[0]@ == "-U"@),
{
    if args.len() > 0 && string_eq_str(&args[0], "-U") {
        SyncMode::UpgradeCurrent
    } else {
        SyncMode::FullSync
    }
}

/// Confirms the two markers that make a directory a project; the failure
/// names the missing one.
pub fn validate_project(has_manifest: bool, has_marker_dir: bool) -> (r: Result<(), String>)
    ensures
        if !has_manifest {
            r matches Err(e) && e@ == "Required file missing: module.prop"@
        } else if !has_marker_dir {
            r matches Err(e) && e@ == ".apmm directory not found"@
        } else {
            r is Ok
        },
{
    if !has_manifest {
        return Err("Required file missing: module.prop".to_owned());
    }
    if !has_marker_dir {
        return Err(".apmm directory not found".to_owned());
    }
    Ok(())
}

/// The completion message of a full synchronization.
pub fn sync_report(valid: usize, added: usize, removed: usize, total: usize) -> (r: String)
    requires
        valid + added + removed <= u64::MAX,
    ensures
        r@ == "Synchronized "@ + dec_of((valid + added + removed) as nat) + " projects (+"@
            + dec_of(added as nat) + " -"@ + dec_of(removed as nat) + " ="@ + dec_of(
            total as nat,
        ) + ")"@,
{
    let touched: u64 = valid as u64 + added as u64 + removed as u64;
    let mut s = "Synchronized ".to_owned();
    push_dec_u64(&mut s, touched);
    s.append(" projects (+");
    push_dec_u64(&mut s, added as u64);
    s.append(" -");
    push_dec_u64(&mut s, removed as u64);
    s.append(" =");
    push_dec_u64(&mut s, total as u64);
    s.append(")");
    proof {
        assert(s@ =~= "Synchronized "@ + dec_of((valid + added + removed) as nat)
            + " projects (+"@ + dec_of(added as nat) + " -"@ + dec_of(removed as nat) + " ="@
            + dec_of(total as nat) + ")"@);
    }
    s
}

} // verus!