//! The working-directory guard: which entries are allowed to be there before
//! generation starts, and what to do about the others.
use vstd::prelude::*;

use crate::error::MakerError;

verus! {

#[derive(Clone, Copy, Debug, PartialEq, Eq)]
pub enum EntryKind {
    Directory,
    File,
}

/// A direct child of the working directory, by its path as listed (`./name`).
#[derive(Clone, Debug, PartialEq, Eq)]
pub struct Entry {
    pub path: String,
    pub kind: EntryKind,
}

/// The directory of shared resources that generated units link into.
pub open spec fn share_dir() -> Seq<char> {
    "./share"@
}

/// The topology description.
pub open spec fn config_file() -> Seq<char> {
    "./config.json"@
}

/// Whether an entry is on the allow-list, by exact path equality: the shared
/// directory, the topology description, and the running executable
/// (`exe_name` is its file name).
pub open spec fn allowed(e: Entry, exe_name: Seq<char>) -> bool {
    match e.kind {
        EntryKind::Directory => e.path@ == share_dir(),
        EntryKind::File => e.path@ == config_file() || e.path@ == "./"@ + exe_name,
    }
}

/// The entries that are not allowed, in listing order.
pub open spec fn foreign(entries: Seq<Entry>, exe_name: Seq<char>) -> Seq<Entry>
    decreases entries.len(),
{
    if entries.len() == 0 {
        Seq::empty()
    } else {
        let rest = foreign(entries.drop_last(), exe_name);
        if allowed(entries.last(), exe_name) {
            rest
        } else {
            rest.push(entries.last())
        }
    }
}

/// The paths of some entries.
pub open spec fn paths(entries: Seq<Entry>) -> Seq<Seq<char>> {
    entries.map_values(|e: Entry| e.path@)
}

impl Entry {
    fn duplicate(&self) -> (r: Entry)
        ensures
            r == *self,
    {
        Entry { path: self.path.clone(), kind: self.kind }
    }

    /// The error for a failed removal of this entry.
    pub fn removal_error(&self) -> (r: MakerError)
        ensures
            r == (match self.kind {
                EntryKind::Directory => MakerError::RemoveDirectory { path: self.path },
                EntryKind::File => MakerError::RemoveFile { path: self.path },
            }),
    {
        match self.kind {
            EntryKind::Directory => MakerError::RemoveDirectory { path: self.path.clone() },
            EntryKind::File => MakerError::RemoveFile { path: self.path.clone() },
        }
    }
}

pub fn is_allowed(e: &Entry, exe_name: &str) -> (r: bool)
    ensures
        r == allowed(*e, exe_name@),
{
    match e.kind {
        EntryKind::Directory => e.path == String::from_str("./share"),
        EntryKind::File => {
            let mut own = String::from_str("./");
            own.append(exe_name);
            e.path == String::from_str("./config.json") || e.path == own
        },
    }
}

/// The entries that are not allowed, in listing order.
pub fn foreign_entries(entries: &Vec<Entry>, exe_name: &str) -> (r: Vec<Entry>)
    ensures
        r@ == foreign(entries@, exe_name@),
{
    let mut r: Vec<Entry> = Vec::new();
    let mut i: usize = 0;
    while i < entries.len()
        invariant
            i <= entries@.len(),
            r@ == foreign(entries@.subrange(0, i as int), exe_name@),
        decreases entries@.len() - i,
    {
        let e = &entries[i];
        assert(entries@.subrange(0, i + 1).drop_last() =~= entries@.subrange(0, i as int));
        if !is_allowed(e, exe_name) {
            r.push(e.duplicate());
        }
        i = i + 1;
    }
    assert(entries@.subrange(0, entries@.len() as int) =~= entries@);
    r
}

/// Decides whether generation may start. With no foreign entry the answer is
/// `Ok` with nothing to remove. Otherwise, without `force` it is `NotEmpty`
/// naming every foreign entry; with `force` it is `Ok` with every foreign
/// entry, to be removed in that order (directories non-recursively).
pub fn check_entries(entries: &Vec<Entry>, exe_name: &str, force: bool) -> (r: Result<Vec<Entry>, MakerError>)
    ensures
        r is Ok <==> (force || foreign(entries@, exe_name@).len() == 0),
        r is Ok ==> r->Ok_0@ == foreign(entries@, exe_name@),
        r is Err ==> (r->Err_0 matches MakerError::NotEmpty { entries: names } && names@.map_values(
            |s: String| s@,
        ) == paths(foreign(entries@, exe_name@))),
{
    let found = foreign_entries(entries, exe_name);
    if found.len() == 0 || force {
        return Ok(found);
    }
    let mut names: Vec<String> = Vec::new();
    let mut i: usize = 0;
    while i < found.len()
        invariant
            i <= found@.len(),
            names@.map_values(|s: String| s@) == paths(found@.subrange(0, i as int)),
        decreases found@.len() - i,
    {
        let ghost before = names@;
        let name = found[i].path.clone();
        names.push(name);
        assert(names@.map_values(|s: String| s@) =~= before.map_values(|s: String| s@).push(name@));
        assert(paths(found@.subrange(0, i + 1)) =~= paths(found@.subrange(0, i as int)).push(found@[i as int].path@));
        i = i + 1;
    }
    assert(found@.subrange(0, found@.len() as int) =~= found@);
    Err(MakerError::NotEmpty { entries: names })
}

proof fn lemma_foreign_members(entries: Seq<Entry>, exe_name: Seq<char>)
    ensures
        forall|e: Entry| #[trigger] foreign(entries, exe_name).contains(e) ==> entries.contains(e) && !allowed(e, exe_name),
        forall|i: int|
            0 <= i < entries.len() && !allowed(#[trigger] entries[i], exe_name) ==> foreign(entries, exe_name).contains(entries[i]),
    decreases entries.len(),
{
    if entries.len() > 0 {
        let n = entries.len() - 1;
        let init = entries.drop_last();
        let f = foreign(entries, exe_name);
        let fi = foreign(init, exe_name);
        lemma_foreign_members(init, exe_name);
        assert forall|e: Entry| #[trigger] f.contains(e) implies entries.contains(e) && !allowed(e, exe_name) by {
            let j = choose|j: int| 0 <= j < f.len() && f[j] == e;
            if j < fi.len() {
                assert(fi[j] == e);
                assert(fi.contains(e));
                let i = choose|i: int| 0 <= i < init.len() && init[i] == e;
                assert(entries[i] == e);
            } else {
                assert(entries[n] == e);
            }
        }
        assert forall|i: int| 0 <= i < entries.len() && !allowed(#[trigger] entries[i], exe_name) implies f.contains(entries[i]) by {
            if i < n {
                assert(init[i] == entries[i]);
                assert(fi.contains(entries[i]));
                let j = choose|j: int| 0 <= j < fi.len() && fi[j] == entries[i];
                assert(f[j] == entries[i]);
            } else {
                assert(f[f.len() - 1] == entries[i]);
            }
        }
    }
}

/// A working directory that holds only allowed entries (the shared directory,
/// the topology description, the executable) has no foreign entry, so the
/// guard lets generation start whatever `force` says, with nothing to remove.
pub proof fn lemma_allowed_only_passes(entries: Seq<Entry>, exe_name: Seq<char>)
    requires
        forall|i: int| 0 <= i < entries.len() ==> allowed(#[trigger] entries[i], exe_name),
    ensures
        foreign(entries, exe_name).len() == 0,
{
    lemma_foreign_members(entries, exe_name);
    if foreign(entries, exe_name).len() > 0 {
        let e = foreign(entries, exe_name)[0];
        assert(foreign(entries, exe_name).contains(e));
        let i = choose|i: int| 0 <= i < entries.len() && entries[i] == e;
        assert(allowed(entries[i], exe_name));
    }
}

/// When exactly one entry is not allowed, it is the only foreign entry: the
/// guard without `force` reports exactly its path, and with `force` removes
/// exactly it.
pub proof fn lemma_single_foreign_entry(entries: Seq<Entry>, exe_name: Seq<char>, k: int)
    requires
        0 <= k < entries.len(),
        !allowed(entries[k], exe_name),
        forall|i: int| 0 <= i < entries.len() && i != k ==> allowed(#[trigger] entries[i], exe_name),
    ensures
        foreign(entries, exe_name) == seq![entries[k]],
        paths(foreign(entries, exe_name)) == seq![entries[k].path@],
    decreases entries.len(),
{
    let init = entries.drop_last();
    if k == entries.len() - 1 {
        lemma_allowed_only_passes(init, exe_name);
        assert(foreign(init, exe_name) =~= Seq::<Entry>::empty());
    } else {
        lemma_single_foreign_entry(init, exe_name, k);
        assert(allowed(entries[entries.len() - 1], exe_name));
    }
    assert(foreign(entries, exe_name) =~= seq![entries[k]]);
    assert(paths(foreign(entries, exe_name)) =~= seq![entries[k].path@]);
}

/// Every run creates the `db` directory, and it is never on the allow-list: a
/// directory that already holds a generated layout has a foreign entry, so a
/// second run without `force` is refused rather than writing over it.
pub proof fn lemma_generated_layout_is_foreign(entries: Seq<Entry>, exe_name: Seq<char>, k: int)
    requires
        0 <= k < entries.len(),
        entries[k].kind is Directory,
        entries[k].path@ == "./db"@,
    ensures
        foreign(entries, exe_name).len() > 0,
{
    lemma_foreign_members(entries, exe_name);
    assert(!allowed(entries[k], exe_name)) by {
        reveal_strlit("./db");
        reveal_strlit("./share");
        assert("./db"@.len() != share_dir().len());
    }
    assert(foreign(entries, exe_name).contains(entries[k]));
}

} // verus!
