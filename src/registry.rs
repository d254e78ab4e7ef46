use vstd::prelude::*;
use crate::naming::{pid_file_name, pid_suffix};

verus! {

/// What a scan of the base directory reports of one entry.
pub struct DirEntry {
    pub file_name: String,
    pub is_file: bool,
}

pub open spec fn entry_view(e: DirEntry) -> (Seq<char>, bool) {
    (e.file_name@, e.is_file)
}

pub open spec fn entries_view(entries: Seq<DirEntry>) -> Seq<(Seq<char>, bool)> {
    entries.map_values(|e: DirEntry| entry_view(e))
}

pub open spec fn strings_view(v: Seq<String>) -> Seq<Seq<char>> {
    v.map_values(|s: String| s@)
}

/// The daemon that a directory entry records: a regular file whose name ends
/// in `.pid`, with that suffix taken off.
pub open spec fn listed_name(file_name: Seq<char>, is_file: bool) -> Option<Seq<char>> {
    let n = file_name.len();
    if is_file && n >= 4 && file_name.subrange(n - 4, n as int) == pid_suffix() {
        Some(file_name.subrange(0, n - 4))
    } else {
        None
    }
}

/// The daemons that a directory scan records, in the scan's order.
pub open spec fn listed(entries: Seq<(Seq<char>, bool)>) -> Seq<Seq<char>>
    decreases entries.len(),
{
    if entries.len() == 0 {
        Seq::empty()
    } else {
        let rest = listed(entries.drop_last());
        match listed_name(entries.last().0, entries.last().1) {
            Some(n) => rest.push(n),
            None => rest,
        }
    }
}

/// The daemon name that a directory entry records, if any.
pub fn daemon_name_of(file_name: &str, is_file: bool) -> (r: Option<String>)
    ensures
        r matches Some(s) ==> listed_name(file_name@, is_file) == Some(s@),
        r is None ==> listed_name(file_name@, is_file) is None,
{
    let n = file_name.unicode_len();
    if !is_file || n < 4 {
        return None;
    }
    let ghost tail = file_name@.subrange(n - 4, n as int);
    if file_name.get_char(n - 4) == '.' && file_name.get_char(n - 3) == 'p'
        && file_name.get_char(n - 2) == 'i' && file_name.get_char(n - 1) == 'd' {
        assert(tail =~= pid_suffix());
        let stem = file_name.substring_char(0, n - 4);
        Some(String::from_str(stem))
    } else {
        assert(tail[0] != '.' || tail[1] != 'p' || tail[2] != 'i' || tail[3] != 'd');
        assert(tail != pid_suffix());
        None
    }
}

/// The daemons known to the registry, given the entries of the base directory.
/// A stale PID file is listed too: listing does not probe liveness.
pub fn list_daemons(entries: &Vec<DirEntry>) -> (r: Vec<String>)
    ensures
        strings_view(r@) == listed(entries_view(entries@)),
{
    let mut out: Vec<String> = Vec::new();
    let mut i: usize = 0;
    while i < entries.len()
        invariant
            i <= entries@.len(),
            strings_view(out@) == listed(entries_view(entries@.subrange(0, i as int))),
        decreases entries@.len() - i,
    {
        let e = &entries[i];
        let found = daemon_name_of(e.file_name.as_str(), e.is_file);
        let ghost before = entries_view(entries@.subrange(0, i as int));
        let ghost after = entries_view(entries@.subrange(0, i + 1));
        assert(after.drop_last() =~= before);
        assert(after.last() == entry_view(*e));
        match found {
            Some(s) => {
                out.push(s);
                assert(strings_view(out@) =~= listed(after));
            },
            None => {
                assert(strings_view(out@) =~= listed(after));
            },
        }
        i += 1;
    }
    assert(entries@.subrange(0, entries@.len() as int) =~= entries@);
    out
}

/// The PID file of a daemon is listed under that daemon's name.
pub proof fn lemma_pid_file_lists_name(name: Seq<char>)
    ensures
        listed_name(pid_file_name(name), true) == Some(name),
{
    let f = pid_file_name(name);
    assert(f.subrange(f.len() - 4, f.len() as int) =~= pid_suffix());
    assert(f.subrange(0, f.len() - 4) =~= name);
}

/// An entry is listed under `name` only if it is the regular file `<name>.pid`.
pub proof fn lemma_listed_name_only_from_pid_file(f: Seq<char>, is_file: bool, name: Seq<char>)
    ensures
        listed_name(f, is_file) == Some(name) ==> f == pid_file_name(name) && is_file,
{
    if listed_name(f, is_file) == Some(name) {
        assert(f =~= f.subrange(0, f.len() - 4) + f.subrange(f.len() - 4, f.len() as int));
    }
}

/// Every name that the listing holds comes from some entry of the scan.
pub proof fn lemma_listed_from_entry(entries: Seq<(Seq<char>, bool)>, name: Seq<char>)
    ensures
        listed(entries).contains(name) ==> exists|i: int|
            0 <= i < entries.len() && listed_name(#[trigger] entries[i].0, entries[i].1) == Some(
                name,
            ),
    decreases entries.len(),
{
    if entries.len() > 0 && listed(entries).contains(name) {
        let rest = entries.drop_last();
        let last = entries.len() - 1;
        if listed_name(entries[last].0, entries[last].1) != Some(name) {
            let k = choose|k: int| 0 <= k < listed(entries).len() && listed(entries)[k] == name;
            assert(listed(rest).contains(name)) by {
                match listed_name(entries.last().0, entries.last().1) {
                    Some(n) => {
                        assert(listed(entries) == listed(rest).push(n));
                        assert(k < listed(rest).len());
                        assert(listed(rest)[k] == name);
                    },
                    None => {},
                }
            }
            lemma_listed_from_entry(rest, name);
            let i = choose|i: int|
                0 <= i < rest.len() && listed_name(#[trigger] rest[i].0, rest[i].1) == Some(name);
            assert(entries[i] == rest[i]);
        }
    }
}

/// A scan that holds `<name>.pid` as a regular file lists `name`; a scan in which
/// no entry is named `<name>.pid` does not.
pub proof fn lemma_listed_iff_pid_file(entries: Seq<(Seq<char>, bool)>, name: Seq<char>)
    ensures
        entries.contains((pid_file_name(name), true)) ==> listed(entries).contains(name),
        (forall|i: int| 0 <= i < entries.len() ==> (#[trigger] entries[i]).0 != pid_file_name(name))
            ==> !listed(entries).contains(name),
    decreases entries.len(),
{
    lemma_pid_file_lists_name(name);
    if entries.len() > 0 {
        let rest = entries.drop_last();
        lemma_listed_iff_pid_file(rest, name);
        if entries.contains((pid_file_name(name), true)) {
            let j = choose|j: int| 0 <= j < entries.len() && entries[j] == (pid_file_name(name), true);
            if j < entries.len() - 1 {
                assert(rest[j] == entries[j]);
                assert(rest.contains((pid_file_name(name), true)));
            }
            match listed_name(entries.last().0, entries.last().1) {
                Some(n) => {
                    assert(listed(entries) == listed(rest).push(n));
                    if j < entries.len() - 1 {
                        let k = choose|k: int| 0 <= k < listed(rest).len() && listed(rest)[k] == name;
                        assert(listed(entries)[k] == name);
                    } else {
                        assert(listed(entries)[listed(rest).len() as int] == name);
                    }
                },
                None => {},
            }
        }
    }
    if listed(entries).contains(name) {
        lemma_listed_from_entry(entries, name);
        let i = choose|i: int|
            0 <= i < entries.len() && listed_name(#[trigger] entries[i].0, entries[i].1) == Some(name);
        lemma_listed_name_only_from_pid_file(entries[i].0, entries[i].1, name);
    }
}

} // verus!
