//! The metadata of a project: a table of texts in which a key occurs once.

use vstd::prelude::*;
use vstd::string::*;

verus! {

/// One entry of the metadata table.
#[derive(Debug, Clone, PartialEq, Eq)]
pub struct MetaEntry {
    pub key: String,
    pub value: String,
}

impl View for MetaEntry {
    type V = (Seq<char>, Seq<char>);

    open spec fn view(&self) -> (Seq<char>, Seq<char>) {
        (self.key@, self.value@)
    }
}

/// The key under which the style prompt is kept.
pub open spec fn style_key() -> Seq<char> {
    "style_prompt"@
}

/// The key under which the quality prompt is kept.
pub open spec fn quality_key() -> Seq<char> {
    "quality_prompt"@
}

/// The key under which the time of the last change is kept, in
/// milliseconds, as decimal text.
pub open spec fn modified_key() -> Seq<char> {
    "modified_at"@
}

/// The views of a list of entries.
pub open spec fn entry_views(entries: Seq<MetaEntry>) -> Seq<(Seq<char>, Seq<char>)> {
    Seq::new(entries.len(), |i: int| entries[i]@)
}

/// Whether some entry has the given key.
pub open spec fn has_key(entries: Seq<(Seq<char>, Seq<char>)>, key: Seq<char>) -> bool {
    exists|i: int| 0 <= i < entries.len() && (#[trigger] entries[i]).0 == key
}

/// Whether no key occurs in two entries.
pub open spec fn unique_keys(entries: Seq<(Seq<char>, Seq<char>)>) -> bool {
    forall|i: int, j: int|
        0 <= i < j < entries.len() ==> (#[trigger] entries[i]).0 != (#[trigger] entries[j]).0
}

/// The value kept under a key, if there is one.
pub open spec fn meta_get(entries: Seq<(Seq<char>, Seq<char>)>, key: Seq<char>) -> Option<
    Seq<char>,
> {
    if has_key(entries, key) {
        let i = choose|i: int| 0 <= i < entries.len() && (#[trigger] entries[i]).0 == key;
        Some(entries[i].1)
    } else {
        None
    }
}

/// The table after a value has been written under a key: the entry of that
/// key is replaced where it stands, a new key goes to the end.
pub open spec fn meta_set(
    entries: Seq<(Seq<char>, Seq<char>)>,
    key: Seq<char>,
    value: Seq<char>,
) -> Seq<(Seq<char>, Seq<char>)> {
    if has_key(entries, key) {
        Seq::new(
            entries.len(),
            |i: int|
                if entries[i].0 == key {
                    (key, value)
                } else {
                    entries[i]
                },
        )
    } else {
        entries.push((key, value))
    }
}

/// The table after an optional value has been written under a key; without
/// a value the table stays as it is.
pub open spec fn meta_set_opt(
    entries: Seq<(Seq<char>, Seq<char>)>,
    key: Seq<char>,
    value: Option<Seq<char>>,
) -> Seq<(Seq<char>, Seq<char>)> {
    match value {
        Some(v) => meta_set(entries, key, v),
        None => entries,
    }
}

/// In a table with unique keys, the value under a key is the value of the
/// one entry with that key.
pub proof fn lemma_meta_get_at(entries: Seq<(Seq<char>, Seq<char>)>, i: int)
    requires
        unique_keys(entries),
        0 <= i < entries.len(),
    ensures
        meta_get(entries, entries[i].0) == Some(entries[i].1),
{
    let key = entries[i].0;
    let k = choose|k: int| 0 <= k < entries.len() && (#[trigger] entries[k]).0 == key;
    if k < i {
        assert(entries[k].0 != entries[i].0);
    } else if i < k {
        assert(entries[i].0 != entries[k].0);
    }
}

/// Writing under a key keeps keys unique, makes the value the one read back
/// under that key, and leaves what is read under every other key.
pub proof fn lemma_meta_set(entries: Seq<(Seq<char>, Seq<char>)>, key: Seq<char>, value: Seq<char>)
    requires
        unique_keys(entries),
    ensures
        unique_keys(meta_set(entries, key, value)),
        meta_get(meta_set(entries, key, value), key) == Some(value),
        forall|other: Seq<char>|
            other != key ==> meta_get(meta_set(entries, key, value), other) == meta_get(
                entries,
                other,
            ),
{
    let out = meta_set(entries, key, value);
    if has_key(entries, key) {
        let k = choose|k: int| 0 <= k < entries.len() && (#[trigger] entries[k]).0 == key;
        assert(out[k] == (key, value));
        assert forall|i: int, j: int| 0 <= i < j < out.len() implies (#[trigger] out[i]).0 != (
        #[trigger] out[j]).0 by {
            assert(entries[i].0 != entries[j].0);
        }
        lemma_meta_get_at(out, k);
        assert forall|other: Seq<char>| other != key implies meta_get(out, other) == meta_get(
            entries,
            other,
        ) by {
            if has_key(entries, other) {
                let i = choose|i: int| 0 <= i < entries.len() && (#[trigger] entries[i]).0 == other;
                assert(out[i] == entries[i]);
                lemma_meta_get_at(out, i);
                lemma_meta_get_at(entries, i);
            } else {
                if has_key(out, other) {
                    let i = choose|i: int| 0 <= i < out.len() && (#[trigger] out[i]).0 == other;
                    assert(entries[i].0 == other);
                }
            }
        }
    } else {
        let n = entries.len() as int;
        assert(out[n] == (key, value));
        assert forall|i: int, j: int| 0 <= i < j < out.len() implies (#[trigger] out[i]).0 != (
        #[trigger] out[j]).0 by {
            if j == n {
                assert(entries[i].0 != key);
            } else {
                assert(entries[i].0 != entries[j].0);
            }
        }
        lemma_meta_get_at(out, n);
        assert forall|other: Seq<char>| other != key implies meta_get(out, other) == meta_get(
            entries,
            other,
        ) by {
            if has_key(entries, other) {
                let i = choose|i: int| 0 <= i < entries.len() && (#[trigger] entries[i]).0 == other;
                assert(out[i] == entries[i]);
                lemma_meta_get_at(out, i);
                lemma_meta_get_at(entries, i);
            } else {
                if has_key(out, other) {
                    let i = choose|i: int| 0 <= i < out.len() && (#[trigger] out[i]).0 == other;
                    assert(entries[i].0 == other);
                }
            }
        }
    }
}

/// Finds the entry of the given key.
pub fn find_entry(entries: &Vec<MetaEntry>, key: &str) -> (found: Option<usize>)
    ensures
        match found {
            Some(i) => i < entries.len() && entries[i as int].key@ == key@,
            None => !has_key(entry_views(entries@), key@),
        },
{
    let wanted = String::from_str(key);
    let mut i: usize = 0;
    while i < entries.len()
        invariant
            i <= entries.len(),
            wanted@ == key@,
            forall|j: int| 0 <= j < i ==> entries[j].key@ != key@,
        decreases entries.len() - i,
    {
        if entries[i].key == wanted {
            return Some(i);
        }
        i += 1;
    }
    proof {
        let views = entry_views(entries@);
        assert forall|j: int| 0 <= j < views.len() implies (#[trigger] views[j]).0 != key@ by {
            assert(views[j] == entries[j]@);
        }
    }
    None
}

/// Reads the value kept under a key.
pub fn get_entry(entries: &Vec<MetaEntry>, key: &str) -> (value: Option<String>)
    requires
        unique_keys(entry_views(entries@)),
    ensures
        crate::models::opt_text(value) == meta_get(entry_views(entries@), key@),
{
    match find_entry(entries, key) {
        Some(i) => {
            proof {
                let views = entry_views(entries@);
                assert(views[i as int] == entries[i as int]@);
                lemma_meta_get_at(views, i as int);
            }
            Some(entries[i].value.clone())
        },
        None => None,
    }
}

/// Writes a value under a key.
pub fn set_entry(entries: &mut Vec<MetaEntry>, key: &str, value: String)
    requires
        unique_keys(entry_views(old(entries)@)),
    ensures
        entry_views(final(entries)@) == meta_set(entry_views(old(entries)@), key@, value@),
        unique_keys(entry_views(final(entries)@)),
{
    let ghost before = entry_views(entries@);
    proof {
        lemma_meta_set(before, key@, value@);
    }
    let found = find_entry(entries, key);
    let entry = MetaEntry { key: String::from_str(key), value };
    match found {
        Some(i) => {
            proof {
                assert(before[i as int] == entries[i as int]@);
            }
            entries.set(i, entry);
            proof {
                let after = entry_views(entries@);
                let want = meta_set(before, key@, value@);
                assert forall|j: int| 0 <= j < after.len() implies after[j] == want[j] by {
                    if j != i {
                        assert(before[j] == old(entries)@[j]@);
                        if j < i {
                            assert(before[j].0 != before[i as int].0);
                        } else {
                            assert(before[i as int].0 != before[j].0);
                        }
                    }
                }
                assert(after =~= want);
            }
        },
        None => {
            entries.push(entry);
            proof {
                assert(entry_views(entries@) =~= before.push((key@, value@)));
            }
        },
    }
}

/// A copy of every entry of a table.
pub fn copy_entries(entries: &Vec<MetaEntry>) -> (copy: Vec<MetaEntry>)
    ensures
        entry_views(copy@) == entry_views(entries@),
{
    let mut copy: Vec<MetaEntry> = Vec::new();
    let mut i: usize = 0;
    while i < entries.len()
        invariant
            i <= entries.len(),
            copy.len() == i,
            forall|j: int| 0 <= j < i ==> copy[j]@ == entries[j]@,
        decreases entries.len() - i,
    {
        copy.push(MetaEntry { key: entries[i].key.clone(), value: entries[i].value.clone() });
        i += 1;
    }
    proof {
        assert(entry_views(copy@) =~= entry_views(entries@));
    }
    copy
}

} // verus!
