//! The configuration of a repository as keys with their values, read from
//! what `git config --null` prints.

use vstd::prelude::*;
use vstd::string::StrSliceExecFns;
use crate::text::{chars_of, first_index_of, lemma_first_index_of, lemma_first_index_of_unique};

verus! {

/// One key of the configuration with its value.
#[derive(Debug, PartialEq, Eq)]
pub struct ConfigEntry {
    pub key: String,
    pub value: String,
}

impl View for ConfigEntry {
    type V = (Seq<char>, Seq<char>);

    open spec fn view(&self) -> (Seq<char>, Seq<char>) {
        (self.key@, self.value@)
    }
}

impl DeepView for ConfigEntry {
    type V = (Seq<char>, Seq<char>);

    open spec fn deep_view(&self) -> (Seq<char>, Seq<char>) {
        self@
    }
}

impl Clone for ConfigEntry {
    fn clone(&self) -> (r: Self)
        ensures
            r == *self,
    {
        ConfigEntry { key: self.key.clone(), value: self.value.clone() }
    }
}

/// The entry that one record of the output holds: the key before the first
/// line break and the value after it. A record without a line break holds
/// none.
pub open spec fn record_entry(record: Seq<char>) -> Seq<(Seq<char>, Seq<char>)> {
    let j = first_index_of(record, '\n');
    if j < record.len() {
        seq![(record.subrange(0, j), record.subrange(j + 1, record.len() as int))]
    } else {
        seq![]
    }
}

/// The entries of `text`, whose records each end at a NUL character or at
/// the end of the text, in the order in which they stand.
pub open spec fn parsed(text: Seq<char>) -> Seq<(Seq<char>, Seq<char>)>
    decreases text.len(),
{
    if text.len() == 0 {
        seq![]
    } else {
        let i = first_index_of(text, '\0');
        let rest = if 0 <= i < text.len() {
            text.subrange(i + 1, text.len() as int)
        } else {
            seq![]
        };
        record_entry(text.subrange(0, i)) + parsed(rest)
    }
}

/// Reads the entries out of what `git config --null` printed.
pub fn parse_config(output: &str) -> (r: Vec<ConfigEntry>)
    ensures
        r.deep_view() == parsed(output@),
{
    let chars = chars_of(output);
    let n = chars.len();
    let mut out: Vec<ConfigEntry> = Vec::new();
    let mut start: usize = 0;
    proof {
        assert(output@.subrange(0, n as int) == output@);
        assert(out.deep_view() + parsed(output@) == parsed(output@));
    }
    while start < n
        invariant
            chars@ == output@,
            n == chars.len(),
            start <= n,
            parsed(output@) == out.deep_view() + parsed(output@.subrange(start as int, n as int)),
        decreases n - start,
    {
        let ghost text = output@.subrange(start as int, n as int);
        let mut end: usize = start;
        while end < n && chars[end] != '\0'
            invariant
                n == chars.len(),
                start <= end <= n,
                forall|j: int| start <= j < end ==> #[trigger] chars@[j] != '\0',
            decreases n - end,
        {
            end += 1;
        }
        let mut nl: usize = start;
        while nl < end && chars[nl] != '\n'
            invariant
                end <= chars.len(),
                start <= nl <= end,
                forall|j: int| start <= j < nl ==> #[trigger] chars@[j] != '\n',
            decreases end - nl,
        {
            nl += 1;
        }
        let ghost record = text.subrange(0, end - start);
        proof {
            assert forall|j: int| 0 <= j < end - start implies #[trigger] text[j] != '\0' by {
                assert(text[j] == chars@[start + j]);
            }
            lemma_first_index_of_unique(text, '\0', end - start);
            assert forall|j: int| 0 <= j < nl - start implies #[trigger] record[j] != '\n' by {
                assert(record[j] == chars@[start + j]);
            }
            lemma_first_index_of_unique(record, '\n', nl - start);
        }
        let ghost before = out.deep_view();
        if nl < end {
            let key = output.substring_char(start, nl).to_owned();
            let value = output.substring_char(nl + 1, end).to_owned();
            proof {
                assert(key@ == record.subrange(0, nl - start));
                assert(value@ == record.subrange(nl - start + 1, record.len() as int));
            }
            out.push(ConfigEntry { key, value });
            assert(out.deep_view() == before + record_entry(record));
        } else {
            assert(out.deep_view() == before + record_entry(record));
        }
        let next: usize = if end < n {
            end + 1
        } else {
            n
        };
        proof {
            let rest = if end - start < text.len() {
                text.subrange(end - start + 1, text.len() as int)
            } else {
                seq![]
            };
            assert(rest == output@.subrange(next as int, n as int));
            assert(parsed(text) == record_entry(record) + parsed(rest));
        }
        start = next;
    }
    proof {
        assert(output@.subrange(start as int, n as int).len() == 0);
        assert(out.deep_view() + Seq::<(Seq<char>, Seq<char>)>::empty() == out.deep_view());
    }
    out
}

/// The keys of `entries`, in their order.
pub open spec fn keys(entries: Seq<(Seq<char>, Seq<char>)>) -> Seq<Seq<char>> {
    Seq::new(entries.len(), |i: int| entries[i].0)
}

/// No key stands twice in `entries`.
pub open spec fn distinct_keys(entries: Seq<(Seq<char>, Seq<char>)>) -> bool {
    forall|i: int, j: int|
        0 <= i < j < entries.len() ==> (#[trigger] entries[i]).0 != (#[trigger] entries[j]).0
}

/// The value of the first entry of `entries` under `key`.
pub open spec fn lookup(entries: Seq<(Seq<char>, Seq<char>)>, key: Seq<char>) -> Option<
    Seq<char>,
> {
    let i = first_index_of(keys(entries), key);
    if 0 <= i < entries.len() {
        Some(entries[i].1)
    } else {
        None
    }
}

/// `entries` with `value` under `key`: in the place of the entry that had
/// the key, or at the end where none had it.
pub open spec fn assigned(
    entries: Seq<(Seq<char>, Seq<char>)>,
    key: Seq<char>,
    value: Seq<char>,
) -> Seq<(Seq<char>, Seq<char>)> {
    let i = first_index_of(keys(entries), key);
    if 0 <= i < entries.len() {
        entries.update(i, (key, value))
    } else {
        entries.push((key, value))
    }
}

/// `entries` without the first entry under `key`.
pub open spec fn removed(entries: Seq<(Seq<char>, Seq<char>)>, key: Seq<char>) -> Seq<
    (Seq<char>, Seq<char>),
> {
    let i = first_index_of(keys(entries), key);
    if 0 <= i < entries.len() {
        entries.remove(i)
    } else {
        entries
    }
}

/// What is left of `entries` when each is assigned in turn, so that a later
/// entry replaces the value of an earlier one with the same key.
pub open spec fn loaded(entries: Seq<(Seq<char>, Seq<char>)>) -> Seq<(Seq<char>, Seq<char>)>
    decreases entries.len(),
{
    if entries.len() == 0 {
        seq![]
    } else {
        assigned(loaded(entries.drop_last()), entries.last().0, entries.last().1)
    }
}

/// Assigning keeps the keys apart.
pub proof fn lemma_assigned_distinct(
    entries: Seq<(Seq<char>, Seq<char>)>,
    key: Seq<char>,
    value: Seq<char>,
)
    requires
        distinct_keys(entries),
    ensures
        distinct_keys(assigned(entries, key, value)),
{
    let ks = keys(entries);
    lemma_first_index_of(ks, key);
    let i = first_index_of(ks, key);
    let after = assigned(entries, key, value);
    assert forall|a: int, b: int| 0 <= a < b < after.len() implies (#[trigger] after[a]).0 != (
    #[trigger] after[b]).0 by {
        if i < entries.len() {
            assert(ks[i] == key);
            assert(entries[i].0 == key);
            assert(entries[a].0 != entries[b].0);
        } else {
            if b == entries.len() {
                assert(ks[a] != key);
            } else {
                assert(entries[a].0 != entries[b].0);
            }
        }
    }
}

/// Removing keeps the keys apart.
pub proof fn lemma_removed_distinct(entries: Seq<(Seq<char>, Seq<char>)>, key: Seq<char>)
    requires
        distinct_keys(entries),
    ensures
        distinct_keys(removed(entries, key)),
{
    let ks = keys(entries);
    lemma_first_index_of(ks, key);
    let i = first_index_of(ks, key);
    let after = removed(entries, key);
    assert forall|a: int, b: int| 0 <= a < b < after.len() implies (#[trigger] after[a]).0 != (
    #[trigger] after[b]).0 by {
        if i < entries.len() {
            let a0 = if a < i { a } else { a + 1 };
            let b0 = if b < i { b } else { b + 1 };
            assert(after[a] == entries[a0]);
            assert(after[b] == entries[b0]);
            assert(entries[a0].0 != entries[b0].0);
        }
    }
}

/// The configuration of one repository, in the order in which the keys
/// first came. One that was made by `new` or `load` and changed by `set`
/// and `unset` holds each key once.
#[derive(Debug, PartialEq, Eq)]
pub struct GitConfig {
    entries: Vec<ConfigEntry>,
}

impl View for GitConfig {
    type V = Seq<(Seq<char>, Seq<char>)>;

    closed spec fn view(&self) -> Seq<(Seq<char>, Seq<char>)> {
        self.entries.deep_view()
    }
}

impl Clone for GitConfig {
    fn clone(&self) -> (r: Self)
        ensures
            r@ == self@,
    {
        let mut entries: Vec<ConfigEntry> = Vec::new();
        let mut i: usize = 0;
        while i < self.entries.len()
            invariant
                i <= self.entries.len(),
                entries.deep_view() == self.entries.deep_view().subrange(0, i as int),
            decreases self.entries.len() - i,
        {
            let ghost before = entries.deep_view();
            entries.push(self.entries[i].clone());
            assert(entries.deep_view() == before.push(self.entries[i as int]@));
            i += 1;
        }
        assert(entries.deep_view() == self.entries.deep_view());
        GitConfig { entries }
    }
}

impl GitConfig {
    /// A configuration without entries.
    pub fn new() -> (r: Self)
        ensures
            r@ == Seq::<(Seq<char>, Seq<char>)>::empty(),
            distinct_keys(r@),
    {
        let entries: Vec<ConfigEntry> = Vec::new();
        assert(entries.deep_view() == Seq::<(Seq<char>, Seq<char>)>::empty());
        GitConfig { entries }
    }

    /// The configuration that `git config --null` printed as `output`.
    pub fn load(output: &str) -> (r: Self)
        ensures
            r@ == loaded(parsed(output@)),
            distinct_keys(r@),
    {
        let parsed_entries = parse_config(output);
        let mut config = GitConfig::new();
        let mut i: usize = 0;
        while i < parsed_entries.len()
            invariant
                i <= parsed_entries.len(),
                config@ == loaded(parsed_entries.deep_view().subrange(0, i as int)),
                distinct_keys(config@),
            decreases parsed_entries.len() - i,
        {
            let ghost upto = parsed_entries.deep_view().subrange(0, i + 1);
            proof {
                assert(upto.drop_last() == parsed_entries.deep_view().subrange(0, i as int));
                assert(upto.last() == parsed_entries[i as int]@);
            }
            config.set(parsed_entries[i].key.as_str(), parsed_entries[i].value.as_str());
            i += 1;
        }
        assert(parsed_entries.deep_view().subrange(0, i as int) == parsed_entries.deep_view());
        config
    }

    /// How many keys the configuration holds.
    pub fn len(&self) -> (r: usize)
        ensures
            r == self@.len(),
    {
        self.entries.len()
    }

    /// The entry at place `i`.
    pub fn entry(&self, i: usize) -> (r: &ConfigEntry)
        requires
            i < self@.len(),
        ensures
            r@ == self@[i as int],
    {
        &self.entries[i]
    }

    fn position(&self, key: &str) -> (r: usize)
        ensures
            r == first_index_of(keys(self@), key@),
            r <= self@.len(),
    {
        let wanted = key.to_owned();
        let mut i: usize = 0;
        while i < self.entries.len() && self.entries[i].key != wanted
            invariant
                i <= self.entries.len(),
                wanted@ == key@,
                forall|j: int| 0 <= j < i ==> #[trigger] keys(self@)[j] != key@,
            decreases self.entries.len() - i,
        {
            i += 1;
        }
        proof {
            lemma_first_index_of_unique(keys(self@), key@, i as int);
        }
        i
    }

    /// The value under `key`, if the configuration holds the key.
    pub fn get(&self, key: &str) -> (r: Option<&str>)
        ensures
            r.deep_view() == lookup(self@, key@),
    {
        let i = self.position(key);
        if i < self.entries.len() {
            Some(self.entries[i].value.as_str())
        } else {
            None
        }
    }

    /// Puts `value` under `key`, in place of the value that the key had.
    pub fn set(&mut self, key: &str, value: &str)
        ensures
            final(self)@ == assigned(old(self)@, key@, value@),
            distinct_keys(old(self)@) ==> distinct_keys(final(self)@),
    {
        proof {
            if distinct_keys(self@) {
                lemma_assigned_distinct(self@, key@, value@);
            }
        }
        let i = self.position(key);
        let entry = ConfigEntry { key: key.to_owned(), value: value.to_owned() };
        let ghost before = self.entries.deep_view();
        if i < self.entries.len() {
            self.entries.set(i, entry);
            assert(self.entries.deep_view() == before.update(i as int, (key@, value@)));
        } else {
            self.entries.push(entry);
            assert(self.entries.deep_view() == before.push((key@, value@)));
        }
    }

    /// Takes `key` out; says whether the configuration held it.
    pub fn unset(&mut self, key: &str) -> (r: bool)
        ensures
            final(self)@ == removed(old(self)@, key@),
            r == lookup(old(self)@, key@) is Some,
            distinct_keys(old(self)@) ==> distinct_keys(final(self)@),
    {
        proof {
            if distinct_keys(self@) {
                lemma_removed_distinct(self@, key@);
            }
        }
        let i = self.position(key);
        let ghost before = self.entries.deep_view();
        if i < self.entries.len() {
            self.entries.remove(i);
            assert(self.entries.deep_view() == before.remove(i as int));
            true
        } else {
            false
        }
    }
}

} // verus!
