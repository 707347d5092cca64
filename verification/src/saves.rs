//! The remembered save file of each ROM.
//!
//! Where the file system cannot be browsed, the save that the user last
//! loaded for a ROM is remembered, keyed by the ROM's file name, and offered
//! again the next time that ROM is opened. The mapping lives in a plain text
//! file of `rom_name TAB save_path` lines (see `store_format`). Reading and
//! writing that file is left to the caller: this module turns its text into
//! a store, updates the store, and turns it back into text.
use vstd::prelude::*;

use crate::store_format::{
    assoc_insert, distinct_keys, entries_of_lines, key_index, lemma_assoc_insert_keeps,
    lemma_find_char_is, lemma_key_index_bounds, lemma_key_index_is, lemma_parsed_entries_props,
    law_store_round_trip, lines_from, lines_of, lookup, parsed_entries, render, strip_cr,
    strip_values,
};
use crate::text::{chars_of, push_char, string_of};

verus! {

/// The ROM-name to save-path associations, in order of first insertion.
pub struct SaveStore {
    entries: Vec<(String, String)>,
}

/// What has to happen to the file after the store changed.
pub enum StoreUpdate {
    /// The store is empty: the file is removed.
    RemoveFile,
    /// The file gets this text.
    WriteFile(String),
}

impl View for SaveStore {
    type V = Seq<(Seq<char>, Seq<char>)>;

    closed spec fn view(&self) -> Seq<(Seq<char>, Seq<char>)> {
        self.entries@.map_values(|e: (String, String)| (e.0@, e.1@))
    }
}

impl SaveStore {
    #[verifier::type_invariant]
    spec fn keys_are_distinct(self) -> bool {
        distinct_keys(self@)
    }

    /// An empty store.
    pub fn new() -> (store: SaveStore)
        ensures
            store@ == Seq::<(Seq<char>, Seq<char>)>::empty(),
    {
        let store = SaveStore { entries: Vec::new() };
        assert(store@ =~= Seq::<(Seq<char>, Seq<char>)>::empty());
        store
    }

    /// The number of entries.
    pub fn len(&self) -> (n: usize)
        ensures
            n == self@.len(),
    {
        self.entries.len()
    }

    /// The position of the entry for `key`, or the number of entries.
    fn position(&self, key: &String) -> (i: usize)
        ensures
            i == key_index(self@, key@),
    {
        let mut i: usize = 0;
        while i < self.entries.len()
            invariant
                i <= self.entries@.len(),
                forall|j: int| 0 <= j < i ==> self@[j].0 != key@,
            decreases self.entries@.len() - i,
        {
            if self.entries[i].0 == *key {
                proof {
                    lemma_key_index_is(self@, key@, 0, i as int);
                }
                return i;
            }
            i = i + 1;
        }
        proof {
            lemma_key_index_is(self@, key@, 0, i as int);
        }
        i
    }

    /// The save path remembered under `key`.
    pub fn get(&self, key: &String) -> (value: Option<String>)
        ensures
            match value {
                Some(v) => lookup(self@, key@) == Some(v@),
                None => lookup(self@, key@) is None,
            },
    {
        let i = self.position(key);
        if i < self.entries.len() {
            Some(self.entries[i].1.clone())
        } else {
            None
        }
    }

    /// Remembers `value` under `key`, replacing what was there.
    pub fn insert(&mut self, key: String, value: String)
        ensures
            final(self)@ == assoc_insert(old(self)@, key@, value@),
    {
        proof {
            use_type_invariant(&*self);
        }
        let i = self.position(&key);
        let ghost k = key@;
        let ghost v = value@;
        proof {
            lemma_key_index_bounds(self@, k, 0);
            lemma_assoc_insert_keeps(self@, k, v);
        }
        let ghost before = self@;
        let mut entries: Vec<(String, String)> = Vec::new();
        std::mem::swap(&mut entries, &mut self.entries);
        if i < entries.len() {
            entries.set(i, (key, value));
        } else {
            entries.push((key, value));
        }
        assert(entries@.map_values(|e: (String, String)| (e.0@, e.1@)) =~= assoc_insert(
            before,
            k,
            v,
        ));
        self.entries = entries;
    }

    /// The file text for the store: one `key TAB value` line per entry, in
    /// order.
    pub fn to_text(&self) -> (text: String)
        ensures
            text@ == render(self@),
    {
        let mut text = String::new();
        let mut i: usize = 0;
        while i < self.entries.len()
            invariant
                i <= self.entries@.len(),
                text@ == render(self@.take(i as int)),
            decreases self.entries@.len() - i,
        {
            text.append(self.entries[i].0.as_str());
            push_char(&mut text, '\t');
            text.append(self.entries[i].1.as_str());
            push_char(&mut text, '\n');
            assert(self@.take(i + 1).drop_last() =~= self@.take(i as int));
            i = i + 1;
        }
        assert(self@.take(i as int) =~= self@);
        text
    }
}

/// Reads the store from the file text `content`.
pub fn load(content: &str) -> (store: SaveStore)
    ensures
        store@ == parsed_entries(content@),
{
    let chars = chars_of(content);
    let ghost s = content@;
    let n = chars.len();
    let mut store = SaveStore::new();
    let mut pos: usize = 0;
    let ghost mut done: Seq<Seq<char>> = Seq::empty();
    while pos < n
        invariant
            chars@ == s,
            n == s.len(),
            pos <= n,
            lines_of(s) == done + lines_from(s, pos as int),
            store@ == entries_of_lines(done),
        decreases n - pos,
    {
        // The end of this line.
        let mut j = pos;
        while j < n && chars[j] != '\n'
            invariant
                chars@ == s,
                n == s.len(),
                pos <= j <= n,
                forall|k: int| pos <= k < j ==> s[k] != '\n',
            decreases n - j,
        {
            j = j + 1;
        }
        proof {
            lemma_find_char_is(s, '\n', pos as int, j as int);
        }
        let line_end = if j < n && j > pos && chars[j - 1] == '\r' {
            j - 1
        } else {
            j
        };
        let ghost line = s.subrange(pos as int, line_end as int);
        assert(line == if j < n {
            strip_cr(s.subrange(pos as int, j as int))
        } else {
            s.subrange(pos as int, n as int)
        });
        // The first tab of this line.
        let mut t = pos;
        while t < line_end && chars[t] != '\t'
            invariant
                chars@ == s,
                n == s.len(),
                pos <= t <= line_end <= n,
                forall|k: int| pos <= k < t ==> s[k] != '\t',
            decreases line_end - t,
        {
            t = t + 1;
        }
        proof {
            lemma_find_char_is(line, '\t', 0, t - pos);
        }
        if t < line_end {
            let key = string_of(&chars, pos, t);
            let value = string_of(&chars, t + 1, line_end);
            assert(key@ == line.subrange(0, t - pos));
            assert(value@ == line.subrange(t - pos + 1, line.len() as int));
            store.insert(key, value);
        }
        let next = if j < n {
            j + 1
        } else {
            n
        };
        proof {
            let rest = lines_from(s, next as int);
            assert(lines_from(s, pos as int) == seq![line] + rest);
            assert(done + lines_from(s, pos as int) =~= done.push(line) + rest);
            assert(done.push(line).drop_last() =~= done);
            done = done.push(line);
        }
        pos = next;
    }
    proof {
        assert(done + lines_from(s, pos as int) =~= done);
    }
    store
}


/// The file name of the path `path`, as `std::path::Path::file_name` reads it
/// (by the path rules of the platform the library is built for), as text.
pub uninterp spec fn path_file_name(path: Seq<char>) -> Option<Seq<char>>;

/// `std::path::Path::file_name` on `path`, converted to a `String`. The
/// result is named by `path_file_name`; nothing more is claimed of it.
#[verifier::external_body]
fn file_name(path: &str) -> (name: Option<String>)
    ensures
        match name {
            Some(n) => path_file_name(path@) == Some(n@),
            None => path_file_name(path@) is None,
        },
{
    match std::path::Path::new(path).file_name() {
        Some(n) => Some(n.to_string_lossy().into_owned()),
        None => None,
    }
}

/// The key under which the save of the ROM at `rom` is remembered: the ROM's
/// file name, or the empty text when the path has none.
pub open spec fn rom_key(rom: Seq<char>) -> Seq<char> {
    match path_file_name(rom) {
        Some(n) => n,
        None => Seq::empty(),
    }
}

/// The key for the ROM at `rom` (its file name; empty if it has none).
pub fn key_for(rom: &str) -> (key: String)
    ensures
        key@ == rom_key(rom@),
{
    match file_name(rom) {
        Some(n) => n,
        None => String::new(),
    }
}

/// What to do with the file so that it holds `store`: remove it when the
/// store is empty, else write the store's text.
pub fn save(store: &SaveStore) -> (update: StoreUpdate)
    ensures
        store@.len() == 0 ==> update is RemoveFile,
        store@.len() > 0 ==> (update matches StoreUpdate::WriteFile(t) && t@ == render(store@)),
{
    if store.len() == 0 {
        StoreUpdate::RemoveFile
    } else {
        StoreUpdate::WriteFile(store.to_text())
    }
}

/// Remembers `save_path` as the save of the ROM at `rom`, given the current
/// file text `content` (empty when the file cannot be read). Returns what to
/// do with the file, or `None` when the ROM path has no file name and
/// nothing is remembered.
pub fn remember(content: &str, rom: &str, save_path: &str) -> (update: Option<StoreUpdate>)
    ensures
        rom_key(rom@).len() == 0 ==> update is None,
        rom_key(rom@).len() > 0 ==> (update matches Some(StoreUpdate::WriteFile(t)) && t@ == render(
            assoc_insert(parsed_entries(content@), rom_key(rom@), save_path@),
        )),
{
    let key = key_for(rom);
    if key.as_str().is_empty() {
        return None;
    }
    let mut store = load(content);
    let ghost k = key@;
    store.insert(key, String::from_str(save_path));
    proof {
        // The store is not empty after the insertion.
        lemma_key_index_bounds(parsed_entries(content@), k, 0);
    }
    Some(save(&store))
}

/// The save path last remembered for the ROM at `rom`, given the file text
/// `content`; `None` when the ROM path has no file name or nothing is
/// remembered for it. (Whether that save still exists on disk is for the
/// caller to find out.)
pub fn for_rom(content: &str, rom: &str) -> (save_path: Option<String>)
    ensures
        rom_key(rom@).len() == 0 ==> save_path is None,
        rom_key(rom@).len() > 0 ==> match save_path {
            Some(p) => lookup(parsed_entries(content@), rom_key(rom@)) == Some(p@),
            None => lookup(parsed_entries(content@), rom_key(rom@)) is None,
        },
{
    let key = key_for(rom);
    if key.as_str().is_empty() {
        return None;
    }
    let store = load(content);
    store.get(&key)
}

/// A ROM name that can be written as a key, and a save path that reads back
/// unchanged.
pub open spec fn can_remember(key: Seq<char>, save_path: Seq<char>) -> bool {
    &&& !key.contains('\t')
    &&& !key.contains('\n')
    &&& !save_path.contains('\n')
    &&& !(save_path.len() > 0 && save_path.last() == '\r')
}

/// After remembering `save_path` under `key` in the file text `content`,
/// reading the written text back finds `save_path` for `key`.
pub proof fn law_remember_then_for_rom(content: Seq<char>, key: Seq<char>, save_path: Seq<char>)
    requires
        can_remember(key, save_path),
    ensures
        lookup(parsed_entries(render(assoc_insert(parsed_entries(content), key, save_path))), key)
            == Some(save_path),
{
    let es = assoc_insert(parsed_entries(content), key, save_path);
    lemma_parsed_entries_props(content);
    lemma_assoc_insert_keeps(parsed_entries(content), key, save_path);
    law_store_round_trip(es);
    lemma_lookup_strip_values(es, key);
}

/// Remembering a save for `key` leaves what is found for any other ROM as it
/// was (a value loses at most one trailing carriage return).
pub proof fn law_remember_keeps_others(
    content: Seq<char>,
    key: Seq<char>,
    save_path: Seq<char>,
    other: Seq<char>,
)
    requires
        can_remember(key, save_path),
        other != key,
    ensures
        lookup(parsed_entries(render(assoc_insert(parsed_entries(content), key, save_path))), other)
            == match lookup(parsed_entries(content), other) {
            Some(v) => Some(strip_cr(v)),
            None => None,
        },
{
    let es = assoc_insert(parsed_entries(content), key, save_path);
    lemma_parsed_entries_props(content);
    lemma_assoc_insert_keeps(parsed_entries(content), key, save_path);
    assert(lookup(es, other) == lookup(parsed_entries(content), other));
    law_store_round_trip(es);
    lemma_lookup_strip_values(es, other);
}

/// Looking up in `strip_values(es)` finds the stripped value.
pub proof fn lemma_lookup_strip_values(es: Seq<(Seq<char>, Seq<char>)>, k: Seq<char>)
    ensures
        lookup(strip_values(es), k) == match lookup(es, k) {
            Some(v) => Some(strip_cr(v)),
            None => None,
        },
{
    let st = strip_values(es);
    lemma_key_index_bounds(es, k, 0);
    let i = key_index(es, k);
    assert forall|j: int| 0 <= j < i implies st[j].0 != k by {
        assert(st[j].0 == es[j].0);
    }
    lemma_key_index_is(st, k, 0, i);
}

} // verus!
