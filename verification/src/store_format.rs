//! The text format of the remembered-saves file, as mathematical functions
//! over character sequences, and the facts about it that the store relies on.
//!
//! The file holds one entry per line, `rom_name TAB save_path`. A line is
//! what `str::lines` yields: the text up to a `'\n'`, without a `'\r'` just
//! before that `'\n'`; the last line needs no `'\n'`.
use vstd::prelude::*;

verus! {

/// The first index `i >= from` with `s[i] == c`, or `s.len()` if there is none.
pub open spec fn find_char(s: Seq<char>, c: char, from: int) -> int
    decreases s.len() - from,
{
    if from >= s.len() {
        s.len() as int
    } else if s[from] == c {
        from
    } else {
        find_char(s, c, from + 1)
    }
}

/// `l` without one trailing carriage return.
pub open spec fn strip_cr(l: Seq<char>) -> Seq<char> {
    if l.len() > 0 && l.last() == '\r' {
        l.drop_last()
    } else {
        l
    }
}

/// The lines of `s` that start at or after index `from` (where `from` is the
/// start of a line).
pub open spec fn lines_from(s: Seq<char>, from: int) -> Seq<Seq<char>>
    decreases s.len() - from,
{
    if from < 0 || from >= s.len() {
        Seq::empty()
    } else {
        let j = find_char(s, '\n', from);
        if j >= s.len() {
            seq![s.subrange(from, s.len() as int)]
        } else {
            proof {
                lemma_find_char_bounds(s, '\n', from);
            }
            seq![strip_cr(s.subrange(from, j))] + lines_from(s, j + 1)
        }
    }
}

/// The lines of `s`.
pub open spec fn lines_of(s: Seq<char>) -> Seq<Seq<char>> {
    lines_from(s, 0)
}

/// A line split at its first tab into key and value; `None` without a tab.
pub open spec fn split_tab(l: Seq<char>) -> Option<(Seq<char>, Seq<char>)> {
    let t = find_char(l, '\t', 0);
    if t >= l.len() {
        None
    } else {
        Some((l.subrange(0, t), l.subrange(t + 1, l.len() as int)))
    }
}

/// The first index `i >= from` whose entry has key `k`, or `es.len()`.
pub open spec fn key_index_from(es: Seq<(Seq<char>, Seq<char>)>, k: Seq<char>, from: int) -> int
    decreases es.len() - from,
{
    if from < 0 || from >= es.len() {
        es.len() as int
    } else if es[from].0 == k {
        from
    } else {
        key_index_from(es, k, from + 1)
    }
}

/// The index of the entry with key `k`, or `es.len()` if none has it.
pub open spec fn key_index(es: Seq<(Seq<char>, Seq<char>)>, k: Seq<char>) -> int {
    key_index_from(es, k, 0)
}

/// The value stored under `k`.
pub open spec fn lookup(es: Seq<(Seq<char>, Seq<char>)>, k: Seq<char>) -> Option<Seq<char>> {
    let i = key_index(es, k);
    if i < es.len() {
        Some(es[i].1)
    } else {
        None
    }
}

/// Inserting into an association list: an existing key gets the new value in
/// place, a new key is appended.
pub open spec fn assoc_insert(es: Seq<(Seq<char>, Seq<char>)>, k: Seq<char>, v: Seq<char>) -> Seq<
    (Seq<char>, Seq<char>),
> {
    let i = key_index(es, k);
    if i < es.len() {
        es.update(i, (k, v))
    } else {
        es.push((k, v))
    }
}

/// No key occurs twice.
pub open spec fn distinct_keys(es: Seq<(Seq<char>, Seq<char>)>) -> bool {
    forall|i: int, j: int| 0 <= i < j < es.len() ==> es[i].0 != es[j].0
}

/// The entries that the lines `ls` describe, in order of first appearance;
/// a later line for the same key replaces the value, lines without a tab are
/// ignored.
pub open spec fn entries_of_lines(ls: Seq<Seq<char>>) -> Seq<(Seq<char>, Seq<char>)>
    decreases ls.len(),
{
    if ls.len() == 0 {
        Seq::empty()
    } else {
        let prev = entries_of_lines(ls.drop_last());
        match split_tab(ls.last()) {
            Some(kv) => assoc_insert(prev, kv.0, kv.1),
            None => prev,
        }
    }
}

/// The entries that the file text `content` holds.
pub open spec fn parsed_entries(content: Seq<char>) -> Seq<(Seq<char>, Seq<char>)> {
    entries_of_lines(lines_of(content))
}

/// One entry as the text of its line.
pub open spec fn entry_text(e: (Seq<char>, Seq<char>)) -> Seq<char> {
    e.0 + seq!['\t'] + e.1
}

/// The file text for `es`: each entry on a line of its own, in order.
pub open spec fn render(es: Seq<(Seq<char>, Seq<char>)>) -> Seq<char>
    decreases es.len(),
{
    if es.len() == 0 {
        Seq::empty()
    } else {
        render(es.drop_last()) + entry_text(es.last()) + seq!['\n']
    }
}

/// `es` with one trailing carriage return taken off each value.
pub open spec fn strip_values(es: Seq<(Seq<char>, Seq<char>)>) -> Seq<(Seq<char>, Seq<char>)> {
    es.map_values(|e: (Seq<char>, Seq<char>)| (e.0, strip_cr(e.1)))
}

/// Keys hold no tab and no newline, values no newline: the entries that the
/// format can carry.
pub open spec fn storable(es: Seq<(Seq<char>, Seq<char>)>) -> bool {
    forall|i: int|
        0 <= i < es.len() ==> {
            &&& !(#[trigger] es[i]).0.contains('\t')
            &&& !es[i].0.contains('\n')
            &&& !es[i].1.contains('\n')
        }
}

pub proof fn lemma_find_char_bounds(s: Seq<char>, c: char, from: int)
    requires
        0 <= from,
    ensures
        from <= s.len() ==> from <= find_char(s, c, from) <= s.len(),
        from > s.len() ==> find_char(s, c, from) == s.len(),
        find_char(s, c, from) < s.len() ==> s[find_char(s, c, from)] == c,
        forall|k: int| from <= k < find_char(s, c, from) ==> s[k] != c,
    decreases s.len() - from,
{
    if from < s.len() && s[from] != c {
        lemma_find_char_bounds(s, c, from + 1);
    }
}

/// `find_char` is the first index of `c` at or after `from`.
pub proof fn lemma_find_char_is(s: Seq<char>, c: char, from: int, j: int)
    requires
        0 <= from <= j <= s.len(),
        forall|k: int| from <= k < j ==> s[k] != c,
        j == s.len() || s[j] == c,
    ensures
        find_char(s, c, from) == j,
    decreases j - from,
{
    if from < j {
        lemma_find_char_is(s, c, from + 1, j);
    }
}

pub proof fn lemma_key_index_bounds(es: Seq<(Seq<char>, Seq<char>)>, k: Seq<char>, from: int)
    requires
        0 <= from,
    ensures
        from <= es.len() ==> from <= key_index_from(es, k, from) <= es.len(),
        from > es.len() ==> key_index_from(es, k, from) == es.len(),
        key_index_from(es, k, from) < es.len() ==> es[key_index_from(es, k, from)].0 == k,
        forall|i: int| from <= i < key_index_from(es, k, from) ==> es[i].0 != k,
    decreases es.len() - from,
{
    if from < es.len() && es[from].0 != k {
        lemma_key_index_bounds(es, k, from + 1);
    }
}

/// `key_index_from` is the first index at or after `from` that holds `k`.
pub proof fn lemma_key_index_is(es: Seq<(Seq<char>, Seq<char>)>, k: Seq<char>, from: int, j: int)
    requires
        0 <= from <= j <= es.len(),
        forall|i: int| from <= i < j ==> es[i].0 != k,
        j == es.len() || es[j].0 == k,
    ensures
        key_index_from(es, k, from) == j,
    decreases j - from,
{
    if from < j {
        lemma_key_index_is(es, k, from + 1, j);
    }
}


/// Every line has no newline in it.
pub proof fn lemma_lines_have_no_newline(s: Seq<char>, from: int)
    ensures
        forall|i: int|
            0 <= i < lines_from(s, from).len() ==> !(#[trigger] lines_from(s, from)[i]).contains(
                '\n',
            ),
    decreases s.len() - from,
{
    if 0 <= from < s.len() {
        let j = find_char(s, '\n', from);
        lemma_find_char_bounds(s, '\n', from);
        if j < s.len() {
            lemma_lines_have_no_newline(s, j + 1);
            let sub = s.subrange(from, j);
            assert(!sub.contains('\n')) by {
                if sub.contains('\n') {
                    let k = choose|k: int| 0 <= k < sub.len() && sub[k] == '\n';
                    assert(s[from + k] == '\n');
                }
            }
            assert(!strip_cr(sub).contains('\n')) by {
                if strip_cr(sub).contains('\n') {
                    let k = choose|k: int| 0 <= k < strip_cr(sub).len() && strip_cr(sub)[k] == '\n';
                    assert(sub[k] == '\n');
                }
            }
            let ls = lines_from(s, from);
            assert forall|i: int| 0 <= i < ls.len() implies !(#[trigger] ls[i]).contains('\n') by {
                if i > 0 {
                    assert(ls[i] == lines_from(s, j + 1)[i - 1]);
                }
            }
        } else {
            let sub = s.subrange(from, s.len() as int);
            assert(!sub.contains('\n')) by {
                if sub.contains('\n') {
                    let k = choose|k: int| 0 <= k < sub.len() && sub[k] == '\n';
                    assert(s[from + k] == '\n');
                }
            }
        }
    }
}

/// What `split_tab` gives back comes from the line, and the key holds no tab.
pub proof fn lemma_split_tab_parts(l: Seq<char>)
    ensures
        split_tab(l) matches Some(kv) ==> {
            &&& !kv.0.contains('\t')
            &&& !l.contains('\n') ==> !kv.0.contains('\n') && !kv.1.contains('\n')
        },
{
    lemma_find_char_bounds(l, '\t', 0);
    let t = find_char(l, '\t', 0);
    if t < l.len() {
        let k = l.subrange(0, t);
        let v = l.subrange(t + 1, l.len() as int);
        assert(!k.contains('\t')) by {
            if k.contains('\t') {
                let i = choose|i: int| 0 <= i < k.len() && k[i] == '\t';
                assert(l[i] == '\t');
            }
        }
        if !l.contains('\n') {
            assert(!k.contains('\n')) by {
                if k.contains('\n') {
                    let i = choose|i: int| 0 <= i < k.len() && k[i] == '\n';
                    assert(l[i] == '\n');
                }
            }
            assert(!v.contains('\n')) by {
                if v.contains('\n') {
                    let i = choose|i: int| 0 <= i < v.len() && v[i] == '\n';
                    assert(l[t + 1 + i] == '\n');
                }
            }
        }
    }
}

/// Inserting keeps the keys distinct and the entries storable.
pub proof fn lemma_assoc_insert_keeps(es: Seq<(Seq<char>, Seq<char>)>, k: Seq<char>, v: Seq<char>)
    ensures
        distinct_keys(es) ==> distinct_keys(assoc_insert(es, k, v)),
        storable(es) && !k.contains('\t') && !k.contains('\n') && !v.contains('\n') ==> storable(
            assoc_insert(es, k, v),
        ),
        lookup(assoc_insert(es, k, v), k) == Some(v),
        forall|k2: Seq<char>|
            k2 != k ==> #[trigger] lookup(assoc_insert(es, k, v), k2) == lookup(es, k2),
{
    lemma_key_index_bounds(es, k, 0);
    let i = key_index(es, k);
    let es2 = assoc_insert(es, k, v);
    if i < es.len() {
        lemma_key_index_bounds(es2, k, 0);
        lemma_key_index_is(es2, k, 0, i);
    } else {
        lemma_key_index_is(es2, k, 0, es.len() as int);
    }
    assert forall|k2: Seq<char>| k2 != k implies #[trigger] lookup(es2, k2) == lookup(es, k2) by {
        lemma_key_index_bounds(es, k2, 0);
        let j = key_index(es, k2);
        if j < es.len() {
            lemma_key_index_is(es2, k2, 0, j);
        } else {
            lemma_key_index_is(es2, k2, 0, es2.len() as int);
        }
    }
    if storable(es) && !k.contains('\t') && !k.contains('\n') && !v.contains('\n') {
        assert forall|m: int| 0 <= m < es2.len() implies {
            &&& !(#[trigger] es2[m]).0.contains('\t')
            &&& !es2[m].0.contains('\n')
            &&& !es2[m].1.contains('\n')
        } by {
            if m < es.len() && m != i {
                assert(es2[m] == es[m]);
            }
        }
    }
}

/// The entries read from any lines have distinct keys; read from lines
/// without newlines they are storable.
pub proof fn lemma_entries_of_lines_props(ls: Seq<Seq<char>>)
    ensures
        distinct_keys(entries_of_lines(ls)),
        (forall|i: int| 0 <= i < ls.len() ==> !(#[trigger] ls[i]).contains('\n')) ==> storable(
            entries_of_lines(ls),
        ),
    decreases ls.len(),
{
    if ls.len() > 0 {
        lemma_entries_of_lines_props(ls.drop_last());
        let prev = entries_of_lines(ls.drop_last());
        lemma_split_tab_parts(ls.last());
        if forall|i: int| 0 <= i < ls.len() ==> !(#[trigger] ls[i]).contains('\n') {
            assert(!ls[ls.len() - 1].contains('\n'));
            assert forall|i: int| 0 <= i < ls.drop_last().len() implies !(
            #[trigger] ls.drop_last()[i]).contains('\n') by {
                assert(ls.drop_last()[i] == ls[i]);
            }
        }
        match split_tab(ls.last()) {
            Some(kv) => {
                lemma_assoc_insert_keeps(prev, kv.0, kv.1);
            },
            None => {},
        }
    }
}

/// The entries read from any text have distinct keys and are storable.
pub proof fn lemma_parsed_entries_props(content: Seq<char>)
    ensures
        distinct_keys(parsed_entries(content)),
        storable(parsed_entries(content)),
{
    lemma_lines_have_no_newline(content, 0);
    lemma_entries_of_lines_props(lines_of(content));
}


/// Searching in `a + b` past `a` is searching in `b`.
pub proof fn lemma_find_char_shift(a: Seq<char>, b: Seq<char>, c: char, from: int)
    requires
        0 <= from,
    ensures
        find_char(a + b, c, a.len() + from) == a.len() + find_char(b, c, from),
    decreases b.len() - from,
{
    if from < b.len() {
        assert((a + b)[a.len() + from] == b[from]);
        if b[from] != c {
            lemma_find_char_shift(a, b, c, from + 1);
        }
    }
}

/// The lines of `a + b` past `a` are the lines of `b`.
pub proof fn lemma_lines_shift(a: Seq<char>, b: Seq<char>, from: int)
    requires
        0 <= from,
    ensures
        lines_from(a + b, a.len() + from) == lines_from(b, from),
    decreases b.len() - from,
{
    if from < b.len() {
        let ab = a + b;
        lemma_find_char_shift(a, b, '\n', from);
        lemma_find_char_bounds(b, '\n', from);
        let j = find_char(b, '\n', from);
        if j < b.len() {
            lemma_lines_shift(a, b, j + 1);
            assert(ab.subrange(a.len() + from, a.len() + j) =~= b.subrange(from, j));
        } else {
            assert(ab.subrange(a.len() + from, ab.len() as int) =~= b.subrange(
                from,
                b.len() as int,
            ));
        }
    }
}

/// Text that ends a line can be read on its own: the lines of `a + b` are
/// those of `a` followed by those of `b`.
pub proof fn lemma_lines_concat(a: Seq<char>, b: Seq<char>, from: int)
    requires
        a.len() == 0 || a.last() == '\n',
        0 <= from <= a.len(),
    ensures
        lines_from(a + b, from) == lines_from(a, from) + lines_from(b, 0),
    decreases a.len() - from,
{
    let ab = a + b;
    if from == a.len() {
        lemma_lines_shift(a, b, 0);
        assert(lines_from(a, from) + lines_from(b, 0) =~= lines_from(b, 0));
    } else {
        lemma_find_char_bounds(a, '\n', from);
        let j = find_char(a, '\n', from);
        assert(j < a.len()) by {
            if j >= a.len() {
                assert(a[a.len() - 1] == '\n');
            }
        }
        assert forall|k: int| from <= k < j implies ab[k] != '\n' by {
            assert(ab[k] == a[k]);
        }
        lemma_find_char_is(ab, '\n', from, j);
        lemma_lines_concat(a, b, j + 1);
        assert(ab.subrange(from, j) =~= a.subrange(from, j));
        assert(lines_from(a + b, from) =~= lines_from(a, from) + lines_from(b, 0));
    }
}

/// A single line ended by a newline.
pub proof fn lemma_lines_single(t: Seq<char>)
    requires
        !t.contains('\n'),
    ensures
        lines_of(t + seq!['\n']) == seq![strip_cr(t)],
{
    let s = t + seq!['\n'];
    assert forall|k: int| 0 <= k < t.len() implies s[k] != '\n' by {
        assert(s[k] == t[k]);
        if t[k] == '\n' {
            assert(t.contains('\n'));
        }
    }
    lemma_find_char_is(s, '\n', 0, t.len() as int);
    assert(s.subrange(0, t.len() as int) =~= t);
    assert(lines_from(s, t.len() as int + 1) == Seq::<Seq<char>>::empty());
}

/// The line that `render` writes for an entry, as `lines_of` reads it back.
pub open spec fn line_read_back(e: (Seq<char>, Seq<char>)) -> Seq<char> {
    strip_cr(entry_text(e))
}

/// Rendered text reads back as one line per entry.
pub proof fn lemma_lines_of_render(es: Seq<(Seq<char>, Seq<char>)>)
    requires
        storable(es),
    ensures
        lines_of(render(es)) == es.map_values(|e: (Seq<char>, Seq<char>)| line_read_back(e)),
    decreases es.len(),
{
    if es.len() == 0 {
        assert(lines_of(render(es)) =~= es.map_values(
            |e: (Seq<char>, Seq<char>)| line_read_back(e),
        ));
    } else {
        let dl = es.drop_last();
        assert(storable(dl)) by {
            assert forall|i: int| 0 <= i < dl.len() implies {
                &&& !(#[trigger] dl[i]).0.contains('\t')
                &&& !dl[i].0.contains('\n')
                &&& !dl[i].1.contains('\n')
            } by {
                assert(dl[i] == es[i]);
            }
        }
        lemma_lines_of_render(dl);
        let e = es.last();
        assert(!es[es.len() - 1].0.contains('\n'));
        let t = entry_text(e);
        assert(!t.contains('\n')) by {
            if t.contains('\n') {
                let k = choose|k: int| 0 <= k < t.len() && t[k] == '\n';
                if k < e.0.len() {
                    assert(e.0[k] == '\n');
                } else if k > e.0.len() {
                    assert(e.1[k - e.0.len() - 1] == '\n');
                }
            }
        }
        let a = render(dl);
        assert(render(es) =~= a + (t + seq!['\n']));
        lemma_lines_concat(a, t + seq!['\n'], 0);
        lemma_lines_single(t);
        assert(lines_of(render(es)) =~= es.map_values(
            |e: (Seq<char>, Seq<char>)| line_read_back(e),
        ));
    }
}

/// A rendered line splits back into its key and its value (the value
/// without a trailing carriage return).
pub proof fn lemma_split_read_back(e: (Seq<char>, Seq<char>))
    requires
        !e.0.contains('\t'),
    ensures
        split_tab(line_read_back(e)) == Some((e.0, strip_cr(e.1))),
{
    let k = e.0;
    let l = line_read_back(e);
    assert(l =~= k + seq!['\t'] + strip_cr(e.1));
    assert forall|i: int| 0 <= i < k.len() implies l[i] != '\t' by {
        assert(l[i] == k[i]);
        if k[i] == '\t' {
            assert(k.contains('\t'));
        }
    }
    lemma_find_char_is(l, '\t', 0, k.len() as int);
    assert(l.subrange(0, k.len() as int) =~= k);
    assert(l.subrange(k.len() as int + 1, l.len() as int) =~= strip_cr(e.1));
}

/// Reading back the lines of distinct, storable entries gives the entries,
/// each value without a trailing carriage return.
pub proof fn lemma_entries_of_read_back(es: Seq<(Seq<char>, Seq<char>)>)
    requires
        distinct_keys(es),
        storable(es),
    ensures
        entries_of_lines(es.map_values(|e: (Seq<char>, Seq<char>)| line_read_back(e)))
            == strip_values(es),
    decreases es.len(),
{
    let ls = es.map_values(|e: (Seq<char>, Seq<char>)| line_read_back(e));
    if es.len() == 0 {
        assert(strip_values(es) =~= Seq::<(Seq<char>, Seq<char>)>::empty());
    } else {
        let dl = es.drop_last();
        assert(storable(dl)) by {
            assert forall|i: int| 0 <= i < dl.len() implies {
                &&& !(#[trigger] dl[i]).0.contains('\t')
                &&& !dl[i].0.contains('\n')
                &&& !dl[i].1.contains('\n')
            } by {
                assert(dl[i] == es[i]);
            }
        }
        lemma_entries_of_read_back(dl);
        assert(ls.drop_last() =~= dl.map_values(|e: (Seq<char>, Seq<char>)| line_read_back(e)));
        let e = es.last();
        assert(!es[es.len() - 1].0.contains('\t'));
        lemma_split_read_back(e);
        let prev = strip_values(dl);
        assert forall|i: int| 0 <= i < prev.len() implies prev[i].0 != e.0 by {
            assert(prev[i].0 == es[i].0);
            assert(es[es.len() - 1].0 == e.0);
        }
        lemma_key_index_is(prev, e.0, 0, prev.len() as int);
        assert(strip_values(es) =~= prev.push((e.0, strip_cr(e.1))));
    }
}

/// Writing distinct, storable entries and reading the text back gives the
/// same entries, except that a value loses one trailing carriage return.
pub proof fn law_store_round_trip(es: Seq<(Seq<char>, Seq<char>)>)
    requires
        distinct_keys(es),
        storable(es),
    ensures
        parsed_entries(render(es)) == strip_values(es),
{
    lemma_lines_of_render(es);
    lemma_entries_of_read_back(es);
}

} // verus!
