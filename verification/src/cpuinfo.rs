//! The key/value table of `/proc/cpuinfo` and its parser.

use vstd::prelude::*;

use crate::text::{
    chars_equal, chars_of, find_char, first_index_of, lemma_first_index_of,
    lemma_first_index_of_concat, lemma_first_index_of_is, lemma_lines_concat, lemma_run_length_is,
    run_length, skip_run, spec_lines, split_lines, string_from_range, view_lines,
};

verus! {

// ---------------------------------------------------------------------------
// The table
// ---------------------------------------------------------------------------

/// The map whose entries are `keys[i] -> values[i]`, later entries winning.
pub open spec fn map_of(keys: Seq<Seq<char>>, values: Seq<Seq<char>>) -> Map<Seq<char>, Seq<char>>
    decreases keys.len(),
{
    if keys.len() == 0 || values.len() == 0 {
        Map::empty()
    } else {
        map_of(keys.drop_last(), values.drop_last()).insert(keys.last(), values.last())
    }
}

pub open spec fn distinct(keys: Seq<Seq<char>>) -> bool {
    forall|i: int, j: int| 0 <= i < keys.len() && 0 <= j < keys.len() && i != j ==> keys[i] != keys[j]
}

proof fn lemma_map_of_dom(keys: Seq<Seq<char>>, values: Seq<Seq<char>>, k: Seq<char>)
    requires
        keys.len() == values.len(),
    ensures
        map_of(keys, values).contains_key(k) <==> keys.contains(k),
    decreases keys.len(),
{
    if keys.len() > 0 {
        lemma_map_of_dom(keys.drop_last(), values.drop_last(), k);
        if keys.drop_last().contains(k) {
            let i = choose|i: int| 0 <= i < keys.drop_last().len() && keys.drop_last()[i] == k;
            assert(keys[i] == k);
        }
        if keys.contains(k) && k != keys.last() {
            let i = choose|i: int| 0 <= i < keys.len() && keys[i] == k;
            assert(keys.drop_last()[i] == k);
        }
        if k == keys.last() {
            assert(keys[keys.len() - 1] == k);
        }
    }
}

proof fn lemma_map_of_index(keys: Seq<Seq<char>>, values: Seq<Seq<char>>, i: int)
    requires
        keys.len() == values.len(),
        distinct(keys),
        0 <= i < keys.len(),
    ensures
        map_of(keys, values).contains_key(keys[i]),
        map_of(keys, values)[keys[i]] == values[i],
    decreases keys.len(),
{
    if i < keys.len() - 1 {
        lemma_map_of_index(keys.drop_last(), values.drop_last(), i);
        assert(keys.drop_last()[i] == keys[i]);
        assert(keys[i] != keys[keys.len() - 1]);
    }
}

proof fn lemma_map_of_update(
    keys: Seq<Seq<char>>,
    values: Seq<Seq<char>>,
    i: int,
    v: Seq<char>,
)
    requires
        keys.len() == values.len(),
        distinct(keys),
        0 <= i < keys.len(),
    ensures
        map_of(keys, values.update(i, v)) == map_of(keys, values).insert(keys[i], v),
    decreases keys.len(),
{
    let n = keys.len() - 1;
    if i == n {
        assert(values.update(i, v).drop_last() =~= values.drop_last());
        assert(map_of(keys, values.update(i, v)) =~= map_of(keys, values).insert(keys[i], v));
    } else {
        lemma_map_of_update(keys.drop_last(), values.drop_last(), i, v);
        assert(values.update(i, v).drop_last() =~= values.drop_last().update(i, v));
        assert(keys.drop_last()[i] == keys[i]);
        assert(keys[i] != keys[n]);
        assert(map_of(keys, values.update(i, v)) =~= map_of(keys, values).insert(keys[i], v));
    }
}

/// What a lookup of `key` in `table` gives.
pub open spec fn spec_lookup(table: Map<Seq<char>, Seq<char>>, key: Seq<char>) -> Option<Seq<char>> {
    if table.contains_key(key) {
        Some(table[key])
    } else {
        None
    }
}

/// A table of text keys and text values, each key at most once.
pub struct CpuInfoMap {
    keys: Vec<String>,
    values: Vec<String>,
}

impl View for CpuInfoMap {
    type V = Map<Seq<char>, Seq<char>>;

    closed spec fn view(&self) -> Map<Seq<char>, Seq<char>> {
        map_of(self.key_views(), self.value_views())
    }
}

impl CpuInfoMap {
    pub closed spec fn key_views(&self) -> Seq<Seq<char>> {
        self.keys@.map_values(|s: String| s@)
    }

    pub closed spec fn value_views(&self) -> Seq<Seq<char>> {
        self.values@.map_values(|s: String| s@)
    }

    #[verifier::type_invariant]
    spec fn inv(&self) -> bool {
        &&& self.keys@.len() == self.values@.len()
        &&& distinct(self.key_views())
    }


    /// An empty table.
    pub fn new() -> (res: Self)
        ensures
            res.view() == Map::<Seq<char>, Seq<char>>::empty(),
    {
        let res = CpuInfoMap { keys: Vec::new(), values: Vec::new() };
        assert(res.key_views() =~= Seq::<Seq<char>>::empty());
        res
    }

    /// Number of keys in the table.
    pub fn len(&self) -> (res: usize)
        ensures
            res == self.view().dom().len(),
    {
        proof {
            use_type_invariant(self);
            self.lemma_dom_len();
        }
        self.keys.len()
    }

    proof fn lemma_dom_len(&self)
        requires
            self.inv(),
        ensures
            self.view().dom().len() == self.keys@.len(),
            self.view().dom().finite(),
    {
        let kv = self.key_views();
        assert forall|k: Seq<char>| self.view().contains_key(k) <==> kv.to_set().contains(k) by {
            lemma_map_of_dom(kv, self.value_views(), k);
        }
        assert(self.view().dom() =~= kv.to_set());
        kv.unique_seq_to_set();
    }

    /// Position of `key` among the keys, if it is there.
    fn position(&self, key: &Vec<char>) -> (res: Option<usize>)
        ensures
            match res {
                Some(i) => i < self.keys@.len() && self.key_views()[i as int] == key@,
                None => !self.key_views().contains(key@),
            },
    {
        let mut i: usize = 0;
        while i < self.keys.len()
            invariant
                i <= self.keys@.len(),
                forall|j: int| 0 <= j < i ==> self.key_views()[j] != key@,
            decreases self.keys@.len() - i,
        {
            let k = chars_of(self.keys[i].as_str());
            if chars_equal(&k, key) {
                return Some(i);
            }
            i += 1;
        }
        None
    }

    /// The value stored for `key`, if any.
    pub fn get(&self, key: &str) -> (res: Option<&String>)
        ensures
            match res {
                Some(v) => spec_lookup(self.view(), key@) == Some(v@),
                None => spec_lookup(self.view(), key@) is None,
            },
    {
        proof {
            use_type_invariant(self);
        }
        let k = chars_of(key);
        proof {
            lemma_map_of_dom(self.key_views(), self.value_views(), key@);
        }
        match self.position(&k) {
            Some(i) => {
                proof {
                    lemma_map_of_index(self.key_views(), self.value_views(), i as int);
                }
                Some(&self.values[i])
            },
            None => None,
        }
    }

    /// Stores `value` under `key`, replacing what was there.
    pub fn insert(&mut self, key: String, value: String)
        ensures
            final(self).view() == old(self).view().insert(key@, value@),
    {
        proof {
            use_type_invariant(&*self);
        }
        let k = chars_of(key.as_str());
        let pos = self.position(&k);
        let ghost old_keys = self.key_views();
        let ghost old_values = self.value_views();
        let mut taken = CpuInfoMap::new();
        std::mem::swap(self, &mut taken);
        let CpuInfoMap { mut keys, mut values } = taken;
        assert(keys@.map_values(|s: String| s@) == old_keys);
        assert(values@.map_values(|s: String| s@) == old_values);
        match pos {
            Some(i) => {
                proof {
                    lemma_map_of_update(old_keys, old_values, i as int, value@);
                }
                values.set(i, value);
                assert(values@.map_values(|s: String| s@) =~= old_values.update(i as int, value@));
                *self = CpuInfoMap { keys, values };
            },
            None => {
                keys.push(key);
                values.push(value);
                let ghost new_keys = keys@.map_values(|s: String| s@);
                assert(new_keys =~= old_keys.push(k@));
                assert(values@.map_values(|s: String| s@) =~= old_values.push(value@));
                assert(new_keys.drop_last() =~= old_keys);
                assert(values@.map_values(|s: String| s@).drop_last() =~= old_values);
                assert(distinct(new_keys)) by {
                    assert forall|a: int, b: int|
                        0 <= a < new_keys.len() && 0 <= b < new_keys.len() && a != b implies new_keys[a]
                            != new_keys[b] by {
                        if a == old_keys.len() {
                            assert(old_keys[b] == new_keys[b]);
                        } else if b == old_keys.len() {
                            assert(old_keys[a] == new_keys[a]);
                        }
                    }
                }
                *self = CpuInfoMap { keys, values };
            },
        }
    }
}

// ---------------------------------------------------------------------------
// Parsing `/proc/cpuinfo`
// ---------------------------------------------------------------------------

/// A line `key<TABs>: value` of `/proc/cpuinfo`: the key is the non-empty
/// text before the first tab, one or more tabs follow, then `": "`, then a
/// non-empty value that runs to the end of the line and holds no `'\n'`.
pub open spec fn spec_parse_cpuinfo_line(line: Seq<char>) -> Option<(Seq<char>, Seq<char>)> {
    let k = first_index_of(line, '\t');
    let after = line.skip(k).skip(run_length(line.skip(k), '\t'));
    if 0 < k < line.len() && after.len() > 2 && after[0] == ':' && after[1] == ' '
        && first_index_of(after.skip(2), '\n') == after.len() - 2 {
        Some((line.take(k), after.skip(2)))
    } else {
        None
    }
}

/// The entries of `lines`, read in order, a later line overriding an earlier
/// one with the same key, lines that are not `key<TABs>: value` skipped.
pub open spec fn cpuinfo_entries(lines: Seq<Seq<char>>) -> Map<Seq<char>, Seq<char>>
    decreases lines.len(),
{
    if lines.len() == 0 {
        Map::empty()
    } else {
        let m = cpuinfo_entries(lines.drop_last());
        match spec_parse_cpuinfo_line(lines.last()) {
            Some((k, v)) => m.insert(k, v),
            None => m,
        }
    }
}

/// The table read from the text of `/proc/cpuinfo`: the entries of the lines
/// before the first empty one, which describe the first processor.
pub open spec fn spec_cpuinfo(contents: Seq<char>) -> Map<Seq<char>, Seq<char>> {
    let lines = spec_lines(contents);
    cpuinfo_entries(lines.take(first_index_of(lines, Seq::<char>::empty())))
}

/// Parses one line of `/proc/cpuinfo` into its key and value.
pub fn parse_cpuinfo_line(line: &Vec<char>) -> (res: Option<(String, String)>)
    ensures
        match spec_parse_cpuinfo_line(line@) {
            Some((k, v)) => res matches Some((rk, rv)) && rk@ == k && rv@ == v,
            None => res is None,
        },
{
    let n = line.len();
    let ghost l = line@;
    let k = find_char(line, 0, n, '\t');
    assert(line@.subrange(0, n as int) =~= l);
    let t = skip_run(line, k, n, '\t');
    let ghost rest = l.skip(k as int);
    assert(line@.subrange(k as int, n as int) =~= rest);
    let ghost after = rest.skip(run_length(rest, '\t'));
    assert(after =~= l.subrange(t as int, n as int));
    if !(0 < k && k < n && n - t > 2 && line[t] == ':' && line[t + 1] == ' ') {
        return None;
    }
    let nl = find_char(line, t + 2, n, '\n');
    assert(after.skip(2) =~= l.subrange(t + 2, n as int));
    if nl != n {
        return None;
    }
    let key = string_from_range(line, 0, k);
    let value = string_from_range(line, t + 2, n);
    assert(l.take(k as int) =~= l.subrange(0, k as int));
    Some((key, value))
}

/// Reads the table of the first processor from the text of `/proc/cpuinfo`.
pub fn parse_cpuinfo(contents: &str) -> (res: CpuInfoMap)
    ensures
        res.view() == spec_cpuinfo(contents@),
{
    let chars = chars_of(contents);
    let lines = split_lines(&chars);
    let ghost ls = view_lines(lines@);
    let mut map = CpuInfoMap::new();
    let mut i: usize = 0;
    assert(ls.take(0) =~= Seq::<Seq<char>>::empty());
    while i < lines.len() && lines[i].len() != 0
        invariant
            ls == view_lines(lines@),
            i <= lines@.len(),
            forall|j: int| 0 <= j < i ==> ls[j] != Seq::<char>::empty(),
            map.view() == cpuinfo_entries(ls.take(i as int)),
        decreases lines@.len() - i,
    {
        assert(ls[i as int] == lines@[i as int]@);
        assert(ls[i as int].len() != 0);
        let ghost before = map.view();
        assert(ls.take(i + 1).drop_last() =~= ls.take(i as int));
        match parse_cpuinfo_line(&lines[i]) {
            Some((k, v)) => {
                map.insert(k, v);
            },
            None => {},
        }
        i += 1;
    }
    proof {
        if i < lines@.len() {
            assert(ls[i as int] == lines@[i as int]@);
            assert(ls[i as int] =~= Seq::<char>::empty());
        }
        lemma_first_index_of_is(ls, Seq::<char>::empty(), i as int);
    }
    map
}


// ---------------------------------------------------------------------------
// Laws
// ---------------------------------------------------------------------------

/// A lookup after `insert(key, value)` gives `value` for `key`, and for
/// every other key what it gave before (stated over the table's contents,
/// which `insert` and `get` both speak of).
pub proof fn law_get_after_insert(
    table: CpuInfoMap,
    key: Seq<char>,
    value: Seq<char>,
    other: Seq<char>,
)
    ensures
        spec_lookup(table@.insert(key, value), key) == Some(value),
        other != key ==> spec_lookup(table@.insert(key, value), other) == spec_lookup(table@, other),
{
}

/// `count` tab characters.
pub open spec fn tabs(count: nat) -> Seq<char> {
    Seq::new(count, |i: int| '\t')
}

/// The kernel's line `key<TABs>: value` reads back as `key` and `value`, for
/// every key without a tab, every number of tabs and every value without a
/// newline.
pub proof fn law_cpuinfo_line_roundtrip(key: Seq<char>, tab_count: nat, value: Seq<char>)
    requires
        key.len() > 0,
        !key.contains('\t'),
        tab_count >= 1,
        value.len() > 0,
        !value.contains('\n'),
    ensures
        spec_parse_cpuinfo_line(key + tabs(tab_count) + seq![':', ' '] + value) == Some(
            (key, value),
        ),
{
    let tail = tabs(tab_count) + seq![':', ' '] + value;
    let line = key + tail;
    assert(line =~= key + tabs(tab_count) + seq![':', ' '] + value);
    assert forall|i: int| 0 <= i < key.len() implies line[i] != '\t' by {
        assert(line[i] == key[i]);
        if key[i] == '\t' {
            assert(key.contains('\t'));
        }
    }
    assert(line[key.len() as int] == '\t');
    lemma_first_index_of_is(line, '\t', key.len() as int);
    assert(line.skip(key.len() as int) =~= tail);
    assert(tail[tab_count as int] == ':');
    lemma_run_length_is(tail, '\t', tab_count as int);
    let after = tail.skip(tab_count as int);
    assert(after =~= seq![':', ' '] + value);
    assert(after.skip(2) =~= value);
    assert forall|i: int| 0 <= i < value.len() implies value[i] != '\n' by {
        if value[i] == '\n' {
            assert(value.contains('\n'));
        }
    }
    lemma_first_index_of_is(value, '\n', value.len() as int);
    assert(line.take(key.len() as int) =~= key);
}

/// Only the first processor's block is read: whatever follows the first
/// empty line of the text changes nothing.
pub proof fn law_cpuinfo_first_block_only(first: Seq<char>, others: Seq<char>)
    ensures
        spec_cpuinfo(first + seq!['\n', '\n'] + others) == spec_cpuinfo(first + seq!['\n']),
{
    let a = first + seq!['\n'];
    let rest = seq!['\n'] + others;
    assert(first + seq!['\n', '\n'] + others =~= first + seq!['\n'] + rest);
    lemma_lines_concat(first, rest);
    lemma_lines_concat(Seq::<char>::empty(), others);
    assert(Seq::<char>::empty() + seq!['\n'] + others =~= rest);
    assert(Seq::<char>::empty() + seq!['\n'] =~= seq!['\n']);
    let e = Seq::<char>::empty();
    lemma_first_index_of_is(seq!['\n'], '\n', 0);
    assert(seq!['\n'].take(0) =~= e);
    assert(seq!['\n'].skip(1) =~= e);
    assert(spec_lines(e) == Seq::<Seq<char>>::empty());
    assert(spec_lines(seq!['\n']) =~= seq![e]);
    let la = spec_lines(a);
    let lr = seq![e] + spec_lines(others);
    assert(spec_lines(rest) =~= lr);
    lemma_first_index_of_concat(la, lr, e);
    lemma_first_index_of(la, e);
    lemma_first_index_of_is(lr, e, 0);
    let f = first_index_of(la, e);
    assert((la + lr).take(f) =~= la.take(f));
}


/// The lines of the first processor's block: those before the first empty line.
pub open spec fn cpuinfo_block(contents: Seq<char>) -> Seq<Seq<char>> {
    let lines = spec_lines(contents);
    lines.take(first_index_of(lines, Seq::<char>::empty()))
}

proof fn lemma_entries_last_line(lines: Seq<Seq<char>>, j: int, k: Seq<char>, v: Seq<char>)
    requires
        0 <= j < lines.len(),
        spec_parse_cpuinfo_line(lines[j]) == Some((k, v)),
        forall|i: int|
            j < i < lines.len() ==> !(#[trigger] spec_parse_cpuinfo_line(lines[i]) matches Some(
                (k2, _),
            ) && k2 == k),
    ensures
        cpuinfo_entries(lines).contains_key(k),
        cpuinfo_entries(lines)[k] == v,
    decreases lines.len(),
{
    let n = lines.len() - 1;
    if j < n {
        assert forall|i: int|
            j < i < lines.drop_last().len() implies !(#[trigger] spec_parse_cpuinfo_line(
                lines.drop_last()[i],
            ) matches Some((k2, _)) && k2 == k) by {
            assert(lines.drop_last()[i] == lines[i]);
        }
        assert(lines.drop_last()[j] == lines[j]);
        lemma_entries_last_line(lines.drop_last(), j, k, v);
        let _ = spec_parse_cpuinfo_line(lines[n]);
    }
}

proof fn lemma_entries_from_lines(lines: Seq<Seq<char>>, k: Seq<char>)
    requires
        cpuinfo_entries(lines).contains_key(k),
    ensures
        exists|j: int|
            0 <= j < lines.len() && #[trigger] spec_parse_cpuinfo_line(lines[j]) == Some(
                (k, cpuinfo_entries(lines)[k]),
            ),
    decreases lines.len(),
{
    let n = lines.len() - 1;
    match spec_parse_cpuinfo_line(lines[n]) {
        Some((k2, v2)) => {
            if k2 == k {
                assert(spec_parse_cpuinfo_line(lines[n]) == Some((k, cpuinfo_entries(lines)[k])));
            } else {
                lemma_entries_from_lines(lines.drop_last(), k);
                let j = choose|j: int|
                    0 <= j < lines.drop_last().len() && #[trigger] spec_parse_cpuinfo_line(
                        lines.drop_last()[j],
                    ) == Some((k, cpuinfo_entries(lines.drop_last())[k]));
                assert(lines.drop_last()[j] == lines[j]);
            }
        },
        None => {
            lemma_entries_from_lines(lines.drop_last(), k);
            let j = choose|j: int|
                0 <= j < lines.drop_last().len() && #[trigger] spec_parse_cpuinfo_line(
                    lines.drop_last()[j],
                ) == Some((k, cpuinfo_entries(lines.drop_last())[k]));
            assert(lines.drop_last()[j] == lines[j]);
        },
    }
}

/// Every line of the first processor's block that reads as `key<TABs>: value`
/// is in the table, however long the block: its key maps to its value unless
/// a later line of the block has the same key.
pub proof fn law_cpuinfo_every_line_counts(contents: Seq<char>, j: int, key: Seq<char>, value: Seq<char>)
    requires
        0 <= j < cpuinfo_block(contents).len(),
        spec_parse_cpuinfo_line(cpuinfo_block(contents)[j]) == Some((key, value)),
        forall|i: int|
            j < i < cpuinfo_block(contents).len() ==> !(#[trigger] spec_parse_cpuinfo_line(
                cpuinfo_block(contents)[i],
            ) matches Some((k2, _)) && k2 == key),
    ensures
        spec_cpuinfo(contents).contains_key(key),
        spec_cpuinfo(contents)[key] == value,
{
    lemma_entries_last_line(cpuinfo_block(contents), j, key, value);
}

/// Every key of the table comes from a line of the first processor's block
/// that reads as `key<TABs>: value`, with the value the table holds.
pub proof fn law_cpuinfo_keys_come_from_lines(contents: Seq<char>, key: Seq<char>)
    requires
        spec_cpuinfo(contents).contains_key(key),
    ensures
        exists|j: int|
            0 <= j < cpuinfo_block(contents).len() && #[trigger] spec_parse_cpuinfo_line(
                cpuinfo_block(contents)[j],
            ) == Some((key, spec_cpuinfo(contents)[key])),
{
    lemma_entries_from_lines(cpuinfo_block(contents), key);
}

} // verus!
