//! The key/value state that the installer persists between runs, one
//! `KEY=VALUE` line per entry, and the parser that reads such a file back.

use vstd::prelude::*;
use crate::text::{split_on, chars_of, find_char, index_of, is_ws, lemma_index_of_bounds, string_of, trim, trim_vec, slice_vec};

verus! {

/// A key and its value, as character sequences.
pub type Entry = (Seq<char>, Seq<char>);

/// The map that a sequence of entries spells: later entries win.
pub open spec fn to_map(pairs: Seq<Entry>) -> Map<Seq<char>, Seq<char>>
    decreases pairs.len(),
{
    if pairs.len() == 0 {
        Map::empty()
    } else {
        to_map(pairs.drop_last()).insert(pairs.last().0, pairs.last().1)
    }
}

/// No key occurs twice.
pub open spec fn keys_unique(pairs: Seq<Entry>) -> bool {
    forall|i: int, j: int|
        0 <= i < pairs.len() && 0 <= j < pairs.len() && i != j ==> #[trigger] pairs[i].0
            != #[trigger] pairs[j].0
}

/// The line that stores one entry: `KEY=VALUE` and a newline.
pub open spec fn entry_line(p: Entry) -> Seq<char> {
    p.0 + seq!['='] + p.1 + seq!['\n']
}

/// The file that stores the entries, one line each, in order.
pub open spec fn render(pairs: Seq<Entry>) -> Seq<char>
    decreases pairs.len(),
{
    if pairs.len() == 0 {
        Seq::empty()
    } else {
        render(pairs.drop_last()) + entry_line(pairs.last())
    }
}

/// The lines of `s`: the pieces between newlines, the last one possibly
/// empty. Parsing trims every line, so a `\r` before a newline and an empty
/// last piece read as `str::lines` would read them.
pub open spec fn split_lines(s: Seq<char>) -> Seq<Seq<char>> {
    split_on(s, '\n')
}

/// What one line of the state file contributes: lines that are blank,
/// start with `#` or hold no `=` contribute nothing; otherwise the key is
/// the trimmed text before the first `=` and the value the trimmed rest.
pub open spec fn parse_line(line: Seq<char>) -> Option<Entry> {
    let t = trim(line);
    if t.len() == 0 || t[0] == '#' {
        None
    } else {
        let i = index_of(t, '=');
        if i < t.len() {
            Some((trim(t.take(i)), trim(t.skip(i + 1))))
        } else {
            None
        }
    }
}

/// `m` after reading one line.
pub open spec fn apply_line(m: Map<Seq<char>, Seq<char>>, line: Seq<char>) -> Map<
    Seq<char>,
    Seq<char>,
> {
    match parse_line(line) {
        Some(e) => m.insert(e.0, e.1),
        None => m,
    }
}

/// `m` after reading the lines in order.
pub open spec fn apply_lines(m: Map<Seq<char>, Seq<char>>, lines: Seq<Seq<char>>) -> Map<
    Seq<char>,
    Seq<char>,
>
    decreases lines.len(),
{
    if lines.len() == 0 {
        m
    } else {
        apply_line(apply_lines(m, lines.drop_last()), lines.last())
    }
}

/// `m` after reading the state file `content` into it.
pub open spec fn load_content(m: Map<Seq<char>, Seq<char>>, content: Seq<char>) -> Map<
    Seq<char>,
    Seq<char>,
> {
    apply_lines(m, split_lines(content))
}

/// Whether `s` neither starts nor ends with whitespace.
pub open spec fn is_trimmed(s: Seq<char>) -> bool {
    s.len() == 0 || (!is_ws(s[0]) && !is_ws(s.last()))
}

/// Whether an entry survives a write and a read of the state file: no
/// newline anywhere, no surrounding whitespace, no `=` in the key, and a
/// key that does not start with `#`.
pub open spec fn storable(p: Entry) -> bool {
    &&& !p.0.contains('\n')
    &&& !p.1.contains('\n')
    &&& !p.0.contains('=')
    &&& is_trimmed(p.0)
    &&& is_trimmed(p.1)
    &&& (p.0.len() == 0 || p.0[0] != '#')
}

/// Key/value state kept in insertion order, each key once.
pub struct StateMap {
    entries: Vec<(String, String)>,
}

impl StateMap {
    /// The entries as character sequences, in storage order.
    pub closed spec fn pairs(&self) -> Seq<Entry> {
        self.entries@.map_values(|p: (String, String)| (p.0@, p.1@))
    }

    /// Whether every entry survives a write and a read of the state file.
    pub open spec fn all_storable(&self) -> bool {
        forall|i: int| 0 <= i < self.pairs().len() ==> storable(#[trigger] self.pairs()[i])
    }

    #[verifier::type_invariant]
    closed spec fn inv(self) -> bool {
        keys_unique(self.pairs())
    }
}

impl StateMap {
    /// An empty state.
    pub fn new() -> (m: Self)
        ensures
            m@ == Map::<Seq<char>, Seq<char>>::empty(),
            m.pairs().len() == 0,
    {
        let m = StateMap { entries: Vec::new() };
        assert(m.pairs() =~= Seq::<Entry>::empty());
        m
    }

    /// Number of keys.
    pub fn len(&self) -> (n: usize)
        ensures
            n == self.pairs().len(),
            n == self@.dom().len(),
    {
        proof {
            use_type_invariant(self);
            lemma_to_map_len(self.pairs());
        }
        self.entries.len()
    }

    /// Storage position of `key`, if stored.
    fn position(&self, key: &String) -> (r: Option<usize>)
        ensures
            match r {
                Some(i) => i < self.pairs().len() && self.pairs()[i as int].0 == key@,
                None => forall|i: int|
                    0 <= i < self.pairs().len() ==> #[trigger] self.pairs()[i].0 != key@,
            },
    {
        let n = self.entries.len();
        let mut i: usize = 0;
        while i < n
            invariant
                i <= n == self.entries@.len() == self.pairs().len(),
                forall|j: int| 0 <= j < i ==> #[trigger] self.pairs()[j].0 != key@,
            decreases n - i,
        {
            if self.entries[i].0 == *key {
                return Some(i);
            }
            i = i + 1;
        }
        None
    }

    /// The value stored under `key`.
    pub fn get(&self, key: &str) -> (r: Option<String>)
        ensures
            r is Some <==> self@.contains_key(key@),
            r matches Some(v) ==> v@ == self@[key@],
    {
        proof {
            use_type_invariant(self);
        }
        let k = String::from_str(key);
        match self.position(&k) {
            Some(i) => {
                proof {
                    lemma_to_map_index(self.pairs(), i as int);
                }
                Some(self.entries[i].1.clone())
            },
            None => {
                proof {
                    lemma_to_map_absent(self.pairs(), key@);
                }
                None
            },
        }
    }

    /// Stores `val` under `key`, replacing an earlier value in place;
    /// a new key goes last.
    pub fn insert(&mut self, key: String, val: String)
        ensures
            final(self)@ == old(self)@.insert(key@, val@),
            old(self)@.contains_key(key@) ==> final(self).pairs().len() == old(self).pairs().len(),
            !old(self)@.contains_key(key@) ==> final(self).pairs() == old(self).pairs().push(
                (key@, val@),
            ),
            old(self).all_storable() && storable((key@, val@)) ==> final(self).all_storable(),
    {
        proof {
            use_type_invariant(&*self);
        }
        let ghost old_pairs = self.pairs();
        match self.position(&key) {
            Some(i) => {
                proof {
                    lemma_to_map_update(old_pairs, i as int, val@);
                    lemma_to_map_index(old_pairs, i as int);
                }
                let ghost kv = key@;
                let ghost vv = val@;
                let mut entries: Vec<(String, String)> = Vec::new();
                std::mem::swap(&mut entries, &mut self.entries);
                entries.set(i, (key, val));
                assert(entries@.map_values(|p: (String, String)| (p.0@, p.1@)) =~= old_pairs.update(
                    i as int,
                    (kv, vv),
                ));
                self.entries = entries;
                proof {
                    let np = self.pairs();
                    assert(np == old_pairs.update(i as int, (kv, vv)));
                    if storable((kv, vv)) && (forall|j: int|
                        0 <= j < old_pairs.len() ==> storable(#[trigger] old_pairs[j])) {
                        assert forall|j: int| 0 <= j < np.len() implies storable(#[trigger] np[j]) by {
                            if j != i {
                                assert(np[j] == old_pairs[j]);
                            }
                        }
                    }
                }
            },
            None => {
                proof {
                    lemma_to_map_absent(old_pairs, key@);
                }
                let ghost kv = key@;
                let ghost vv = val@;
                let mut entries: Vec<(String, String)> = Vec::new();
                std::mem::swap(&mut entries, &mut self.entries);
                entries.push((key, val));
                let ghost np = entries@.map_values(|p: (String, String)| (p.0@, p.1@));
                assert(np =~= old_pairs.push((kv, vv)));
                assert(np.drop_last() =~= old_pairs);
                assert forall|a: int, b: int|
                    0 <= a < np.len() && 0 <= b < np.len() && a != b implies
                    #[trigger] np[a].0 != #[trigger] np[b].0 by {
                    if a < old_pairs.len() && b < old_pairs.len() {
                        assert(np[a] == old_pairs[a]);
                        assert(np[b] == old_pairs[b]);
                    } else if a < old_pairs.len() {
                        assert(np[a] == old_pairs[a]);
                    } else {
                        assert(np[b] == old_pairs[b]);
                    }
                }
                self.entries = entries;
                proof {
                    if storable((kv, vv)) && (forall|j: int|
                        0 <= j < old_pairs.len() ==> storable(#[trigger] old_pairs[j])) {
                        assert forall|j: int| 0 <= j < np.len() implies storable(#[trigger] np[j]) by {
                            if j < old_pairs.len() {
                                assert(np[j] == old_pairs[j]);
                            }
                        }
                    }
                }
            },
        }
    }

    /// The state file: one `KEY=VALUE` line per entry, in storage order.
    pub fn render(&self) -> (s: String)
        ensures
            s@ == render(self.pairs()),
            keys_unique(self.pairs()),
    {
        proof {
            use_type_invariant(self);
        }
        let mut s = String::new();
        let n = self.entries.len();
        for i in 0..n
            invariant
                n == self.entries@.len() == self.pairs().len(),
                s@ == render(self.pairs().take(i as int)),
        {
            let ghost before = s@;
            s.append(self.entries[i].0.as_str());
            s.append("=");
            s.append(self.entries[i].1.as_str());
            s.append("\n");
            proof {
                reveal_strlit("=");
                reveal_strlit("\n");
                let t = self.pairs().take(i + 1);
                assert(t.drop_last() =~= self.pairs().take(i as int));
                assert(t.last() == self.pairs()[i as int]);
                assert(s@ =~= before + entry_line(self.pairs()[i as int]));
            }
        }
        assert(self.pairs().take(n as int) =~= self.pairs());
        s
    }

    /// Reads one line of a state file into the state.
    fn apply_line_chars(&mut self, line: &[char])
        ensures
            final(self)@ == apply_line(old(self)@, line@),
    {
        let t = trim_vec(line);
        if t.len() == 0 || t[0] == '#' {
            return;
        }
        proof {
            lemma_index_of_bounds(t@, '=');
        }
        match find_char(&t, '=') {
            Some(i) => {
                let k = trim_vec(&slice_vec(&t, 0, i));
                let v = trim_vec(&slice_vec(&t, i + 1, t.len()));
                assert(t@.subrange(0, i as int) == t@.take(i as int));
                assert(t@.subrange(i + 1, t@.len() as int) == t@.skip(i + 1));
                self.insert(string_of(&k), string_of(&v));
            },
            None => {},
        }
    }

    /// Reads a whole state file into the state, line by line; later lines
    /// win over earlier ones and over what was there before.
    pub fn load(&mut self, content: &str)
        ensures
            final(self)@ == load_content(old(self)@, content@),
    {
        let v = chars_of(content);
        let n = v.len();
        let ghost start = self@;
        let mut cur: Vec<char> = Vec::new();
        let mut i: usize = 0;
        assert(v@.take(0) =~= Seq::<char>::empty());
        while i < n
            invariant
                i <= n == v@.len(),
                v@ == content@,
                split_lines(v@.take(i as int)).len() > 0,
                self@ == apply_lines(start, split_lines(v@.take(i as int)).drop_last()),
                cur@ == split_lines(v@.take(i as int)).last(),
            decreases n - i,
        {
            let ghost prev = split_lines(v@.take(i as int));
            assert(v@.take(i + 1).drop_last() =~= v@.take(i as int));
            assert(v@.take(i + 1).last() == v@[i as int]);
            if v[i] == '\n' {
                self.apply_line_chars(&cur);
                cur = Vec::new();
                proof {
                    let next = split_lines(v@.take(i + 1));
                    assert(next == prev.push(Seq::<char>::empty()));
                    assert(next.drop_last() =~= prev);
                    assert(prev =~= prev.drop_last().push(prev.last()));
                }
            } else {
                cur.push(v[i]);
                proof {
                    let next = split_lines(v@.take(i + 1));
                    assert(next == prev.update(prev.len() - 1, prev.last().push(v@[i as int])));
                    assert(next.drop_last() =~= prev.drop_last());
                }
            }
            i = i + 1;
        }
        assert(v@.take(n as int) =~= v@);
        let ghost lines = split_lines(v@);
        self.apply_line_chars(&cur);
        assert(lines =~= lines.drop_last().push(lines.last()));
    }
}

/// The text of an entry's line, without its newline.
pub open spec fn entry_text(p: Entry) -> Seq<char> {
    p.0 + seq!['='] + p.1
}

proof fn lemma_split_no_newline(x: Seq<char>)
    requires
        !x.contains('\n'),
    ensures
        split_lines(x) == seq![x],
    decreases x.len(),
{
    if x.len() > 0 {
        assert(!x.drop_last().contains('\n')) by {
            if x.drop_last().contains('\n') {
                let j = choose|j: int| 0 <= j < x.drop_last().len() && x.drop_last()[j] == '\n';
                assert(x[j] == '\n');
            }
        }
        lemma_split_no_newline(x.drop_last());
        assert(x.last() != '\n') by {
            assert(x[x.len() - 1] == x.last());
        }
        assert(x.drop_last().push(x.last()) =~= x);
        assert(seq![x.drop_last()].update(0, x.drop_last().push(x.last())) =~= seq![x]);
    } else {
        assert(x =~= Seq::<char>::empty());
    }
}

proof fn lemma_split_concat(a: Seq<char>, b: Seq<char>)
    requires
        split_lines(a).last() == Seq::<char>::empty(),
    ensures
        split_lines(a + b) == split_lines(a).drop_last() + split_lines(b),
    decreases b.len(),
{
    lemma_split_nonempty(a);
    if b.len() == 0 {
        assert(a + b =~= a);
        assert(split_lines(a) =~= split_lines(a).drop_last() + seq![Seq::<char>::empty()]);
    } else {
        lemma_split_concat(a, b.drop_last());
        lemma_split_nonempty(b.drop_last());
        assert((a + b).drop_last() =~= a + b.drop_last());
        assert((a + b).last() == b.last());
        let p = split_lines(a).drop_last();
        let q = split_lines(b.drop_last());
        if b.last() == '\n' {
            assert(p + q.push(Seq::<char>::empty()) =~= (p + q).push(Seq::<char>::empty()));
        } else {
            assert((p + q).update((p + q).len() - 1, (p + q).last().push(b.last())) =~= p
                + q.update(q.len() - 1, q.last().push(b.last())));
        }
    }
}

proof fn lemma_split_nonempty(s: Seq<char>)
    ensures
        split_lines(s).len() > 0,
    decreases s.len(),
{
    if s.len() > 0 {
        lemma_split_nonempty(s.drop_last());
    }
}

proof fn lemma_split_render(pairs: Seq<Entry>)
    requires
        forall|i: int| 0 <= i < pairs.len() ==> storable(#[trigger] pairs[i]),
    ensures
        split_lines(render(pairs)) == pairs.map_values(|p: Entry| entry_text(p)).push(
            Seq::<char>::empty(),
        ),
    decreases pairs.len(),
{
    let lines = pairs.map_values(|p: Entry| entry_text(p));
    if pairs.len() == 0 {
        assert(lines =~= Seq::<Seq<char>>::empty());
        assert(split_lines(Seq::<char>::empty()) == seq![Seq::<char>::empty()]);
        assert(lines.push(Seq::<char>::empty()) =~= seq![Seq::<char>::empty()]);
    } else {
        let q = pairs.drop_last();
        assert forall|i: int| 0 <= i < q.len() implies storable(#[trigger] q[i]) by {
            assert(q[i] == pairs[i]);
        }
        lemma_split_render(q);
        let last = pairs.last();
        assert(storable(pairs[pairs.len() - 1]));
        let t = entry_text(last);
        assert(!t.contains('\n')) by {
            if t.contains('\n') {
                let j = choose|j: int| 0 <= j < t.len() && t[j] == '\n';
                if j < last.0.len() {
                    assert(last.0[j] == '\n');
                } else if j > last.0.len() {
                    assert(last.1[j - last.0.len() - 1] == '\n');
                }
            }
        }
        lemma_split_no_newline(t);
        assert(entry_line(last) =~= t.push('\n'));
        assert(t.push('\n').drop_last() =~= t);
        assert(split_lines(entry_line(last)) =~= seq![t, Seq::<char>::empty()]);
        let ql = q.map_values(|p: Entry| entry_text(p));
        lemma_split_concat(render(q), entry_line(last));
        assert(ql.push(Seq::<char>::empty()).drop_last() =~= ql);
        assert(lines =~= ql.push(t));
        assert(ql + seq![t, Seq::<char>::empty()] =~= lines.push(Seq::<char>::empty()));
    }
}

proof fn lemma_parse_entry_text(p: Entry)
    requires
        storable(p),
    ensures
        parse_line(entry_text(p)) == Some(p),
{
    let t = entry_text(p);
    let k = p.0;
    let v = p.1;
    assert(t.len() > 0);
    assert(!is_ws(t[0])) by {
        if k.len() > 0 {
            assert(t[0] == k[0]);
        } else {
            assert(t[0] == '=');
        }
    }
    assert(!is_ws(t.last())) by {
        if v.len() > 0 {
            assert(t.last() == v.last());
        } else {
            assert(t.last() == '=');
        }
    }
    lemma_trim_trimmed(t);
    lemma_trim_trimmed(k);
    lemma_trim_trimmed(v);
    assert(t[0] != '#') by {
        if k.len() > 0 {
            assert(t[0] == k[0]);
        }
    }
    assert forall|j: int| 0 <= j < k.len() implies t[j] != '=' by {
        assert(t[j] == k[j]);
        if k[j] == '=' {
            assert(k.contains('='));
        }
    }
    assert(t[k.len() as int] == '=');
    crate::text::lemma_index_of(t, '=', k.len() as int);
    assert(t.take(k.len() as int) =~= k);
    assert(t.skip(k.len() + 1int) =~= v);
}

/// A sequence that neither starts nor ends with whitespace is its own trim.
pub proof fn lemma_trim_trimmed(s: Seq<char>)
    requires
        is_trimmed(s),
    ensures
        trim(s) == s,
{
    assert(crate::text::trim_start(s) == s);
    assert(crate::text::trim_end(s) == s);
}

proof fn lemma_apply_rendered(pairs: Seq<Entry>)
    requires
        forall|i: int| 0 <= i < pairs.len() ==> storable(#[trigger] pairs[i]),
    ensures
        apply_lines(Map::empty(), pairs.map_values(|p: Entry| entry_text(p))) == to_map(pairs),
    decreases pairs.len(),
{
    let lines = pairs.map_values(|p: Entry| entry_text(p));
    if pairs.len() > 0 {
        let q = pairs.drop_last();
        assert forall|i: int| 0 <= i < q.len() implies storable(#[trigger] q[i]) by {
            assert(q[i] == pairs[i]);
        }
        lemma_apply_rendered(q);
        assert(lines.drop_last() =~= q.map_values(|p: Entry| entry_text(p)));
        assert(storable(pairs[pairs.len() - 1]));
        lemma_parse_entry_text(pairs.last());
    }
}

/// Reading back the file that [`render`] writes gives the same state,
/// provided every entry is [`storable`].
pub proof fn lemma_load_render(pairs: Seq<Entry>)
    requires
        forall|i: int| 0 <= i < pairs.len() ==> storable(#[trigger] pairs[i]),
    ensures
        load_content(Map::empty(), render(pairs)) == to_map(pairs),
{
    lemma_split_render(pairs);
    lemma_apply_rendered(pairs);
    let lines = pairs.map_values(|p: Entry| entry_text(p));
    assert(lines.push(Seq::<char>::empty()).drop_last() =~= lines);
    assert(parse_line(Seq::<char>::empty()) is None) by {
        assert(crate::text::trim_start(Seq::<char>::empty()) == Seq::<char>::empty());
        assert(crate::text::trim_end(Seq::<char>::empty()) == Seq::<char>::empty());
    }
}

/// The map has one key per stored entry.
proof fn lemma_to_map_len(pairs: Seq<Entry>)
    requires
        keys_unique(pairs),
    ensures
        to_map(pairs).dom().len() == pairs.len(),
        to_map(pairs).dom().finite(),
    decreases pairs.len(),
{
    if pairs.len() > 0 {
        let q = pairs.drop_last();
        assert(keys_unique(q)) by {
            assert forall|a: int, b: int|
                0 <= a < q.len() && 0 <= b < q.len() && a != b implies #[trigger] q[a].0
                != #[trigger] q[b].0 by {
                assert(q[a] == pairs[a] && q[b] == pairs[b]);
            }
        }
        lemma_to_map_len(q);
        assert forall|i: int| 0 <= i < q.len() implies #[trigger] q[i].0 != pairs.last().0 by {
            assert(q[i] == pairs[i]);
        }
        lemma_to_map_absent(q, pairs.last().0);
    }
}

impl Clone for StateMap {
    /// The same entries in the same order.
    fn clone(&self) -> (r: Self)
        ensures
            r.pairs() == self.pairs(),
            r@ == self@,
    {
        proof {
            use_type_invariant(self);
        }
        let mut entries: Vec<(String, String)> = Vec::new();
        let n = self.entries.len();
        for i in 0..n
            invariant
                n == self.entries@.len() == self.pairs().len(),
                keys_unique(self.pairs()),
                entries@.map_values(|p: (String, String)| (p.0@, p.1@)) == self.pairs().take(
                    i as int,
                ),
        {
            let ghost before = entries@.map_values(|p: (String, String)| (p.0@, p.1@));
            let k = self.entries[i].0.clone();
            let v = self.entries[i].1.clone();
            entries.push((k, v));
            assert(entries@.map_values(|p: (String, String)| (p.0@, p.1@)) =~= before.push(
                self.pairs()[i as int],
            ));
            assert(self.pairs().take(i + 1) =~= self.pairs().take(i as int).push(
                self.pairs()[i as int],
            ));
        }
        assert(self.pairs().take(n as int) =~= self.pairs());
        StateMap { entries }
    }
}

impl View for StateMap {
    type V = Map<Seq<char>, Seq<char>>;

    open spec fn view(&self) -> Map<Seq<char>, Seq<char>> {
        to_map(self.pairs())
    }
}

/// With unique keys, each stored key maps to its stored value.
pub proof fn lemma_to_map_index(pairs: Seq<Entry>, i: int)
    requires
        keys_unique(pairs),
        0 <= i < pairs.len(),
    ensures
        to_map(pairs).contains_key(pairs[i].0),
        to_map(pairs)[pairs[i].0] == pairs[i].1,
    decreases pairs.len(),
{
    if i < pairs.len() - 1 {
        let q = pairs.drop_last();
        assert(keys_unique(q)) by {
            assert forall|a: int, b: int|
                0 <= a < q.len() && 0 <= b < q.len() && a != b implies #[trigger] q[a].0
                != #[trigger] q[b].0 by {
                assert(q[a] == pairs[a] && q[b] == pairs[b]);
            }
        }
        assert(q[i] == pairs[i]);
        lemma_to_map_index(q, i);
        assert(pairs.last() == pairs[pairs.len() - 1]);
    }
}

/// A key stored nowhere is not in the map.
pub proof fn lemma_to_map_absent(pairs: Seq<Entry>, k: Seq<char>)
    requires
        forall|i: int| 0 <= i < pairs.len() ==> #[trigger] pairs[i].0 != k,
    ensures
        !to_map(pairs).contains_key(k),
    decreases pairs.len(),
{
    if pairs.len() > 0 {
        let q = pairs.drop_last();
        assert forall|i: int| 0 <= i < q.len() implies #[trigger] q[i].0 != k by {
            assert(q[i] == pairs[i]);
        }
        lemma_to_map_absent(q, k);
        assert(pairs.last() == pairs[pairs.len() - 1]);
    }
}

/// Every key of the map is stored somewhere.
pub proof fn lemma_to_map_present(pairs: Seq<Entry>, k: Seq<char>) -> (i: int)
    requires
        to_map(pairs).contains_key(k),
    ensures
        0 <= i < pairs.len(),
        pairs[i].0 == k,
{
    if forall|j: int| 0 <= j < pairs.len() ==> #[trigger] pairs[j].0 != k {
        lemma_to_map_absent(pairs, k);
    }
    choose|j: int| 0 <= j < pairs.len() && #[trigger] pairs[j].0 == k
}

/// Replacing the value of a stored key replaces it in the map.
pub proof fn lemma_to_map_update(pairs: Seq<Entry>, i: int, v: Seq<char>)
    requires
        keys_unique(pairs),
        0 <= i < pairs.len(),
    ensures
        keys_unique(pairs.update(i, (pairs[i].0, v))),
        to_map(pairs.update(i, (pairs[i].0, v))) == to_map(pairs).insert(pairs[i].0, v),
{
    let k = pairs[i].0;
    let q = pairs.update(i, (k, v));
    assert forall|a: int, b: int|
        0 <= a < q.len() && 0 <= b < q.len() && a != b implies #[trigger] q[a].0
        != #[trigger] q[b].0 by {
        assert(q[a].0 == pairs[a].0 && q[b].0 == pairs[b].0);
    }
    let lhs = to_map(q);
    let rhs = to_map(pairs).insert(k, v);
    assert forall|kk: Seq<char>| lhs.contains_key(kk) <==> rhs.contains_key(kk) by {
        if lhs.contains_key(kk) {
            let j = lemma_to_map_present(q, kk);
            if j != i {
                assert(q[j] == pairs[j]);
                lemma_to_map_index(pairs, j);
            }
        }
        if rhs.contains_key(kk) && kk != k {
            let j = lemma_to_map_present(pairs, kk);
            assert(q[j] == pairs[j]);
            lemma_to_map_index(q, j);
        }
        if kk == k {
            lemma_to_map_index(q, i);
        }
    }
    assert forall|kk: Seq<char>| lhs.contains_key(kk) implies lhs[kk] == rhs[kk] by {
        let j = lemma_to_map_present(q, kk);
        lemma_to_map_index(q, j);
        if j != i {
            assert(q[j] == pairs[j]);
            lemma_to_map_index(pairs, j);
        }
    }
    assert(lhs =~= rhs);
}

} // verus!
