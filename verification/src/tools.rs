//! The installers' decisions about what lies in the tool folders: which
//! files are Cadence archives and in which order they are extracted, the
//! directory a double-wrapped archive unpacks into, and the phase keys.

use vstd::prelude::*;
use crate::text::{
    chars_of, decimal, ends_with, ends_with_chars, last_index_of, rfind_char, slice_vec, string_of,
    with_decimal,
};

verus! {

/// `s` without `suffix`, if it ends with it.
pub open spec fn strip_suffix(s: Seq<char>, suffix: Seq<char>) -> Seq<char> {
    if ends_with(s, suffix) {
        s.take(s.len() - suffix.len())
    } else {
        s
    }
}

fn strip_suffix_chars(v: &Vec<char>, suffix: &str) -> (r: Vec<char>)
    ensures
        r@ == strip_suffix(v@, suffix@),
{
    let suf = chars_of(suffix);
    if ends_with_chars(v, &suf) {
        let k = v.len() - suf.len();
        let r = slice_vec(v, 0, k);
        assert(r@ =~= v@.take(k as int));
        r
    } else {
        let r = slice_vec(v, 0, v.len());
        assert(r@ =~= v@);
        r
    }
}

/// The tool that a Cadence archive installs: the file name without
/// `.tar.gz`, for files that end so.
pub fn cadence_tool_name(file_name: &str) -> (r: Option<String>)
    ensures
        r is Some <==> ends_with(file_name@, ".tar.gz"@),
        r matches Some(t) ==> t@ == strip_suffix(file_name@, ".tar.gz"@),
{
    let v = chars_of(file_name);
    if ends_with_chars(&v, &chars_of(".tar.gz")) {
        Some(string_of(&strip_suffix_chars(&v, ".tar.gz")))
    } else {
        None
    }
}

/// Whether a file name has the extension `gtar`, as `Path::extension`
/// reads it: the text after the last `.`, when something precedes that dot.
pub open spec fn has_gtar_extension(name: Seq<char>) -> bool {
    let i = last_index_of(name, '.');
    i > 0 && name.skip(i + 1) == "gtar"@
}

/// Whether a file is a double-wrapped `.gtar` archive.
pub fn is_gtar_archive(file_name: &str) -> (b: bool)
    ensures
        b == has_gtar_extension(file_name@),
{
    let v = chars_of(file_name);
    let len = v.len();
    match rfind_char(&v, '.') {
        Some(i) => {
            if i == 0 {
                return false;
            }
            let ext = slice_vec(&v, i + 1, len);
            assert(ext@ =~= v@.skip(i + 1));
            let g = chars_of("gtar");
            if ext.len() != g.len() {
                assert(ext@ != "gtar"@);
                return false;
            }
            let n = ext.len();
            for j in 0..n
                invariant
                    n == ext@.len() == g@.len(),
                    g@ == "gtar"@,
                    v@ == file_name@,
                    i as int == last_index_of(v@, '.'),
                    i > 0,
                    ext@ == v@.skip(i + 1),
                    forall|k: int| 0 <= k < j ==> ext@[k] == g@[k],
            {
                if ext[j] != g[j] {
                    assert(ext@[j as int] != g@[j as int]);
                    return false;
                }
            }
            assert(ext@ =~= g@);
            true
        },
        None => false,
    }
}

/// The folder a double-wrapped archive installs into: its name without
/// `.gtar`, then without `.tar.gz`, `.tgz` and `.tar` in turn; `None` when
/// nothing is left or nothing was cut.
pub open spec fn gtar_target(name: Seq<char>) -> Option<Seq<char>> {
    let t = strip_suffix(
        strip_suffix(strip_suffix(strip_suffix(name, ".gtar"@), ".tar.gz"@), ".tgz"@),
        ".tar"@,
    );
    if t.len() == 0 || t == name {
        None
    } else {
        Some(t)
    }
}

/// The folder a double-wrapped archive installs into.
pub fn gtar_target_name(file_name: &str) -> (r: Option<String>)
    ensures
        match r {
            Some(t) => gtar_target(file_name@) == Some(t@),
            None => gtar_target(file_name@) is None,
        },
{
    let v = chars_of(file_name);
    let a = strip_suffix_chars(&v, ".gtar");
    let b = strip_suffix_chars(&a, ".tar.gz");
    let c = strip_suffix_chars(&b, ".tgz");
    let t = strip_suffix_chars(&c, ".tar");
    if t.len() == 0 {
        return None;
    }
    if t.len() == v.len() {
        let n = t.len();
        let mut same = true;
        let mut j: usize = 0;
        while j < n
            invariant
                n == t@.len() == v@.len(),
                j <= n,
                same ==> forall|k: int| 0 <= k < j ==> t@[k] == v@[k],
                !same ==> t@ != v@,
            decreases n - j,
        {
            if t[j] != v[j] {
                same = false;
            }
            j = j + 1;
        }
        if same {
            assert(t@ =~= v@);
            return None;
        }
    }
    Some(string_of(&t))
}

/// The state key of one Silvaco installation part.
pub fn silvaco_phase_key(part: u8) -> (r: String)
    ensures
        r@ == "SILVACO_"@ + decimal(part as nat),
{
    with_decimal("SILVACO_", part as u64)
}

/// The folder to descend into when unwrapping an extracted archive: the
/// only entry, if it is a directory.
pub fn next_wrapper_dir(children: &Vec<(String, bool)>) -> (r: Option<String>)
    ensures
        r is Some <==> (children@.len() == 1 && children@[0].1),
        r matches Some(d) ==> d@ == children@[0].0@,
{
    if children.len() == 1 && children[0].1 {
        Some(children[0].0.clone())
    } else {
        None
    }
}

/// Whether `a` sorts before or equal to `b`: character codes compared
/// from the left, a prefix first — the order of the names' UTF-8 bytes.
pub open spec fn name_le(a: Seq<char>, b: Seq<char>) -> bool
    decreases a.len(),
{
    if a.len() == 0 {
        true
    } else if b.len() == 0 {
        false
    } else if a[0] < b[0] {
        true
    } else if a[0] == b[0] {
        name_le(a.drop_first(), b.drop_first())
    } else {
        false
    }
}

proof fn lemma_name_le_total(a: Seq<char>, b: Seq<char>)
    ensures
        name_le(a, b) || name_le(b, a),
    decreases a.len(),
{
    if a.len() > 0 && b.len() > 0 {
        if a[0] == b[0] {
            lemma_name_le_total(a.drop_first(), b.drop_first());
        } else {
        }
    }
}

proof fn lemma_name_le_trans(a: Seq<char>, b: Seq<char>, c: Seq<char>)
    requires
        name_le(a, b),
        name_le(b, c),
    ensures
        name_le(a, c),
    decreases a.len(),
{
    if a.len() > 0 && b.len() > 0 && c.len() > 0 && a[0] == b[0] && b[0] == c[0] {
        lemma_name_le_trans(a.drop_first(), b.drop_first(), c.drop_first());
    }
}

/// Compares two names.
pub fn names_in_order(a: &String, b: &String) -> (r: bool)
    ensures
        r == name_le(a@, b@),
{
    let x = chars_of(a.as_str());
    let y = chars_of(b.as_str());
    let mut i: usize = 0;
    assert(x@.skip(0) =~= x@);
    assert(y@.skip(0) =~= y@);
    loop
        invariant
            i <= x@.len(),
            i <= y@.len(),
            x@ == a@,
            y@ == b@,
            name_le(a@, b@) == name_le(x@.skip(i as int), y@.skip(i as int)),
        decreases x@.len() - i,
    {
        if i == x.len() {
            return true;
        }
        if i == y.len() {
            return false;
        }
        let c = x[i];
        let d = y[i];
        assert(x@.skip(i as int)[0] == c);
        assert(y@.skip(i as int)[0] == d);
        if c < d {
            return true;
        }
        if c != d {
            return false;
        }
        assert(x@.skip(i as int).drop_first() =~= x@.skip(i + 1));
        assert(y@.skip(i as int).drop_first() =~= y@.skip(i + 1));
        i = i + 1;
    }
}

/// Whether the names are in order.
pub open spec fn names_sorted(s: Seq<Seq<char>>) -> bool {
    forall|i: int, j: int| 0 <= i < j < s.len() ==> name_le(#[trigger] s[i], #[trigger] s[j])
}

/// The names as character sequences.
pub open spec fn name_views(v: Seq<String>) -> Seq<Seq<char>> {
    v.map_values(|s: String| s@)
}

/// The names in order.
pub fn sort_names(names: Vec<String>) -> (r: Vec<String>)
    ensures
        names_sorted(name_views(r@)),
        name_views(r@).to_multiset() == name_views(names@).to_multiset(),
{
    broadcast use vstd::seq_lib::group_to_multiset_ensures;
    let mut r: Vec<String> = Vec::new();
    let n = names.len();
    for i in 0..n
        invariant
            n == names@.len(),
            names_sorted(name_views(r@)),
            name_views(r@).to_multiset() == name_views(names@.take(i as int)).to_multiset(),
    {
        let x = names[i].clone();
        let m = r.len();
        let mut p: usize = 0;
        while p < m && names_in_order(&r[p], &x)
            invariant
                p <= m == r@.len(),
                forall|j: int| 0 <= j < p ==> name_le(#[trigger] name_views(r@)[j], x@),
            decreases m - p,
        {
            p = p + 1;
        }
        let ghost before = name_views(r@);
        r.insert(p, x);
        let ghost after = name_views(r@);
        assert(after =~= before.insert(p as int, x@));
        assert forall|a: int, b: int| 0 <= a < b < after.len() implies name_le(
            #[trigger] after[a],
            #[trigger] after[b],
        ) by {
            if b < p {
                assert(after[a] == before[a] && after[b] == before[b]);
            } else if b == p {
                assert(after[a] == before[a]);
            } else if a == p {
                assert(after[b] == before[b - 1]);
                assert(p < m);
                lemma_name_le_total(before[p as int], x@);
                if b - 1 > p {
                    lemma_name_le_trans(x@, before[p as int], before[b - 1]);
                }
            } else if a < p {
                assert(after[a] == before[a] && after[b] == before[b - 1]);
            } else {
                assert(after[a] == before[a - 1] && after[b] == before[b - 1]);
            }
        }
        proof {
            vstd::seq_lib::to_multiset_insert(before, p as int, x@);
            let t = name_views(names@.take(i + 1));
            assert(t =~= name_views(names@.take(i as int)).push(x@));
            vstd::seq_lib::to_multiset_build(name_views(names@.take(i as int)), x@);
        }
    }
    assert(names@.take(n as int) =~= names@);
    r
}

/// The names that end with `.tar.gz`, in their order.
pub open spec fn tar_gz_names(s: Seq<Seq<char>>) -> Seq<Seq<char>>
    decreases s.len(),
{
    if s.len() == 0 {
        Seq::empty()
    } else if ends_with(s.last(), ".tar.gz"@) {
        tar_gz_names(s.drop_last()).push(s.last())
    } else {
        tar_gz_names(s.drop_last())
    }
}

/// The Cadence archives among the files of the tools folder, in the order
/// they are extracted: the `.tar.gz` files, sorted by name.
pub fn cadence_archives(file_names: &Vec<String>) -> (r: Vec<String>)
    ensures
        names_sorted(name_views(r@)),
        name_views(r@).to_multiset() == tar_gz_names(name_views(file_names@)).to_multiset(),
{
    let mut picked: Vec<String> = Vec::new();
    let n = file_names.len();
    let suffix = chars_of(".tar.gz");
    for i in 0..n
        invariant
            n == file_names@.len(),
            suffix@ == ".tar.gz"@,
            name_views(picked@) == tar_gz_names(name_views(file_names@.take(i as int))),
    {
        let ghost t = name_views(file_names@.take(i + 1));
        assert(t.drop_last() =~= name_views(file_names@.take(i as int)));
        assert(t.last() == file_names@[i as int]@);
        if ends_with_chars(&chars_of(file_names[i].as_str()), &suffix) {
            let ghost before = name_views(picked@);
            let name = file_names[i].clone();
            picked.push(name);
            assert(name_views(picked@) =~= before.push(file_names@[i as int]@));
        }
    }
    assert(file_names@.take(n as int) =~= file_names@);
    sort_names(picked)
}

} // verus!
