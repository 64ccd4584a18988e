//! Resolving a missing library or command to the packages that provide it:
//! the search patterns tried in turn, the reading of `dnf provides` output,
//! and the decision what to install.

use vstd::prelude::*;
use crate::text::{
    chars_of, contains_seq, eq_str, find_chars, join_chars, join_on, last_index_of, rfind_char,
    slice_vec, split_chars, split_on, string_of, trim, trim_vec, find_seq,
    find_char, contains_chars, occurs_at,
};

verus! {

/// Metadata field names that `dnf provides` prints like package names.
pub open spec fn is_ignored_field(s: Seq<char>) -> bool {
    ||| s == "Repo"@ || s == "Filename"@ || s == "Matched from"@ || s == "Provide"@
    ||| s == "Description"@ || s == "Summary"@ || s == "URL"@ || s == "License"@
    ||| s == "Source"@ || s == "Size"@ || s == "Buildtime"@ || s == "Vendor"@ || s == "Arch"@
    ||| s == "Epoch"@ || s == "Name"@ || s == "Version"@ || s == "Release"@
    ||| s == "Loaded plugins"@ || s == "Last metadata expiration check"@
}

/// Whether `s` is one of the metadata field names.
pub fn ignored_field(s: &String) -> (b: bool)
    ensures
        b == is_ignored_field(s@),
{
    eq_str(s, "Repo") || eq_str(s, "Filename") || eq_str(s, "Matched from") || eq_str(s, "Provide")
        || eq_str(s, "Description") || eq_str(s, "Summary") || eq_str(s, "URL") || eq_str(
        s,
        "License",
    ) || eq_str(s, "Source") || eq_str(s, "Size") || eq_str(s, "Buildtime") || eq_str(s, "Vendor")
        || eq_str(s, "Arch") || eq_str(s, "Epoch") || eq_str(s, "Name") || eq_str(s, "Version")
        || eq_str(s, "Release") || eq_str(s, "Loaded plugins") || eq_str(
        s,
        "Last metadata expiration check",
    )
}

/// `s` without its architecture suffix: the text before the last `.`.
pub open spec fn without_arch(s: Seq<char>) -> Seq<char> {
    if last_index_of(s, '.') >= 0 {
        s.take(last_index_of(s, '.'))
    } else {
        s
    }
}

/// The package name in an RPM spec `NAME-VERSION-RELEASE.ARCH`: with the
/// architecture cut at the last `.`, every `-`-separated field but the last
/// two; a spec with fewer than three fields is kept whole (with its
/// architecture).
pub open spec fn base_package_name(pkg_spec: Seq<char>) -> Seq<char> {
    let s = trim(pkg_spec);
    if s.len() == 0 {
        Seq::empty()
    } else {
        let parts = split_on(without_arch(s), '-');
        if parts.len() >= 3 {
            join_on(parts.take(parts.len() - 2), '-')
        } else {
            s
        }
    }
}

/// The package name in an RPM spec, e.g. `qt5-qtsvg` for
/// `qt5-qtsvg-5.15.2-4.el8.x86_64`.
pub fn extract_base_package_name(pkg_spec: &str) -> (r: String)
    ensures
        r@ == base_package_name(pkg_spec@),
{
    let s = trim_vec(&chars_of(pkg_spec));
    if s.len() == 0 {
        return String::new();
    }
    let w = match rfind_char(&s, '.') {
        Some(i) => {
            assert(s@.subrange(0, i as int) == s@.take(i as int));
            slice_vec(&s, 0, i)
        },
        None => slice_vec(&s, 0, s.len()),
    };
    assert(s@.subrange(0, s@.len() as int) =~= s@);
    let parts = split_chars(&w, '-');
    if parts.len() >= 3 {
        let joined = join_chars(&parts, parts.len() - 2, '-');
        string_of(&joined)
    } else {
        string_of(&s)
    }
}

/// The separator between package and summary in `dnf provides` output.
pub open spec fn field_separator() -> Seq<char> {
    seq![' ', ':', ' ']
}

/// The package that one line of `dnf provides` output names: a header
/// line (it holds ` : ` and does not start with a blank or a tab) whose
/// text before the first ` : `, trimmed, is a single word without `/` and
/// not a metadata field name; the result is that word's base package name,
/// if it is non-empty and not a field name itself.
pub open spec fn provides_package(line: Seq<char>) -> Option<Seq<char>> {
    let i = find_seq(line, field_separator());
    if i < line.len() && !(line.len() > 0 && (line[0] == ' ' || line[0] == '\t')) {
        let head = trim(line.take(i));
        if head.len() > 0 && !head.contains(' ') && !head.contains('/') && !is_ignored_field(
            head,
        ) {
            let base = base_package_name(head);
            if base.len() > 0 && !is_ignored_field(base) {
                Some(base)
            } else {
                None
            }
        } else {
            None
        }
    } else {
        None
    }
}

/// The package named by one line of `dnf provides` output, if any.
pub fn package_from_provides_line(line: &str) -> (r: Option<String>)
    ensures
        match r {
            Some(p) => provides_package(line@) == Some(p@),
            None => provides_package(line@) is None,
        },
{
    let v = chars_of(line);
    let sep = vec![' ', ':', ' '];
    assert(sep@ =~= field_separator());
    let i = find_chars(&v, &sep);
    if i >= v.len() || (v.len() > 0 && (v[0] == ' ' || v[0] == '\t')) {
        return None;
    }
    assert(v@.subrange(0, i as int) == v@.take(i as int));
    let head = trim_vec(&slice_vec(&v, 0, i));
    let has_space = find_char(&head, ' ').is_some();
    let has_slash = find_char(&head, '/').is_some();
    if head.len() == 0 || has_space || has_slash {
        return None;
    }
    let head_s = string_of(&head);
    if ignored_field(&head_s) {
        return None;
    }
    let base = extract_base_package_name(head_s.as_str());
    if base.as_str().unicode_len() == 0 || ignored_field(&base) {
        return None;
    }
    Some(base)
}

/// The `dnf provides` patterns tried in turn for a (trimmed) query: a
/// path is searched as given; a shared library by file name and then by
/// substring; anything else by file name, by substring, and as given.
pub open spec fn provides_patterns(query: Seq<char>) -> Seq<Seq<char>> {
    let by_file = "*/"@ + query;
    let by_substring = "*"@ + query + "*"@;
    if query.contains('/') {
        seq![query]
    } else if contains_seq(query, ".so"@) {
        seq![by_file, by_substring]
    } else {
        seq![by_file, by_substring, query]
    }
}

/// The patterns for a query.
pub fn search_patterns(query: &str) -> (r: Vec<String>)
    ensures
        r@.map_values(|s: String| s@) == provides_patterns(query@),
{
    let q = chars_of(query);
    let mut by_file = String::from_str("*/");
    by_file.append(query);
    let mut by_substring = String::from_str("*");
    by_substring.append(query);
    by_substring.append("*");
    let mut r: Vec<String> = Vec::new();
    if find_char(&q, '/').is_some() {
        r.push(String::from_str(query));
    } else if contains_chars(&q, &chars_of(".so")) {
        r.push(by_file);
        r.push(by_substring);
    } else {
        r.push(by_file);
        r.push(by_substring);
        r.push(String::from_str(query));
    }
    assert(r@.map_values(|s: String| s@) =~= provides_patterns(query@));
    r
}

/// Why a dependency could not be resolved.
#[derive(Debug, Clone, Copy, PartialEq, Eq, Structural)]
pub enum DependencyError {
    /// The query is blank.
    EmptyQuery,
}

/// What to do next for a dependency.
#[derive(Debug, Clone, PartialEq, Eq)]
pub enum DependencyStep {
    /// Run `dnf provides` with this pattern and report its output lines.
    Provides(String),
    /// Install these packages, found by `dnf provides`, with `dnf install -y`.
    Install(Vec<String>),
    /// Nothing was found: install the query itself as a package name.
    InstallQuery(String),
}

/// The packages that the output lines name, each once, in the order first
/// named.
pub open spec fn packages_named(lines: Seq<Seq<char>>) -> Seq<Seq<char>>
    decreases lines.len(),
{
    if lines.len() == 0 {
        Seq::empty()
    } else {
        let prev = packages_named(lines.drop_last());
        match provides_package(lines.last()) {
            Some(p) => if prev.contains(p) {
                prev
            } else {
                prev.push(p)
            },
            None => prev,
        }
    }
}

/// A dependency being resolved: the patterns still to try and the
/// packages found so far, each once, in the order first seen.
pub struct DependencyResolution {
    query: String,
    patterns: Vec<String>,
    next: usize,
    found: Vec<String>,
    lines: Ghost<Seq<Seq<char>>>,
}

impl DependencyResolution {
    /// The trimmed query.
    pub closed spec fn query(&self) -> Seq<char> {
        self.query@
    }

    /// The patterns not tried yet.
    pub closed spec fn remaining(&self) -> Seq<Seq<char>> {
        self.patterns@.map_values(|s: String| s@).skip(self.next as int)
    }

    /// The packages found so far.
    pub closed spec fn found(&self) -> Seq<Seq<char>> {
        self.found@.map_values(|s: String| s@)
    }

    /// The `dnf provides` output lines taken in so far.
    pub closed spec fn lines_read(&self) -> Seq<Seq<char>> {
        self.lines@
    }

    /// A well-formed resolution's found packages are the distinct ones that
    /// the lines read name, in the order first named.
    pub proof fn lemma_found_named(&self)
        requires
            self.wf(),
        ensures
            self.found() == packages_named(self.lines_read()),
            self.found().no_duplicates(),
    {
    }

    /// The next pattern lies within the list, and the found packages are
    /// the distinct ones that the lines read name.
    pub closed spec fn wf(&self) -> bool {
        &&& self.next <= self.patterns@.len()
        &&& self.found().no_duplicates()
        &&& self.found() == packages_named(self.lines@)
    }

    /// Starts resolving `query`; a blank query is refused.
    pub fn start(query: &str) -> (r: Result<Self, DependencyError>)
        ensures
            r is Err <==> trim(query@).len() == 0,
            r matches Ok(d) ==> {
                &&& d.wf()
                &&& d.query() == trim(query@)
                &&& d.remaining() == provides_patterns(trim(query@))
                &&& d.found() == Seq::<Seq<char>>::empty()
                &&& d.lines_read() == Seq::<Seq<char>>::empty()
            },
    {
        let q = trim_vec(&chars_of(query));
        if q.len() == 0 {
            return Err(DependencyError::EmptyQuery);
        }
        let qs = string_of(&q);
        let patterns = search_patterns(qs.as_str());
        let d = DependencyResolution {
            query: qs,
            patterns,
            next: 0,
            found: Vec::new(),
            lines: Ghost(Seq::empty()),
        };
        assert(d.remaining() =~= provides_patterns(trim(query@)));
        assert(d.found() =~= Seq::<Seq<char>>::empty());
        Ok(d)
    }

    /// Takes in one output line of the current `dnf provides` run.
    pub fn record_line(&mut self, line: &str)
        requires
            old(self).wf(),
        ensures
            final(self).wf(),
            final(self).query() == old(self).query(),
            final(self).remaining() == old(self).remaining(),
            final(self).lines_read() == old(self).lines_read().push(line@),
            final(self).found() == packages_named(final(self).lines_read()),
            final(self).found() == (match provides_package(line@) {
                Some(p) => if old(self).found().contains(p) {
                    old(self).found()
                } else {
                    old(self).found().push(p)
                },
                None => old(self).found(),
            }),
    {
        let ghost old_lines = self.lines@;
        self.lines = Ghost(old_lines.push(line@));
        assert(self.lines@.drop_last() =~= old_lines);
        if let Some(p) = package_from_provides_line(line) {
            let n = self.found.len();
            let mut i: usize = 0;
            while i < n
                invariant
                    n == self.found@.len() == self.found().len(),
                    i <= n,
                    self.next <= self.patterns@.len(),
                    self.found().no_duplicates(),
                    self.found() == packages_named(old(self).lines_read()),
                    self.lines@ == old(self).lines_read().push(line@),
                    self.found() == old(self).found(),
                    self.query() == old(self).query(),
                    self.remaining() == old(self).remaining(),
                    provides_package(line@) == Some(p@),
                    forall|j: int| 0 <= j < i ==> self.found()[j] != p@,
                decreases n - i,
            {
                if self.found[i] == p {
                    assert(self.found()[i as int] == p@);
                    assert(self.found().contains(p@));
                    assert(self.lines@.drop_last() =~= old(self).lines_read());
                    return;
                }
                i = i + 1;
            }
            let ghost before = self.found();
            self.found.push(p);
            assert(self.found() =~= before.push(p@));
        }
    }

    /// Decides the next step: once anything is found, install it; else try
    /// the next pattern; with every pattern tried in vain, install the
    /// query itself as a package name.
    pub fn next_step(&mut self) -> (s: DependencyStep)
        requires
            old(self).wf(),
        ensures
            final(self).wf(),
            final(self).query() == old(self).query(),
            final(self).found() == old(self).found(),
            final(self).lines_read() == old(self).lines_read(),
            final(self).found() == packages_named(final(self).lines_read()),
            match s {
                DependencyStep::Install(pkgs) => {
                    &&& final(self).remaining() == old(self).remaining()
                    &&& old(self).found().len() > 0
                    &&& pkgs@.map_values(|p: String| p@) == old(self).found()
                    &&& pkgs@.map_values(|p: String| p@) == packages_named(old(self).lines_read())
                },
                DependencyStep::InstallQuery(q) => {
                    &&& final(self).remaining() == old(self).remaining()
                    &&& old(self).found().len() == 0
                    &&& packages_named(old(self).lines_read()).len() == 0
                    &&& old(self).remaining().len() == 0
                    &&& q@ == old(self).query()
                },
                DependencyStep::Provides(p) => {
                    &&& old(self).found().len() == 0
                    &&& packages_named(old(self).lines_read()).len() == 0
                    &&& old(self).remaining().len() > 0
                    &&& p@ == old(self).remaining()[0]
                    &&& final(self).remaining() == old(self).remaining().drop_first()
                },
            },
    {
        if self.found.len() > 0 {
            let mut pkgs: Vec<String> = Vec::new();
            let n = self.found.len();
            for i in 0..n
                invariant
                    n == self.found@.len(),
                    pkgs@.map_values(|p: String| p@) == self.found().take(i as int),
            {
                pkgs.push(self.found[i].clone());
                assert(self.found().take(i + 1) =~= self.found().take(i as int).push(
                    self.found@[i as int]@,
                ));
                assert(pkgs@.map_values(|p: String| p@) =~= self.found().take(i as int).push(
                    self.found@[i as int]@,
                ));
            }
            assert(self.found().take(n as int) =~= self.found());
            return DependencyStep::Install(pkgs);
        }
        if self.next < self.patterns.len() {
            let p = self.patterns[self.next].clone();
            let ghost before = self.remaining();
            assert(before[0] == self.patterns@[self.next as int]@);
            self.next = self.next + 1;
            assert(self.remaining() =~= before.drop_first());
            return DependencyStep::Provides(p);
        }
        assert(self.remaining().len() == 0);
        DependencyStep::InstallQuery(self.query.clone())
    }
}

/// The arguments of `dnf` that install the packages.
pub fn install_args(packages: &Vec<String>) -> (r: Vec<String>)
    ensures
        r@.map_values(|s: String| s@) == seq!["install"@, "-y"@] + packages@.map_values(
            |s: String| s@,
        ),
{
    let mut r: Vec<String> = Vec::new();
    r.push(String::from_str("install"));
    r.push(String::from_str("-y"));
    let n = packages.len();
    for i in 0..n
        invariant
            n == packages@.len(),
            r@.map_values(|s: String| s@) == seq!["install"@, "-y"@] + packages@.map_values(
                |s: String| s@,
            ).take(i as int),
    {
        let ghost before = r@.map_values(|s: String| s@);
        let item = packages[i].clone();
        r.push(item);
        assert(r@.map_values(|s: String| s@) =~= before.push(item@));
        assert(packages@.map_values(|s: String| s@).take(i + 1) =~= packages@.map_values(
            |s: String| s@,
        ).take(i as int).push(packages@[i as int]@));
        assert(r@.map_values(|s: String| s@) =~= seq!["install"@, "-y"@] + packages@.map_values(
            |s: String| s@,
        ).take(i + 1));
    }
    assert(packages@.map_values(|s: String| s@).take(n as int) =~= packages@.map_values(
        |s: String| s@,
    ));
    r
}

proof fn lemma_trim_end_blanks(f: Seq<char>, sp: Seq<char>)
    requires
        forall|k: int| 0 <= k < sp.len() ==> sp[k] == ' ',
    ensures
        crate::text::trim_end(f + sp) == crate::text::trim_end(f),
    decreases sp.len(),
{
    if sp.len() > 0 {
        assert((f + sp).drop_last() =~= f + sp.drop_last());
        assert((f + sp).last() == ' ');
        lemma_trim_end_blanks(f, sp.drop_last());
    }
}

/// A metadata line `FIELD<blanks> : VALUE` names no package when FIELD is
/// a single word that is a field name, or holds a blank.
proof fn lemma_field_line_names_nothing(f: Seq<char>, sp: Seq<char>, value: Seq<char>)
    requires
        f.len() > 0,
        !crate::text::is_ws(f[0]),
        !crate::text::is_ws(f.last()),
        f[0] != ' ',
        forall|k: int| 0 <= k < f.len() ==> f[k] != ':',
        forall|k: int| 0 <= k < sp.len() ==> sp[k] == ' ',
        f.contains(' ') || is_ignored_field(f),
    ensures
        provides_package(f + sp + field_separator() + value) is None,
{
    let line = f + sp + field_separator() + value;
    let at: int = (f.len() + sp.len()) as int;
    assert forall|j: int| 0 <= j < at implies !occurs_at(line, field_separator(), j) by {
        if occurs_at(line, field_separator(), j) {
            assert(line.subrange(j, j + 3)[1] == ':');
            assert(line[j + 1] == ':');
            if j + 1 < f.len() {
                assert(line[j + 1] == f[j + 1]);
            } else if j + 1 < at {
                assert(line[j + 1] == sp[j + 1 - f.len()]);
            } else {
                assert(line[j + 1] == ' ');
            }
        }
    }
    assert(line.subrange(at, at + 3) =~= field_separator());
    crate::text::lemma_find_seq(line, field_separator(), at);
    assert(line.take(at) =~= f + sp);
    assert(line[0] == f[0]);
    assert(crate::text::trim_start(f + sp) == f + sp);
    lemma_trim_end_blanks(f, sp);
    assert(crate::text::trim_end(f) == f);
    assert(trim(line.take(at)) == f);
}

/// No metadata field that `dnf provides` prints is ever taken for a package:
/// a line `FIELD<blanks> : VALUE` names no package, whatever the value and
/// however many blanks pad the field, for each of the field names `Repo`,
/// `Filename`, `Matched from`, `Provide`, `Description`, `Summary`, `URL`,
/// `License`, `Source`, `Size`, `Buildtime`, `Vendor`, `Arch`, `Epoch`,
/// `Name`, `Version`, `Release`, `Loaded plugins` and
/// `Last metadata expiration check`.
pub proof fn lemma_metadata_lines_name_no_package(field: Seq<char>, blanks: nat, value: Seq<char>)
    requires
        field == "Repo"@ || field == "Filename"@ || field == "Matched from"@ || field == "Provide"@
            || field == "Description"@ || field == "Summary"@ || field == "URL"@ || field == "License"@
            || field == "Source"@ || field == "Size"@ || field == "Buildtime"@ || field == "Vendor"@
            || field == "Arch"@ || field == "Epoch"@ || field == "Name"@ || field == "Version"@
            || field == "Release"@ || field == "Loaded plugins"@
            || field == "Last metadata expiration check"@,
    ensures
        provides_package(field + Seq::new(blanks, |k: int| ' ') + " : "@ + value) is None,
{
    reveal_strlit(" : ");
    assert(" : "@ =~= field_separator());
    reveal_strlit("Repo");
    reveal_strlit("Filename");
    reveal_strlit("Matched from");
    reveal_strlit("Provide");
    reveal_strlit("Description");
    reveal_strlit("Summary");
    reveal_strlit("URL");
    reveal_strlit("License");
    reveal_strlit("Source");
    reveal_strlit("Size");
    reveal_strlit("Buildtime");
    reveal_strlit("Vendor");
    reveal_strlit("Arch");
    reveal_strlit("Epoch");
    reveal_strlit("Name");
    reveal_strlit("Version");
    reveal_strlit("Release");
    reveal_strlit("Loaded plugins");
    reveal_strlit("Last metadata expiration check");
    assert(field.len() > 0);
    assert(field[0] != ' ' && !crate::text::is_ws(field[0]));
    assert(!crate::text::is_ws(field.last()));
    assert forall|k: int| 0 <= k < field.len() implies field[k] != ':' by {}
    assert(field.contains(' ') || is_ignored_field(field)) by {
        if field == "Matched from"@ {
            assert(field[7] == ' ');
        } else if field == "Loaded plugins"@ {
            assert(field[6] == ' ');
        } else if field == "Last metadata expiration check"@ {
            assert(field[4] == ' ');
        }
    }
    lemma_field_line_names_nothing(field, Seq::new(blanks, |k: int| ' '), value);
}

} // verus!
