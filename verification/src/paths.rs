//! Derivation of the expected artifact paths: the stem of the entry file and
//! the PDF and log paths under the build directory.

use vstd::prelude::*;
use vstd::seq_lib::*;
use vstd::string::*;

verus! {

/// The index of the last occurrence of `c` in `s` at or after position `lo`,
/// or -1 when there is none.
pub open spec fn last_index_at_least(s: Seq<char>, c: char, lo: int) -> int
    decreases s.len(),
{
    if s.len() == 0 || s.len() <= lo {
        -1
    } else if s[s.len() - 1] == c {
        s.len() - 1
    } else {
        last_index_at_least(s.drop_last(), c, lo)
    }
}

proof fn lemma_last_index_found(s: Seq<char>, c: char, lo: int, k: int)
    requires
        0 <= lo <= k < s.len(),
        s[k] == c,
        forall|j: int| k < j < s.len() ==> s[j] != c,
    ensures
        last_index_at_least(s, c, lo) == k,
    decreases s.len(),
{
    if k == s.len() - 1 {
    } else {
        assert(s[s.len() - 1] != c);
        assert forall|j: int| k < j < s.drop_last().len() implies s.drop_last()[j] != c by {
            assert(s.drop_last()[j] == s[j]);
        }
        assert(s.drop_last()[k] == s[k]);
        lemma_last_index_found(s.drop_last(), c, lo, k);
    }
}

proof fn lemma_last_index_none(s: Seq<char>, c: char, lo: int)
    requires
        0 <= lo,
        forall|j: int| lo <= j < s.len() ==> s[j] != c,
    ensures
        last_index_at_least(s, c, lo) == -1,
    decreases s.len(),
{
    if s.len() == 0 || s.len() <= lo {
    } else {
        assert(s[s.len() - 1] != c);
        assert forall|j: int| lo <= j < s.drop_last().len() implies s.drop_last()[j] != c by {
            assert(s.drop_last()[j] == s[j]);
        }
        lemma_last_index_none(s.drop_last(), c, lo);
    }
}

proof fn lemma_last_index_tail(s: Seq<char>, c: char, lo: int)
    requires
        0 <= lo,
    ensures
        -1 <= last_index_at_least(s, c, lo) < s.len(),
        forall|j: int| last_index_at_least(s, c, lo) < j < s.len() && lo <= j ==> s[j] != c,
    decreases s.len(),
{
    if s.len() == 0 || s.len() <= lo {
    } else if s[s.len() - 1] == c {
    } else {
        lemma_last_index_tail(s.drop_last(), c, lo);
        assert forall|j: int|
            last_index_at_least(s, c, lo) < j < s.len() && lo <= j implies s[j] != c by {
            if j < s.len() - 1 {
                assert(s.drop_last()[j] == s[j]);
            }
        }
    }
}

/// Finds the last occurrence of `c` in `s` at or after character position
/// `lo`, scanning the characters once.
fn find_last(s: &str, c: char, lo: usize) -> (r: Option<usize>)
    ensures
        match r {
            Some(k) => lo <= k < s@.len() && last_index_at_least(s@, c, lo as int) == k,
            None => last_index_at_least(s@, c, lo as int) == -1,
        },
{
    let n = s.unicode_len();
    let mut j: usize = lo;
    let mut found: bool = false;
    let mut k: usize = 0;
    while j < n
        invariant
            n == s@.len(),
            lo <= j,
            j <= n || j == lo,
            found ==> lo <= k < j && j <= n && s@[k as int] == c,
            found ==> forall|m: int| k < m < j ==> s@[m] != c,
            !found ==> forall|m: int| lo <= m < j ==> s@[m] != c,
        decreases n - j,
    {
        if s.get_char(j) == c {
            found = true;
            k = j;
        }
        j += 1;
    }
    if found {
        proof {
            lemma_last_index_found(s@, c, lo as int, k as int);
        }
        Some(k)
    } else {
        proof {
            lemma_last_index_none(s@, c, lo as int);
        }
        None
    }
}

/// Whether the text ends in a lone "." path component.
pub open spec fn ends_with_dot_component(t: Seq<char>) -> bool {
    t.len() > 0 && t[t.len() - 1] == '.' && (t.len() == 1 || t[t.len() - 2] == '/')
}

/// A path with trailing separators and trailing "." components removed: the
/// platform ignores both when naming a path's final component.
pub open spec fn spec_trimmed_path(path: Seq<char>) -> Seq<char>
    decreases path.len(),
{
    if path.len() > 0 && path[path.len() - 1] == '/' {
        spec_trimmed_path(path.drop_last())
    } else if ends_with_dot_component(path) {
        spec_trimmed_path(path.drop_last())
    } else {
        path
    }
}

proof fn lemma_trim_step(t: Seq<char>)
    requires
        t.len() > 0,
        t[t.len() - 1] == '/' || ends_with_dot_component(t),
    ensures
        spec_trimmed_path(t) == spec_trimmed_path(t.drop_last()),
{
}

proof fn lemma_trim_fixed(t: Seq<char>)
    requires
        t.len() == 0 || (t[t.len() - 1] != '/' && !ends_with_dot_component(t)),
    ensures
        spec_trimmed_path(t) == t,
{
}

/// The number of leading characters of `s` left once trailing separators and
/// trailing "." components are dropped.
fn trimmed_cut(s: &str) -> (m: usize)
    ensures
        m <= s@.len(),
        spec_trimmed_path(s@) == s@.take(m as int),
{
    let n = s.unicode_len();
    let mut m: usize = n;
    proof {
        assert(s@.take(n as int) =~= s@);
    }
    loop
        invariant
            n == s@.len(),
            m <= n,
            spec_trimmed_path(s@) == spec_trimmed_path(s@.take(m as int)),
        decreases m,
    {
        if m == 0 {
            proof {
                lemma_trim_fixed(s@.take(0));
            }
            return 0;
        }
        let c = s.get_char(m - 1);
        proof {
            assert(s@.take(m as int)[m - 1] == s@[m - 1]);
        }
        if c == '/' {
            proof {
                lemma_trim_step(s@.take(m as int));
                assert(s@.take(m as int).drop_last() =~= s@.take(m as int - 1));
            }
            m -= 1;
        } else if c == '.' {
            let sole = if m == 1 {
                true
            } else {
                s.get_char(m - 2) == '/'
            };
            proof {
                if m >= 2 {
                    assert(s@.take(m as int)[m - 2] == s@[m - 2]);
                }
            }
            if sole {
                proof {
                    lemma_trim_step(s@.take(m as int));
                    assert(s@.take(m as int).drop_last() =~= s@.take(m as int - 1));
                }
                m -= 1;
            } else {
                proof {
                    lemma_trim_fixed(s@.take(m as int));
                }
                return m;
            }
        } else {
            proof {
                lemma_trim_fixed(s@.take(m as int));
            }
            return m;
        }
    }
}

/// The component after the last '/', once trailing separators and "."
/// components are dropped.
pub open spec fn spec_raw_component(path: Seq<char>) -> Seq<char> {
    let t = spec_trimmed_path(path);
    t.skip(last_index_at_least(t, '/', 0) + 1)
}

/// The file-name portion of a path: the component after the last '/', with
/// trailing separators and "." components ignored; the relative component
/// ".." names no file.
pub open spec fn spec_file_name(path: Seq<char>) -> Seq<char> {
    let name = spec_raw_component(path);
    if name == seq!['.', '.'] {
        Seq::<char>::empty()
    } else {
        name
    }
}

/// A file name with its extension removed: the part before the last '.',
/// except that a '.' in the leading position starts no extension.
pub open spec fn spec_stem_of(name: Seq<char>) -> Seq<char> {
    let k = last_index_at_least(name, '.', 1);
    if k >= 1 {
        name.take(k)
    } else {
        name
    }
}

/// A character str::trim removes: the Unicode white-space characters.
pub open spec fn is_space_char(c: char) -> bool {
    ||| c == '\u{9}'
    ||| c == '\u{a}'
    ||| c == '\u{b}'
    ||| c == '\u{c}'
    ||| c == '\u{d}'
    ||| c == ' '
    ||| c == '\u{85}'
    ||| c == '\u{a0}'
    ||| c == '\u{1680}'
    ||| ('\u{2000}' <= c && c <= '\u{200a}')
    ||| c == '\u{2028}'
    ||| c == '\u{2029}'
    ||| c == '\u{202f}'
    ||| c == '\u{205f}'
    ||| c == '\u{3000}'
}

/// Whether a piece of text holds nothing but whitespace.
pub open spec fn spec_is_blank(s: Seq<char>) -> bool {
    forall|i: int| 0 <= i < s.len() ==> is_space_char(s[i])
}

/// The artifact stem for an entry file: its file name without the extension,
/// or "main" when that stem is empty or all whitespace.
pub open spec fn spec_stem_for_main(main_file: Seq<char>) -> Seq<char> {
    let stem = spec_stem_of(spec_file_name(main_file));
    if spec_is_blank(stem) {
        "main"@
    } else {
        stem
    }
}

fn is_space(c: char) -> (r: bool)
    ensures
        r == is_space_char(c),
{
    c == '\u{9}' || c == '\u{a}' || c == '\u{b}' || c == '\u{c}' || c == '\u{d}' || c == ' ' || c
        == '\u{85}' || c == '\u{a0}' || c == '\u{1680}' || ('\u{2000}' <= c && c <= '\u{200a}') || c
        == '\u{2028}' || c == '\u{2029}' || c == '\u{202f}' || c == '\u{205f}' || c == '\u{3000}'
}

/// The stem the build tool is expected to name its artifacts after: the file
/// name of `main_file` without its extension, or "main" when that stem is
/// empty or all whitespace.
pub fn stem_for_main(main_file: &str) -> (r: String)
    ensures
        r@ == spec_stem_for_main(main_file@),
{
    let m = trimmed_cut(main_file);
    let trimmed = main_file.substring_char(0, m);
    proof {
        assert(trimmed@ =~= spec_trimmed_path(main_file@));
    }
    let cut: usize = match find_last(trimmed, '/', 0) {
        Some(k) => k + 1,
        None => 0,
    };
    let name = trimmed.substring_char(cut, m);
    proof {
        assert(name@ =~= spec_raw_component(main_file@));
    }
    let name_len = name.unicode_len();
    let mut degenerate: bool = false;
    if name_len == 2 {
        if name.get_char(0) == '.' {
            if name.get_char(1) == '.' {
                degenerate = true;
            }
        }
    }
    proof {
        if name@ == seq!['.', '.'] {
            assert(name@.len() == 2 && name@[0] == '.' && name@[1] == '.');
        }
        if degenerate {
            assert(name@ =~= seq!['.', '.']);
        }
    }
    if degenerate {
        return String::from_str("main");
    }
    let stem = match find_last(name, '.', 1) {
        Some(k) => name.substring_char(0, k),
        None => name,
    };
    proof {
        assert(stem@ =~= spec_stem_of(spec_file_name(main_file@)));
    }
    let stem_len = stem.unicode_len();
    let mut i: usize = 0;
    let mut blank: bool = true;
    while i < stem_len
        invariant
            stem_len == stem@.len(),
            i <= stem_len,
            blank <==> (forall|k: int| 0 <= k < i ==> is_space_char(stem@[k])),
        decreases stem_len - i,
    {
        if !is_space(stem.get_char(i)) {
            blank = false;
        }
        i += 1;
    }
    if blank {
        String::from_str("main")
    } else {
        stem.to_owned()
    }
}

/// Whether a directory needs no separator added before a name under it: it is
/// empty or already ends with '/'.
pub open spec fn ends_with_sep(dir: Seq<char>) -> bool {
    dir.len() == 0 || dir[dir.len() - 1] == '/'
}

/// A name placed under a directory, with exactly one '/' between them.
pub open spec fn spec_joined(dir: Seq<char>, name: Seq<char>) -> Seq<char> {
    if ends_with_sep(dir) {
        dir + name
    } else {
        dir + "/"@ + name
    }
}

/// A file name placed under a directory.
pub fn join_path(dir: &str, name: &str) -> (r: String)
    ensures
        r@ == spec_joined(dir@, name@),
{
    let n = dir.unicode_len();
    if n == 0 {
        let r = String::from_str(name);
        proof {
            assert(r@ =~= dir@ + name@);
        }
        r
    } else if dir.get_char(n - 1) == '/' {
        String::from_str(dir).concat(name)
    } else {
        String::from_str(dir).concat("/").concat(name)
    }
}

/// The path where the build tool is expected to leave the PDF artifact.
pub open spec fn spec_pdf_path(build_dir: Seq<char>, main_file: Seq<char>) -> Seq<char> {
    spec_joined(build_dir, spec_stem_for_main(main_file) + ".pdf"@)
}

/// The path where the build tool is expected to leave its log file.
pub open spec fn spec_log_path(build_dir: Seq<char>, main_file: Seq<char>) -> Seq<char> {
    spec_joined(build_dir, spec_stem_for_main(main_file) + ".log"@)
}

/// The expected PDF path for a request: `{build_dir}/{stem}.pdf`.
pub fn pdf_path_for(build_dir: &str, main_file: &str) -> (r: String)
    ensures
        r@ == spec_pdf_path(build_dir@, main_file@),
{
    let stem = stem_for_main(main_file);
    let file = stem.concat(".pdf");
    join_path(build_dir, file.as_str())
}

/// The expected log path for a request: `{build_dir}/{stem}.log`.
pub fn log_path_for(build_dir: &str, main_file: &str) -> (r: String)
    ensures
        r@ == spec_log_path(build_dir@, main_file@),
{
    let stem = stem_for_main(main_file);
    let file = stem.concat(".log");
    join_path(build_dir, file.as_str())
}

/// An artifact path lies under its build directory: the directory is a
/// leading part of the joined path, and the name fits after it.
pub proof fn lemma_joined_extends_dir(dir: Seq<char>, name: Seq<char>)
    ensures
        spec_joined(dir, name).len() >= dir.len() + name.len(),
        spec_joined(dir, name).take(dir.len() as int) == dir,
{
    assert(spec_joined(dir, name).take(dir.len() as int) =~= dir);
}

/// An artifact file name never holds a separator: the stem is taken from
/// after the last one, and the fixed extensions hold none.
pub proof fn lemma_artifact_names_no_slash(main_file: Seq<char>)
    ensures
        !(spec_stem_for_main(main_file) + ".pdf"@).contains('/'),
        !(spec_stem_for_main(main_file) + ".log"@).contains('/'),
{
    reveal_strlit("main");
    reveal_strlit(".pdf");
    reveal_strlit(".log");
    assert("main"@ =~= seq!['m', 'a', 'i', 'n']);
    assert(".pdf"@ =~= seq!['.', 'p', 'd', 'f']);
    assert(".log"@ =~= seq!['.', 'l', 'o', 'g']);
    let t = spec_trimmed_path(main_file);
    let k = last_index_at_least(t, '/', 0);
    lemma_last_index_tail(t, '/', 0);
    let name = spec_raw_component(main_file);
    assert forall|j: int| 0 <= j < name.len() implies name[j] != '/' by {
        assert(name[j] == t[k + 1 + j]);
    }
    let fname = spec_file_name(main_file);
    assert forall|j: int| 0 <= j < fname.len() implies fname[j] != '/' by {
        assert(fname[j] == name[j]);
    }
    let stem0 = spec_stem_of(fname);
    lemma_last_index_tail(fname, '.', 1);
    assert forall|j: int| 0 <= j < stem0.len() implies stem0[j] != '/' by {
        assert(stem0[j] == fname[j]);
    }
    let stem = spec_stem_for_main(main_file);
    assert forall|j: int| 0 <= j < stem.len() implies stem[j] != '/' by {
        if spec_is_blank(stem0) {
            assert(stem[j] == seq!['m', 'a', 'i', 'n'][j]);
        } else {
            assert(stem[j] == stem0[j]);
        }
    }
    assert forall|j: int| 0 <= j < (stem + ".pdf"@).len() implies (stem + ".pdf"@)[j] != '/' by {
        if j >= stem.len() {
            assert((stem + ".pdf"@)[j] == ".pdf"@[j - stem.len()]);
        }
    }
    assert forall|j: int| 0 <= j < (stem + ".log"@).len() implies (stem + ".log"@)[j] != '/' by {
        if j >= stem.len() {
            assert((stem + ".log"@)[j] == ".log"@[j - stem.len()]);
        }
    }
}

/// Build directories naming disjoint trees (neither, with a separator
/// appended, leads the other) never share an artifact path, whatever the
/// artifact names, as long as those names hold no separator.
pub proof fn lemma_disjoint_dirs_no_shared_artifact(
    d1: Seq<char>,
    d2: Seq<char>,
    n1: Seq<char>,
    n2: Seq<char>,
)
    requires
        !(d1 + "/"@).is_prefix_of(d2 + "/"@),
        !(d2 + "/"@).is_prefix_of(d1 + "/"@),
        !n1.contains('/'),
        !n2.contains('/'),
    ensures
        spec_joined(d1, n1) != spec_joined(d2, n2),
{
    reveal_strlit("/");
    if spec_joined(d1, n1) == spec_joined(d2, n2) {
        let p = spec_joined(d1, n1);
        let q1 = if ends_with_sep(d1) {
            d1
        } else {
            d1 + "/"@
        };
        let q2 = if ends_with_sep(d2) {
            d2
        } else {
            d2 + "/"@
        };
        assert(p =~= q1 + n1);
        assert(p =~= q2 + n2);
        assert(p.len() == q1.len() + n1.len());
        assert(p.len() == q2.len() + n2.len());
        if d1.len() == 0 && d2.len() == 0 {
            assert((d1 + "/"@) =~= (d2 + "/"@).subrange(0, (d1 + "/"@).len() as int));
            assert((d1 + "/"@).is_prefix_of(d2 + "/"@));
        } else if d1.len() == 0 {
            assert(p[q2.len() - 1] == q2[q2.len() - 1]);
            assert(n1[q2.len() - 1] == '/');
            assert(n1.contains('/'));
        } else if d2.len() == 0 {
            assert(p[q1.len() - 1] == q1[q1.len() - 1]);
            assert(n2[q1.len() - 1] == '/');
            assert(n2.contains('/'));
        } else {
            assert(q1[q1.len() - 1] == '/');
            assert(q2[q2.len() - 1] == '/');
            if q1.len() < q2.len() {
                assert(p[q2.len() - 1] == q2[q2.len() - 1]);
                assert(n1[q2.len() - 1 - q1.len()] == '/');
                assert(n1.contains('/'));
            } else if q2.len() < q1.len() {
                assert(p[q1.len() - 1] == q1[q1.len() - 1]);
                assert(n2[q1.len() - 1 - q2.len()] == '/');
                assert(n2.contains('/'));
            } else {
                assert forall|i: int| 0 <= i < q1.len() implies q1[i] == q2[i] by {
                    assert(p[i] == q1[i]);
                    assert(p[i] == q2[i]);
                }
                assert(q1 =~= q2);
                if ends_with_sep(d1) && ends_with_sep(d2) {
                    assert((d1 + "/"@) =~= (d2 + "/"@).subrange(0, (d1 + "/"@).len() as int));
                    assert((d1 + "/"@).is_prefix_of(d2 + "/"@));
                } else if ends_with_sep(d1) {
                    assert(d1 =~= d2 + "/"@);
                    assert((d2 + "/"@) =~= (d1 + "/"@).subrange(0, (d2 + "/"@).len() as int));
                    assert((d2 + "/"@).is_prefix_of(d1 + "/"@));
                } else if ends_with_sep(d2) {
                    assert(d2 =~= d1 + "/"@);
                    assert((d1 + "/"@) =~= (d2 + "/"@).subrange(0, (d1 + "/"@).len() as int));
                    assert((d1 + "/"@).is_prefix_of(d2 + "/"@));
                } else {
                    assert((d1 + "/"@) =~= (d2 + "/"@).subrange(0, (d1 + "/"@).len() as int));
                    assert((d1 + "/"@).is_prefix_of(d2 + "/"@));
                }
            }
        }
    }
}

/// Requests whose build directories name disjoint trees never expect the same
/// artifact path, whatever their entry files.
pub proof fn lemma_disjoint_dirs_distinct_artifacts(
    d1: Seq<char>,
    d2: Seq<char>,
    f1: Seq<char>,
    f2: Seq<char>,
)
    requires
        !(d1 + "/"@).is_prefix_of(d2 + "/"@),
        !(d2 + "/"@).is_prefix_of(d1 + "/"@),
    ensures
        spec_pdf_path(d1, f1) != spec_pdf_path(d2, f2),
        spec_log_path(d1, f1) != spec_log_path(d2, f2),
{
    lemma_artifact_names_no_slash(f1);
    lemma_artifact_names_no_slash(f2);
    lemma_disjoint_dirs_no_shared_artifact(
        d1,
        d2,
        spec_stem_for_main(f1) + ".pdf"@,
        spec_stem_for_main(f2) + ".pdf"@,
    );
    lemma_disjoint_dirs_no_shared_artifact(
        d1,
        d2,
        spec_stem_for_main(f1) + ".log"@,
        spec_stem_for_main(f2) + ".log"@,
    );
}

} // verus!
