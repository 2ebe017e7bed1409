use vstd::prelude::*;
use vstd::string::*;

verus! {

/// Index of the last occurrence of `c` in `s`, or -1 when `c` does not occur.
pub open spec fn last_index_of(s: Seq<char>, c: char) -> int
    decreases s.len(),
{
    if s.len() == 0 {
        -1
    } else if s.last() == c {
        s.len() - 1
    } else {
        last_index_of(s.drop_last(), c)
    }
}

/// Start of the file name of a path: the position right after its last slash.
pub open spec fn name_start(s: Seq<char>) -> int {
    last_index_of(s, '/') + 1
}

/// A path has an extension when its last dot lies inside the file name and
/// not at the name's first position (a leading dot hides a file, it does not
/// begin an extension).
pub open spec fn has_extension(s: Seq<char>) -> bool {
    last_index_of(s, '.') > name_start(s)
}

/// The extension of a path: the part of the file name after its last dot.
/// The URL is read as a plain string, so one that ends in a separator has an
/// empty file name and no extension — deliberately unlike a filesystem path
/// API, which would ignore trailing separators. A diagram reference names a
/// file, and there the two readings agree.
pub open spec fn spec_extension(s: Seq<char>) -> Option<Seq<char>> {
    if has_extension(s) {
        Some(s.subrange(last_index_of(s, '.') + 1, s.len() as int))
    } else {
        None
    }
}

/// The path with its extension replaced by `ext`, or with `.ext` appended
/// when it has none.
pub open spec fn spec_with_extension(s: Seq<char>, ext: Seq<char>) -> Seq<char> {
    if has_extension(s) {
        s.subrange(0, last_index_of(s, '.')) + seq!['.'] + ext
    } else {
        s + seq!['.'] + ext
    }
}

pub proof fn lemma_last_index_of_props(s: Seq<char>, c: char)
    ensures
        -1 <= last_index_of(s, c) < s.len(),
        last_index_of(s, c) >= 0 ==> s[last_index_of(s, c)] == c,
        forall|j: int| last_index_of(s, c) < j < s.len() ==> s[j] != c,
    decreases s.len(),
{
    if s.len() == 0 {
    } else if s.last() == c {
    } else {
        lemma_last_index_of_props(s.drop_last(), c);
        assert forall|j: int| last_index_of(s, c) < j < s.len() implies s[j] != c by {
            if j == s.len() - 1 {
            } else {
                assert(s.drop_last()[j] == s[j]);
            }
        }
    }
}

/// The last index is determined by a witness occurrence with nothing after it.
pub proof fn lemma_last_index_of_value(s: Seq<char>, c: char, i: int)
    requires
        0 <= i < s.len(),
        s[i] == c,
        forall|j: int| i < j < s.len() ==> s[j] != c,
    ensures
        last_index_of(s, c) == i,
{
    lemma_last_index_of_props(s, c);
    let l = last_index_of(s, c);
    if l < i {
        assert(s[i] != c);
    } else if l > i {
        assert(s[l] != c);
    }
}

pub proof fn lemma_last_index_of_none(s: Seq<char>, c: char)
    requires
        forall|j: int| 0 <= j < s.len() ==> s[j] != c,
    ensures
        last_index_of(s, c) == -1,
{
    lemma_last_index_of_props(s, c);
    let l = last_index_of(s, c);
    if l >= 0 {
        assert(s[l] != c);
    }
}

/// Replacing the extension of a path that has one yields a path whose
/// extension is exactly the new one, provided the new extension holds
/// neither a dot nor a slash.
pub proof fn lemma_extension_of_with_extension(s: Seq<char>, ext: Seq<char>)
    requires
        has_extension(s),
        ext.len() > 0,
        forall|j: int| 0 <= j < ext.len() ==> ext[j] != '.',
        forall|j: int| 0 <= j < ext.len() ==> ext[j] != '/',
    ensures
        has_extension(spec_with_extension(s, ext)),
        spec_extension(spec_with_extension(s, ext)) == Some(ext),
{
    let d = last_index_of(s, '.');
    let ls = last_index_of(s, '/');
    lemma_last_index_of_props(s, '.');
    lemma_last_index_of_props(s, '/');
    let p = s.subrange(0, d);
    let r = spec_with_extension(s, ext);
    assert(r == p + seq!['.'] + ext);
    assert(r.len() == d + 1 + ext.len());
    assert(r[d] == '.');
    assert forall|j: int| d < j < r.len() implies r[j] != '.' by {
        assert(r[j] == ext[j - (d + 1)]);
    }
    lemma_last_index_of_value(r, '.', d);
    if ls >= 0 {
        assert(r[ls] == s[ls]);
        assert forall|j: int| ls < j < r.len() implies r[j] != '/' by {
            if j < d {
                assert(r[j] == s[j]);
            } else if j > d {
                assert(r[j] == ext[j - (d + 1)]);
            }
        }
        lemma_last_index_of_value(r, '/', ls);
    } else {
        assert forall|j: int| 0 <= j < r.len() implies r[j] != '/' by {
            if j < d {
                assert(r[j] == s[j]);
            } else if j > d {
                assert(r[j] == ext[j - (d + 1)]);
            }
        }
        lemma_last_index_of_none(r, '/');
    }
    assert(r.subrange(d + 1, r.len() as int) =~= ext);
}

/// Replacing the extension by a different one changes the path.
pub proof fn lemma_with_extension_changes(s: Seq<char>, ext: Seq<char>)
    requires
        has_extension(s),
        ext.len() > 0,
        forall|j: int| 0 <= j < ext.len() ==> ext[j] != '.',
        forall|j: int| 0 <= j < ext.len() ==> ext[j] != '/',
        spec_extension(s) != Some(ext),
    ensures
        spec_with_extension(s, ext) != s,
{
    if spec_with_extension(s, ext) == s {
        lemma_extension_of_with_extension(s, ext);
    }
}

proof fn lemma_last_index_of_step(s: Seq<char>, c: char, i: int)
    requires
        0 <= i < s.len(),
    ensures
        last_index_of(s.subrange(0, i + 1), c) == if s[i] == c {
            i
        } else {
            last_index_of(s.subrange(0, i), c)
        },
{
    let t = s.subrange(0, i + 1);
    assert(t.last() == s[i]);
    if s[i] != c {
        assert(t.drop_last() =~= s.subrange(0, i));
    }
}

/// Index of the last occurrence of `c` in `s`, scanning every character.
pub fn find_last_char(s: &str, c: char) -> (r: Option<usize>)
    ensures
        match r {
            Some(i) => i < s@.len() && last_index_of(s@, c) == i as int,
            None => last_index_of(s@, c) == -1,
        },
{
    let n: usize = s.unicode_len();
    let mut i: usize = 0;
    let mut found: Option<usize> = None;
    while i < n
        invariant
            i <= n,
            n == s@.len(),
            match found {
                Some(k) => k < i && last_index_of(s@.subrange(0, i as int), c) == k as int,
                None => last_index_of(s@.subrange(0, i as int), c) == -1,
            },
        decreases n - i,
    {
        let ch = s.get_char(i);
        proof {
            lemma_last_index_of_step(s@, c, i as int);
        }
        if ch == c {
            found = Some(i);
        }
        i = i + 1;
    }
    proof {
        assert(s@.subrange(0, n as int) =~= s@);
    }
    found
}

/// Whether the URL's extension is exactly `ext` (a case-sensitive match).
pub fn url_extension_is(s: &String, ext: &str) -> (r: bool)
    ensures
        r == (spec_extension(s@) == Some(ext@)),
{
    let st: &str = s.as_str();
    let n: usize = st.unicode_len();
    let slash = find_last_char(st, '/');
    let dot = find_last_char(st, '.');
    let ns: usize = match slash {
        Some(i) => i + 1,
        None => 0,
    };
    match dot {
        Some(d) => {
            if d > ns {
                let sub: &str = st.substring_char(d + 1, n);
                let sub_owned: String = sub.to_owned();
                let ext_owned: String = ext.to_owned();
                let r = sub_owned == ext_owned;
                proof {
                    if r {
                        assert(spec_extension(s@) == Some(ext@));
                    } else {
                        assert(spec_extension(s@) != Some(ext@));
                    }
                }
                r
            } else {
                false
            }
        },
        None => false,
    }
}

/// The URL with its extension replaced by `ext` (or appended when none).
pub fn with_extension(s: &String, ext: &str) -> (r: String)
    ensures
        r@ == spec_with_extension(s@, ext@),
{
    let st: &str = s.as_str();
    let n: usize = st.unicode_len();
    let slash = find_last_char(st, '/');
    let dot = find_last_char(st, '.');
    let ns: usize = match slash {
        Some(i) => i + 1,
        None => 0,
    };
    let has_ext: bool = match dot {
        Some(d) => d > ns,
        None => false,
    };
    let mut out: String;
    if has_ext {
        let d = match dot {
            Some(d) => d,
            None => 0,
        };
        out = st.substring_char(0, d).to_owned();
    } else {
        out = st.to_owned();
    }
    proof {
        reveal_strlit(".");
        assert("."@ =~= seq!['.']);
    }
    out.append(".");
    out.append(ext);
    proof {
        assert(out@ =~= spec_with_extension(s@, ext@));
    }
    out
}

} // verus!
