//! Character-level helpers: ASCII case folding and file-name extensions.
use vstd::prelude::*;
use vstd::string::StrSliceExecFns;
use vstd::string::StringExecFns;

verus! {

/// The ASCII lower-case form of one character; every other character is kept.
pub open spec fn lower_char(c: char) -> char {
    if 'A' <= c && c <= 'Z' {
        ((c as u8) + 32) as char
    } else {
        c
    }
}

/// The ASCII lower-case form of a character sequence.
pub open spec fn ascii_lower(s: Seq<char>) -> Seq<char> {
    Seq::new(s.len(), |i: int| lower_char(s[i]))
}

/// A character that separates directories in a path.
pub open spec fn is_separator(c: char) -> bool {
    c == '/' || c == '\\'
}

/// The index at which the last path component starts.
pub open spec fn name_start(s: Seq<char>) -> int
    decreases s.len(),
{
    if s.len() == 0 {
        0
    } else if is_separator(s.last()) {
        s.len() as int
    } else {
        name_start(s.drop_last())
    }
}

/// The index of the last `.` of `s` that stands after `start`, or `-1`.
pub open spec fn last_dot_after(s: Seq<char>, start: int) -> int
    decreases s.len(),
{
    if s.len() == 0 || s.len() <= start + 1 {
        -1
    } else if s.last() == '.' {
        s.len() - 1
    } else {
        last_dot_after(s.drop_last(), start)
    }
}

/// The index of the dot that opens the extension of the last path component,
/// or `-1` when it has none. A leading dot (`.hidden`) opens no extension.
pub open spec fn extension_dot(s: Seq<char>) -> int {
    last_dot_after(s, name_start(s))
}

/// The extension of the last path component, without its dot; empty when it has none.
pub open spec fn extension_of(s: Seq<char>) -> Seq<char> {
    let d = extension_dot(s);
    if d < 0 {
        Seq::empty()
    } else {
        s.subrange(d + 1, s.len() as int)
    }
}

/// The path with the extension of its last component replaced by `ext`
/// (or `ext` appended, when it has none); the directory and stem are kept.
pub open spec fn with_extension(s: Seq<char>, ext: Seq<char>) -> Seq<char> {
    let d = extension_dot(s);
    let stem_end = if d < 0 { s.len() as int } else { d };
    s.subrange(0, stem_end) + seq!['.'] + ext
}

proof fn lemma_name_start_bounds(s: Seq<char>)
    ensures
        0 <= name_start(s) <= s.len(),
        forall|i: int| name_start(s) <= i < s.len() ==> !is_separator(#[trigger] s[i]),
        name_start(s) > 0 ==> is_separator(s[name_start(s) - 1]),
    decreases s.len(),
{
    if s.len() > 0 && !is_separator(s.last()) {
        lemma_name_start_bounds(s.drop_last());
        assert forall|i: int| name_start(s) <= i < s.len() implies !is_separator(#[trigger] s[i]) by {
            if i < s.len() - 1 {
                assert(s.drop_last()[i] == s[i]);
            }
        }
        if name_start(s) > 0 {
            assert(s.drop_last()[name_start(s) - 1] == s[name_start(s) - 1]);
        }
    }
}

proof fn lemma_name_start_at(s: Seq<char>, k: int)
    requires
        0 <= k <= s.len(),
        k == 0 || is_separator(s[k - 1]),
        forall|j: int| k <= j < s.len() ==> !is_separator(#[trigger] s[j]),
    ensures
        name_start(s) == k,
    decreases s.len(),
{
    if s.len() > k {
        assert(!is_separator(s[s.len() - 1]));
        assert forall|j: int| k <= j < s.drop_last().len() implies !is_separator(#[trigger] s.drop_last()[j]) by {
            assert(s.drop_last()[j] == s[j]);
        }
        if k > 0 {
            assert(s.drop_last()[k - 1] == s[k - 1]);
        }
        lemma_name_start_at(s.drop_last(), k);
    }
}

proof fn lemma_last_dot_at(s: Seq<char>, start: int, d: int)
    requires
        0 <= start < d < s.len(),
        s[d] == '.',
        forall|j: int| d < j < s.len() ==> #[trigger] s[j] != '.',
    ensures
        last_dot_after(s, start) == d,
    decreases s.len(),
{
    if s.len() - 1 > d {
        assert(s[s.len() - 1] != '.');
        assert(s.drop_last()[d] == s[d]);
        assert forall|j: int| d < j < s.drop_last().len() implies #[trigger] s.drop_last()[j] != '.' by {
            assert(s.drop_last()[j] == s[j]);
        }
        lemma_last_dot_at(s.drop_last(), start, d);
    }
}

proof fn lemma_no_dot_after(s: Seq<char>, start: int)
    requires
        start >= 0,
        forall|j: int| start < j < s.len() ==> #[trigger] s[j] != '.',
    ensures
        last_dot_after(s, start) == -1,
    decreases s.len(),
{
    if s.len() > start + 1 {
        assert(s[s.len() - 1] != '.');
        assert forall|j: int| start < j < s.drop_last().len() implies #[trigger] s.drop_last()[j] != '.' by {
            assert(s.drop_last()[j] == s[j]);
        }
        lemma_no_dot_after(s.drop_last(), start);
    }
}

/// Whether `s` equals `lower` after ASCII lower-casing.
pub fn matches_ignoring_case(s: &str, lower: &str) -> (r: bool)
    ensures
        r == (ascii_lower(s@) == lower@),
{
    let n = s.unicode_len();
    if n != lower.unicode_len() {
        proof {
            assert(ascii_lower(s@).len() != lower@.len());
        }
        return false;
    }
    let mut i: usize = 0;
    while i < n
        invariant
            n == s@.len(),
            n == lower@.len(),
            i <= n,
            forall|j: int| 0 <= j < i ==> lower_char(s@[j]) == lower@[j],
        decreases n - i,
    {
        let c = s.get_char(i);
        let lc = if 'A' <= c && c <= 'Z' {
            ((c as u8) + 32) as char
        } else {
            c
        };
        if lc != lower.get_char(i) {
            proof {
                assert(ascii_lower(s@)[i as int] != lower@[i as int]);
            }
            return false;
        }
        i = i + 1;
    }
    proof {
        assert(ascii_lower(s@) =~= lower@);
    }
    true
}

/// Index of the dot that opens the extension of the last component, if any.
fn find_extension_dot(s: &str) -> (r: Option<usize>)
    ensures
        match r {
            Some(d) => extension_dot(s@) == d as int && 0 < d < s@.len(),
            None => extension_dot(s@) == -1,
        },
{
    let n = s.unicode_len();
    let mut i: usize = n;
    while i > 0
        invariant
            n == s@.len(),
            i <= n,
            forall|j: int| i <= j < n ==> !is_separator(#[trigger] s@[j]) && s@[j] != '.',
        decreases i,
    {
        let c = s.get_char(i - 1);
        if c == '/' || c == '\\' {
            proof {
                lemma_name_start_at(s@, i as int);
                lemma_no_dot_after(s@, i as int);
            }
            return None;
        }
        if c == '.' {
            let d = i - 1;
            if d == 0 {
                proof {
                    lemma_name_start_at(s@, 0);
                    lemma_no_dot_after(s@, 0);
                }
                return None;
            }
            let p = s.get_char(d - 1);
            if p == '/' || p == '\\' {
                proof {
                    lemma_name_start_at(s@, d as int);
                    lemma_no_dot_after(s@, d as int);
                }
                return None;
            }
            proof {
                lemma_name_start_bounds(s@);
                let ns = name_start(s@);
                if ns >= d {
                    assert(is_separator(s@[ns - 1]));
                    if ns > d {
                        assert(!is_separator(s@[ns - 1]));
                    }
                }
                lemma_last_dot_at(s@, ns, d as int);
            }
            return Some(d);
        }
        i = i - 1;
    }
    proof {
        lemma_name_start_at(s@, 0);
        lemma_no_dot_after(s@, 0);
    }
    None
}

/// The extension of the last path component of `path`, without its dot.
pub fn extension(path: &str) -> (r: &str)
    ensures
        r@ == extension_of(path@),
{
    match find_extension_dot(path) {
        Some(d) => {
            let n = path.unicode_len();
            path.substring_char(d + 1, n)
        },
        None => path.substring_char(0, 0),
    }
}

/// `path` with the extension of its last component replaced by `ext`.
pub fn replace_extension(path: &str, ext: &str) -> (r: String)
    ensures
        r@ == with_extension(path@, ext@),
{
    let stem_end = match find_extension_dot(path) {
        Some(d) => d,
        None => path.unicode_len(),
    };
    let mut r = String::from_str(path.substring_char(0, stem_end));
    r.append(".");
    r.append(ext);
    proof {
        reveal_strlit(".");
    }
    r
}

} // verus!
