//! Character-level string helpers: ASCII lower-casing, substring search,
//! Unicode whitespace trimming and separator splitting, each stated over
//! `Seq<char>`.
use vstd::prelude::*;

verus! {

/// ASCII lower-casing of one character; every other character is kept.
pub open spec fn ascii_lower_char(c: char) -> char {
    if 65 <= (c as u32) && (c as u32) <= 90 {
        ((c as u32) + 32) as char
    } else {
        c
    }
}

/// ASCII lower-casing of a whole string, character by character.
pub open spec fn ascii_lower(s: Seq<char>) -> Seq<char> {
    Seq::new(s.len(), |i: int| ascii_lower_char(s[i]))
}

/// `pat` occurs in `s` starting at index `i`.
pub open spec fn occurs_at(s: Seq<char>, pat: Seq<char>, i: int) -> bool {
    0 <= i && i + pat.len() <= s.len() && s.subrange(i, i + pat.len()) == pat
}

/// `pat` occurs somewhere in `s` (the empty pattern occurs in every string).
pub open spec fn contains_seq(s: Seq<char>, pat: Seq<char>) -> bool {
    exists|i: int| occurs_at(s, pat, i)
}

/// An ASCII letter or digit.
pub open spec fn is_word_char(c: char) -> bool {
    let u = c as u32;
    (48 <= u && u <= 57) || (65 <= u && u <= 90) || (97 <= u && u <= 122)
}

/// `pat` occurs in `s` at index `i` at the start of a word: not preceded by
/// an ASCII letter or digit.
pub open spec fn occurs_at_word_start(s: Seq<char>, pat: Seq<char>, i: int) -> bool {
    &&& occurs_at(s, pat, i)
    &&& (i == 0 || !is_word_char(s[i - 1]))
}

/// `pat` occurs somewhere in `s` at the start of a word.
pub open spec fn contains_at_word_start(s: Seq<char>, pat: Seq<char>) -> bool {
    exists|i: int| occurs_at_word_start(s, pat, i)
}

/// The characters with the Unicode `White_Space` property.
pub open spec fn is_white_space(c: char) -> bool {
    let u = c as u32;
    ||| 9 <= u && u <= 13
    ||| u == 32
    ||| u == 0x85
    ||| u == 0xa0
    ||| u == 0x1680
    ||| 0x2000 <= u && u <= 0x200a
    ||| u == 0x2028
    ||| u == 0x2029
    ||| u == 0x202f
    ||| u == 0x205f
    ||| u == 0x3000
}

/// `s` without its leading whitespace.
pub open spec fn trim_start(s: Seq<char>) -> Seq<char>
    decreases s.len(),
{
    if s.len() > 0 && is_white_space(s[0]) {
        trim_start(s.drop_first())
    } else {
        s
    }
}

/// `s` without its trailing whitespace.
pub open spec fn trim_end(s: Seq<char>) -> Seq<char>
    decreases s.len(),
{
    if s.len() > 0 && is_white_space(s.last()) {
        trim_end(s.drop_last())
    } else {
        s
    }
}

/// `s` without leading and trailing whitespace.
pub open spec fn trim(s: Seq<char>) -> Seq<char> {
    trim_end(trim_start(s))
}

/// Index of the first occurrence of `sep` in `s`, if any.
pub open spec fn first_index_of(s: Seq<char>, sep: char) -> Option<int>
    decreases s.len(),
{
    if s.len() == 0 {
        None
    } else if s[0] == sep {
        Some(0)
    } else {
        match first_index_of(s.drop_first(), sep) {
            Some(i) => Some(i + 1),
            None => None,
        }
    }
}

/// The pieces of `s` between occurrences of `sep`, in order; a string without
/// `sep` is one piece, so the result is never empty.
pub open spec fn split_on(s: Seq<char>, sep: char) -> Seq<Seq<char>>
    decreases s.len(),
{
    match first_index_of(s, sep) {
        Some(i) => if 0 <= i < s.len() {
            seq![s.take(i)] + split_on(s.skip(i + 1), sep)
        } else {
            seq![s]
        },
        None => seq![s],
    }
}

/// The views of a sequence of strings.
pub open spec fn string_views(v: Seq<String>) -> Seq<Seq<char>> {
    v.map_values(|s: String| s@)
}

pub proof fn lemma_first_index_of(s: Seq<char>, sep: char)
    ensures
        match first_index_of(s, sep) {
            Some(i) => 0 <= i < s.len() && s[i] == sep && forall|j: int| 0 <= j < i ==> s[j] != sep,
            None => forall|j: int| 0 <= j < s.len() ==> s[j] != sep,
        },
    decreases s.len(),
{
    if s.len() > 0 && s[0] != sep {
        lemma_first_index_of(s.drop_first(), sep);
        match first_index_of(s.drop_first(), sep) {
            Some(i) => {
                assert forall|j: int| 0 <= j < i + 1 implies s[j] != sep by {
                    if j > 0 {
                        assert(s[j] == s.drop_first()[j - 1]);
                    }
                }
            },
            None => {
                assert forall|j: int| 0 <= j < s.len() implies s[j] != sep by {
                    if j > 0 {
                        assert(s[j] == s.drop_first()[j - 1]);
                    }
                }
            },
        }
    }
}

/// The first occurrence of `sep` is the unique index with `sep` there and
/// none before it.
pub proof fn lemma_first_index_of_unique(s: Seq<char>, sep: char, i: int)
    requires
        0 <= i < s.len(),
        s[i] == sep,
        forall|j: int| 0 <= j < i ==> s[j] != sep,
    ensures
        first_index_of(s, sep) == Some(i),
{
    lemma_first_index_of(s, sep);
}

/// A character absent from both parts is absent from their concatenation.
pub proof fn lemma_concat_lacks(a: Seq<char>, b: Seq<char>, c: char)
    requires
        !a.contains(c),
        !b.contains(c),
    ensures
        !(a + b).contains(c),
{
    if (a + b).contains(c) {
        let k = choose|k: int| 0 <= k < (a + b).len() && (a + b)[k] == c;
        if k < a.len() {
            assert(a[k] == c);
        } else {
            assert(b[k - a.len()] == c);
        }
    }
}

/// ASCII lower-casing of one character.
pub fn to_ascii_lower(c: char) -> (r: char)
    ensures
        r == ascii_lower_char(c),
{
    let u = c as u32;
    if 65 <= u && u <= 90 {
        let b = (u + 32) as u8;
        b as char
    } else {
        c
    }
}

/// The characters of `s`, ASCII lower-cased.
pub fn ascii_lowercase_chars(s: &str) -> (r: Vec<char>)
    ensures
        r@ == ascii_lower(s@),
{
    let n = s.unicode_len();
    let mut out: Vec<char> = Vec::new();
    let mut i: usize = 0;
    while i < n
        invariant
            n == s@.len(),
            i <= n,
            out@ == Seq::new(i as nat, |j: int| ascii_lower_char(s@[j])),
        decreases n - i,
    {
        let c = s.get_char(i);
        let l = to_ascii_lower(c);
        out.push(l);
        i = i + 1;
        assert(out@ =~= Seq::new(i as nat, |j: int| ascii_lower_char(s@[j])));
    }
    assert(out@ =~= ascii_lower(s@));
    out
}

/// Does `pat` occur in `s`?
pub fn contains_chars(s: &Vec<char>, pat: &Vec<char>) -> (r: bool)
    ensures
        r == contains_seq(s@, pat@),
{
    let n = s.len();
    let m = pat.len();
    if m > n {
        assert forall|i: int| !occurs_at(s@, pat@, i) by {}
        return false;
    }
    let mut i: usize = 0;
    while i <= n - m
        invariant
            n == s@.len(),
            m == pat@.len(),
            m <= n,
            i <= n - m + 1,
            forall|k: int| 0 <= k < i ==> !occurs_at(s@, pat@, k),
        decreases n - m + 1 - i,
    {
        let mut j: usize = 0;
        let mut matched = true;
        while j < m
            invariant
                n == s@.len(),
                m == pat@.len(),
                i + m <= n,
                j <= m,
                matched == (forall|k: int| 0 <= k < j ==> s@[i + k] == pat@[k]),
            decreases m - j,
        {
            if s[i + j] != pat[j] {
                matched = false;
            }
            j = j + 1;
        }
        if matched {
            assert(s@.subrange(i as int, i + m) =~= pat@);
            assert(occurs_at(s@, pat@, i as int));
            return true;
        }
        assert(!occurs_at(s@, pat@, i as int)) by {
            let k = choose|k: int| 0 <= k < m && s@[i + k] != pat@[k];
            assert(s@.subrange(i as int, i + m)[k] == s@[i + k]);
        }
        i = i + 1;
    }
    assert forall|k: int| !occurs_at(s@, pat@, k) by {
        if 0 <= k && k + m <= n {
            assert(k < i);
        }
    }
    false
}

/// ASCII letter-or-digit test for one character.
pub fn is_word_character(c: char) -> (r: bool)
    ensures
        r == is_word_char(c),
{
    let u = c as u32;
    (48 <= u && u <= 57) || (65 <= u && u <= 90) || (97 <= u && u <= 122)
}

/// Does `pat` occur in `s` at the start of a word?
pub fn contains_at_word_start_chars(s: &Vec<char>, pat: &Vec<char>) -> (r: bool)
    ensures
        r == contains_at_word_start(s@, pat@),
{
    let n = s.len();
    let m = pat.len();
    if m > n {
        assert forall|i: int| !occurs_at_word_start(s@, pat@, i) by {}
        return false;
    }
    let mut i: usize = 0;
    while i <= n - m
        invariant
            n == s@.len(),
            m == pat@.len(),
            m <= n,
            i <= n - m + 1,
            forall|k: int| 0 <= k < i ==> !occurs_at_word_start(s@, pat@, k),
        decreases n - m + 1 - i,
    {
        let mut j: usize = 0;
        let mut matched = true;
        while j < m
            invariant
                n == s@.len(),
                m == pat@.len(),
                i + m <= n,
                j <= m,
                matched == (forall|k: int| 0 <= k < j ==> s@[i + k] == pat@[k]),
            decreases m - j,
        {
            if s[i + j] != pat[j] {
                matched = false;
            }
            j = j + 1;
        }
        let before_ok = i == 0 || !is_word_character(s[i - 1]);
        if matched && before_ok {
            assert(s@.subrange(i as int, i + m) =~= pat@);
            assert(occurs_at_word_start(s@, pat@, i as int));
            return true;
        }
        assert(!occurs_at_word_start(s@, pat@, i as int)) by {
            if !matched {
                let k = choose|k: int| 0 <= k < m && s@[i + k] != pat@[k];
                assert(s@.subrange(i as int, i + m)[k] == s@[i + k]);
            }
        }
        if i == n - m {
            assert forall|k: int| !occurs_at_word_start(s@, pat@, k) by {
                if 0 <= k && k + m <= n {
                    assert(k <= i);
                }
            }
            return false;
        }
        i = i + 1;
    }
    assert forall|k: int| !occurs_at_word_start(s@, pat@, k) by {
        if 0 <= k && k + m <= n {
            assert(k < i);
        }
    }
    false
}

/// Whitespace test for one character.
pub fn is_white_space_char(c: char) -> (r: bool)
    ensures
        r == is_white_space(c),
{
    let u = c as u32;
    (9 <= u && u <= 13) || u == 32 || u == 0x85 || u == 0xa0 || u == 0x1680 || (0x2000 <= u && u
        <= 0x200a) || u == 0x2028 || u == 0x2029 || u == 0x202f || u == 0x205f || u == 0x3000
}

proof fn lemma_trim_start_skip(s: Seq<char>, a: int)
    requires
        0 <= a <= s.len(),
        forall|k: int| 0 <= k < a ==> is_white_space(s[k]),
    ensures
        trim_start(s) == trim_start(s.subrange(a, s.len() as int)),
    decreases a,
{
    if a > 0 {
        assert(s.drop_first() =~= s.subrange(1, s.len() as int));
        let t = s.drop_first();
        lemma_trim_start_skip(t, a - 1);
        assert(t.subrange(a - 1, t.len() as int) =~= s.subrange(a, s.len() as int));
    } else {
        assert(s.subrange(0, s.len() as int) =~= s);
    }
}

proof fn lemma_trim_end_drop(s: Seq<char>, b: int)
    requires
        0 <= b <= s.len(),
        forall|k: int| b <= k < s.len() ==> is_white_space(s[k]),
    ensures
        trim_end(s) == trim_end(s.subrange(0, b)),
    decreases s.len() - b,
{
    if b < s.len() {
        let t = s.drop_last();
        lemma_trim_end_drop(t, b);
        assert(t.subrange(0, b) =~= s.subrange(0, b));
    } else {
        assert(s.subrange(0, b) =~= s);
    }
}

/// `s` without leading and trailing Unicode whitespace, as `str::trim` gives it.
pub fn trim_str(s: &str) -> (r: String)
    ensures
        r@ == trim(s@),
{
    let n = s.unicode_len();
    let mut a: usize = 0;
    while a < n && is_white_space_char(s.get_char(a))
        invariant
            n == s@.len(),
            a <= n,
            forall|k: int| 0 <= k < a ==> is_white_space(s@[k]),
        decreases n - a,
    {
        a = a + 1;
    }
    proof {
        lemma_trim_start_skip(s@, a as int);
    }
    let ghost rest = s@.subrange(a as int, n as int);
    assert(trim_start(rest) == rest) by {
        if rest.len() > 0 {
            assert(rest[0] == s@[a as int]);
        }
    }
    let mut b: usize = n;
    while b > a && is_white_space_char(s.get_char(b - 1))
        invariant
            n == s@.len(),
            a <= b <= n,
            rest == s@.subrange(a as int, n as int),
            forall|k: int| b - a <= k < rest.len() ==> is_white_space(rest[k]),
        decreases b - a,
    {
        b = b - 1;
    }
    proof {
        lemma_trim_end_drop(rest, b - a);
        let kept = rest.subrange(0, b - a);
        if kept.len() > 0 {
            assert(kept.last() == s@[b - 1]);
        }
        assert(kept =~= s@.subrange(a as int, b as int));
    }
    let sub = s.substring_char(a, b);
    sub.to_owned()
}

/// The pieces of `s` between occurrences of `sep`, each trimmed of surrounding whitespace.
pub fn split_trimmed(s: &str, sep: char) -> (r: Vec<String>)
    ensures
        string_views(r@) == split_on(s@, sep).map_values(|p: Seq<char>| trim(p)),
{
    let n = s.unicode_len();
    let mut out: Vec<String> = Vec::new();
    let mut start: usize = 0;
    let mut i: usize = 0;
    proof {
        let f = |p: Seq<char>| trim(p);
        assert(s@.skip(0) =~= s@);
        assert(string_views(out@) + split_on(s@.skip(0), sep).map_values(f) =~= split_on(
            s@,
            sep,
        ).map_values(f));
    }
    while i < n
        invariant
            n == s@.len(),
            start <= i <= n,
            forall|k: int| start <= k < i ==> s@[k] != sep,
            string_views(out@) + split_on(s@.skip(start as int), sep).map_values(
                |p: Seq<char>| trim(p),
            ) == split_on(s@, sep).map_values(|p: Seq<char>| trim(p)),
        decreases n - i,
    {
        if s.get_char(i) == sep {
            let piece = s.substring_char(start, i);
            let t = trim_str(piece);
            proof {
                let rest = s@.skip(start as int);
                let k = i - start;
                assert(rest[k] == sep);
                assert forall|j: int| 0 <= j < k implies rest[j] != sep by {
                    assert(rest[j] == s@[start + j]);
                }
                lemma_first_index_of_unique(rest, sep, k);
                assert(rest.take(k) =~= piece@);
                assert(rest.skip(k + 1) =~= s@.skip(i + 1));
                assert(split_on(rest, sep) == seq![rest.take(k)] + split_on(rest.skip(k + 1), sep));
                let f = |p: Seq<char>| trim(p);
                assert(split_on(rest, sep).map_values(f) =~= seq![trim(piece@)] + split_on(
                    s@.skip(i + 1),
                    sep,
                ).map_values(f));
            }
            let ghost old_views = string_views(out@);
            out.push(t);
            assert(string_views(out@) =~= old_views.push(t@));
            start = i + 1;
            proof {
                let f = |p: Seq<char>| trim(p);
                assert(string_views(out@) + split_on(s@.skip(start as int), sep).map_values(f)
                    =~= old_views + (seq![t@] + split_on(s@.skip(start as int), sep).map_values(
                    f,
                )));
            }
        }
        i = i + 1;
    }
    let piece = s.substring_char(start, n);
    let t = trim_str(piece);
    proof {
        let rest = s@.skip(start as int);
        assert(rest =~= piece@);
        lemma_first_index_of(rest, sep);
        assert forall|j: int| 0 <= j < rest.len() implies rest[j] != sep by {
            assert(rest[j] == s@[start + j]);
        }
        assert(first_index_of(rest, sep) is None);
        assert(split_on(rest, sep) == seq![rest]);
        let f = |p: Seq<char>| trim(p);
        assert(split_on(rest, sep).map_values(f) =~= seq![trim(rest)]);
    }
    let ghost old_views = string_views(out@);
    out.push(t);
    assert(string_views(out@) =~= old_views.push(t@));
    proof {
        let f = |p: Seq<char>| trim(p);
        assert(string_views(out@) =~= old_views + split_on(s@.skip(start as int), sep).map_values(
            f,
        ));
    }
    out
}

} // verus!
