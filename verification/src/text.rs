//! Character-level string helpers shared by the rest of the library: equality,
//! substring search, and the line and field splitting that std performs with
//! `str::lines` and `str::split`.
use vstd::prelude::*;

verus! {

/// `hay` holds `needle` as a contiguous run of characters.
pub open spec fn seq_contains(hay: Seq<char>, needle: Seq<char>) -> bool {
    exists|i: int|
        0 <= i <= hay.len() - needle.len() && #[trigger] hay.subrange(i, i + needle.len()) == needle
}

/// Index of the first `'\n'` at or after `i`, or the length of `s` when there is none.
pub open spec fn next_newline(s: Seq<char>, i: int) -> int
    decreases s.len() - i,
{
    if i >= s.len() {
        s.len() as int
    } else if s[i] == '\n' {
        i
    } else {
        next_newline(s, i + 1)
    }
}

/// The line that starts at `start`: the characters up to the next `'\n'`, where a
/// `'\r'` right before that `'\n'` is dropped too; a last line with no `'\n'` after
/// it is kept as it is.
pub open spec fn line_at(s: Seq<char>, start: int) -> Seq<char> {
    let e = next_newline(s, start);
    let seg = s.subrange(start, e);
    if e < s.len() && seg.len() > 0 && seg.last() == '\r' {
        seg.drop_last()
    } else {
        seg
    }
}

pub proof fn lemma_next_newline_bounds(s: Seq<char>, i: int)
    requires
        0 <= i,
    ensures
        i <= s.len() ==> i <= next_newline(s, i) <= s.len(),
        i < s.len() ==> next_newline(s, i) < s.len() ==> s[next_newline(s, i)] == '\n',
        forall|k: int| i <= k < next_newline(s, i) ==> s[k] != '\n',
    decreases s.len() - i,
{
    if i < s.len() && s[i] != '\n' {
        lemma_next_newline_bounds(s, i + 1);
    }
}

/// The lines of `s` from position `start` on, as std's `str::lines` yields them.
pub open spec fn lines_from(s: Seq<char>, start: int) -> Seq<Seq<char>>
    decreases s.len() - start + 1,
{
    if start < 0 || start >= s.len() {
        seq![]
    } else {
        proof {
            lemma_next_newline_bounds(s, start);
            assert(next_newline(s, start) + 1 > start);
        }
        seq![line_at(s, start)] + lines_from(s, next_newline(s, start) + 1)
    }
}

/// The lines of `s`: split at every `'\n'`, a `'\r'` right before a `'\n'` dropped,
/// and no empty last line after a final `'\n'`.
pub open spec fn lines_of(s: Seq<char>) -> Seq<Seq<char>> {
    lines_from(s, 0)
}

/// Index of the first `sep` at or after `i`, or the length of `s` when there is none.
pub open spec fn next_sep(s: Seq<char>, sep: char, i: int) -> int
    decreases s.len() - i,
{
    if i >= s.len() {
        s.len() as int
    } else if s[i] == sep {
        i
    } else {
        next_sep(s, sep, i + 1)
    }
}

pub proof fn lemma_next_sep_bounds(s: Seq<char>, sep: char, i: int)
    requires
        0 <= i <= s.len(),
    ensures
        i <= next_sep(s, sep, i) <= s.len(),
        next_sep(s, sep, i) < s.len() ==> s[next_sep(s, sep, i)] == sep,
        forall|k: int| i <= k < next_sep(s, sep, i) ==> s[k] != sep,
    decreases s.len() - i,
{
    if i < s.len() && s[i] != sep {
        lemma_next_sep_bounds(s, sep, i + 1);
    }
}

/// The pieces of `s` between occurrences of `sep`, from position `start` on, empty
/// pieces included, as std's `str::split` with a `char` pattern yields them.
pub open spec fn split_from(s: Seq<char>, sep: char, start: int) -> Seq<Seq<char>>
    decreases s.len() - start + 1,
{
    if start < 0 || start > s.len() {
        seq![]
    } else {
        proof {
            lemma_next_sep_bounds(s, sep, start);
            assert(next_sep(s, sep, start) + 1 > start);
        }
        let e = next_sep(s, sep, start);
        if e >= s.len() {
            seq![s.subrange(start, s.len() as int)]
        } else {
            seq![s.subrange(start, e)] + split_from(s, sep, e + 1)
        }
    }
}

/// The fields of `s` separated by `sep`; the empty string has one empty field.
pub open spec fn split_on(s: Seq<char>, sep: char) -> Seq<Seq<char>> {
    split_from(s, sep, 0)
}

/// The characters of `s`, in order.
pub fn to_chars(s: &str) -> (res: Vec<char>)
    ensures
        res@ == s@,
{
    let mut res: Vec<char> = Vec::new();
    for c in it: s.chars()
        invariant
            it.seq() == s@,
            res@ == s@.take(it.index() as int),
    {
        res.push(c);
        proof {
            assert(s@.take(it.index() as int + 1) == s@.take(it.index() as int).push(c));
        }
    }
    assert(res@ == s@);
    res
}

/// Whether `a` and `b` hold the same characters.
pub fn chars_equal(a: &Vec<char>, b: &Vec<char>) -> (res: bool)
    ensures
        res == (a@ == b@),
{
    if a.len() != b.len() {
        return false;
    }
    let n = a.len();
    for i in 0..n
        invariant
            n == a@.len(),
            n == b@.len(),
            forall|k: int| 0 <= k < i ==> a@[k] == b@[k],
    {
        if a[i] != b[i] {
            return false;
        }
    }
    assert(a@ =~= b@);
    true
}

/// Whether `a` and `b` are the same string.
pub fn str_equal(a: &str, b: &str) -> (res: bool)
    ensures
        res == (a@ == b@),
{
    chars_equal(&to_chars(a), &to_chars(b))
}

/// Whether `needle` stands in `hay` from position `at` on.
fn matches_at(hay: &Vec<char>, needle: &Vec<char>, at: usize) -> (res: bool)
    requires
        at + needle@.len() <= hay@.len(),
    ensures
        res == (hay@.subrange(at as int, at + needle@.len()) == needle@),
{
    let n = needle.len();
    let hay_len = hay.len();
    for j in 0..n
        invariant
            n == needle@.len(),
            hay_len == hay@.len(),
            at + n <= hay@.len(),
            forall|k: int| 0 <= k < j ==> hay@[at + k] == needle@[k],
    {
        assert(at + j < hay@.len());
        if hay[at + j] != needle[j] {
            assert(hay@.subrange(at as int, at + n)[j as int] != needle@[j as int]);
            return false;
        }
    }
    assert(hay@.subrange(at as int, at + n) =~= needle@);
    true
}

/// Whether `needle` occurs in `hay`.
pub fn chars_contain(hay: &Vec<char>, needle: &Vec<char>) -> (res: bool)
    ensures
        res == seq_contains(hay@, needle@),
{
    if needle.len() == 0 {
        assert(hay@.subrange(0int, 0int + needle@.len()) =~= needle@);
        return true;
    }
    if needle.len() > hay.len() {
        return false;
    }
    let last = hay.len() - needle.len();
    let mut i: usize = 0;
    while i <= last
        invariant
            last == hay@.len() - needle@.len(),
            last < hay@.len(),
            hay@.len() == hay.len(),
            needle@.len() > 0,
            0 <= i <= last + 1,
            forall|k: int| 0 <= k < i ==> #[trigger] hay@.subrange(k, k + needle@.len()) != needle@,
        decreases last + 1 - i,
    {
        if matches_at(hay, needle, i) {
            return true;
        }
        i += 1;
    }
    false
}

/// Whether `needle` occurs in `hay`.
pub fn str_contains(hay: &str, needle: &str) -> (res: bool)
    ensures
        res == seq_contains(hay@, needle@),
{
    chars_contain(&to_chars(hay), &to_chars(needle))
}

/// A `String` holding the characters of `s` from `from` up to `to`.
fn substring(s: &str, from: usize, to: usize) -> (res: String)
    requires
        from <= to <= s@.len(),
    ensures
        res@ == s@.subrange(from as int, to as int),
{
    String::from_str(s.substring_char(from, to))
}

pub proof fn lemma_next_newline_at(s: Seq<char>, start: int, j: int)
    requires
        0 <= start <= j <= s.len(),
        forall|k: int| start <= k < j ==> s[k] != '\n',
        j == s.len() || s[j] == '\n',
    ensures
        next_newline(s, start) == j,
    decreases j - start,
{
    if start < j {
        lemma_next_newline_at(s, start + 1, j);
    }
}

proof fn lemma_next_sep_at(s: Seq<char>, sep: char, start: int, j: int)
    requires
        0 <= start <= j <= s.len(),
        forall|k: int| start <= k < j ==> s[k] != sep,
        j == s.len() || s[j] == sep,
    ensures
        next_sep(s, sep, start) == j,
    decreases j - start,
{
    if start < j {
        lemma_next_sep_at(s, sep, start + 1, j);
    }
}

/// The lines of `s`, as std's `str::lines` splits them.
pub fn lines(s: &str) -> (res: Vec<String>)
    ensures
        res.deep_view() == lines_of(s@),
{
    let cs = to_chars(s);
    let n = cs.len();
    let mut res: Vec<String> = Vec::new();
    let mut start: usize = 0;
    let mut j: usize = 0;
    while j < n
        invariant
            cs@ == s@,
            n == s@.len(),
            0 <= start <= j <= n,
            forall|k: int| start <= k < j ==> s@[k] != '\n',
            res.deep_view() + lines_from(s@, start as int) == lines_of(s@),
        decreases n - j,
    {
        if cs[j] == '\n' {
            proof {
                lemma_next_newline_at(s@, start as int, j as int);
            }
            let end = if j > start && cs[j - 1] == '\r' {
                j - 1
            } else {
                j
            };
            let line = substring(s, start, end);
            assert(line@ == line_at(s@, start as int));
            let ghost before = res.deep_view();
            res.push(line);
            assert(res.deep_view() =~= before.push(line@));
            assert(lines_from(s@, start as int) == seq![line@] + lines_from(s@, j + 1));
            assert(res.deep_view() + lines_from(s@, j + 1) =~= before + lines_from(
                s@,
                start as int,
            ));
            start = j + 1;
        }
        j += 1;
    }
    if start < n {
        proof {
            lemma_next_newline_at(s@, start as int, n as int);
        }
        let line = substring(s, start, n);
        assert(line@ == line_at(s@, start as int));
        let ghost before = res.deep_view();
        res.push(line);
        assert(res.deep_view() =~= before.push(line@));
        assert(lines_from(s@, start as int) == seq![line@] + lines_from(s@, n + 1));
        assert(lines_from(s@, n + 1) =~= Seq::<Seq<char>>::empty());
        assert(res.deep_view() =~= before + lines_from(s@, start as int));
    } else {
        assert(lines_from(s@, start as int) =~= Seq::<Seq<char>>::empty());
        assert(res.deep_view() =~= res.deep_view() + lines_from(s@, start as int));
    }
    res
}

/// The fields of `s` separated by `sep`, as std's `str::split` with a `char` yields them.
pub fn split_char(s: &str, sep: char) -> (res: Vec<String>)
    ensures
        res.deep_view() == split_on(s@, sep),
{
    let cs = to_chars(s);
    let n = cs.len();
    let mut res: Vec<String> = Vec::new();
    let mut start: usize = 0;
    let mut j: usize = 0;
    while j < n
        invariant
            cs@ == s@,
            n == s@.len(),
            0 <= start <= j <= n,
            forall|k: int| start <= k < j ==> s@[k] != sep,
            res.deep_view() + split_from(s@, sep, start as int) == split_on(s@, sep),
        decreases n - j,
    {
        if cs[j] == sep {
            proof {
                lemma_next_sep_at(s@, sep, start as int, j as int);
            }
            let piece = substring(s, start, j);
            let ghost before = res.deep_view();
            res.push(piece);
            assert(res.deep_view() =~= before.push(piece@));
            assert(split_from(s@, sep, start as int) == seq![piece@] + split_from(s@, sep, j + 1));
            assert(res.deep_view() + split_from(s@, sep, j + 1) =~= before + split_from(
                s@,
                sep,
                start as int,
            ));
            start = j + 1;
        }
        j += 1;
    }
    proof {
        lemma_next_sep_at(s@, sep, start as int, n as int);
    }
    let piece = substring(s, start, n);
    let ghost before = res.deep_view();
    res.push(piece);
    assert(res.deep_view() =~= before.push(piece@));
    assert(split_from(s@, sep, start as int) =~= seq![piece@]);
    assert(res.deep_view() =~= before + split_from(s@, sep, start as int));
    res
}

/// Whether a character has the Unicode `White_Space` property, which std's
/// `char::is_whitespace` and `str::trim` go by: the controls U+0009 to U+000D,
/// the space, U+0085, U+00A0, U+1680, U+2000 to U+200A, U+2028, U+2029, U+202F,
/// U+205F and U+3000.
pub open spec fn white_space(c: char) -> bool {
    let u = c as u32;
    ||| 0x09 <= u <= 0x0d
    ||| u == 0x20
    ||| u == 0x85
    ||| u == 0xa0
    ||| u == 0x1680
    ||| 0x2000 <= u <= 0x200a
    ||| u == 0x2028
    ||| u == 0x2029
    ||| u == 0x202f
    ||| u == 0x205f
    ||| u == 0x3000
}

/// Whether `c` is whitespace.
pub fn is_whitespace(c: char) -> (res: bool)
    ensures
        res == white_space(c),
{
    let u = c as u32;
    (0x09 <= u && u <= 0x0d) || u == 0x20 || u == 0x85 || u == 0xa0 || u == 0x1680 || (0x2000
        <= u && u <= 0x200a) || u == 0x2028 || u == 0x2029 || u == 0x202f || u == 0x205f || u
        == 0x3000
}

/// `s` without its leading whitespace.
pub open spec fn trim_front(s: Seq<char>) -> Seq<char>
    decreases s.len(),
{
    if s.len() > 0 && white_space(s[0]) {
        trim_front(s.drop_first())
    } else {
        s
    }
}

/// `s` without its trailing whitespace.
pub open spec fn trim_back(s: Seq<char>) -> Seq<char>
    decreases s.len(),
{
    if s.len() > 0 && white_space(s.last()) {
        trim_back(s.drop_last())
    } else {
        s
    }
}

/// `s` without leading and trailing whitespace, as std's `str::trim` gives it.
pub open spec fn trim_spec(s: Seq<char>) -> Seq<char> {
    trim_back(trim_front(s))
}

/// `s` without leading and trailing whitespace.
pub fn trim(s: &str) -> (res: String)
    ensures
        res@ == trim_spec(s@),
{
    let cs = to_chars(s);
    let n = cs.len();
    let mut i: usize = 0;
    assert(s@.skip(0) =~= s@);
    while i < n && is_whitespace(cs[i])
        invariant
            cs@ == s@,
            n == s@.len(),
            0 <= i <= n,
            trim_front(s@) == trim_front(s@.skip(i as int)),
        decreases n - i,
    {
        assert(s@.skip(i as int).drop_first() =~= s@.skip(i + 1));
        i += 1;
    }
    assert(trim_front(s@.skip(i as int)) == s@.skip(i as int)) by {
        if i < n {
            assert(s@.skip(i as int)[0] == s@[i as int]);
        }
    }
    let ghost front = s@.skip(i as int);
    let mut j: usize = n;
    while j > i && is_whitespace(cs[j - 1])
        invariant
            cs@ == s@,
            n == s@.len(),
            0 <= i <= j <= n,
            front == s@.skip(i as int),
            trim_back(front) == trim_back(s@.subrange(i as int, j as int)),
        decreases j,
    {
        assert(s@.subrange(i as int, j as int).drop_last() =~= s@.subrange(i as int, j - 1));
        j -= 1;
    }
    assert(front =~= s@.subrange(i as int, n as int));
    assert(trim_back(s@.subrange(i as int, j as int)) == s@.subrange(i as int, j as int)) by {
        if j > i {
            assert(s@.subrange(i as int, j as int).last() == s@[j - 1]);
        }
    }
    substring(s, i, j)
}

/// The lowercase form of a string, as std's `str::to_lowercase` gives it.
pub uninterp spec fn unicode_lowercase(s: Seq<char>) -> Seq<char>;

/// Calls `str::to_lowercase`. Claimed: the result is `unicode_lowercase` of the
/// argument.
#[verifier::external_body]
pub(crate) fn to_lowercase(s: &str) -> (res: String)
    ensures
        res@ == unicode_lowercase(s@),
{
    s.to_lowercase()
}

} // verus!
