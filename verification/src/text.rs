//! Character-level string helpers shared by the formatters.

use vstd::prelude::*;
use vstd::string::*;

verus! {

/// `c` with an ASCII upper-case letter mapped to its lower-case form.
pub open spec fn ascii_lower_char(c: char) -> char {
    if 'A' <= c && c <= 'Z' {
        ((c as u32) + 32) as char
    } else {
        c
    }
}

/// `s` with every ASCII upper-case letter mapped to lower case.
pub open spec fn ascii_lower(s: Seq<char>) -> Seq<char> {
    s.map_values(|c: char| ascii_lower_char(c))
}

/// `pat` occurs in `s` starting at position `i`.
pub open spec fn occurs_at(s: Seq<char>, pat: Seq<char>, i: int) -> bool {
    &&& 0 <= i
    &&& i + pat.len() <= s.len()
    &&& s.subrange(i, i + pat.len()) == pat
}

/// `pat` occurs somewhere in `s`.
pub open spec fn contains_seq(s: Seq<char>, pat: Seq<char>) -> bool {
    exists|i: int| occurs_at(s, pat, i)
}

/// `i` is the position of the first occurrence of `pat` in `s`.
pub open spec fn is_first_occurrence(s: Seq<char>, pat: Seq<char>, i: int) -> bool {
    &&& occurs_at(s, pat, i)
    &&& forall|j: int| 0 <= j < i ==> !occurs_at(s, pat, j)
}

/// `n` copies of `piece`, one after the other.
pub open spec fn repeat_seq(piece: Seq<char>, n: nat) -> Seq<char>
    decreases n,
{
    if n == 0 {
        Seq::empty()
    } else {
        repeat_seq(piece, (n - 1) as nat) + piece
    }
}

/// The decimal digit character for `d` (`0 <= d < 10`).
pub open spec fn digit_char(d: nat) -> char {
    ((d + 48) as u32) as char
}

/// The decimal representation of `n`, without sign or leading zeros.
pub open spec fn decimal(n: nat) -> Seq<char>
    decreases n,
{
    if n < 10 {
        seq![digit_char(n)]
    } else {
        decimal(n / 10).push(digit_char(n % 10))
    }
}

/// The Unicode `White_Space` property (PropList.txt), which `char::is_whitespace`
/// reports and `str::trim_start` and `str::trim_end` strip.
pub open spec fn is_white_space(c: char) -> bool {
    let u = c as u32;
    ||| 0x09 <= u <= 0x0d
    ||| u == 0x20
    ||| u == 0x85
    ||| u == 0xa0
    ||| u == 0x1680
    ||| 0x2000 <= u <= 0x200a
    ||| u == 0x2028
    ||| u == 0x2029
    ||| u == 0x202f
    ||| u == 0x205f
    ||| u == 0x3000
}

/// The characters of `s`, in order.
pub fn chars_of(s: &str) -> (res: Vec<char>)
    ensures
        res@ == s@,
{
    let mut res: Vec<char> = Vec::new();
    for c in it: s.chars()
        invariant
            res@ == it.seq().take(it.index() as int),
    {
        res.push(c);
    }
    res
}

/// Appends `c` to `s` through `String::push`.
#[verifier::external_body]
pub(crate) fn push_char(s: &mut String, c: char)
    ensures
        final(s)@ == old(s)@.push(c),
{
    s.push(c)
}

/// `str::trim_end`: `s` without its trailing whitespace.
#[verifier::external_body]
pub(crate) fn trim_end_str(s: &str) -> (res: &str)
    ensures
        res@.len() <= s@.len(),
        res@ == s@.take(res@.len() as int),
        forall|i: int| res@.len() <= i < s@.len() ==> is_white_space(#[trigger] s@[i]),
        res@.len() > 0 ==> !is_white_space(res@.last()),
{
    s.trim_end()
}

/// `str::trim_start`: `s` without its leading whitespace.
#[verifier::external_body]
pub(crate) fn trim_start_str(s: &str) -> (res: &str)
    ensures
        res@.len() <= s@.len(),
        res@ == s@.skip(s@.len() - res@.len()),
        forall|i: int| 0 <= i < s@.len() - res@.len() ==> is_white_space(#[trigger] s@[i]),
        res@.len() > 0 ==> !is_white_space(res@[0]),
{
    s.trim_start()
}

/// `s` without its trailing whitespace.
pub open spec fn trim_end_seq(s: Seq<char>) -> Seq<char>
    decreases s.len(),
{
    if s.len() > 0 && is_white_space(s.last()) {
        trim_end_seq(s.drop_last())
    } else {
        s
    }
}

/// `s` without its leading whitespace.
pub open spec fn trim_start_seq(s: Seq<char>) -> Seq<char>
    decreases s.len(),
{
    if s.len() > 0 && is_white_space(s[0]) {
        trim_start_seq(s.drop_first())
    } else {
        s
    }
}

/// `s` without its leading and trailing whitespace.
pub open spec fn trim_seq(s: Seq<char>) -> Seq<char> {
    trim_end_seq(trim_start_seq(s))
}

/// A prefix of `s` that drops only whitespace and keeps no whitespace at
/// its end is `trim_end_seq(s)`.
proof fn lemma_trim_end_unique(s: Seq<char>, r: Seq<char>)
    requires
        r.len() <= s.len(),
        r == s.take(r.len() as int),
        forall|i: int| r.len() <= i < s.len() ==> is_white_space(#[trigger] s[i]),
        r.len() > 0 ==> !is_white_space(r.last()),
    ensures
        r == trim_end_seq(s),
    decreases s.len(),
{
    if s.len() == r.len() {
        assert(r =~= s);
    } else {
        assert(is_white_space(s[s.len() - 1]));
        assert(s.drop_last().take(r.len() as int) =~= r);
        assert forall|i: int| r.len() <= i < s.drop_last().len() implies is_white_space(
            #[trigger] s.drop_last()[i],
        ) by {
            assert(s.drop_last()[i] == s[i]);
        }
        lemma_trim_end_unique(s.drop_last(), r);
    }
}

/// A suffix of `s` that drops only whitespace and starts with no
/// whitespace is `trim_start_seq(s)`.
proof fn lemma_trim_start_unique(s: Seq<char>, r: Seq<char>)
    requires
        r.len() <= s.len(),
        r == s.skip(s.len() - r.len()),
        forall|i: int| 0 <= i < s.len() - r.len() ==> is_white_space(#[trigger] s[i]),
        r.len() > 0 ==> !is_white_space(r[0]),
    ensures
        r == trim_start_seq(s),
    decreases s.len(),
{
    if s.len() == r.len() {
        assert(r =~= s);
    } else {
        assert(is_white_space(s[0]));
        assert(s.drop_first().skip(s.drop_first().len() - r.len()) =~= r);
        assert forall|i: int| 0 <= i < s.drop_first().len() - r.len() implies is_white_space(
            #[trigger] s.drop_first()[i],
        ) by {
            assert(s.drop_first()[i] == s[i + 1]);
        }
        lemma_trim_start_unique(s.drop_first(), r);
    }
}

/// Every character of `w` is whitespace.
pub open spec fn all_white_space(w: Seq<char>) -> bool {
    forall|i: int| 0 <= i < w.len() ==> is_white_space(#[trigger] w[i])
}

/// Trailing whitespace added to `m` does not change `m` trimmed at the end.
pub proof fn lemma_trim_end_ignores_added_space(m: Seq<char>, w: Seq<char>)
    requires
        all_white_space(w),
    ensures
        trim_end_seq(m + w) == trim_end_seq(m),
    decreases w.len(),
{
    if w.len() == 0 {
        assert(m + w =~= m);
    } else {
        assert((m + w).last() == w.last());
        assert((m + w).drop_last() =~= m + w.drop_last());
        lemma_trim_end_ignores_added_space(m, w.drop_last());
    }
}

/// Leading whitespace added to `x` does not change `x` trimmed at the start.
pub proof fn lemma_trim_start_ignores_added_space(w: Seq<char>, x: Seq<char>)
    requires
        all_white_space(w),
    ensures
        trim_start_seq(w + x) == trim_start_seq(x),
    decreases w.len(),
{
    if w.len() == 0 {
        assert(w + x =~= x);
    } else {
        assert((w + x)[0] == w[0]);
        assert((w + x).drop_first() =~= w.drop_first() + x);
        lemma_trim_start_ignores_added_space(w.drop_first(), x);
    }
}

/// Trimming both ends ignores whitespace added after `x`.
proof fn lemma_trim_ignores_space_after(x: Seq<char>, w: Seq<char>)
    requires
        all_white_space(w),
    ensures
        trim_end_seq(trim_start_seq(x + w)) == trim_end_seq(trim_start_seq(x)),
    decreases x.len(),
{
    if x.len() == 0 {
        assert(x + w =~= w);
        lemma_trim_start_ignores_added_space(w, x);
        assert(w + x =~= w);
    } else if is_white_space(x[0]) {
        assert((x + w)[0] == x[0]);
        assert((x + w).drop_first() =~= x.drop_first() + w);
        lemma_trim_ignores_space_after(x.drop_first(), w);
    } else {
        assert((x + w)[0] == x[0]);
        lemma_trim_end_ignores_added_space(x, w);
    }
}

/// Trimming both ends ignores whitespace added before and after `x`.
pub proof fn lemma_trim_ignores_surrounding_space(before: Seq<char>, x: Seq<char>, after: Seq<char>)
    requires
        all_white_space(before),
        all_white_space(after),
    ensures
        trim_seq(before + x + after) == trim_seq(x),
{
    assert(before + x + after =~= before + (x + after));
    lemma_trim_start_ignores_added_space(before, x + after);
    lemma_trim_ignores_space_after(x, after);
}

/// Characters equal up to ASCII case are both whitespace or both not.
proof fn lemma_case_keeps_white_space(c: char, d: char)
    requires
        ascii_lower_char(c) == ascii_lower_char(d),
    ensures
        is_white_space(c) == is_white_space(d),
{
}

/// Strings equal up to ASCII case stay so when trimmed at the start.
proof fn lemma_trim_start_keeps_case_equality(a: Seq<char>, b: Seq<char>)
    requires
        ascii_lower(a) == ascii_lower(b),
    ensures
        ascii_lower(trim_start_seq(a)) == ascii_lower(trim_start_seq(b)),
    decreases a.len(),
{
    assert(a.len() == ascii_lower(a).len());
    assert(b.len() == ascii_lower(b).len());
    if a.len() > 0 {
        assert(ascii_lower(a)[0] == ascii_lower_char(a[0]));
        assert(ascii_lower(b)[0] == ascii_lower_char(b[0]));
        lemma_case_keeps_white_space(a[0], b[0]);
        if is_white_space(a[0]) {
            assert(ascii_lower(a.drop_first()) =~= ascii_lower(a).drop_first());
            assert(ascii_lower(b.drop_first()) =~= ascii_lower(b).drop_first());
            lemma_trim_start_keeps_case_equality(a.drop_first(), b.drop_first());
        }
    }
}

/// Strings equal up to ASCII case stay so when trimmed at the end.
proof fn lemma_trim_end_keeps_case_equality(a: Seq<char>, b: Seq<char>)
    requires
        ascii_lower(a) == ascii_lower(b),
    ensures
        ascii_lower(trim_end_seq(a)) == ascii_lower(trim_end_seq(b)),
    decreases a.len(),
{
    assert(a.len() == ascii_lower(a).len());
    assert(b.len() == ascii_lower(b).len());
    if a.len() > 0 {
        assert(ascii_lower(a)[a.len() - 1] == ascii_lower_char(a.last()));
        assert(ascii_lower(b)[b.len() - 1] == ascii_lower_char(b.last()));
        lemma_case_keeps_white_space(a.last(), b.last());
        if is_white_space(a.last()) {
            assert(ascii_lower(a.drop_last()) =~= ascii_lower(a).drop_last());
            assert(ascii_lower(b.drop_last()) =~= ascii_lower(b).drop_last());
            lemma_trim_end_keeps_case_equality(a.drop_last(), b.drop_last());
        }
    }
}

/// Strings equal up to ASCII case stay so when trimmed at both ends.
pub proof fn lemma_trim_keeps_case_equality(a: Seq<char>, b: Seq<char>)
    requires
        ascii_lower(a) == ascii_lower(b),
    ensures
        ascii_lower(trim_seq(a)) == ascii_lower(trim_seq(b)),
{
    lemma_trim_start_keeps_case_equality(a, b);
    lemma_trim_end_keeps_case_equality(trim_start_seq(a), trim_start_seq(b));
}

/// `s` without its trailing whitespace, as `str::trim_end` gives it.
pub fn trim_end(s: &str) -> (res: &str)
    ensures
        res@ == trim_end_seq(s@),
{
    let r = trim_end_str(s);
    proof {
        lemma_trim_end_unique(s@, r@);
    }
    r
}

/// `s` without its leading and trailing whitespace, as `str::trim` gives it.
pub fn trim(s: &str) -> (res: &str)
    ensures
        res@ == trim_seq(s@),
{
    let r = trim_start_str(s);
    proof {
        lemma_trim_start_unique(s@, r@);
    }
    trim_end(r)
}

/// `c` with an ASCII upper-case letter mapped to lower case.
pub fn ascii_lower_char_exec(c: char) -> (res: char)
    ensures
        res == ascii_lower_char(c),
{
    if 'A' <= c && c <= 'Z' {
        let b: u8 = c as u8;
        ((b + 32) as u8) as char
    } else {
        c
    }
}

/// `s` with every ASCII upper-case letter mapped to lower case.
pub fn ascii_lowercase(s: &str) -> (res: String)
    ensures
        res@ == ascii_lower(s@),
{
    let cs = chars_of(s);
    let mut res = String::new();
    let n = cs.len();
    for i in 0..n
        invariant
            n == cs@.len(),
            cs@ == s@,
            res@ == ascii_lower(s@.take(i as int)),
    {
        push_char(&mut res, ascii_lower_char_exec(cs[i]));
        assert(ascii_lower(s@.take(i + 1)) == ascii_lower(s@.take(i as int)).push(
            ascii_lower_char(s@[i as int]),
        ));
    }
    assert(s@.take(n as int) == s@);
    res
}

/// Whether the two character sequences are equal.
pub fn chars_eq(a: &[char], b: &[char]) -> (res: bool)
    ensures
        res == (a@ == b@),
{
    if a.len() != b.len() {
        return false;
    }
    let n = a.len();
    for i in 0..n
        invariant
            n == a@.len(),
            n == b@.len(),
            forall|j: int| 0 <= j < i ==> a@[j] == b@[j],
    {
        if a[i] != b[i] {
            return false;
        }
    }
    assert(a@ == b@);
    true
}

/// Whether the two strings hold the same characters.
pub fn str_eq(a: &str, b: &str) -> (res: bool)
    ensures
        res == (a@ == b@),
{
    let ca = chars_of(a);
    let cb = chars_of(b);
    chars_eq(ca.as_slice(), cb.as_slice())
}

/// Whether `pat` occurs in `s` at position `i`.
fn occurs_at_exec(s: &[char], pat: &[char], i: usize) -> (res: bool)
    requires
        i <= s@.len(),
    ensures
        res == occurs_at(s@, pat@, i as int),
{
    if pat.len() > s.len() - i {
        return false;
    }
    let m = pat.len();
    let sl = s.len();
    for j in 0..m
        invariant
            m == pat@.len(),
            sl == s@.len(),
            i + m <= s@.len(),
            forall|k: int| 0 <= k < j ==> s@[i + k] == pat@[k],
    {
        if s[i + j] != pat[j] {
            assert(s@.subrange(i as int, i + m)[j as int] != pat@[j as int]);
            return false;
        }
    }
    assert(s@.subrange(i as int, i + m) == pat@);
    true
}

/// The position of the first occurrence of `pat` in `s`, if any.
pub fn find_chars(s: &[char], pat: &[char]) -> (res: Option<usize>)
    ensures
        match res {
            Some(i) => is_first_occurrence(s@, pat@, i as int),
            None => !contains_seq(s@, pat@),
        },
{
    let n = s.len();
    let mut i: usize = 0;
    while i < n
        invariant
            n == s@.len(),
            i <= n,
            forall|j: int| 0 <= j < i ==> !occurs_at(s@, pat@, j),
        decreases n - i,
    {
        if occurs_at_exec(s, pat, i) {
            return Some(i);
        }
        i = i + 1;
    }
    if occurs_at_exec(s, pat, n) {
        return Some(n);
    }
    assert forall|j: int| !occurs_at(s@, pat@, j) by {
        if 0 <= j && j < n {
        }
    }
    None
}

/// Whether `pat` occurs in `s`.
pub fn contains_str(s: &str, pat: &str) -> (res: bool)
    ensures
        res == contains_seq(s@, pat@),
{
    let cs = chars_of(s);
    let cp = chars_of(pat);
    match find_chars(cs.as_slice(), cp.as_slice()) {
        Some(i) => true,
        None => false,
    }
}

/// `n` copies of `piece`.
pub fn repeat_str(piece: &str, n: usize) -> (res: String)
    ensures
        res@ == repeat_seq(piece@, n as nat),
{
    let mut res = String::new();
    for i in 0..n
        invariant
            res@ == repeat_seq(piece@, i as nat),
    {
        res.append(piece);
    }
    res
}

/// The decimal representation of `n`.
pub fn decimal_string(n: u128) -> (res: String)
    ensures
        res@ == decimal(n as nat),
    decreases n,
{
    let d: u8 = (n % 10) as u8;
    let c: char = (d + 48) as char;
    if n < 10 {
        let mut res = String::new();
        push_char(&mut res, c);
        assert(res@ == seq![c]);
        res
    } else {
        let mut res = decimal_string(n / 10);
        push_char(&mut res, c);
        res
    }
}

/// The characters of `s` from position `from` on.
pub fn suffix_string(s: &str, from: usize) -> (res: String)
    requires
        from <= s@.len(),
    ensures
        res@ == s@.skip(from as int),
{
    let n = s.unicode_len();
    let tail = s.substring_char(from, n);
    assert(s@.subrange(from as int, n as int) == s@.skip(from as int));
    String::from_str(tail)
}

/// The first occurrence of a pattern, if there is one, is unique.
pub proof fn lemma_first_occurrence_unique(s: Seq<char>, pat: Seq<char>, i: int, j: int)
    requires
        is_first_occurrence(s, pat, i),
        is_first_occurrence(s, pat, j),
    ensures
        i == j,
{
}

} // verus!
