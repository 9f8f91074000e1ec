//! Character-level string operations with their meaning stated over `Seq<char>`.
use vstd::prelude::*;

verus! {

/// Unicode `White_Space`, the set that `char::is_whitespace` and `str::trim` use.
pub open spec fn is_white_space(c: char) -> bool {
    let u = c as u32;
    ||| 0x09 <= u <= 0x0D
    ||| u == 0x20
    ||| u == 0x85
    ||| u == 0xA0
    ||| u == 0x1680
    ||| 0x2000 <= u <= 0x200A
    ||| u == 0x2028
    ||| u == 0x2029
    ||| u == 0x202F
    ||| u == 0x205F
    ||| u == 0x3000
}

/// `s` without its leading white space.
pub open spec fn strip_leading_ws(s: Seq<char>) -> Seq<char>
    decreases s.len(),
{
    if s.len() > 0 && is_white_space(s[0]) {
        strip_leading_ws(s.drop_first())
    } else {
        s
    }
}

/// `s` without its trailing white space.
pub open spec fn strip_trailing_ws(s: Seq<char>) -> Seq<char>
    decreases s.len(),
{
    if s.len() > 0 && is_white_space(s.last()) {
        strip_trailing_ws(s.drop_last())
    } else {
        s
    }
}

/// `s` without white space at either end (`str::trim`).
pub open spec fn trimmed(s: Seq<char>) -> Seq<char> {
    strip_trailing_ws(strip_leading_ws(s))
}

/// `s` without the copies of `c` at its start (`str::trim_start_matches(c)`).
pub open spec fn strip_leading_char(s: Seq<char>, c: char) -> Seq<char>
    decreases s.len(),
{
    if s.len() > 0 && s[0] == c {
        strip_leading_char(s.drop_first(), c)
    } else {
        s
    }
}

/// `s` without the copies of `c` at its end (`str::trim_end_matches(c)`).
pub open spec fn strip_trailing_char(s: Seq<char>, c: char) -> Seq<char>
    decreases s.len(),
{
    if s.len() > 0 && s.last() == c {
        strip_trailing_char(s.drop_last(), c)
    } else {
        s
    }
}

/// The first index at or after `i` where `c` stands in `s`.
pub open spec fn find_char_from(s: Seq<char>, c: char, i: int) -> Option<int>
    decreases s.len() - i,
{
    if i < 0 || i >= s.len() {
        None
    } else if s[i] == c {
        Some(i)
    } else {
        find_char_from(s, c, i + 1)
    }
}

/// The first index where `c` stands in `s` (`str::find(c)`).
pub open spec fn find_char(s: Seq<char>, c: char) -> Option<int> {
    find_char_from(s, c, 0)
}

/// The last index where `c` stands in `s` (`str::rfind(c)`).
pub open spec fn rfind_char(s: Seq<char>, c: char) -> Option<int>
    decreases s.len(),
{
    if s.len() == 0 {
        None
    } else if s.last() == c {
        Some(s.len() - 1)
    } else {
        rfind_char(s.drop_last(), c)
    }
}

/// The first index at or after `i` where `p` starts in `s`.
pub open spec fn find_seq_from(s: Seq<char>, p: Seq<char>, i: int) -> Option<int>
    decreases s.len() + 1 - i,
{
    if i < 0 || i + p.len() > s.len() {
        None
    } else if s.subrange(i, i + p.len()) == p {
        Some(i)
    } else {
        find_seq_from(s, p, i + 1)
    }
}

/// The first index where `p` starts in `s` (`str::find(p)`).
pub open spec fn find_seq(s: Seq<char>, p: Seq<char>) -> Option<int> {
    find_seq_from(s, p, 0)
}

/// An index returned by an executable search, as the spec searches give it.
pub open spec fn index_of(r: Option<usize>) -> Option<int> {
    match r {
        Some(i) => Some(i as int),
        None => None,
    }
}

pub proof fn lemma_find_char_from_bounds(s: Seq<char>, c: char, i: int)
    ensures
        find_char_from(s, c, i) matches Some(k) ==> i <= k < s.len() && s[k] == c && forall|j: int|
            i <= j < k ==> s[j] != c,
        find_char_from(s, c, i) is None ==> forall|k: int| 0 <= i <= k < s.len() ==> s[k] != c,
    decreases s.len() - i,
{
    if 0 <= i < s.len() && s[i] != c {
        lemma_find_char_from_bounds(s, c, i + 1);
    }
}

pub proof fn lemma_rfind_char_bounds(s: Seq<char>, c: char)
    ensures
        rfind_char(s, c) matches Some(k) ==> 0 <= k < s.len() && s[k] == c && forall|j: int|
            k < j < s.len() ==> s[j] != c,
        rfind_char(s, c) is None ==> forall|k: int| 0 <= k < s.len() ==> s[k] != c,
    decreases s.len(),
{
    if s.len() > 0 && s.last() != c {
        lemma_rfind_char_bounds(s.drop_last(), c);
        assert(forall|k: int| 0 <= k < s.len() - 1 ==> s.drop_last()[k] == s[k]);
    }
}

pub proof fn lemma_find_seq_from_bounds(s: Seq<char>, p: Seq<char>, i: int)
    ensures
        find_seq_from(s, p, i) matches Some(k) ==> i <= k && k + p.len() <= s.len() && s.subrange(
            k,
            k + p.len(),
        ) == p,
        find_seq_from(s, p, i) matches Some(k) ==> forall|j: int|
            i <= j < k ==> #[trigger] s.subrange(j, j + p.len()) != p,
        find_seq_from(s, p, i) is None ==> forall|j: int|
            0 <= i <= j && j + p.len() <= s.len() ==> #[trigger] s.subrange(j, j + p.len()) != p,
    decreases s.len() + 1 - i,
{
    if 0 <= i && i + p.len() <= s.len() && s.subrange(i, i + p.len()) != p {
        lemma_find_seq_from_bounds(s, p, i + 1);
    }
}

/// Leading white space of `a` is all that `strip_leading_ws` drops from
/// `a + b` when `b` starts with another character.
pub proof fn lemma_strip_leading_ws_concat(a: Seq<char>, b: Seq<char>)
    requires
        b.len() > 0,
        !is_white_space(b[0]),
    ensures
        strip_leading_ws(a + b) == strip_leading_ws(a) + b,
    decreases a.len(),
{
    if a.len() == 0 {
        assert(a + b =~= b);
        assert(strip_leading_ws(a) + b =~= b);
    } else if is_white_space(a[0]) {
        assert((a + b).drop_first() =~= a.drop_first() + b);
        lemma_strip_leading_ws_concat(a.drop_first(), b);
    }
}

/// Trailing white space of `b` is all that `strip_trailing_ws` drops from
/// `a + b` when `a` ends in another character.
pub proof fn lemma_strip_trailing_ws_concat(a: Seq<char>, b: Seq<char>)
    requires
        a.len() > 0,
        !is_white_space(a.last()),
    ensures
        strip_trailing_ws(a + b) == a + strip_trailing_ws(b),
    decreases b.len(),
{
    if b.len() == 0 {
        assert(a + b =~= a);
        assert(a + strip_trailing_ws(b) =~= a);
    } else if is_white_space(b.last()) {
        assert((a + b).drop_last() =~= a + b.drop_last());
        lemma_strip_trailing_ws_concat(a, b.drop_last());
    }
}

/// `strip_leading_ws(a)` is a suffix of `a`.
pub proof fn lemma_strip_leading_ws_suffix(a: Seq<char>)
    ensures
        strip_leading_ws(a).len() <= a.len(),
        strip_leading_ws(a) == a.skip(a.len() - strip_leading_ws(a).len()),
    decreases a.len(),
{
    if a.len() > 0 && is_white_space(a[0]) {
        lemma_strip_leading_ws_suffix(a.drop_first());
        assert(a.drop_first().skip(a.drop_first().len() - strip_leading_ws(a).len()) =~= a.skip(
            a.len() - strip_leading_ws(a).len(),
        ));
    } else {
        assert(a.skip(0) =~= a);
    }
}

/// `strip_trailing_ws(b)` is a prefix of `b`, not empty when `b` starts
/// with a character that is not white space.
pub proof fn lemma_strip_trailing_ws_prefix(b: Seq<char>)
    ensures
        strip_trailing_ws(b).len() <= b.len(),
        strip_trailing_ws(b) == b.take(strip_trailing_ws(b).len() as int),
        b.len() > 0 && !is_white_space(b[0]) ==> strip_trailing_ws(b).len() > 0,
    decreases b.len(),
{
    if b.len() > 0 && is_white_space(b.last()) {
        lemma_strip_trailing_ws_prefix(b.drop_last());
        assert(b.drop_last().take(strip_trailing_ws(b).len() as int) =~= b.take(
            strip_trailing_ws(b).len() as int,
        ));
        if b.len() > 1 {
            assert(b.drop_last()[0] == b[0]);
        }
    } else {
        assert(b.take(b.len() as int) =~= b);
    }
}

/// Text without white space is its own trimmed form.
pub proof fn lemma_trimmed_without_white_space(s: Seq<char>)
    requires
        forall|i: int| 0 <= i < s.len() ==> !is_white_space(#[trigger] s[i]),
    ensures
        trimmed(s) == s,
{
    if s.len() > 0 {
        assert(!is_white_space(s[0]));
        assert(!is_white_space(s[s.len() - 1]));
    }
}

/// The characters of `s`, in order.
pub fn chars_of(s: &str) -> (res: Vec<char>)
    ensures
        res@ == s@,
{
    let mut res: Vec<char> = Vec::new();
    for c in it: s.chars()
        invariant
            res@ == it.seq().take(it.index() as int),
            it.seq() == s@,
    {
        res.push(c);
    }
    res
}

/// Whether `c` is Unicode white space (`char::is_whitespace`).
pub fn char_is_white_space(c: char) -> (res: bool)
    ensures
        res == is_white_space(c),
{
    let u = c as u32;
    (0x09 <= u && u <= 0x0D) || u == 0x20 || u == 0x85 || u == 0xA0 || u == 0x1680 || (0x2000 <= u
        && u <= 0x200A) || u == 0x2028 || u == 0x2029 || u == 0x202F || u == 0x205F || u == 0x3000
}

/// The text of `s` from character `from` up to character `to`.
pub fn slice_chars(s: &str, from: usize, to: usize) -> (res: String)
    requires
        from <= to <= s@.len(),
    ensures
        res@ == s@.subrange(from as int, to as int),
{
    String::from_str(s.substring_char(from, to))
}

/// The first position at or after `from` where `c` stands in `v`.
pub fn find_char_in(v: &Vec<char>, c: char, from: usize) -> (res: Option<usize>)
    ensures
        index_of(res) == find_char_from(v@, c, from as int),
{
    let mut i = from;
    if i >= v.len() {
        return None;
    }
    while i < v.len()
        invariant
            from <= i <= v.len(),
            find_char_from(v@, c, from as int) == find_char_from(v@, c, i as int),
        decreases v.len() - i,
    {
        if v[i] == c {
            return Some(i);
        }
        i = i + 1;
    }
    None
}

/// The last position where `c` stands in `v`.
pub fn rfind_char_in(v: &Vec<char>, c: char) -> (res: Option<usize>)
    ensures
        index_of(res) == rfind_char(v@, c),
{
    let mut j = v.len();
    assert(v@.take(j as int) =~= v@);
    while j > 0
        invariant
            j <= v.len(),
            rfind_char(v@, c) == rfind_char(v@.take(j as int), c),
        decreases j,
    {
        assert(v@.take(j as int).drop_last() =~= v@.take(j - 1));
        if v[j - 1] == c {
            return Some(j - 1);
        }
        j = j - 1;
    }
    None
}

/// The first position where the pattern `p` starts in `v`.
pub fn find_seq_in(v: &Vec<char>, p: &Vec<char>) -> (res: Option<usize>)
    ensures
        index_of(res) == find_seq(v@, p@),
{
    let n = v.len();
    let m = p.len();
    if m > n {
        return None;
    }
    let mut i: usize = 0;
    while i <= n - m
        invariant
            n == v.len(),
            m == p.len(),
            m <= n,
            i <= n - m + 1,
            find_seq(v@, p@) == find_seq_from(v@, p@, i as int),
        decreases n - i,
    {
        let mut k: usize = 0;
        let mut same = true;
        while k < m
            invariant
                n == v.len(),
                m == p.len(),
                i + m <= n,
                k <= m,
                same == (forall|t: int| 0 <= t < k ==> v@[i + t] == p@[t]),
            decreases m - k,
        {
            if v[i + k] != p[k] {
                same = false;
            }
            k = k + 1;
        }
        if same {
            assert(v@.subrange(i as int, i + m) =~= p@);
            return Some(i);
        } else {
            assert(v@.subrange(i as int, i + m) != p@) by {
                let t = choose|t: int| 0 <= t < m && v@[i + t] != p@[t];
                assert(v@.subrange(i as int, i + m)[t] == v@[i + t]);
            }
        }
        i = i + 1;
    }
    None
}

/// The number of white-space characters at the start of `v`.
fn leading_ws_end(v: &Vec<char>) -> (res: usize)
    ensures
        res <= v.len(),
        strip_leading_ws(v@) == v@.skip(res as int),
        res < v.len() ==> !is_white_space(v@[res as int]),
{
    let mut i: usize = 0;
    assert(v@.skip(0) =~= v@);
    while i < v.len() && char_is_white_space(v[i])
        invariant
            i <= v.len(),
            strip_leading_ws(v@) == strip_leading_ws(v@.skip(i as int)),
        decreases v.len() - i,
    {
        assert(v@.skip(i as int).drop_first() =~= v@.skip(i + 1));
        i = i + 1;
    }
    proof {
        res_stop_ws(v@, i as int);
    }
    i
}

proof fn res_stop_ws(s: Seq<char>, i: int)
    requires
        0 <= i <= s.len(),
        i < s.len() ==> !is_white_space(s[i]),
    ensures
        strip_leading_ws(s.skip(i)) == s.skip(i),
{
}

/// `s` without white space at either end (`str::trim`).
pub fn trim(s: &str) -> (res: String)
    ensures
        res@ == trimmed(s@),
{
    let v = chars_of(s);
    let a = leading_ws_end(&v);
    let mut b = v.len();
    assert(v@.skip(a as int) =~= v@.subrange(a as int, b as int));
    while b > a && char_is_white_space(v[b - 1])
        invariant
            a <= b <= v.len(),
            strip_trailing_ws(v@.skip(a as int)) == strip_trailing_ws(
                v@.subrange(a as int, b as int),
            ),
        decreases b,
    {
        assert(v@.subrange(a as int, b as int).drop_last() =~= v@.subrange(a as int, b - 1));
        b = b - 1;
    }
    slice_chars(s, a, b)
}

/// `s` without the copies of `c` at its end (`str::trim_end_matches(c)`).
pub fn trim_end_char(s: &str, c: char) -> (res: String)
    ensures
        res@ == strip_trailing_char(s@, c),
{
    let v = chars_of(s);
    let mut b = v.len();
    assert(v@ =~= v@.take(b as int));
    while b > 0 && v[b - 1] == c
        invariant
            b <= v.len(),
            strip_trailing_char(v@, c) == strip_trailing_char(v@.take(b as int), c),
        decreases b,
    {
        assert(v@.take(b as int).drop_last() =~= v@.take(b - 1));
        b = b - 1;
    }
    slice_chars(s, 0, b)
}

/// `s` without the copies of `c` at its start (`str::trim_start_matches(c)`).
pub fn trim_start_char(s: &str, c: char) -> (res: String)
    ensures
        res@ == strip_leading_char(s@, c),
{
    let v = chars_of(s);
    let mut a: usize = 0;
    assert(v@ =~= v@.skip(0));
    while a < v.len() && v[a] == c
        invariant
            a <= v.len(),
            strip_leading_char(v@, c) == strip_leading_char(v@.skip(a as int), c),
        decreases v.len() - a,
    {
        assert(v@.skip(a as int).drop_first() =~= v@.skip(a + 1));
        a = a + 1;
    }
    slice_chars(s, a, v.len())
}

/// The decimal digit for `d` (`0 <= d < 10`).
pub open spec fn digit_char(d: nat) -> char {
    ('0' as u32 + d) as char
}

/// The decimal notation of `n`, as `u64::to_string` writes it.
pub open spec fn decimal(n: nat) -> Seq<char>
    decreases n,
{
    if n < 10 {
        seq![digit_char(n)]
    } else {
        decimal(n / 10).push(digit_char(n % 10))
    }
}

/// The decimal notation of `n` (`n.to_string()`).
pub fn decimal_string(n: u64) -> (res: String)
    ensures
        res@ == decimal(n as nat),
    decreases n,
{
    let digits = "0123456789";
    proof {
        reveal_strlit("0123456789");
    }
    let d = (n % 10) as usize;
    let last = digits.substring_char(d, d + 1);
    assert(last@ =~= seq![digit_char(d as nat)]);
    if n < 10 {
        String::from_str(last)
    } else {
        let mut res = decimal_string(n / 10);
        res.append(last);
        res
    }
}

/// `a` followed by `b`.
pub fn join2(a: &str, b: &str) -> (res: String)
    ensures
        res@ == a@ + b@,
{
    String::from_str(a).concat(b)
}

/// `a`, `b` and `c`, one after another.
pub fn join3(a: &str, b: &str, c: &str) -> (res: String)
    ensures
        res@ == a@ + b@ + c@,
{
    String::from_str(a).concat(b).concat(c)
}

/// Law: dropping trailing copies of `c` twice is dropping them once.
pub proof fn strip_trailing_char_idempotent(s: Seq<char>, c: char)
    ensures
        strip_trailing_char(strip_trailing_char(s, c), c) == strip_trailing_char(s, c),
        strip_trailing_char(s, c).len() == 0 || strip_trailing_char(s, c).last() != c,
    decreases s.len(),
{
    if s.len() > 0 && s.last() == c {
        strip_trailing_char_idempotent(s.drop_last(), c);
    }
}

} // verus!
