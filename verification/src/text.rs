//! Character-level text operations used by URL and filename handling.
//!
//! Every operation is stated over `Seq<char>` and implemented over `Vec<char>`.
use vstd::prelude::*;

verus! {

// ───────────────────────────── specifications ─────────────────────────────

/// `p` occurs in `s` starting at character index `k`.
pub open spec fn occurs_at(s: Seq<char>, p: Seq<char>, k: int) -> bool {
    0 <= k && k + p.len() <= s.len() && s.subrange(k, k + p.len()) == p
}

/// The first index at or after `k` where `p` occurs in `s`.
pub open spec fn find_from(s: Seq<char>, p: Seq<char>, k: int) -> Option<int>
    decreases s.len() + 1 - k,
{
    if k < 0 || k + p.len() > s.len() {
        None
    } else if s.subrange(k, k + p.len()) == p {
        Some(k)
    } else {
        find_from(s, p, k + 1)
    }
}

/// The first index where `p` occurs in `s` (`str::find`).
pub open spec fn find(s: Seq<char>, p: Seq<char>) -> Option<int> {
    find_from(s, p, 0)
}

/// `str::contains`.
pub open spec fn contains(s: Seq<char>, p: Seq<char>) -> bool {
    find(s, p) is Some
}

/// `str::starts_with`.
pub open spec fn starts_with(s: Seq<char>, p: Seq<char>) -> bool {
    p.len() <= s.len() && s.take(p.len() as int) == p
}

/// The last index of `c` in `s` (`str::rfind` with a character).
pub open spec fn rfind_char(s: Seq<char>, c: char) -> Option<int>
    decreases s.len(),
{
    if s.len() == 0 {
        None
    } else if s.last() == c {
        Some(s.len() - 1)
    } else {
        rfind_char(s.drop_last(), c)
    }
}

/// `s.split(c).next()`: everything before the first `c`, or all of `s`.
pub open spec fn before_first(s: Seq<char>, c: char) -> Seq<char> {
    match find(s, seq![c]) {
        Some(i) => s.take(i),
        None => s,
    }
}

/// `s.rsplit(c).next()`: everything after the last `c`, or all of `s`.
pub open spec fn after_last(s: Seq<char>, c: char) -> Seq<char> {
    match rfind_char(s, c) {
        Some(i) => s.skip(i + 1),
        None => s,
    }
}

/// `s.trim_end_matches(c)`.
pub open spec fn trim_end_char(s: Seq<char>, c: char) -> Seq<char>
    decreases s.len(),
{
    if s.len() > 0 && s.last() == c {
        trim_end_char(s.drop_last(), c)
    } else {
        s
    }
}

/// `str::replace` of a non-empty pattern, scanning from index `k`.
pub open spec fn replace_from(s: Seq<char>, p: Seq<char>, r: Seq<char>, k: int) -> Seq<char>
    decreases s.len() + 1 - k,
{
    if k < 0 || p.len() == 0 || k >= s.len() {
        s.skip(k)
    } else if occurs_at(s, p, k) {
        r + replace_from(s, p, r, k + p.len())
    } else {
        seq![s[k]] + replace_from(s, p, r, k + 1)
    }
}

/// `s.replace(p, r)` for a non-empty pattern `p`.
pub open spec fn replace(s: Seq<char>, p: Seq<char>, r: Seq<char>) -> Seq<char> {
    replace_from(s, p, r, 0)
}

// ───────────────────────────── lemmas ─────────────────────────────

/// What `find_from` returns is an occurrence, and nothing before it (from `k`) is.
pub proof fn lemma_find_from(s: Seq<char>, p: Seq<char>, k: int)
    requires
        0 <= k,
    ensures
        find_from(s, p, k) matches Some(i) ==> k <= i && occurs_at(s, p, i) && forall|j: int|
            k <= j < i ==> !occurs_at(s, p, j),
        find_from(s, p, k) is None ==> forall|j: int| k <= j ==> !occurs_at(s, p, j),
    decreases s.len() + 1 - k,
{
    if k + p.len() > s.len() {
    } else if s.subrange(k, k + p.len()) == p {
    } else {
        lemma_find_from(s, p, k + 1);
    }
}

/// What `rfind_char` returns holds `c`, and nothing after it does.
pub proof fn lemma_rfind_char(s: Seq<char>, c: char)
    ensures
        rfind_char(s, c) matches Some(i) ==> 0 <= i < s.len() && s[i] == c && forall|j: int|
            i < j < s.len() ==> s[j] != c,
        rfind_char(s, c) is None ==> forall|j: int| 0 <= j < s.len() ==> s[j] != c,
    decreases s.len(),
{
    if s.len() > 0 && s.last() != c {
        let t = s.drop_last();
        lemma_rfind_char(t, c);
        assert forall|j: int| 0 <= j < t.len() implies t[j] == s[j] by {}
    }
}

/// `trim_end_char` leaves a prefix that does not end with `c`.
pub proof fn lemma_trim_end_char(s: Seq<char>, c: char)
    ensures
        trim_end_char(s, c).len() <= s.len(),
        trim_end_char(s, c) == s.take(trim_end_char(s, c).len() as int),
        trim_end_char(s, c).len() > 0 ==> trim_end_char(s, c).last() != c,
        forall|j: int| trim_end_char(s, c).len() <= j < s.len() ==> s[j] == c,
    decreases s.len(),
{
    if s.len() > 0 && s.last() == c {
        lemma_trim_end_char(s.drop_last(), c);
        let t = trim_end_char(s.drop_last(), c);
        assert(s.drop_last().take(t.len() as int) == s.take(t.len() as int));
        assert forall|j: int| t.len() <= j < s.len() implies s[j] == c by {
            if j < s.len() - 1 {
                assert(s.drop_last()[j] == s[j]);
            }
        }
    } else {
        assert(s.take(s.len() as int) == s);
    }
}

// ───────────────────────────── trusted std calls ─────────────────────────────

/// `String::push`: the string grows by one character at the end.
#[verifier::external_body]
pub(crate) fn push_char(s: &mut String, c: char)
    ensures
        final(s)@ == old(s)@.push(c),
{
    s.push(c);
}

/// The result of `char::is_alphanumeric` (Unicode `Alphabetic` or `Numeric`).
pub uninterp spec fn unicode_alphanumeric(c: char) -> bool;

/// `char::is_alphanumeric`. Its result is named; beside the name the contract
/// states only what the documentation gives for ASCII characters: exactly the
/// letters and digits are alphanumeric.
#[verifier::external_body]
pub(crate) fn is_alphanumeric(c: char) -> (r: bool)
    ensures
        r == unicode_alphanumeric(c),
        (c as u32) < 128 ==> (r <==> ('a' <= c <= 'z' || 'A' <= c <= 'Z' || '0' <= c <= '9')),
{
    c.is_alphanumeric()
}

/// The result of `char::is_whitespace` (Unicode `White_Space`).
pub uninterp spec fn unicode_whitespace(c: char) -> bool;

/// `char::is_whitespace`. Its result is named; beside the name the contract
/// states what the documentation gives for a few ASCII characters: the space
/// is white space, while letters, digits, `-` and `_` are not.
#[verifier::external_body]
pub(crate) fn is_whitespace(c: char) -> (r: bool)
    ensures
        r == unicode_whitespace(c),
        c == ' ' ==> r,
        ('a' <= c <= 'z' || 'A' <= c <= 'Z' || '0' <= c <= '9' || c == '-' || c == '_') ==> !r,
{
    c.is_whitespace()
}

/// The result of `str::to_lowercase` (Unicode lower-case mapping).
pub uninterp spec fn unicode_lowercase(s: Seq<char>) -> Seq<char>;

/// Whether every character of `s` is ASCII.
pub open spec fn is_ascii_text(s: Seq<char>) -> bool {
    forall|i: int| 0 <= i < s.len() ==> (#[trigger] s[i] as u32) < 128
}

/// The ASCII lower-case of a character: `A`..=`Z` become `a`..=`z`, every
/// other character stays.
pub open spec fn ascii_lower(c: char) -> char {
    if 'A' <= c <= 'Z' {
        ((c as u32) + 32) as char
    } else {
        c
    }
}

/// Each character of `s` taken to its ASCII lower case.
pub open spec fn ascii_lowercase(s: Seq<char>) -> Seq<char> {
    s.map_values(|c: char| ascii_lower(c))
}

/// The lower case of a text, [`unicode_lowercase`], written out where it is
/// known: on ASCII text it is each character's ASCII lower case.
pub open spec fn lowercase(s: Seq<char>) -> Seq<char> {
    if is_ascii_text(s) {
        ascii_lowercase(s)
    } else {
        unicode_lowercase(s)
    }
}

/// `str::to_lowercase`. Beside the name of its result the contract states
/// what the documentation gives, which maps each character by the lower-case
/// mappings of the Unicode Character Database and keeps a character that has
/// none:
/// - on ASCII text, `A`..=`Z` become `a`..=`z` and every other character stays;
/// - each character maps to one or more characters, so the result is empty
///   exactly when the input is;
/// - no lower-case mapping yields an ASCII capital, so the result holds none;
/// - no lower-case mapping yields `.`, `/`, `?` or `#`, so these occur in the
///   result only where they occur in the input.
#[verifier::external_body]
pub(crate) fn to_lowercase(s: &str) -> (r: String)
    ensures
        r@ == unicode_lowercase(s@),
        is_ascii_text(s@) ==> r@ == ascii_lowercase(s@),
        r@.len() == 0 <==> s@.len() == 0,
        forall|i: int| 0 <= i < r@.len() ==> !('A' <= #[trigger] r@[i] <= 'Z'),
        forall|c: char|
            (c == '.' || c == '/' || c == '?' || c == '#') && #[trigger] r@.contains(c)
                ==> s@.contains(c),
{
    s.to_lowercase()
}

// ───────────────────────────── executable operations ─────────────────────────────

/// The characters of a string slice, in order.
pub fn chars_of(s: &str) -> (r: Vec<char>)
    ensures
        r@ == s@,
{
    let mut r: Vec<char> = Vec::new();
    for c in it: s.chars()
        invariant
            r@ == it.seq().take(it.index() as int),
    {
        r.push(c);
    }
    r
}

/// A string holding the characters `v[lo..hi]`.
pub fn string_of(v: &Vec<char>, lo: usize, hi: usize) -> (r: String)
    requires
        lo <= hi <= v.len(),
    ensures
        r@ == v@.subrange(lo as int, hi as int),
{
    let mut r = String::new();
    let mut i = lo;
    while i < hi
        invariant
            lo <= i <= hi <= v.len(),
            r@ == v@.subrange(lo as int, i as int),
        decreases hi - i,
    {
        push_char(&mut r, v[i]);
        assert(v@.subrange(lo as int, i + 1) == v@.subrange(lo as int, i as int).push(v[i as int]));
        i = i + 1;
    }
    r
}

/// A string holding all the characters of `v`.
pub fn string_from(v: &Vec<char>) -> (r: String)
    ensures
        r@ == v@,
{
    let r = string_of(v, 0, v.len());
    assert(v@.subrange(0, v@.len() as int) == v@);
    r
}

/// Appends the characters of `v` to `s`.
pub fn push_all(s: &mut String, v: &Vec<char>)
    ensures
        final(s)@ == old(s)@ + v@,
{
    let mut i: usize = 0;
    while i < v.len()
        invariant
            i <= v.len(),
            s@ == old(s)@ + v@.take(i as int),
        decreases v.len() - i,
    {
        push_char(s, v[i]);
        assert(v@.take(i + 1) == v@.take(i as int).push(v[i as int]));
        i = i + 1;
    }
    assert(v@.take(v.len() as int) == v@);
}

/// Appends the characters of `t` to `s`.
pub fn push_str(s: &mut String, t: &str)
    ensures
        final(s)@ == old(s)@ + t@,
{
    let v = chars_of(t);
    push_all(s, &v);
}

/// Whether `p` occurs in `s` at index `k`.
pub fn occurs_at_exec(s: &Vec<char>, p: &Vec<char>, k: usize) -> (r: bool)
    ensures
        r == occurs_at(s@, p@, k as int),
{
    if k > s.len() || p.len() > s.len() - k {
        return false;
    }
    let mut j: usize = 0;
    while j < p.len()
        invariant
            k + p.len() <= s.len(),
            j <= p.len(),
            forall|t: int| 0 <= t < j ==> s@[k + t] == p@[t],
        decreases p.len() - j,
    {
        if s[k + j] != p[j] {
            assert(s@.subrange(k as int, k + p.len())[j as int] != p@[j as int]);
            return false;
        }
        j = j + 1;
    }
    assert(s@.subrange(k as int, k + p.len()) == p@);
    true
}

/// The first index at or after `k` where `p` occurs in `s`.
pub fn find_from_exec(s: &Vec<char>, p: &Vec<char>, k: usize) -> (r: Option<usize>)
    ensures
        r matches Some(i) ==> find_from(s@, p@, k as int) == Some(i as int),
        r is None ==> find_from(s@, p@, k as int) is None,
{
    if p.len() == 0 {
        if k <= s.len() {
            assert(s@.subrange(k as int, k as int) =~= p@);
            return Some(k);
        }
        return None;
    }
    let mut i = k;
    while i <= s.len() && p.len() <= s.len() - i
        invariant
            k <= i,
            p.len() > 0,
            find_from(s@, p@, k as int) == find_from(s@, p@, i as int),
        decreases s.len() + 1 - i,
    {
        if occurs_at_exec(s, p, i) {
            return Some(i);
        }
        i = i + 1;
    }
    None
}

/// The first index where `p` occurs in `s`.
pub fn find_exec(s: &Vec<char>, p: &Vec<char>) -> (r: Option<usize>)
    ensures
        r matches Some(i) ==> find(s@, p@) == Some(i as int),
        r is None ==> find(s@, p@) is None,
{
    find_from_exec(s, p, 0)
}

/// Whether `p` occurs in `s`.
pub fn contains_exec(s: &Vec<char>, p: &Vec<char>) -> (r: bool)
    ensures
        r == contains(s@, p@),
{
    find_exec(s, p).is_some()
}

/// Whether `p` occurs in `s`, for a string pattern.
pub fn contains_str(s: &Vec<char>, p: &str) -> (r: bool)
    ensures
        r == contains(s@, p@),
{
    let pv = chars_of(p);
    contains_exec(s, &pv)
}

/// The first index of the string pattern `p` in `s`.
pub fn find_str(s: &Vec<char>, p: &str) -> (r: Option<usize>)
    ensures
        r matches Some(i) ==> find(s@, p@) == Some(i as int),
        r is None ==> find(s@, p@) is None,
{
    let pv = chars_of(p);
    find_exec(s, &pv)
}

/// Whether `s` starts with `p`.
pub fn starts_with_str(s: &Vec<char>, p: &str) -> (r: bool)
    ensures
        r == starts_with(s@, p@),
{
    let pv = chars_of(p);
    let b = occurs_at_exec(s, &pv, 0);
    assert(b ==> s@.subrange(0, pv@.len() as int) == s@.take(pv@.len() as int));
    assert(starts_with(s@, p@) ==> s@.subrange(0, pv@.len() as int) == s@.take(pv@.len() as int));
    b
}

/// The first index of the character `c` in `s`.
pub fn find_char(s: &Vec<char>, c: char) -> (r: Option<usize>)
    ensures
        r matches Some(i) ==> find(s@, seq![c]) == Some(i as int),
        r is None ==> find(s@, seq![c]) is None,
{
    let mut pv: Vec<char> = Vec::new();
    pv.push(c);
    assert(pv@ == seq![c]);
    find_exec(s, &pv)
}

/// The last index of the character `c` in `s`.
pub fn rfind_char_exec(s: &Vec<char>, c: char) -> (r: Option<usize>)
    ensures
        r matches Some(i) ==> rfind_char(s@, c) == Some(i as int),
        r is None ==> rfind_char(s@, c) is None,
{
    let mut n = s.len();
    assert(s@.take(n as int) =~= s@);
    while n > 0
        invariant
            n <= s.len(),
            rfind_char(s@, c) == rfind_char(s@.take(n as int), c),
        decreases n,
    {
        let ghost t = s@.take(n as int);
        assert(t.last() == s@[n - 1]);
        if s[n - 1] == c {
            return Some(n - 1);
        }
        assert(t.drop_last() == s@.take(n - 1));
        n = n - 1;
    }
    None
}

/// `s.split(c).next()` as a vector of characters.
pub fn before_first_exec(s: &Vec<char>, c: char) -> (r: Vec<char>)
    ensures
        r@ == before_first(s@, c),
{
    match find_char(s, c) {
        Some(i) => {
            proof {
                lemma_find_from(s@, seq![c], 0);
            }
            slice_vec(s, 0, i)
        },
        None => s.clone(),
    }
}

/// `s.rsplit(c).next()` as a vector of characters.
pub fn after_last_exec(s: &Vec<char>, c: char) -> (r: Vec<char>)
    ensures
        r@ == after_last(s@, c),
{
    match rfind_char_exec(s, c) {
        Some(i) => {
            proof {
                lemma_rfind_char(s@, c);
            }
            assert(i < s.len());
            let r = slice_vec(s, i + 1, s.len());
            assert(s@.subrange(i + 1, s.len() as int) == s@.skip(i + 1));
            r
        },
        None => s.clone(),
    }
}

/// `s.trim_end_matches(c)` as a vector of characters.
pub fn trim_end_char_exec(s: &Vec<char>, c: char) -> (r: Vec<char>)
    ensures
        r@ == trim_end_char(s@, c),
{
    let mut n = s.len();
    assert(s@.take(n as int) =~= s@);
    while n > 0 && s[n - 1] == c
        invariant
            n <= s.len(),
            trim_end_char(s@, c) == trim_end_char(s@.take(n as int), c),
        decreases n,
    {
        let ghost t = s@.take(n as int);
        assert(t.drop_last() == s@.take(n - 1));
        n = n - 1;
    }
    let r = slice_vec(s, 0, n);
    proof {
        let t = s@.take(n as int);
        if n > 0 {
            assert(t.last() == s@[n - 1]);
        }
        assert(s@.subrange(0, n as int) == t);
    }
    r
}

/// The characters `v[lo..hi]` as a new vector.
pub fn slice_vec(v: &Vec<char>, lo: usize, hi: usize) -> (r: Vec<char>)
    requires
        lo <= hi <= v.len(),
    ensures
        r@ == v@.subrange(lo as int, hi as int),
{
    let mut r: Vec<char> = Vec::new();
    let mut i = lo;
    while i < hi
        invariant
            lo <= i <= hi <= v.len(),
            r@ == v@.subrange(lo as int, i as int),
        decreases hi - i,
    {
        r.push(v[i]);
        assert(v@.subrange(lo as int, i + 1) == v@.subrange(lo as int, i as int).push(v[i as int]));
        i = i + 1;
    }
    r
}

/// `s.replace(p, r)` for a non-empty pattern.
pub fn replace_exec(s: &Vec<char>, p: &Vec<char>, r: &Vec<char>) -> (out: Vec<char>)
    requires
        p.len() > 0,
    ensures
        out@ == replace(s@, p@, r@),
{
    let mut out: Vec<char> = Vec::new();
    let mut k: usize = 0;
    while k < s.len()
        invariant
            p.len() > 0,
            k <= s.len(),
            out@ + replace_from(s@, p@, r@, k as int) == replace(s@, p@, r@),
        decreases s.len() - k,
    {
        if occurs_at_exec(s, p, k) {
            let ghost before = out@;
            let mut j: usize = 0;
            while j < r.len()
                invariant
                    j <= r.len(),
                    out@ == before + r@.take(j as int),
                decreases r.len() - j,
            {
                out.push(r[j]);
                assert(r@.take(j + 1) == r@.take(j as int).push(r@[j as int]));
                j = j + 1;
            }
            assert(r@.take(r.len() as int) == r@);
            assert(before + (r@ + replace_from(s@, p@, r@, k + p.len())) == before + r@
                + replace_from(s@, p@, r@, k + p.len()));
            k = k + p.len();
        } else {
            let ghost before = out@;
            out.push(s[k]);
            assert(before + (seq![s@[k as int]] + replace_from(s@, p@, r@, k + 1)) == before.push(
                s@[k as int],
            ) + replace_from(s@, p@, r@, k + 1));
            k = k + 1;
        }
    }
    assert(replace_from(s@, p@, r@, k as int) == s@.skip(k as int));
    assert(s@.skip(k as int).len() == 0);
    assert(out@ + replace_from(s@, p@, r@, k as int) == out@);
    out
}

} // verus!

verus! {

/// Whether two string slices hold the same characters.
pub fn eq_str(a: &str, b: &str) -> (r: bool)
    ensures
        r == (a@ == b@),
{
    let av = chars_of(a);
    let bv = chars_of(b);
    if av.len() != bv.len() {
        return false;
    }
    let mut i: usize = 0;
    while i < av.len()
        invariant
            av.len() == bv.len(),
            av@ == a@,
            bv@ == b@,
            i <= av.len(),
            forall|j: int| 0 <= j < i ==> av@[j] == bv@[j],
        decreases av.len() - i,
    {
        if av[i] != bv[i] {
            assert(av@[i as int] != bv@[i as int]);
            return false;
        }
        i = i + 1;
    }
    assert(av@ =~= bv@);
    true
}

/// The decimal digits of a natural number, most significant first.
pub open spec fn decimal(n: nat) -> Seq<char>
    decreases n,
{
    if n < 10 {
        seq![digit_char(n)]
    } else {
        decimal(n / 10).push(digit_char(n % 10))
    }
}

/// The ASCII digit for a number below ten.
pub open spec fn digit_char(d: nat) -> char {
    if d == 0 {
        '0'
    } else if d == 1 {
        '1'
    } else if d == 2 {
        '2'
    } else if d == 3 {
        '3'
    } else if d == 4 {
        '4'
    } else if d == 5 {
        '5'
    } else if d == 6 {
        '6'
    } else if d == 7 {
        '7'
    } else if d == 8 {
        '8'
    } else {
        '9'
    }
}

fn digit_char_exec(d: u64) -> (c: char)
    requires
        d < 10,
    ensures
        c == digit_char(d as nat),
{
    if d == 0 {
        '0'
    } else if d == 1 {
        '1'
    } else if d == 2 {
        '2'
    } else if d == 3 {
        '3'
    } else if d == 4 {
        '4'
    } else if d == 5 {
        '5'
    } else if d == 6 {
        '6'
    } else if d == 7 {
        '7'
    } else if d == 8 {
        '8'
    } else {
        '9'
    }
}

/// The decimal representation of `n` (what `n.to_string()` gives).
pub fn u64_to_decimal(n: u64) -> (r: String)
    ensures
        r@ == decimal(n as nat),
    decreases n,
{
    if n < 10 {
        let mut r = String::new();
        push_char(&mut r, digit_char_exec(n));
        r
    } else {
        let mut r = u64_to_decimal(n / 10);
        push_char(&mut r, digit_char_exec(n % 10));
        r
    }
}

} // verus!

verus! {

/// The value of an ASCII decimal digit.
pub open spec fn digit_value(c: char) -> nat {
    ((c as u32) - ('0' as u32)) as nat
}

/// Every character is an ASCII decimal digit.
pub open spec fn all_digits(s: Seq<char>) -> bool {
    forall|i: int| 0 <= i < s.len() ==> '0' <= #[trigger] s[i] <= '9'
}

/// The number a string of decimal digits denotes.
pub open spec fn digits_value(s: Seq<char>) -> nat
    decreases s.len(),
{
    if s.len() == 0 {
        0
    } else {
        digits_value(s.drop_last()) * 10 + digit_value(s.last())
    }
}

/// `u64::from_str`: an optional `+`, then one or more decimal digits whose
/// value fits in 64 bits.
pub open spec fn parsed_u64(s: Seq<char>) -> Option<u64> {
    let d = if s.len() > 0 && s[0] == '+' {
        s.skip(1)
    } else {
        s
    };
    if d.len() == 0 || !all_digits(d) || digits_value(d) > u64::MAX {
        None
    } else {
        Some(digits_value(d) as u64)
    }
}

proof fn lemma_digits_value_monotone(s: Seq<char>, i: int)
    requires
        0 <= i <= s.len(),
        all_digits(s),
    ensures
        digits_value(s.take(i)) <= digits_value(s),
    decreases s.len() - i,
{
    if i < s.len() {
        lemma_digits_value_monotone(s, i + 1);
        assert(s.take(i + 1).drop_last() == s.take(i));
        assert('0' <= s[i] <= '9');
        assert(digits_value(s.take(i + 1)) >= digits_value(s.take(i))) by (nonlinear_arith)
            requires
                digits_value(s.take(i + 1)) == digits_value(s.take(i)) * 10 + digit_value(
                    s.take(i + 1).last(),
                ),
        ;
    } else {
        assert(s.take(i) == s);
    }
}

/// Parses an unsigned 64-bit decimal number as `u64::from_str` does.
pub fn parse_u64(s: &str) -> (r: Option<u64>)
    ensures
        r == parsed_u64(s@),
{
    let all = chars_of(s);
    let start: usize = if all.len() > 0 && all[0] == '+' {
        1
    } else {
        0
    };
    let d = slice_vec(&all, start, all.len());
    assert(d@ == (if s@.len() > 0 && s@[0] == '+' {
        s@.skip(1)
    } else {
        s@
    }));
    if d.len() == 0 {
        return None;
    }
    let mut v: u64 = 0;
    let mut i: usize = 0;
    while i < d.len()
        invariant
            i <= d.len(),
            d@ == (if s@.len() > 0 && s@[0] == '+' {
                s@.skip(1)
            } else {
                s@
            }),
            all_digits(d@.take(i as int)),
            v == digits_value(d@.take(i as int)),
        decreases d.len() - i,
    {
        let c = d[i];
        assert(d@.take(i + 1).drop_last() == d@.take(i as int));
        if !('0' <= c && c <= '9') {
            assert(!('0' <= d@[i as int] <= '9'));
            assert(!all_digits(d@));
            return None;
        }
        let dv = (c as u32 - '0' as u32) as u64;
        let next = match v.checked_mul(10) {
            Some(m) => m.checked_add(dv),
            None => None,
        };
        match next {
            Some(n) => {
                v = n;
            },
            None => {
                proof {
                    assert(digits_value(d@.take(i + 1)) > u64::MAX);
                    if all_digits(d@) {
                        lemma_digits_value_monotone(d@, i + 1);
                    }
                }
                return None;
            },
        }
        i = i + 1;
    }
    assert(d@.take(d.len() as int) == d@);
    Some(v)
}

} // verus!
