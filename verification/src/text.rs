//! Character-level text operations with their specifications.
//!
//! Strings are modelled by their view, a `Seq<char>`.  The executable
//! functions work on `Vec<char>` and convert at the edges.
use vstd::prelude::*;

verus! {

// ---------------------------------------------------------------------------
// Specifications
// ---------------------------------------------------------------------------

/// `pat` occurs in `s` starting at index `i`.
pub open spec fn occurs_at(s: Seq<char>, pat: Seq<char>, i: int) -> bool {
    0 <= i && i + pat.len() <= s.len() && s.subrange(i, i + pat.len()) == pat
}

/// `s` contains `pat` as a contiguous piece.
pub open spec fn contains_seq(s: Seq<char>, pat: Seq<char>) -> bool {
    exists|i: int| occurs_at(s, pat, i)
}

/// `s` begins with `pat`.
pub open spec fn starts_with(s: Seq<char>, pat: Seq<char>) -> bool {
    pat.len() <= s.len() && s.take(pat.len() as int) == pat
}

/// `s` ends with `pat`.
pub open spec fn ends_with(s: Seq<char>, pat: Seq<char>) -> bool {
    pat.len() <= s.len() && s.skip(s.len() - pat.len()) == pat
}

/// The first index at or after `i` where `pat` occurs in `s`.
pub open spec fn find_from(s: Seq<char>, pat: Seq<char>, i: int) -> Option<int>
    decreases s.len() + 1 - i,
{
    if i < 0 || i + pat.len() > s.len() {
        None
    } else if occurs_at(s, pat, i) {
        Some(i)
    } else {
        find_from(s, pat, i + 1)
    }
}

/// The first index where `pat` occurs in `s` (`str::find`).
pub open spec fn find_first(s: Seq<char>, pat: Seq<char>) -> Option<int> {
    find_from(s, pat, 0)
}

/// The last index at or before `i` where `pat` occurs in `s`.
pub open spec fn find_back_from(s: Seq<char>, pat: Seq<char>, i: int) -> Option<int>
    decreases i + 1,
{
    if i < 0 {
        None
    } else if occurs_at(s, pat, i) {
        Some(i)
    } else {
        find_back_from(s, pat, i - 1)
    }
}

/// The last index where `pat` occurs in `s` (`str::rfind`).
pub open spec fn find_last(s: Seq<char>, pat: Seq<char>) -> Option<int> {
    find_back_from(s, pat, s.len() - pat.len())
}

/// Replace every non-overlapping occurrence of `from`, scanning left to
/// right (`str::replace`).  An empty `from` leaves `s` as it is.
pub open spec fn replace_all(s: Seq<char>, from: Seq<char>, to: Seq<char>) -> Seq<char>
    decreases s.len(),
{
    if from.len() == 0 || s.len() == 0 {
        s
    } else if occurs_at(s, from, 0) {
        to + replace_all(s.skip(from.len() as int), from, to)
    } else {
        seq![s[0]] + replace_all(s.skip(1), from, to)
    }
}

/// Replace the first occurrence of `from` (`str::replacen(from, to, 1)`).
pub open spec fn replace_first(s: Seq<char>, from: Seq<char>, to: Seq<char>) -> Seq<char> {
    match find_first(s, from) {
        Some(i) => s.take(i) + to + s.skip(i + from.len()),
        None => s,
    }
}

/// Characters with the Unicode `White_Space` property (`char::is_whitespace`).
pub open spec fn is_white(c: char) -> bool {
    let u = c as u32;
    (0x09 <= u <= 0x0d) || u == 0x20 || u == 0x85 || u == 0xa0 || u == 0x1680 || (0x2000 <= u
        <= 0x200a) || u == 0x2028 || u == 0x2029 || u == 0x202f || u == 0x205f || u == 0x3000
}

/// `s` without its leading white space.
pub open spec fn trim_start(s: Seq<char>) -> Seq<char>
    decreases s.len(),
{
    if s.len() > 0 && is_white(s[0]) {
        trim_start(s.skip(1))
    } else {
        s
    }
}

/// `s` without its trailing white space.
pub open spec fn trim_end(s: Seq<char>) -> Seq<char>
    decreases s.len(),
{
    if s.len() > 0 && is_white(s.last()) {
        trim_end(s.drop_last())
    } else {
        s
    }
}

/// `s` without leading and trailing white space (`str::trim`).
pub open spec fn trim(s: Seq<char>) -> Seq<char> {
    trim_end(trim_start(s))
}

/// A seven-bit character.
pub open spec fn is_ascii_char(c: char) -> bool {
    (c as u32) < 128
}

/// `'0'..='9'`.
pub open spec fn is_ascii_digit(c: char) -> bool {
    '0' <= c && c <= '9'
}

/// Every character of `s` is seven-bit.
pub open spec fn all_ascii(s: Seq<char>) -> bool {
    forall|i: int| 0 <= i < s.len() ==> is_ascii_char(#[trigger] s[i])
}

/// Drop one trailing `'\r'`, if any.
pub open spec fn strip_cr(s: Seq<char>) -> Seq<char> {
    if s.len() > 0 && s.last() == '\r' {
        s.drop_last()
    } else {
        s
    }
}

/// The lines of `s` (`str::lines`): split at `'\n'`, a `'\r'` just before
/// a `'\n'` is dropped, and a final line ending is optional.
pub open spec fn lines(s: Seq<char>) -> Seq<Seq<char>>
    decreases s.len(),
{
    if s.len() == 0 {
        seq![]
    } else {
        match find_first(s, seq!['\n']) {
            Some(i) => if 0 <= i < s.len() {
                seq![strip_cr(s.take(i))] + lines(s.skip(i + 1))
            } else {
                seq![s]
            },
            None => seq![s],
        }
    }
}

/// The character of a decimal digit.
pub open spec fn digit_char(d: nat) -> char {
    if d == 0 {
        '0'
    } else if d == 1 {
        '1'
    } else if d == 2 {
        '2'
    } else if d == 3 {
        '3'
    } else if d == 4 {
        '4'
    } else if d == 5 {
        '5'
    } else if d == 6 {
        '6'
    } else if d == 7 {
        '7'
    } else if d == 8 {
        '8'
    } else {
        '9'
    }
}

/// The value of a decimal digit character.
pub open spec fn digit_value(c: char) -> nat {
    ((c as u32) - 48) as nat
}

/// The decimal representation of `n`, without leading zeros (`Display` of
/// an unsigned integer).
pub open spec fn decimal(n: nat) -> Seq<char>
    decreases n,
{
    if n < 10 {
        seq![digit_char(n)]
    } else {
        decimal(n / 10) + seq![digit_char(n % 10)]
    }
}

/// Every character of `s` is a decimal digit.
pub open spec fn all_digits(s: Seq<char>) -> bool {
    forall|i: int| 0 <= i < s.len() ==> is_ascii_digit(#[trigger] s[i])
}

/// The number written by the digits `s`.
pub open spec fn digits_value(s: Seq<char>) -> nat
    decreases s.len(),
{
    if s.len() == 0 {
        0
    } else {
        digits_value(s.drop_last()) * 10 + digit_value(s.last())
    }
}

/// The digits of an unsigned number: `s` without one leading `'+'`.
pub open spec fn unsigned_digits(s: Seq<char>) -> Seq<char> {
    if s.len() > 0 && s[0] == '+' {
        s.skip(1)
    } else {
        s
    }
}

/// `str::parse::<u64>`: an optional `'+'`, then at least one digit, and a
/// value that fits.
pub open spec fn parse_u64(s: Seq<char>) -> Option<u64> {
    let d = unsigned_digits(s);
    if d.len() > 0 && all_digits(d) && digits_value(d) <= u64::MAX {
        Some(digits_value(d) as u64)
    } else {
        None
    }
}

/// Join `parts` with `sep` between consecutive parts (`slice::join`).
pub open spec fn join(parts: Seq<Seq<char>>, sep: Seq<char>) -> Seq<char>
    decreases parts.len(),
{
    if parts.len() == 0 {
        seq![]
    } else if parts.len() == 1 {
        parts[0]
    } else {
        join(parts.drop_last(), sep) + sep + parts.last()
    }
}

// ---------------------------------------------------------------------------
// Lemmas
// ---------------------------------------------------------------------------

/// An occurrence inside a suffix is an occurrence in the whole.
pub proof fn lemma_occurs_skip(s: Seq<char>, pat: Seq<char>, k: int, i: int)
    requires
        0 <= k <= s.len(),
    ensures
        occurs_at(s.skip(k), pat, i) <==> (i >= 0 && occurs_at(s, pat, i + k)),
{
    if i >= 0 && i + pat.len() <= s.len() - k {
        assert(s.skip(k).subrange(i, i + pat.len()) =~= s.subrange(i + k, i + k + pat.len()));
    }
}

/// The occurrence found by `find_from` is the first one at or after `i`.
pub proof fn lemma_find_from(s: Seq<char>, pat: Seq<char>, i: int)
    requires
        i >= 0,
    ensures
        match find_from(s, pat, i) {
            Some(k) => i <= k && occurs_at(s, pat, k) && forall|j: int|
                i <= j < k ==> !occurs_at(s, pat, j),
            None => forall|j: int| i <= j ==> !occurs_at(s, pat, j),
        },
    decreases s.len() + 1 - i,
{
    if i + pat.len() > s.len() {
    } else if occurs_at(s, pat, i) {
    } else {
        lemma_find_from(s, pat, i + 1);
    }
}

/// `find_first` finds the first occurrence, and none when there is none.
pub proof fn lemma_find_first(s: Seq<char>, pat: Seq<char>)
    ensures
        match find_first(s, pat) {
            Some(k) => occurs_at(s, pat, k) && forall|j: int| 0 <= j < k ==> !occurs_at(s, pat, j),
            None => !contains_seq(s, pat),
        },
{
    lemma_find_from(s, pat, 0);
}

/// The occurrence found by `find_back_from` is the last one at or before `i`.
pub proof fn lemma_find_back_from(s: Seq<char>, pat: Seq<char>, i: int)
    ensures
        match find_back_from(s, pat, i) {
            Some(k) => k <= i && occurs_at(s, pat, k) && forall|j: int|
                k < j <= i ==> !occurs_at(s, pat, j),
            None => forall|j: int| j <= i ==> !occurs_at(s, pat, j),
        },
    decreases i + 1,
{
    if i < 0 {
    } else if occurs_at(s, pat, i) {
    } else {
        lemma_find_back_from(s, pat, i - 1);
    }
}

/// `find_last` finds the last occurrence, and none when there is none.
pub proof fn lemma_find_last(s: Seq<char>, pat: Seq<char>)
    ensures
        match find_last(s, pat) {
            Some(k) => occurs_at(s, pat, k) && forall|j: int| k < j ==> !occurs_at(s, pat, j),
            None => !contains_seq(s, pat),
        },
{
    lemma_find_back_from(s, pat, s.len() - pat.len());
}

/// An occurrence inside a piece is an occurrence in any concatenation
/// around it.
pub proof fn lemma_contains_inner(a: Seq<char>, b: Seq<char>, c: Seq<char>, pat: Seq<char>)
    requires
        contains_seq(b, pat),
    ensures
        contains_seq(a + b + c, pat),
{
    let i = choose|i: int| occurs_at(b, pat, i);
    assert((a + b + c).subrange(a.len() + i, a.len() + i + pat.len()) =~= b.subrange(
        i,
        i + pat.len(),
    ));
    assert(occurs_at(a + b + c, pat, a.len() + i));
}

/// `digits_value` of a concatenation.
pub proof fn lemma_digits_value_push(s: Seq<char>, c: char)
    ensures
        digits_value(s.push(c)) == digits_value(s) * 10 + digit_value(c),
{
    assert(s.push(c).drop_last() =~= s);
}

// ---------------------------------------------------------------------------
// Conversions at the edges
// ---------------------------------------------------------------------------

/// Appends one character with `String::push`.  Claimed: the text afterwards
/// is the text before followed by `c`.
#[verifier::external_body]
fn push_char(s: &mut String, c: char)
    ensures
        final(s)@ == old(s)@.push(c),
{
    s.push(c)
}

/// The characters of `s`.
pub fn chars_of(s: &str) -> (v: Vec<char>)
    ensures
        v@ == s@,
{
    let mut v: Vec<char> = Vec::new();
    for c in it: s.chars()
        invariant
            v@ == it.seq().take(it.index() as int),
            it.seq() == s@,
    {
        v.push(c);
    }
    v
}

/// A `String` made of the characters `v`.
pub fn string_of(v: &Vec<char>) -> (s: String)
    ensures
        s@ == v@,
{
    let mut s = String::new();
    let mut i: usize = 0;
    while i < v.len()
        invariant
            i <= v.len(),
            s@ == v@.take(i as int),
        decreases v.len() - i,
    {
        push_char(&mut s, v[i]);
        i += 1;
        assert(s@ =~= v@.take(i as int));
    }
    assert(v@.take(i as int) =~= v@);
    s
}

/// Appends the characters of `more` to `out`.
pub fn push_all(out: &mut Vec<char>, more: &Vec<char>)
    ensures
        final(out)@ == old(out)@ + more@,
{
    let mut i: usize = 0;
    while i < more.len()
        invariant
            i <= more.len(),
            out@ == old(out)@ + more@.take(i as int),
        decreases more.len() - i,
    {
        out.push(more[i]);
        i += 1;
        assert(out@ =~= old(out)@ + more@.take(i as int));
    }
    assert(more@.take(i as int) =~= more@);
}

/// Appends the characters of `more` to `out`.
pub fn push_str(out: &mut Vec<char>, more: &str)
    ensures
        final(out)@ == old(out)@ + more@,
{
    let v = chars_of(more);
    push_all(out, &v);
}

/// The characters `s[a..b]`.
pub fn sub_chars(s: &Vec<char>, a: usize, b: usize) -> (r: Vec<char>)
    requires
        a <= b <= s.len(),
    ensures
        r@ == s@.subrange(a as int, b as int),
{
    let mut r: Vec<char> = Vec::new();
    let mut i: usize = a;
    while i < b
        invariant
            a <= i <= b <= s.len(),
            r@ == s@.subrange(a as int, i as int),
        decreases b - i,
    {
        r.push(s[i]);
        i += 1;
        assert(r@ =~= s@.subrange(a as int, i as int));
    }
    r
}

// ---------------------------------------------------------------------------
// Searching
// ---------------------------------------------------------------------------

/// Whether `pat` occurs in `s` at index `i`.
pub fn matches_at(s: &Vec<char>, pat: &Vec<char>, i: usize) -> (r: bool)
    ensures
        r == occurs_at(s@, pat@, i as int),
{
    if pat.len() > s.len() || i > s.len() - pat.len() {
        return false;
    }
    let mut k: usize = 0;
    while k < pat.len()
        invariant
            k <= pat.len(),
            i + pat.len() <= s.len(),
            forall|j: int| 0 <= j < k ==> s@[i + j] == pat@[j],
        decreases pat.len() - k,
    {
        if s[i + k] != pat[k] {
            assert(s@.subrange(i as int, i + pat.len())[k as int] != pat@[k as int]);
            return false;
        }
        k += 1;
    }
    assert(s@.subrange(i as int, i + pat.len()) =~= pat@);
    true
}

/// The first index at or after `start` where `pat` occurs.
pub fn find_chars_from(s: &Vec<char>, pat: &Vec<char>, start: usize) -> (r: Option<usize>)
    ensures
        match r {
            Some(k) => find_from(s@, pat@, start as int) == Some(k as int),
            None => find_from(s@, pat@, start as int) is None,
        },
{
    if pat.len() > s.len() || start > s.len() - pat.len() {
        return None;
    }
    if pat.len() == 0 {
        assert(s@.subrange(start as int, start as int) =~= pat@);
        return Some(start);
    }
    let mut i = start;
    while i <= s.len() - pat.len()
        invariant
            start <= i,
            1 <= pat.len() <= s.len(),
            find_from(s@, pat@, start as int) == find_from(s@, pat@, i as int),
        decreases s.len() - i,
    {
        if matches_at(s, pat, i) {
            return Some(i);
        }
        i += 1;
    }
    None
}

/// The first index where `pat` occurs (`str::find`).
pub fn find_chars(s: &Vec<char>, pat: &Vec<char>) -> (r: Option<usize>)
    ensures
        match r {
            Some(k) => find_first(s@, pat@) == Some(k as int),
            None => find_first(s@, pat@) is None,
        },
{
    find_chars_from(s, pat, 0)
}

/// The last index where `pat` occurs (`str::rfind`).
pub fn rfind_chars(s: &Vec<char>, pat: &Vec<char>) -> (r: Option<usize>)
    ensures
        match r {
            Some(k) => find_last(s@, pat@) == Some(k as int),
            None => find_last(s@, pat@) is None,
        },
{
    if pat.len() > s.len() {
        return None;
    }
    let mut i: usize = s.len() - pat.len();
    loop
        invariant
            pat.len() <= s.len(),
            i <= s.len() - pat.len(),
            find_last(s@, pat@) == find_back_from(s@, pat@, i as int),
        decreases i,
    {
        if matches_at(s, pat, i) {
            return Some(i);
        }
        if i == 0 {
            assert(find_back_from(s@, pat@, -1) is None);
            return None;
        }
        i -= 1;
    }
}

/// Whether `pat` occurs in `s` (`str::contains`).
pub fn contains_chars(s: &Vec<char>, pat: &Vec<char>) -> (r: bool)
    ensures
        r == contains_seq(s@, pat@),
{
    proof {
        lemma_find_first(s@, pat@);
    }
    match find_chars(s, pat) {
        Some(_) => true,
        None => false,
    }
}

/// Whether `s` contains the literal `pat`.
pub fn contains_str(s: &Vec<char>, pat: &str) -> (r: bool)
    ensures
        r == contains_seq(s@, pat@),
{
    let p = chars_of(pat);
    contains_chars(s, &p)
}

/// Whether `s` begins with `pat` (`str::starts_with`).
pub fn starts_with_chars(s: &Vec<char>, pat: &Vec<char>) -> (r: bool)
    ensures
        r == starts_with(s@, pat@),
{
    let r = matches_at(s, pat, 0);
    proof {
        if pat@.len() <= s@.len() {
            assert(s@.take(pat@.len() as int) =~= s@.subrange(0, pat@.len() as int));
        }
    }
    r
}

/// Whether `s` ends with `pat` (`str::ends_with`).
pub fn ends_with_chars(s: &Vec<char>, pat: &Vec<char>) -> (r: bool)
    ensures
        r == ends_with(s@, pat@),
{
    if pat.len() > s.len() {
        return false;
    }
    let r = matches_at(s, pat, s.len() - pat.len());
    proof {
        assert(s@.skip(s@.len() - pat@.len()) =~= s@.subrange(
            s@.len() - pat@.len(),
            s@.len() as int,
        ));
    }
    r
}

// ---------------------------------------------------------------------------
// Replacing
// ---------------------------------------------------------------------------

/// Every non-overlapping occurrence of `from` replaced by `to`
/// (`str::replace`).
pub fn replace_all_chars(s: &Vec<char>, from: &Vec<char>, to: &Vec<char>) -> (r: Vec<char>)
    ensures
        r@ == replace_all(s@, from@, to@),
{
    if from.len() == 0 {
        let mut r = Vec::new();
        push_all(&mut r, s);
        return r;
    }
    let mut out: Vec<char> = Vec::new();
    let mut i: usize = 0;
    assert(s@.skip(0) =~= s@);
    assert(out@ + replace_all(s@, from@, to@) =~= replace_all(s@, from@, to@));
    while i < s.len()
        invariant
            i <= s.len(),
            from.len() > 0,
            out@ + replace_all(s@.skip(i as int), from@, to@) == replace_all(s@, from@, to@),
        decreases s.len() - i,
    {
        let ghost rest = s@.skip(i as int);
        proof {
            lemma_occurs_skip(s@, from@, i as int, 0);
        }
        if matches_at(s, from, i) {
            push_all(&mut out, to);
            proof {
                assert(rest.skip(from@.len() as int) =~= s@.skip(i + from@.len()));
            }
            let ghost prev = out@.subrange(0, out@.len() - to@.len());
            proof {
                assert(out@ =~= prev + to@);
                assert(replace_all(rest, from@, to@) == to@ + replace_all(
                    s@.skip(i + from@.len()),
                    from@,
                    to@,
                ));
                assert(prev + replace_all(rest, from@, to@) == replace_all(s@, from@, to@));
                assert(out@ + replace_all(s@.skip(i + from@.len()), from@, to@) =~= prev
                    + replace_all(rest, from@, to@));
            }
            i = i + from.len();
        } else {
            let ghost prev = out@;
            out.push(s[i]);
            proof {
                assert(rest.skip(1) =~= s@.skip(i + 1));
                assert(rest[0] == s@[i as int]);
                assert(replace_all(rest, from@, to@) == seq![s@[i as int]] + replace_all(
                    s@.skip(i + 1),
                    from@,
                    to@,
                ));
                assert(out@ + replace_all(s@.skip(i + 1), from@, to@) =~= prev + replace_all(
                    rest,
                    from@,
                    to@,
                ));
            }
            i = i + 1;
        }
    }
    assert(s@.skip(i as int) =~= Seq::<char>::empty());
    assert(out@ + Seq::<char>::empty() =~= out@);
    out
}

/// The first occurrence of `from` replaced by `to` (`str::replacen(.., 1)`).
pub fn replace_first_chars(s: &Vec<char>, from: &Vec<char>, to: &Vec<char>) -> (r: Vec<char>)
    ensures
        r@ == replace_first(s@, from@, to@),
{
    match find_chars(s, from) {
        Some(i) => {
            proof {
                lemma_find_first(s@, from@);
                assert(occurs_at(s@, from@, i as int));
                assert(i + from@.len() <= s@.len());
            }
            let n = s.len();
            let end: usize = i + from.len();
            let mut r = sub_chars(s, 0, i);
            push_all(&mut r, to);
            let tail = sub_chars(s, end, s.len());
            push_all(&mut r, &tail);
            assert(s@.take(i as int) =~= s@.subrange(0, i as int));
            assert(s@.skip(i + from@.len()) =~= s@.subrange(i + from@.len(), s@.len() as int));
            r
        },
        None => {
            let mut r = Vec::new();
            push_all(&mut r, s);
            r
        },
    }
}

// ---------------------------------------------------------------------------
// Characters, trimming, lines
// ---------------------------------------------------------------------------

/// `char::is_whitespace`.
pub fn is_white_char(c: char) -> (r: bool)
    ensures
        r == is_white(c),
{
    let u = c as u32;
    (0x09 <= u && u <= 0x0d) || u == 0x20 || u == 0x85 || u == 0xa0 || u == 0x1680 || (0x2000 <= u
        && u <= 0x200a) || u == 0x2028 || u == 0x2029 || u == 0x202f || u == 0x205f || u == 0x3000
}

/// `char::is_ascii`.
pub fn is_ascii_ch(c: char) -> (r: bool)
    ensures
        r == is_ascii_char(c),
{
    (c as u32) < 128
}

/// `char::is_ascii_digit`.
pub fn is_digit_ch(c: char) -> (r: bool)
    ensures
        r == is_ascii_digit(c),
{
    '0' <= c && c <= '9'
}

/// `s` without leading and trailing white space (`str::trim`).
pub fn trim_chars(s: &Vec<char>) -> (r: Vec<char>)
    ensures
        r@ == trim(s@),
{
    let mut a: usize = 0;
    assert(s@.skip(0) =~= s@);
    while a < s.len() && is_white_char(s[a])
        invariant
            a <= s.len(),
            trim_start(s@) == trim_start(s@.skip(a as int)),
        decreases s.len() - a,
    {
        assert(s@.skip(a as int).skip(1) =~= s@.skip(a + 1));
        a += 1;
    }
    let ghost mid = s@.skip(a as int);
    assert(trim_start(mid) == mid);
    let mut b: usize = s.len();
    while b > a && is_white_char(s[b - 1])
        invariant
            a <= b <= s.len(),
            trim_end(mid) == trim_end(s@.subrange(a as int, b as int)),
            mid == s@.subrange(a as int, s.len() as int),
        decreases b,
    {
        assert(s@.subrange(a as int, b as int).drop_last() =~= s@.subrange(a as int, b - 1));
        b -= 1;
    }
    assert(mid =~= s@.subrange(a as int, s@.len() as int));
    sub_chars(s, a, b)
}

/// The views of a vector of character vectors.
pub open spec fn views(v: Seq<Vec<char>>) -> Seq<Seq<char>> {
    v.map_values(|p: Vec<char>| p@)
}

/// The lines of `s` (`str::lines`).
pub fn lines_of(s: &Vec<char>) -> (r: Vec<Vec<char>>)
    ensures
        views(r@) == lines(s@),
{
    let nl: Vec<char> = vec!['\n'];
    let mut out: Vec<Vec<char>> = Vec::new();
    let mut i: usize = 0;
    assert(s@.skip(0) =~= s@);
    assert(views(out@) + lines(s@) =~= lines(s@));
    while i < s.len()
        invariant
            i <= s.len(),
            nl@ == seq!['\n'],
            views(out@) + lines(s@.skip(i as int)) == lines(s@),
        decreases s.len() - i,
    {
        let ghost rest = s@.skip(i as int);
        let ghost before = views(out@);
        let found = find_chars_from(s, &nl, i);
        proof {
            lemma_find_from(s@, nl@, i as int);
            lemma_find_from(rest, nl@, 0);
            assert forall|j: int| 0 <= j implies occurs_at(rest, nl@, j) == occurs_at(
                s@,
                nl@,
                j + i,
            ) by {
                lemma_occurs_skip(s@, nl@, i as int, j);
            }
        }
        match found {
            Some(k) => {
                proof {
                    assert(find_first(rest, nl@) == Some(k - i)) by {
                        let f = find_first(rest, nl@);
                        match f {
                            Some(q) => {
                                if q < k - i {
                                    assert(occurs_at(s@, nl@, q + i));
                                } else if q > k - i {
                                    assert(occurs_at(rest, nl@, k - i));
                                }
                            },
                            None => {
                                assert(occurs_at(rest, nl@, k - i));
                            },
                        }
                    }
                    assert(rest.take(k - i) =~= s@.subrange(i as int, k as int));
                    assert(rest.skip(k - i + 1) =~= s@.skip(k + 1));
                }
                let piece = sub_chars(s, i, k);
                let line = if k > i && s[k - 1] == '\r' {
                    sub_chars(s, i, k - 1)
                } else {
                    piece
                };
                proof {
                    if k > i && s@[k - 1] == '\r' {
                        assert(s@.subrange(i as int, k as int).drop_last() =~= s@.subrange(
                            i as int,
                            k - 1,
                        ));
                    }
                    assert(line@ == strip_cr(rest.take(k - i)));
                    assert(lines(rest) == seq![line@] + lines(s@.skip(k + 1)));
                }
                out.push(line);
                proof {
                    assert(views(out@) =~= before.push(line@));
                    assert(views(out@) + lines(s@.skip(k + 1)) =~= before + lines(rest));
                }
                i = k + 1;
            },
            None => {
                proof {
                    assert(find_first(rest, nl@) is None) by {
                        let f = find_first(rest, nl@);
                        if f is Some {
                            assert(occurs_at(rest, nl@, f->0));
                        }
                    }
                    assert(lines(rest) == seq![rest]);
                }
                let line = sub_chars(s, i, s.len());
                assert(line@ =~= rest);
                out.push(line);
                i = s.len();
                proof {
                    assert(s@.skip(i as int) =~= Seq::<char>::empty());
                    assert(views(out@) =~= before.push(line@));
                    assert(views(out@) + lines(s@.skip(i as int)) =~= before + lines(rest));
                }
            },
        }
    }
    assert(s@.skip(i as int) =~= Seq::<char>::empty());
    assert(views(out@) + lines(s@.skip(i as int)) =~= views(out@));
    out
}

// ---------------------------------------------------------------------------
// Numbers
// ---------------------------------------------------------------------------

/// The character of the digit `d`.
pub fn digit_ch(d: u64) -> (c: char)
    requires
        d < 10,
    ensures
        c == digit_char(d as nat),
{
    if d == 0 {
        '0'
    } else if d == 1 {
        '1'
    } else if d == 2 {
        '2'
    } else if d == 3 {
        '3'
    } else if d == 4 {
        '4'
    } else if d == 5 {
        '5'
    } else if d == 6 {
        '6'
    } else if d == 7 {
        '7'
    } else if d == 8 {
        '8'
    } else {
        '9'
    }
}

/// The decimal digits of `n`.
pub fn decimal_chars(n: u64) -> (r: Vec<char>)
    ensures
        r@ == decimal(n as nat),
    decreases n,
{
    if n < 10 {
        vec![digit_ch(n)]
    } else {
        let mut r = decimal_chars(n / 10);
        r.push(digit_ch(n % 10));
        r
    }
}

/// `s` parsed as an unsigned 64-bit number (`str::parse::<u64>`).
pub fn parse_u64_chars(s: &Vec<char>) -> (r: Option<u64>)
    ensures
        r == parse_u64(s@),
{
    let start: usize = if s.len() > 0 && s[0] == '+' {
        1
    } else {
        0
    };
    let ghost d = unsigned_digits(s@);
    assert(d =~= s@.skip(start as int));
    if start >= s.len() {
        assert(d.len() == 0);
        return None;
    }
    let mut acc: u64 = 0;
    let mut over = false;
    let mut i = start;
    while i < s.len()
        invariant
            start <= i <= s.len(),
            d == s@.skip(start as int),
            d == unsigned_digits(s@),
            all_digits(s@.subrange(start as int, i as int)),
            !over ==> acc as nat == digits_value(s@.subrange(start as int, i as int)),
            over ==> digits_value(s@.subrange(start as int, i as int)) > u64::MAX,
        decreases s.len() - i,
    {
        let c = s[i];
        if !is_digit_ch(c) {
            assert(d[i - start] == c);
            assert(!all_digits(d));
            return None;
        }
        let dv: u64 = (c as u32 - 48) as u64;
        proof {
            assert(s@.subrange(start as int, i + 1) =~= s@.subrange(start as int, i as int).push(
                c,
            ));
            lemma_digits_value_push(s@.subrange(start as int, i as int), c);
        }
        if !over {
            if acc > (u64::MAX - dv) / 10 {
                over = true;
            } else {
                acc = acc * 10 + dv;
            }
        }
        i += 1;
    }
    assert(s@.subrange(start as int, s@.len() as int) =~= d);
    if over {
        None
    } else {
        Some(acc)
    }
}

/// Join `parts` with `sep` between consecutive parts.
pub fn join_chars(parts: &Vec<Vec<char>>, sep: &Vec<char>) -> (r: Vec<char>)
    ensures
        r@ == join(parts@.map_values(|p: Vec<char>| p@), sep@),
{
    let ghost views = parts@.map_values(|p: Vec<char>| p@);
    let mut out: Vec<char> = Vec::new();
    let mut i: usize = 0;
    while i < parts.len()
        invariant
            i <= parts.len(),
            views == parts@.map_values(|p: Vec<char>| p@),
            out@ == join(views.take(i as int), sep@),
        decreases parts.len() - i,
    {
        proof {
            assert(views.take(i + 1).drop_last() =~= views.take(i as int));
        }
        if i > 0 {
            push_all(&mut out, sep);
        }
        push_all(&mut out, &parts[i]);
        i += 1;
        proof {
            if i == 1 {
                assert(out@ =~= views.take(1)[0]);
            }
        }
    }
    assert(views.take(i as int) =~= views);
    out
}

} // verus!

verus! {

/// The views of a sequence of strings.
pub open spec fn string_views(v: Seq<String>) -> Seq<Seq<char>> {
    v.map_values(|s: String| s@)
}

/// Whether two character vectors are equal.
pub fn chars_eq(a: &Vec<char>, b: &Vec<char>) -> (r: bool)
    ensures
        r == (a@ == b@),
{
    if a.len() != b.len() {
        return false;
    }
    let mut i: usize = 0;
    while i < a.len()
        invariant
            i <= a.len(),
            a.len() == b.len(),
            forall|j: int| 0 <= j < i ==> a@[j] == b@[j],
        decreases a.len() - i,
    {
        if a[i] != b[i] {
            return false;
        }
        i += 1;
    }
    assert(a@ =~= b@);
    true
}

/// Whether `s` equals the literal `lit`.
pub fn is_literal(s: &Vec<char>, lit: &str) -> (r: bool)
    ensures
        r == (s@ == lit@),
{
    let l = chars_of(lit);
    chars_eq(s, &l)
}

/// Whether the string `s` equals the literal `lit`.
pub fn str_is(s: &str, lit: &str) -> (r: bool)
    ensures
        r == (s@ == lit@),
{
    let a = chars_of(s);
    is_literal(&a, lit)
}

/// Whether `v` holds a string equal to `s`.
pub fn holds_string(v: &Vec<String>, s: &String) -> (r: bool)
    ensures
        r == string_views(v@).contains(s@),
{
    let mut i: usize = 0;
    while i < v.len()
        invariant
            i <= v.len(),
            forall|j: int| 0 <= j < i ==> v@[j]@ != s@,
        decreases v.len() - i,
    {
        if v[i] == *s {
            assert(string_views(v@)[i as int] == s@);
            return true;
        }
        i += 1;
    }
    assert(!string_views(v@).contains(s@)) by {
        if string_views(v@).contains(s@) {
            let j = choose|j: int| 0 <= j < string_views(v@).len() && string_views(v@)[j] == s@;
            assert(v@[j]@ == s@);
        }
    }
    false
}

/// Whether every character of `v` is a decimal digit.
pub fn all_digit_chars(v: &Vec<char>) -> (r: bool)
    ensures
        r == all_digits(v@),
{
    let mut i: usize = 0;
    while i < v.len()
        invariant
            i <= v.len(),
            forall|j: int| 0 <= j < i ==> is_ascii_digit(#[trigger] v@[j]),
        decreases v.len() - i,
    {
        if !is_digit_ch(v[i]) {
            assert(!is_ascii_digit(v@[i as int]));
            return false;
        }
        i += 1;
    }
    true
}

} // verus!
