//! The order of version names: runs of digits compare as numbers, other
//! characters by their code, and names equal in that order by their text.
use vstd::prelude::*;
use crate::text::{all_digits, digit_value, digits_value, is_ascii_digit, is_digit_ch, sub_chars};

verus! {

// ---------------------------------------------------------------------------
// Order of text
// ---------------------------------------------------------------------------

/// `a` sorts before `b` (`str` order: by characters, which is the order of
/// their UTF-8 bytes, a prefix first).
pub open spec fn text_less(a: Seq<char>, b: Seq<char>) -> bool
    decreases a.len(),
{
    if a.len() == 0 {
        b.len() > 0
    } else if b.len() == 0 {
        false
    } else if a[0] != b[0] {
        (a[0] as int) < (b[0] as int)
    } else {
        text_less(a.skip(1), b.skip(1))
    }
}

/// The order of text is transitive.
pub proof fn lemma_text_less_transitive(a: Seq<char>, b: Seq<char>, c: Seq<char>)
    requires
        text_less(a, b),
        text_less(b, c),
    ensures
        text_less(a, c),
    decreases a.len(),
{
    if a.len() > 0 && b.len() > 0 && c.len() > 0 && a[0] == b[0] && b[0] == c[0] {
        lemma_text_less_transitive(a.skip(1), b.skip(1), c.skip(1));
    }
}

/// Of two different texts, one sorts before the other.
pub proof fn lemma_text_less_total(a: Seq<char>, b: Seq<char>)
    ensures
        a == b || text_less(a, b) || text_less(b, a),
        !(text_less(a, b) && text_less(b, a)),
    decreases a.len(),
{
    if a.len() > 0 && b.len() > 0 {
        lemma_text_less_total(a.skip(1), b.skip(1));
        if a[0] == b[0] && a.skip(1) == b.skip(1) {
            assert(a =~= seq![a[0]] + a.skip(1));
            assert(b =~= seq![b[0]] + b.skip(1));
        }
    } else if a.len() == 0 && b.len() == 0 {
        assert(a =~= b);
    }
}

/// Whether `a` sorts before `b`.
pub fn text_less_exec(a: &Vec<char>, b: &Vec<char>) -> (r: bool)
    ensures
        r == text_less(a@, b@),
{
    let mut i: usize = 0;
    assert(a@.skip(0) =~= a@);
    assert(b@.skip(0) =~= b@);
    while i < a.len() && i < b.len() && a[i] == b[i]
        invariant
            i <= a.len(),
            i <= b.len(),
            text_less(a@, b@) == text_less(a@.skip(i as int), b@.skip(i as int)),
        decreases a.len() - i,
    {
        assert(a@.skip(i as int).skip(1) =~= a@.skip(i + 1));
        assert(b@.skip(i as int).skip(1) =~= b@.skip(i + 1));
        i += 1;
    }
    if i == a.len() {
        i < b.len()
    } else if i == b.len() {
        false
    } else {
        a[i] < b[i]
    }
}

// ---------------------------------------------------------------------------
// Order of numbers written in digits
// ---------------------------------------------------------------------------

/// The digits without their leading zeros.
pub open spec fn strip_zeros(d: Seq<char>) -> Seq<char>
    decreases d.len(),
{
    if d.len() > 0 && d[0] == '0' {
        strip_zeros(d.skip(1))
    } else {
        d
    }
}

/// For digit strings without leading zeros: the number written by `p` is
/// smaller than the one written by `q` (fewer digits, or as many and a
/// smaller digit at the first place where they differ).
pub open spec fn number_less(p: Seq<char>, q: Seq<char>) -> bool {
    p.len() < q.len() || (p.len() == q.len() && text_less(p, q))
}

proof fn lemma_number_less(p: Seq<char>, q: Seq<char>, r: Seq<char>)
    ensures
        p == q || number_less(p, q) || number_less(q, p),
        !(number_less(p, q) && number_less(q, p)),
        number_less(p, q) && number_less(q, r) ==> number_less(p, r),
{
    lemma_text_less_total(p, q);
    if number_less(p, q) && number_less(q, r) && p.len() == r.len() {
        lemma_text_less_transitive(p, q, r);
    }
}

/// `10` to the power `n`.
pub open spec fn pow10(n: nat) -> nat
    decreases n,
{
    if n == 0 {
        1
    } else {
        10 * pow10((n - 1) as nat)
    }
}

proof fn lemma_pow10_mono(i: nat, j: nat)
    requires
        i <= j,
    ensures
        1 <= pow10(i) <= pow10(j),
    decreases j,
{
    if j > 0 {
        if i < j {
            lemma_pow10_mono(i, (j - 1) as nat);
        } else {
            lemma_pow10_mono((i - 1) as nat, (j - 1) as nat);
        }
    }
}

/// The value of digits with one more digit in front.
proof fn lemma_value_prefix(c: char, t: Seq<char>)
    ensures
        digits_value(seq![c] + t) == digit_value(c) * pow10(t.len()) + digits_value(t),
    decreases t.len(),
{
    let u = seq![c] + t;
    if t.len() == 0 {
        assert(u.drop_last() =~= Seq::<char>::empty());
        assert(u.last() == c);
        assert(digits_value(u.drop_last()) == 0);
    } else {
        assert(u.drop_last() =~= seq![c] + t.drop_last());
        assert(u.last() == t.last());
        lemma_value_prefix(c, t.drop_last());
        let d = digit_value(c);
        let pp = pow10((t.len() - 1) as nat);
        let x = digits_value(t.drop_last());
        assert(pow10(t.len()) == 10 * pp);
        assert(digits_value(u) == (d * pp + x) * 10 + digit_value(t.last()));
        assert((d * pp + x) * 10 == d * (10 * pp) + x * 10) by (nonlinear_arith);
    }
}

/// Bounds of the value of `n` digits: below `10^n`, and at least
/// `10^(n-1)` when the first digit is not `0`.
proof fn lemma_value_bounds(p: Seq<char>)
    requires
        all_digits(p),
    ensures
        digits_value(p) < pow10(p.len()),
        p.len() > 0 && p[0] != '0' ==> digits_value(p) >= pow10((p.len() - 1) as nat),
    decreases p.len(),
{
    if p.len() > 0 {
        let q = p.drop_last();
        assert(is_ascii_digit(p[p.len() - 1]));
        assert(all_digits(q)) by {
            assert forall|i: int| 0 <= i < q.len() implies is_ascii_digit(#[trigger] q[i]) by {
                assert(q[i] == p[i]);
            }
        }
        lemma_value_bounds(q);
        if p.len() == 1 {
            assert(p.last() == p[0]);
        } else {
            assert(q[0] == p[0]);
        }
    }
}

/// Removing leading zeros keeps the value and the digits.
proof fn lemma_strip_zeros_value(p: Seq<char>)
    requires
        all_digits(p),
    ensures
        all_digits(strip_zeros(p)),
        digits_value(strip_zeros(p)) == digits_value(p),
        strip_zeros(p).len() == 0 || strip_zeros(p)[0] != '0',
    decreases p.len(),
{
    if p.len() > 0 && p[0] == '0' {
        let t = p.skip(1);
        assert(all_digits(t)) by {
            assert forall|i: int| 0 <= i < t.len() implies is_ascii_digit(#[trigger] t[i]) by {
                assert(t[i] == p[i + 1]);
            }
        }
        lemma_strip_zeros_value(t);
        assert(p =~= seq!['0'] + t);
        lemma_value_prefix('0', t);
        assert(digit_value('0') == 0);
        assert(0 * pow10(t.len()) == 0);
    }
}

/// For digits of the same length, text order is the order of their values.
proof fn lemma_same_length_value(a: Seq<char>, b: Seq<char>)
    requires
        all_digits(a),
        all_digits(b),
        a.len() == b.len(),
        text_less(a, b),
    ensures
        digits_value(a) < digits_value(b),
    decreases a.len(),
{
    let (ta, tb) = (a.skip(1), b.skip(1));
    assert(all_digits(ta)) by {
        assert forall|i: int| 0 <= i < ta.len() implies is_ascii_digit(#[trigger] ta[i]) by {
            assert(ta[i] == a[i + 1]);
        }
    }
    assert(all_digits(tb)) by {
        assert forall|i: int| 0 <= i < tb.len() implies is_ascii_digit(#[trigger] tb[i]) by {
            assert(tb[i] == b[i + 1]);
        }
    }
    assert(a =~= seq![a[0]] + ta);
    assert(b =~= seq![b[0]] + tb);
    lemma_value_prefix(a[0], ta);
    lemma_value_prefix(b[0], tb);
    assert(is_ascii_digit(a[0]) && is_ascii_digit(b[0]));
    let pp = pow10(ta.len());
    let (da, db) = (digit_value(a[0]), digit_value(b[0]));
    if a[0] == b[0] {
        lemma_same_length_value(ta, tb);
    } else {
        assert(da + 1 <= db);
        lemma_value_bounds(ta);
        lemma_value_bounds(tb);
        assert(da * pp + pp <= db * pp) by (nonlinear_arith)
            requires
                da + 1 <= db,
                pp >= 0,
        ;
    }
}

/// Runs of digits sort by the numbers they write: after leading zeros are
/// removed, one sorts before the other exactly when its number is smaller.
pub proof fn lemma_number_order(p: Seq<char>, q: Seq<char>)
    requires
        all_digits(p),
        all_digits(q),
    ensures
        number_less(strip_zeros(p), strip_zeros(q)) <==> digits_value(p) < digits_value(q),
{
    let (a, b) = (strip_zeros(p), strip_zeros(q));
    lemma_strip_zeros_value(p);
    lemma_strip_zeros_value(q);
    lemma_value_bounds(a);
    lemma_value_bounds(b);
    if a.len() < b.len() {
        lemma_pow10_mono(a.len(), (b.len() - 1) as nat);
    } else if b.len() < a.len() {
        lemma_pow10_mono(b.len(), (a.len() - 1) as nat);
    } else {
        lemma_text_less_total(a, b);
        if text_less(a, b) {
            lemma_same_length_value(a, b);
        } else if text_less(b, a) {
            lemma_same_length_value(b, a);
        }
    }
}

// ---------------------------------------------------------------------------
// Tokens of a version name
// ---------------------------------------------------------------------------

/// A token: a character other than a digit, as (its code, nothing); or a
/// run of digits, as (the code of `'0'`, the run without leading zeros).
/// Since no other character has the code of `'0'`, a number sorts where a
/// digit would.
pub type Token = (int, Seq<char>);

/// The length of the run of digits at the start of `s`.
pub open spec fn digit_run_len(s: Seq<char>) -> nat
    decreases s.len(),
{
    if s.len() > 0 && is_ascii_digit(s[0]) {
        1 + digit_run_len(s.skip(1))
    } else {
        0
    }
}

/// Facts about the run of digits at the start of `s`.
pub proof fn lemma_digit_run_len(s: Seq<char>)
    ensures
        digit_run_len(s) <= s.len(),
        s.len() > 0 && is_ascii_digit(s[0]) ==> digit_run_len(s) >= 1,
        forall|i: int| 0 <= i < digit_run_len(s) ==> is_ascii_digit(#[trigger] s[i]),
        digit_run_len(s) < s.len() ==> !is_ascii_digit(s[digit_run_len(s) as int]),
    decreases s.len(),
{
    if s.len() > 0 && is_ascii_digit(s[0]) {
        lemma_digit_run_len(s.skip(1));
        assert forall|i: int| 0 <= i < digit_run_len(s) implies is_ascii_digit(#[trigger] s[i]) by {
            if i > 0 {
                assert(s[i] == s.skip(1)[i - 1]);
            }
        }
        if digit_run_len(s) < s.len() {
            assert(s[digit_run_len(s) as int] == s.skip(1)[digit_run_len(s.skip(1)) as int]);
        }
    }
}

/// The tokens of a version name, in order.
pub open spec fn version_tokens(s: Seq<char>) -> Seq<Token>
    decreases s.len(),
{
    if s.len() == 0 {
        seq![]
    } else if is_ascii_digit(s[0]) {
        let n = digit_run_len(s);
        proof {
            lemma_digit_run_len(s);
        }
        seq![('0' as int, strip_zeros(s.take(n as int)))] + version_tokens(s.skip(n as int))
    } else {
        seq![(s[0] as int, Seq::<char>::empty())] + version_tokens(s.skip(1))
    }
}

/// `x` sorts before `y`: by code, and two numbers by their value.
pub open spec fn token_less(x: Token, y: Token) -> bool {
    x.0 < y.0 || (x.0 == y.0 && number_less(x.1, y.1))
}

proof fn lemma_token_less(x: Token, y: Token, z: Token)
    ensures
        x == y || token_less(x, y) || token_less(y, x),
        !(token_less(x, y) && token_less(y, x)),
        token_less(x, y) && token_less(y, z) ==> token_less(x, z),
{
    lemma_number_less(x.1, y.1, z.1);
}

/// Token sequences in dictionary order, a prefix first.
pub open spec fn tokens_less(a: Seq<Token>, b: Seq<Token>) -> bool
    decreases a.len(),
{
    if a.len() == 0 {
        b.len() > 0
    } else if b.len() == 0 {
        false
    } else if a[0] != b[0] {
        token_less(a[0], b[0])
    } else {
        tokens_less(a.skip(1), b.skip(1))
    }
}

proof fn lemma_tokens_less(a: Seq<Token>, b: Seq<Token>, c: Seq<Token>)
    ensures
        a == b || tokens_less(a, b) || tokens_less(b, a),
        !(tokens_less(a, b) && tokens_less(b, a)),
        tokens_less(a, b) && tokens_less(b, c) ==> tokens_less(a, c),
    decreases a.len(),
{
    if a.len() > 0 && b.len() > 0 && c.len() > 0 {
        lemma_tokens_less(a.skip(1), b.skip(1), c.skip(1));
        lemma_token_less(a[0], b[0], c[0]);
        if a[0] == b[0] && a.skip(1) == b.skip(1) {
            assert(a =~= seq![a[0]] + a.skip(1));
            assert(b =~= seq![b[0]] + b.skip(1));
        }
    } else if a.len() > 0 && b.len() > 0 {
        lemma_tokens_less(a.skip(1), b.skip(1), a.skip(1));
        lemma_token_less(a[0], b[0], a[0]);
        if a[0] == b[0] && a.skip(1) == b.skip(1) {
            assert(a =~= seq![a[0]] + a.skip(1));
            assert(b =~= seq![b[0]] + b.skip(1));
        }
    } else if a.len() == 0 && b.len() == 0 {
        assert(a =~= b);
    }
}

// ---------------------------------------------------------------------------
// Order of version names
// ---------------------------------------------------------------------------

/// `a` is an older version name than `b`: runs of digits compare as
/// numbers (so `8.7` comes before `8.10`), other characters by their code;
/// names equal in that order (`8.07` and `8.7`) compare as text.
pub open spec fn version_less(a: Seq<char>, b: Seq<char>) -> bool {
    tokens_less(version_tokens(a), version_tokens(b)) || (version_tokens(a) == version_tokens(b)
        && text_less(a, b))
}

/// The version order is transitive.
pub proof fn lemma_version_less_transitive(a: Seq<char>, b: Seq<char>, c: Seq<char>)
    requires
        version_less(a, b),
        version_less(b, c),
    ensures
        version_less(a, c),
{
    let (ta, tb, tc) = (version_tokens(a), version_tokens(b), version_tokens(c));
    lemma_tokens_less(ta, tb, tc);
    lemma_tokens_less(tb, tc, ta);
    lemma_tokens_less(ta, tc, tb);
    if ta == tb && tb == tc {
        lemma_text_less_transitive(a, b, c);
    }
}

/// Of two different version names, one is older than the other.
pub proof fn lemma_version_less_total(a: Seq<char>, b: Seq<char>)
    ensures
        a == b || version_less(a, b) || version_less(b, a),
        !(version_less(a, b) && version_less(b, a)),
{
    lemma_tokens_less(version_tokens(a), version_tokens(b), version_tokens(a));
    lemma_text_less_total(a, b);
}


// ---------------------------------------------------------------------------
// Computing the order
// ---------------------------------------------------------------------------

/// The tokens held as (character, digits) pairs, viewed as [`Token`]s.
pub open spec fn token_views(v: Seq<(char, Vec<char>)>) -> Seq<Token> {
    v.map_values(|t: (char, Vec<char>)| (t.0 as int, t.1@))
}

proof fn lemma_digit_run_exact(t: Seq<char>, n: nat)
    requires
        n <= t.len(),
        forall|k: int| 0 <= k < n ==> is_ascii_digit(#[trigger] t[k]),
        n == t.len() || !is_ascii_digit(t[n as int]),
    ensures
        digit_run_len(t) == n,
    decreases n,
{
    if n > 0 {
        assert forall|k: int| 0 <= k < n - 1 implies is_ascii_digit(#[trigger] t.skip(1)[k]) by {
            assert(t.skip(1)[k] == t[k + 1]);
        }
        if n < t.len() {
            assert(t.skip(1)[n - 1] == t[n as int]);
        }
        lemma_digit_run_exact(t.skip(1), (n - 1) as nat);
    }
}

proof fn lemma_strip_zeros_exact(d: Seq<char>, m: nat)
    requires
        m <= d.len(),
        forall|k: int| 0 <= k < m ==> #[trigger] d[k] == '0',
        m == d.len() || d[m as int] != '0',
    ensures
        strip_zeros(d) == d.skip(m as int),
    decreases m,
{
    if m > 0 {
        assert forall|k: int| 0 <= k < m - 1 implies #[trigger] d.skip(1)[k] == '0' by {
            assert(d.skip(1)[k] == d[k + 1]);
        }
        if m < d.len() {
            assert(d.skip(1)[m - 1] == d[m as int]);
        }
        lemma_strip_zeros_exact(d.skip(1), (m - 1) as nat);
        assert(d.skip(1).skip(m - 1) =~= d.skip(m as int));
    } else {
        assert(d.skip(0) =~= d);
    }
}

/// The tokens of a version name.
pub fn version_tokens_exec(s: &Vec<char>) -> (r: Vec<(char, Vec<char>)>)
    ensures
        token_views(r@) == version_tokens(s@),
{
    let mut out: Vec<(char, Vec<char>)> = Vec::new();
    let mut i: usize = 0;
    assert(s@.skip(0) =~= s@);
    assert(token_views(out@) =~= Seq::<Token>::empty());
    while i < s.len()
        invariant
            i <= s.len(),
            token_views(out@) + version_tokens(s@.skip(i as int)) == version_tokens(s@),
        decreases s.len() - i,
    {
        let ghost t = s@.skip(i as int);
        if is_digit_ch(s[i]) {
            let mut j: usize = i;
            while j < s.len() && is_digit_ch(s[j])
                invariant
                    i <= j <= s.len(),
                    forall|k: int| i <= k < j ==> is_ascii_digit(#[trigger] s@[k]),
                decreases s.len() - j,
            {
                j += 1;
            }
            let mut k: usize = i;
            while k < j && s[k] == '0'
                invariant
                    i <= k <= j,
                    j <= s.len(),
                    forall|m: int| i <= m < k ==> #[trigger] s@[m] == '0',
                decreases j - k,
            {
                k += 1;
            }
            let digits = sub_chars(s, k, j);
            proof {
                let n = (j - i) as nat;
                assert forall|m: int| 0 <= m < n implies is_ascii_digit(#[trigger] t[m]) by {
                    assert(t[m] == s@[i + m]);
                }
                if j < s.len() {
                    assert(t[n as int] == s@[j as int]);
                }
                lemma_digit_run_exact(t, n);
                let d = t.take(n as int);
                assert(d =~= s@.subrange(i as int, j as int));
                assert forall|m: int| 0 <= m < k - i implies #[trigger] d[m] == '0' by {
                    assert(d[m] == s@[i + m]);
                }
                if k < j {
                    assert(d[k - i] == s@[k as int]);
                }
                lemma_strip_zeros_exact(d, (k - i) as nat);
                assert(d.skip(k - i) =~= s@.subrange(k as int, j as int));
                assert(t.skip(n as int) =~= s@.skip(j as int));
                assert(version_tokens(t) == seq![('0' as int, digits@)] + version_tokens(
                    s@.skip(j as int),
                ));
            }
            let ghost before = out@;
            out.push(('0', digits));
            proof {
                assert(token_views(out@) =~= token_views(before) + seq![('0' as int, digits@)]);
                assert(token_views(out@) + version_tokens(s@.skip(j as int)) =~= token_views(
                    before,
                ) + version_tokens(t));
            }
            i = j;
        } else {
            let c = s[i];
            let ghost before = out@;
            let empty: Vec<char> = Vec::new();
            out.push((c, empty));
            proof {
                assert(t[0] == c);
                assert(t.skip(1) =~= s@.skip(i + 1));
                assert(token_views(out@) =~= token_views(before) + seq![(c as int, Seq::<char>::empty())]);
                assert(token_views(out@) + version_tokens(s@.skip(i + 1)) =~= token_views(
                    before,
                ) + version_tokens(t));
            }
            i += 1;
        }
    }
    proof {
        assert(s@.skip(i as int) =~= Seq::<char>::empty());
        assert(token_views(out@) + version_tokens(s@.skip(i as int)) =~= token_views(out@));
    }
    out
}

fn token_less_exec(x: &(char, Vec<char>), y: &(char, Vec<char>)) -> (r: bool)
    ensures
        r == token_less((x.0 as int, x.1@), (y.0 as int, y.1@)),
{
    if x.0 < y.0 {
        true
    } else if x.0 == y.0 {
        x.1.len() < y.1.len() || (x.1.len() == y.1.len() && text_less_exec(&x.1, &y.1))
    } else {
        false
    }
}

fn tokens_less_exec(a: &Vec<(char, Vec<char>)>, b: &Vec<(char, Vec<char>)>) -> (r: bool)
    ensures
        r == tokens_less(token_views(a@), token_views(b@)),
{
    let ghost ta = token_views(a@);
    let ghost tb = token_views(b@);
    let mut i: usize = 0;
    assert(ta.skip(0) =~= ta);
    assert(tb.skip(0) =~= tb);
    while i < a.len() && i < b.len()
        invariant
            i <= a.len(),
            i <= b.len(),
            ta == token_views(a@),
            tb == token_views(b@),
            tokens_less(ta, tb) == tokens_less(ta.skip(i as int), tb.skip(i as int)),
        decreases a.len() - i,
    {
        let lt = token_less_exec(&a[i], &b[i]);
        let gt = token_less_exec(&b[i], &a[i]);
        proof {
            assert(ta[i as int] == (a@[i as int].0 as int, a@[i as int].1@));
            assert(tb[i as int] == (b@[i as int].0 as int, b@[i as int].1@));
            lemma_token_less(ta[i as int], tb[i as int], ta[i as int]);
            assert(ta.skip(i as int)[0] == ta[i as int]);
            assert(tb.skip(i as int)[0] == tb[i as int]);
        }
        if lt || gt {
            return lt;
        }
        assert(ta.skip(i as int).skip(1) =~= ta.skip(i + 1));
        assert(tb.skip(i as int).skip(1) =~= tb.skip(i + 1));
        i += 1;
    }
    i < b.len()
}

/// Whether the version name `a` is older than `b`.
pub fn version_less_exec(a: &Vec<char>, b: &Vec<char>) -> (r: bool)
    ensures
        r == version_less(a@, b@),
{
    let ta = version_tokens_exec(a);
    let tb = version_tokens_exec(b);
    proof {
        lemma_tokens_less(version_tokens(a@), version_tokens(b@), version_tokens(a@));
    }
    if tokens_less_exec(&ta, &tb) {
        true
    } else if tokens_less_exec(&tb, &ta) {
        false
    } else {
        text_less_exec(a, b)
    }
}

} // verus!
