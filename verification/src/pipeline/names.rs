//! Names derived from user input: package identifiers, ASCII-safe file
//! names, working directories.
use vstd::prelude::*;
use crate::paths::{join_path, join_str, lower_ascii, lower_ascii_ch, owned};
use crate::text::{
    all_ascii, chars_of, decimal, decimal_chars, is_ascii_ch, is_ascii_char, is_ascii_digit,
    push_all, push_str, string_of,
};

verus! {

/// What `char::is_alphanumeric` says of a character.
pub uninterp spec fn unicode_alphanumeric(c: char) -> bool;

/// Calls `char::is_alphanumeric` (Unicode letters and numbers).  Its result
/// is named `unicode_alphanumeric`.  Claimed besides: ASCII letters and
/// digits are alphanumeric, and no other ASCII character is (ASCII has no
/// other character with the Alphabetic or Numeric property).
#[verifier::external_body]
pub(crate) fn is_alphanumeric_ch(c: char) -> (r: bool)
    ensures
        r == unicode_alphanumeric(c),
        (c as int) < 128 ==> (r <==> (('a' <= c && c <= 'z') || ('A' <= c && c <= 'Z') || ('0' <= c && c <= '9'))),
{
    c.is_alphanumeric()
}

/// The ASCII letter that stands for an accented Latin letter, or `'_'`.
pub open spec fn ascii_fold_spec(c: char) -> char {
    if c == 'À' || c == 'Á' || c == 'Â' || c == 'Ã' || c == 'Ä' || c == 'Å' || c == 'Æ' {
        'A'
    } else if c == 'à' || c == 'á' || c == 'â' || c == 'ã' || c == 'ä' || c == 'å' || c == 'æ' {
        'a'
    } else if c == 'È' || c == 'É' || c == 'Ê' || c == 'Ë' {
        'E'
    } else if c == 'è' || c == 'é' || c == 'ê' || c == 'ë' {
        'e'
    } else if c == 'Ì' || c == 'Í' || c == 'Î' || c == 'Ï' {
        'I'
    } else if c == 'ì' || c == 'í' || c == 'î' || c == 'ï' {
        'i'
    } else if c == 'Ò' || c == 'Ó' || c == 'Ô' || c == 'Õ' || c == 'Ö' || c == 'Ø' {
        'O'
    } else if c == 'ò' || c == 'ó' || c == 'ô' || c == 'õ' || c == 'ö' || c == 'ø' {
        'o'
    } else if c == 'Ù' || c == 'Ú' || c == 'Û' || c == 'Ü' {
        'U'
    } else if c == 'ù' || c == 'ú' || c == 'û' || c == 'ü' {
        'u'
    } else if c == 'Ý' || c == 'Ÿ' {
        'Y'
    } else if c == 'ý' || c == 'ÿ' {
        'y'
    } else if c == 'Ñ' {
        'N'
    } else if c == 'ñ' {
        'n'
    } else if c == 'Ç' {
        'C'
    } else if c == 'ç' {
        'c'
    } else if c == 'Ð' {
        'D'
    } else if c == 'ð' {
        'd'
    } else if c == 'Þ' {
        'T'
    } else if c == 'þ' {
        't'
    } else if c == 'ß' {
        's'
    } else {
        '_'
    }
}

/// The ASCII letter that stands for an accented Latin letter; `'_'` for
/// every other character.
pub fn ascii_fold(c: char) -> (r: char)
    ensures
        r == ascii_fold_spec(c),
        is_ascii_char(r),
{
    match c {
        'À' | 'Á' | 'Â' | 'Ã' | 'Ä' | 'Å' | 'Æ' => 'A',
        'à' | 'á' | 'â' | 'ã' | 'ä' | 'å' | 'æ' => 'a',
        'È' | 'É' | 'Ê' | 'Ë' => 'E',
        'è' | 'é' | 'ê' | 'ë' => 'e',
        'Ì' | 'Í' | 'Î' | 'Ï' => 'I',
        'ì' | 'í' | 'î' | 'ï' => 'i',
        'Ò' | 'Ó' | 'Ô' | 'Õ' | 'Ö' | 'Ø' => 'O',
        'ò' | 'ó' | 'ô' | 'õ' | 'ö' | 'ø' => 'o',
        'Ù' | 'Ú' | 'Û' | 'Ü' => 'U',
        'ù' | 'ú' | 'û' | 'ü' => 'u',
        'Ý' | 'Ÿ' => 'Y',
        'ý' | 'ÿ' => 'y',
        'Ñ' => 'N',
        'ñ' => 'n',
        'Ç' => 'C',
        'ç' => 'c',
        'Ð' => 'D',
        'ð' => 'd',
        'Þ' => 'T',
        'þ' => 't',
        'ß' => 's',
        _ => '_',
    }
}

/// One character of an ASCII-safe name.
pub open spec fn ascii_safe_char(c: char) -> char {
    if is_ascii_char(c) {
        c
    } else {
        ascii_fold_spec(c)
    }
}

/// A name with every non-ASCII character folded to ASCII.
pub open spec fn ascii_name(name: Seq<char>) -> Seq<char> {
    Seq::new(name.len(), |i: int| ascii_safe_char(name[i]))
}

/// `name` with every non-ASCII character replaced by its ASCII stand-in.
/// The result is all ASCII, as long as the name, and keeps every ASCII
/// character in place.
pub fn to_ascii_name(name: &str) -> (r: String)
    ensures
        r@ == ascii_name(name@),
        all_ascii(r@),
        r@.len() == name@.len(),
        forall|i: int| 0 <= i < name@.len() && is_ascii_char(name@[i]) ==> r@[i] == name@[i],
{
    let v = chars_of(name);
    let mut out: Vec<char> = Vec::new();
    let mut i: usize = 0;
    while i < v.len()
        invariant
            i <= v.len(),
            v@ == name@,
            out@ == ascii_name(v@).take(i as int),
        decreases v.len() - i,
    {
        let c = v[i];
        let d = if is_ascii_ch(c) {
            c
        } else {
            ascii_fold(c)
        };
        out.push(d);
        i += 1;
        assert(out@ =~= ascii_name(v@).take(i as int));
    }
    assert(ascii_name(v@).take(i as int) =~= ascii_name(v@));
    proof {
        assert forall|k: int| 0 <= k < out@.len() implies is_ascii_char(#[trigger] out@[k]) by {
            let c = v@[k];
            if !is_ascii_char(c) {
                assert(is_ascii_char(ascii_fold_spec(c)));
            }
        }
    }
    string_of(&out)
}

/// `s` without its leading `c` characters.
pub open spec fn strip_start_char(s: Seq<char>, c: char) -> Seq<char>
    decreases s.len(),
{
    if s.len() > 0 && s[0] == c {
        strip_start_char(s.skip(1), c)
    } else {
        s
    }
}

/// `s` without its trailing `c` characters.
pub open spec fn strip_end_char(s: Seq<char>, c: char) -> Seq<char>
    decreases s.len(),
{
    if s.len() > 0 && s.last() == c {
        strip_end_char(s.drop_last(), c)
    } else {
        s
    }
}

/// `str::trim_matches(c)`.
pub open spec fn trim_char(s: Seq<char>, c: char) -> Seq<char> {
    strip_end_char(strip_start_char(s, c), c)
}

/// An ASCII letter or digit, or `'_'`: the characters an Android package
/// name may hold.
pub open spec fn package_name_char(c: char) -> bool {
    ('a' <= c && c <= 'z') || ('A' <= c && c <= 'Z') || ('0' <= c && c <= '9') || c == '_'
}

/// One character of a package segment: lowercase; any character a Java /
/// Android package name cannot hold (including every non-ASCII one) as
/// `'_'`.
pub open spec fn package_char(c: char) -> char {
    if package_name_char(c) {
        lower_ascii(c)
    } else {
        '_'
    }
}

/// The package segment made from a name: lowercase, other characters as
/// `'_'`, no `'_'` at either end, `game` when nothing is left, and `app_` in
/// front of a leading digit.
pub open spec fn package_segment(raw: Seq<char>) -> Seq<char> {
    let mapped = Seq::new(raw.len(), |i: int| package_char(raw[i]));
    let trimmed = trim_char(mapped, '_');
    let named = if trimmed.len() == 0 {
        "game"@
    } else {
        trimmed
    };
    if is_ascii_digit(named[0]) {
        "app_"@ + named
    } else {
        named
    }
}

/// The prefix of every generated package identifier.
pub open spec fn app_id_prefix() -> Seq<char> {
    "com.vn2apk."@
}

/// The package identifier made from a name.
pub open spec fn app_id_spec(raw: Seq<char>) -> Seq<char> {
    app_id_prefix() + package_segment(raw)
}

proof fn lemma_strip_start(s: Seq<char>, c: char)
    ensures
        strip_start_char(s, c).len() > 0 ==> strip_start_char(s, c)[0] != c,
        strip_start_char(s, c).len() <= s.len(),
    decreases s.len(),
{
    if s.len() > 0 && s[0] == c {
        lemma_strip_start(s.skip(1), c);
    }
}

proof fn lemma_strip_end(s: Seq<char>, c: char)
    ensures
        strip_end_char(s, c).len() > 0 ==> strip_end_char(s, c).last() != c,
        strip_end_char(s, c).len() > 0 && s.len() > 0 && s[0] != c ==> strip_end_char(s, c)[0]
            == s[0],
        strip_end_char(s, c).len() <= s.len(),
        strip_end_char(s, c) == s.take(strip_end_char(s, c).len() as int),
    decreases s.len(),
{
    if s.len() > 0 && s.last() == c {
        lemma_strip_end(s.drop_last(), c);
        let r = strip_end_char(s.drop_last(), c);
        assert(s.drop_last().take(r.len() as int) =~= s.take(r.len() as int));
    } else {
        assert(s.take(s.len() as int) =~= s);
    }
}

/// A character that may stand in a package segment: `'_'`, or an ASCII
/// lower-case letter or digit.
pub open spec fn segment_char(c: char) -> bool {
    ||| c == '_'
    ||| ('a' <= c && c <= 'z')
    ||| ('0' <= c && c <= '9')
}

/// The package identifier made from a name starts with `com.vn2apk.`, and
/// the segment after it is not empty, has neither a leading nor a trailing
/// `'_'`, does not start with a digit, and each of its characters is `'_'`
/// or an ASCII lower-case letter or digit (see `segment_char`).
pub proof fn lemma_app_id_shape(raw: Seq<char>)
    ensures
        ({
            let id = app_id_spec(raw);
            let seg = package_segment(raw);
            &&& id == app_id_prefix() + seg
            &&& seg.len() > 0
            &&& seg[0] != '_'
            &&& seg.last() != '_'
            &&& !is_ascii_digit(seg[0])
            &&& forall|i: int| 0 <= i < seg.len() ==> !('A' <= #[trigger] seg[i] && seg[i] <= 'Z')
            &&& forall|i: int| 0 <= i < seg.len() ==> segment_char(#[trigger] seg[i])
        }),
{
    let mapped = Seq::new(raw.len(), |i: int| package_char(raw[i]));
    let st = strip_start_char(mapped, '_');
    lemma_strip_start(mapped, '_');
    lemma_strip_end(st, '_');
    lemma_strip_start_suffix(mapped, '_');
    let trimmed = trim_char(mapped, '_');
    assert(forall|i: int| 0 <= i < mapped.len() ==> !('A' <= #[trigger] mapped[i] && mapped[i] <= 'Z'));
    assert forall|i: int| 0 <= i < trimmed.len() implies !('A' <= #[trigger] trimmed[i] && trimmed[i]
        <= 'Z') by {
        assert(trimmed[i] == st[i]);
        assert(st[i] == mapped[i + (mapped.len() - st.len())]);
    }
    let named = if trimmed.len() == 0 {
        "game"@
    } else {
        trimmed
    };
    reveal_strlit("game");
    reveal_strlit("app_");
    if trimmed.len() > 0 {
        assert(trimmed[0] == st[0]);
    }
    assert forall|i: int| 0 <= i < trimmed.len() implies segment_char(#[trigger] trimmed[i]) by {
        let k = i + (mapped.len() - st.len());
        assert(trimmed[i] == st[i]);
        assert(st[i] == mapped[k]);
        assert(mapped[k] == package_char(raw[k]));
    }
    assert forall|i: int| 0 <= i < named.len() implies segment_char(#[trigger] named[i]) by {
        if trimmed.len() == 0 {
            assert(named == "game"@);
        }
    }
    let seg = package_segment(raw);
    assert forall|i: int| 0 <= i < seg.len() implies segment_char(#[trigger] seg[i]) by {
        if is_ascii_digit(named[0]) {
            assert(seg == "app_"@ + named);
            if i >= 4 {
                assert(seg[i] == named[i - 4]);
            }
        }
    }
}

/// A suffix left by `strip_start_char`.
proof fn lemma_strip_start_suffix(s: Seq<char>, c: char)
    ensures
        strip_start_char(s, c) == s.skip(s.len() - strip_start_char(s, c).len()),
    decreases s.len(),
{
    lemma_strip_start(s, c);
    if s.len() > 0 && s[0] == c {
        lemma_strip_start(s.skip(1), c);
        lemma_strip_start_suffix(s.skip(1), c);
        let r = strip_start_char(s.skip(1), c);
        assert(s.skip(1).skip(s.len() - 1 - r.len()) =~= s.skip(s.len() - r.len()));
    } else {
        assert(s.skip(0) =~= s);
    }
}

/// `s` without leading and trailing `c` characters.
fn trim_char_chars(s: &Vec<char>, c: char) -> (r: Vec<char>)
    ensures
        r@ == trim_char(s@, c),
{
    let mut a: usize = 0;
    assert(s@.skip(0) =~= s@);
    while a < s.len() && s[a] == c
        invariant
            a <= s.len(),
            strip_start_char(s@, c) == strip_start_char(s@.skip(a as int), c),
        decreases s.len() - a,
    {
        assert(s@.skip(a as int).skip(1) =~= s@.skip(a + 1));
        a += 1;
    }
    let ghost mid = s@.skip(a as int);
    let mut b: usize = s.len();
    while b > a && s[b - 1] == c
        invariant
            a <= b <= s.len(),
            strip_end_char(mid, c) == strip_end_char(s@.subrange(a as int, b as int), c),
            mid == s@.subrange(a as int, s.len() as int),
        decreases b,
    {
        assert(s@.subrange(a as int, b as int).drop_last() =~= s@.subrange(a as int, b - 1));
        b -= 1;
    }
    assert(mid =~= s@.subrange(a as int, s@.len() as int));
    let mut r: Vec<char> = Vec::new();
    let mut i = a;
    while i < b
        invariant
            a <= i <= b <= s.len(),
            r@ == s@.subrange(a as int, i as int),
        decreases b - i,
    {
        r.push(s[i]);
        i += 1;
        assert(r@ =~= s@.subrange(a as int, i as int));
    }
    r
}

/// The package segment made from a name.
fn package_segment_chars(raw: &Vec<char>) -> (r: Vec<char>)
    ensures
        r@ == package_segment(raw@),
{
    let ghost mapped_spec = Seq::new(raw@.len(), |i: int| package_char(raw@[i]));
    let mut mapped: Vec<char> = Vec::new();
    let mut i: usize = 0;
    while i < raw.len()
        invariant
            i <= raw.len(),
            mapped_spec == Seq::new(raw@.len(), |i: int| package_char(raw@[i])),
            mapped@ == mapped_spec.take(i as int),
        decreases raw.len() - i,
    {
        let c = raw[i];
        let d = if ('a' <= c && c <= 'z') || ('A' <= c && c <= 'Z') || ('0' <= c && c <= '9') || c == '_' {
            lower_ascii_ch(c)
        } else {
            '_'
        };
        mapped.push(d);
        i += 1;
        assert(mapped@ =~= mapped_spec.take(i as int));
    }
    assert(mapped_spec.take(i as int) =~= mapped_spec);
    let trimmed = trim_char_chars(&mapped, '_');
    let named = if trimmed.len() == 0 {
        chars_of("game")
    } else {
        trimmed
    };
    proof {
        reveal_strlit("game");
    }
    if '0' <= named[0] && named[0] <= '9' {
        let mut r = chars_of("app_");
        push_all(&mut r, &named);
        r
    } else {
        named
    }
}

/// The package identifier made from a name: `com.vn2apk.` and the name as
/// a package segment.
pub fn make_app_id(raw: &str) -> (r: String)
    ensures
        r@ == app_id_spec(raw@),
{
    let v = chars_of(raw);
    let seg = package_segment_chars(&v);
    let mut out = chars_of("com.vn2apk.");
    push_all(&mut out, &seg);
    string_of(&out)
}

/// The package identifier suggested for a game folder.
pub fn suggest_app_id(game_folder_name: &str) -> (r: String)
    ensures
        r@ == app_id_spec(game_folder_name@),
{
    make_app_id(game_folder_name)
}

/// One character of a working-directory name.
pub open spec fn dir_char(c: char) -> char {
    if unicode_alphanumeric(c) {
        c
    } else {
        '_'
    }
}

/// The working directory of a build: `/tmp/vn2apk_` and the application
/// name with every non-alphanumeric character as `'_'`.
pub open spec fn work_dir_spec(app_name: Seq<char>) -> Seq<char> {
    join_path("/tmp"@, "vn2apk_"@ + Seq::new(app_name.len(), |i: int| dir_char(app_name[i])))
}

/// The working directory of a build.
pub fn work_dir_for(app_name: &str) -> (r: String)
    ensures
        r@ == work_dir_spec(app_name@),
{
    let v = chars_of(app_name);
    let ghost want = Seq::new(app_name@.len(), |i: int| dir_char(app_name@[i]));
    let mut name = chars_of("vn2apk_");
    let ghost start = name@;
    let mut i: usize = 0;
    while i < v.len()
        invariant
            i <= v.len(),
            v@ == app_name@,
            want == Seq::new(app_name@.len(), |i: int| dir_char(app_name@[i])),
            name@ == start + want.take(i as int),
        decreases v.len() - i,
    {
        let c = v[i];
        name.push(if is_alphanumeric_ch(c) {
            c
        } else {
            '_'
        });
        i += 1;
        assert(name@ =~= start + want.take(i as int));
    }
    assert(want.take(i as int) =~= want);
    join_str("/tmp", &string_of(&name))
}

} // verus!
