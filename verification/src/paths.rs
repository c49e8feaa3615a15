//! Path names as character sequences: joining, and the pieces of a file name.
use vstd::prelude::*;
use crate::text::{
    chars_of, find_last, lemma_find_last, push_all, rfind_chars, string_of, sub_chars, views,
};

verus! {

/// `Path::join`: a `rel` that starts with `'/'` replaces `base`; otherwise a
/// separator is put between them unless `base` is empty or already ends with
/// one.
pub open spec fn join_path(base: Seq<char>, rel: Seq<char>) -> Seq<char> {
    if rel.len() > 0 && rel[0] == '/' {
        rel
    } else if base.len() == 0 || base.last() == '/' {
        base + rel
    } else {
        base + seq!['/'] + rel
    }
}

/// The extension of a file name (one path component), as `Path::extension`
/// sees it: the text after the last `'.'`, unless that dot starts the name.
pub open spec fn name_extension(name: Seq<char>) -> Option<Seq<char>> {
    if name == seq!['.', '.'] {
        None
    } else {
        match find_last(name, seq!['.']) {
            Some(i) => if i == 0 {
                None
            } else {
                Some(name.skip(i + 1))
            },
            None => None,
        }
    }
}

/// The stem of a file name (one path component), as `Path::file_stem` sees
/// it: the text before the last `'.'`, or the whole name when there is no
/// extension.
pub open spec fn name_stem(name: Seq<char>) -> Seq<char> {
    if name == seq!['.', '.'] {
        name
    } else {
        match find_last(name, seq!['.']) {
            Some(i) => if i == 0 {
                name
            } else {
                name.take(i)
            },
            None => name,
        }
    }
}

/// ASCII case folding of one character (`char::to_ascii_lowercase`).
pub open spec fn lower_ascii(c: char) -> char {
    if 'A' <= c && c <= 'Z' {
        ((c as u32) + 32) as char
    } else {
        c
    }
}

/// `str::eq_ignore_ascii_case`.
pub open spec fn eq_ignore_ascii_case(a: Seq<char>, b: Seq<char>) -> bool {
    a.len() == b.len() && forall|i: int| 0 <= i < a.len() ==> lower_ascii(a[i]) == lower_ascii(b[i])
}

/// The name's extension is one of `exts`, ignoring ASCII case.
pub open spec fn has_extension_ci(name: Seq<char>, exts: Seq<Seq<char>>) -> bool {
    match name_extension(name) {
        Some(e) => exists|k: int| 0 <= k < exts.len() && eq_ignore_ascii_case(exts[k], e),
        None => false,
    }
}

/// What `Path::parent` gives for a path, as text.
pub uninterp spec fn path_parent(p: Seq<char>) -> Option<Seq<char>>;

/// What `Path::file_name` gives for a path, as text.
pub uninterp spec fn path_file_name(p: Seq<char>) -> Option<Seq<char>>;

/// Calls `std::path::Path::parent`.  Its result is named `path_parent`;
/// nothing more is claimed of it.
#[verifier::external_body]
pub(crate) fn parent_of(p: &str) -> (r: Option<String>)
    ensures
        match r {
            Some(d) => path_parent(p@) == Some(d@),
            None => path_parent(p@) is None,
        },
{
    std::path::Path::new(p).parent().map(|d| d.to_string_lossy().into_owned())
}

/// Calls `std::path::Path::file_name`.  Its result is named
/// `path_file_name`; nothing more is claimed of it.
#[verifier::external_body]
pub(crate) fn file_name_of(p: &str) -> (r: Option<String>)
    ensures
        match r {
            Some(d) => path_file_name(p@) == Some(d@),
            None => path_file_name(p@) is None,
        },
{
    std::path::Path::new(p).file_name().map(|d| d.to_string_lossy().into_owned())
}

/// An owned copy of a string slice.
pub fn owned(s: &str) -> (r: String)
    ensures
        r@ == s@,
{
    s.to_owned()
}

/// `Path::join` on text.
pub fn join_path_chars(base: &Vec<char>, rel: &Vec<char>) -> (r: Vec<char>)
    ensures
        r@ == join_path(base@, rel@),
{
    let mut out: Vec<char> = Vec::new();
    if rel.len() > 0 && rel[0] == '/' {
        push_all(&mut out, rel);
        return out;
    }
    push_all(&mut out, base);
    if !(base.len() == 0 || base[base.len() - 1] == '/') {
        out.push('/');
    }
    push_all(&mut out, rel);
    out
}

/// `Path::new(base).join(rel)` as a `String`.
pub fn join_str(base: &str, rel: &str) -> (r: String)
    ensures
        r@ == join_path(base@, rel@),
{
    let b = chars_of(base);
    let l = chars_of(rel);
    string_of(&join_path_chars(&b, &l))
}

/// The extension of a file name.
pub fn name_extension_chars(name: &Vec<char>) -> (r: Option<Vec<char>>)
    ensures
        match r {
            Some(e) => name_extension(name@) == Some(e@),
            None => name_extension(name@) is None,
        },
{
    if name.len() == 2 && name[0] == '.' && name[1] == '.' {
        assert(name@ =~= seq!['.', '.']);
        return None;
    }
    assert(name@ != seq!['.', '.']) by {
        if name@ == seq!['.', '.'] {
            assert(name@.len() == 2 && name@[0] == '.' && name@[1] == '.');
        }
    }
    let dot: Vec<char> = vec!['.'];
    assert(dot@ =~= seq!['.']);
    match rfind_chars(name, &dot) {
        Some(i) => if i == 0 {
            None
        } else {
            proof {
                lemma_find_last(name@, dot@);
            }
            Some(sub_chars(name, i + 1, name.len()))
        },
        None => None,
    }
}

/// The stem of a file name.
pub fn name_stem_chars(name: &Vec<char>) -> (r: Vec<char>)
    ensures
        r@ == name_stem(name@),
{
    let mut whole: Vec<char> = Vec::new();
    push_all(&mut whole, name);
    if name.len() == 2 && name[0] == '.' && name[1] == '.' {
        assert(name@ =~= seq!['.', '.']);
        return whole;
    }
    assert(name@ != seq!['.', '.']) by {
        if name@ == seq!['.', '.'] {
            assert(name@.len() == 2 && name@[0] == '.' && name@[1] == '.');
        }
    }
    let dot: Vec<char> = vec!['.'];
    assert(dot@ =~= seq!['.']);
    match rfind_chars(name, &dot) {
        Some(i) => if i == 0 {
            whole
        } else {
            proof {
                lemma_find_last(name@, dot@);
            }
            let r = sub_chars(name, 0, i);
            assert(r@ =~= name@.take(i as int));
            r
        },
        None => whole,
    }
}

/// `char::to_ascii_lowercase`.
pub fn lower_ascii_ch(c: char) -> (r: char)
    ensures
        r == lower_ascii(c),
{
    if 'A' <= c && c <= 'Z' {
        let u: u32 = c as u32 + 32;
        let l: u8 = u as u8;
        assert(l as u32 == u);
        l as char
    } else {
        c
    }
}

/// `str::eq_ignore_ascii_case`.
pub fn eq_ignore_case_chars(a: &Vec<char>, b: &Vec<char>) -> (r: bool)
    ensures
        r == eq_ignore_ascii_case(a@, b@),
{
    if a.len() != b.len() {
        return false;
    }
    let mut i: usize = 0;
    while i < a.len()
        invariant
            i <= a.len(),
            a.len() == b.len(),
            forall|j: int| 0 <= j < i ==> lower_ascii(a@[j]) == lower_ascii(b@[j]),
        decreases a.len() - i,
    {
        if lower_ascii_ch(a[i]) != lower_ascii_ch(b[i]) {
            return false;
        }
        i += 1;
    }
    true
}

/// Whether the extension of `name` is one of `exts`, ignoring ASCII case.
pub fn has_extension_ci_chars(name: &Vec<char>, exts: &Vec<Vec<char>>) -> (r: bool)
    ensures
        r == has_extension_ci(name@, views(exts@)),
{
    match name_extension_chars(name) {
        Some(e) => {
            let mut k: usize = 0;
            while k < exts.len()
                invariant
                    k <= exts.len(),
                    views(exts@).len() == exts@.len(),
                    name_extension(name@) == Some(e@),
                    forall|j: int| 0 <= j < k ==> !eq_ignore_ascii_case(views(exts@)[j], e@),
                decreases exts.len() - k,
            {
                if eq_ignore_case_chars(&exts[k], &e) {
                    assert(views(exts@)[k as int] == exts@[k as int]@);
                    assert(eq_ignore_ascii_case(views(exts@)[k as int], e@));
                    return true;
                }
                k += 1;
            }
            false
        },
        None => false,
    }
}

} // verus!
