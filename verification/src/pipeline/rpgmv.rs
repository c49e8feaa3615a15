//! The decisions of the RPG Maker / TyranoBuilder build: which assets to
//! rename, how data files are patched, which NW.js calls to warn about, and
//! the runtime shim for RPG Maker MV.
use vstd::prelude::*;
use crate::paths::{
    join_path, join_str, name_extension, name_extension_chars, name_stem, name_stem_chars, owned,
};
use crate::pipeline::names::ascii_name;
use crate::text::{
    all_ascii, chars_eq, chars_of, contains_seq, contains_chars, decimal, decimal_chars,
    find_first, find_last, holds_string, is_ascii_ch, is_literal, lemma_contains_inner,
    push_all, push_str, replace_all, replace_all_chars, rfind_chars, string_of,
    string_views, sub_chars,
};

verus! {

// ---------------------------------------------------------------------------
// Non-colliding names
// ---------------------------------------------------------------------------

/// A file name split at its last `'.'`: the stem and the extension with
/// its dot.
pub open spec fn stem_and_dot_ext(name: Seq<char>) -> (Seq<char>, Seq<char>) {
    match find_last(name, seq!['.']) {
        Some(i) => (name.take(i), name.skip(i)),
        None => (name, Seq::<char>::empty()),
    }
}

/// `stem_n.ext`: the name with `_n` put before its extension.
pub open spec fn numbered_name(name: Seq<char>, n: nat) -> Seq<char> {
    stem_and_dot_ext(name).0 + seq!['_'] + decimal(n) + stem_and_dot_ext(name).1
}

/// The first number from `n` up to 9999 whose numbered name is not taken.
pub open spec fn first_free_number(name: Seq<char>, taken: Seq<Seq<char>>, n: nat) -> Option<nat>
    decreases 10000 - n,
{
    if n > 9999 {
        None
    } else if taken.contains(numbered_name(name, n)) {
        first_free_number(name, taken, n + 1)
    } else {
        Some(n)
    }
}

/// The name chosen for a file: the name itself when it is free, else the
/// first free numbered name, else (all taken) the name itself.
pub open spec fn free_name(name: Seq<char>, taken: Seq<Seq<char>>) -> Seq<char> {
    if !taken.contains(name) {
        name
    } else {
        match first_free_number(name, taken, 1) {
            Some(n) => numbered_name(name, n),
            None => name,
        }
    }
}

proof fn lemma_first_free_number(name: Seq<char>, taken: Seq<Seq<char>>, n: nat)
    ensures
        match first_free_number(name, taken, n) {
            Some(k) => n <= k <= 9999 && !taken.contains(numbered_name(name, k)) && forall|m: nat|
                n <= m < k ==> taken.contains(#[trigger] numbered_name(name, m)),
            None => forall|k: nat| n <= k <= 9999 ==> taken.contains(#[trigger] numbered_name(name, k)),
        },
    decreases 10000 - n,
{
    if n <= 9999 && taken.contains(numbered_name(name, n)) {
        lemma_first_free_number(name, taken, n + 1);
    }
}

/// The name chosen by `dedup_path` (which joins it to the folder): the name
/// itself when it is free; else `stem_n.ext` for the least `n` from 1 to
/// 9999 that is free; else, when all of them are taken, the name itself.
pub proof fn lemma_free_name_is_free(name: Seq<char>, taken: Seq<Seq<char>>)
    ensures
        !taken.contains(name) ==> free_name(name, taken) == name,
        taken.contains(name) && (exists|n: nat| 1 <= n <= 9999 && !taken.contains(#[trigger] numbered_name(name, n)))
            ==> exists|n: nat|
            1 <= n <= 9999 && free_name(name, taken) == #[trigger] numbered_name(name, n) && !taken.contains(
                numbered_name(name, n),
            ) && forall|m: nat| 1 <= m < n ==> taken.contains(#[trigger] numbered_name(name, m)),
        taken.contains(name) && (forall|n: nat| 1 <= n <= 9999 ==> taken.contains(#[trigger] numbered_name(name, n)))
            ==> free_name(name, taken) == name,
{
    lemma_first_free_number(name, taken, 1);
}

/// The numbered name `stem_n.ext`.
fn numbered_name_chars(name: &Vec<char>, n: u64) -> (r: Vec<char>)
    ensures
        r@ == numbered_name(name@, n as nat),
{
    let dot: Vec<char> = vec!['.'];
    assert(dot@ =~= seq!['.']);
    let (stem, ext) = match rfind_chars(name, &dot) {
        Some(i) => {
            proof {
                crate::text::lemma_find_last(name@, dot@);
            }
            let s = sub_chars(name, 0, i);
            let e = sub_chars(name, i, name.len());
            assert(s@ =~= name@.take(i as int));
            assert(e@ =~= name@.skip(i as int));
            (s, e)
        },
        None => {
            let mut s = Vec::new();
            push_all(&mut s, name);
            (s, Vec::new())
        },
    };
    let mut r = stem;
    r.push('_');
    let digits = decimal_chars(n);
    push_all(&mut r, &digits);
    push_all(&mut r, &ext);
    r
}

/// The name chosen for a file among the names in `taken` (see
/// `free_name`).
pub fn free_name_of(new_name: &str, taken: &Vec<String>) -> (r: String)
    ensures
        r@ == free_name(new_name@, string_views(taken@)),
{
    let ghost tv = string_views(taken@);
    let name_s = owned(new_name);
    if !holds_string(taken, &name_s) {
        return name_s;
    }
    let name = chars_of(new_name);
    assert(tv.contains(new_name@));
    let mut n: u64 = 1;
    while n <= 9999
        invariant
            1 <= n <= 10000,
            name@ == new_name@,
            tv.contains(new_name@),
            tv == string_views(taken@),
            first_free_number(new_name@, tv, 1) == first_free_number(new_name@, tv, n as nat),
        decreases 10000 - n,
    {
        let cand = string_of(&numbered_name_chars(&name, n));
        if !holds_string(taken, &cand) {
            assert(first_free_number(new_name@, tv, n as nat) == Some(n as nat));
            return cand;
        }
        n += 1;
    }
    name_s
}

/// The path for a file in `parent`, appending `_1`, `_2`, … before the
/// extension when its name is taken.  `taken` holds the names that already
/// exist in `parent`; when the name and all of `_1` to `_9999` are taken,
/// the name itself is kept (see `lemma_free_name_is_free`).
pub fn dedup_path(parent: &str, new_name: &str, taken: &Vec<String>) -> (r: String)
    ensures
        r@ == join_path(parent@, free_name(new_name@, string_views(taken@))),
{
    let name = free_name_of(new_name, taken);
    join_str(parent, name.as_str())
}

/// The renames of the files of one folder whose names are not ASCII, in
/// order: each gets its ASCII-safe name made free among `taken` and the new
/// names chosen before it; a file for which no free name is found keeps its
/// name.
pub open spec fn rename_plan(taken: Seq<Seq<char>>, names: Seq<Seq<char>>) -> Seq<(Seq<char>, Seq<char>)>
    decreases names.len(),
{
    if names.len() == 0 {
        seq![]
    } else {
        let n = names[0];
        let t = free_name(ascii_name(n), taken);
        if all_ascii(n) || taken.contains(t) {
            rename_plan(taken, names.skip(1))
        } else {
            seq![(n, t)] + rename_plan(taken.push(t), names.skip(1))
        }
    }
}

/// No two renames of a folder get the same new name, no new name is a name
/// already in the folder, and only names that are not ASCII are renamed.
pub proof fn lemma_rename_plan_distinct(taken: Seq<Seq<char>>, names: Seq<Seq<char>>)
    ensures
        ({
            let p = rename_plan(taken, names);
            &&& forall|k: int| 0 <= k < p.len() ==> !taken.contains(#[trigger] p[k].1)
            &&& forall|k: int, l: int| 0 <= k < l < p.len() ==> #[trigger] p[k].1 != #[trigger] p[l].1
            &&& forall|k: int| 0 <= k < p.len() ==> !all_ascii(#[trigger] p[k].0) && names.contains(p[k].0)
        }),
    decreases names.len(),
{
    if names.len() > 0 {
        let n = names[0];
        let t = free_name(ascii_name(n), taken);
        if all_ascii(n) || taken.contains(t) {
            lemma_rename_plan_distinct(taken, names.skip(1));
            let p = rename_plan(taken, names);
            assert(p == rename_plan(taken, names.skip(1)));
            assert forall|k: int| 0 <= k < p.len() implies !all_ascii(#[trigger] p[k].0) && names.contains(p[k].0) by {
                assert(!all_ascii(p[k].0) && names.skip(1).contains(p[k].0));
                let j = choose|j: int| 0 <= j < names.skip(1).len() && names.skip(1)[j] == p[k].0;
                assert(names[j + 1] == p[k].0);
            }
        } else {
            let t2 = taken.push(t);
            lemma_rename_plan_distinct(t2, names.skip(1));
            let rest = rename_plan(t2, names.skip(1));
            let p = rename_plan(taken, names);
            assert(p == seq![(n, t)] + rest);
            assert forall|k: int| 0 <= k < p.len() implies !taken.contains(#[trigger] p[k].1) by {
                if k > 0 {
                    assert(p[k] == rest[k - 1]);
                    assert(!t2.contains(rest[k - 1].1));
                    if taken.contains(rest[k - 1].1) {
                        let j = choose|j: int| 0 <= j < taken.len() && taken[j] == rest[k - 1].1;
                        assert(t2[j] == rest[k - 1].1);
                    }
                }
            }
            assert forall|k: int, l: int| 0 <= k < l < p.len() implies #[trigger] p[k].1 != #[trigger] p[l].1 by {
                assert(p[l] == rest[l - 1]);
                if k == 0 {
                    assert(!t2.contains(rest[l - 1].1));
                    assert(t2[taken.len() as int] == t);
                } else {
                    assert(p[k] == rest[k - 1]);
                }
            }
            assert forall|k: int| 0 <= k < p.len() implies !all_ascii(#[trigger] p[k].0) && names.contains(p[k].0) by {
                if k == 0 {
                    assert(names[0] == n);
                } else {
                    assert(p[k] == rest[k - 1]);
                    let j = choose|j: int| 0 <= j < names.skip(1).len() && names.skip(1)[j] == rest[k - 1].0;
                    assert(names[j + 1] == p[k].0);
                }
            }
        }
    }
}

/// The renames of the files `names` of a folder whose entries are
/// `existing`: (old name, new name) for each file whose name is not ASCII.
/// New names are distinct from each other and from every existing name.
pub fn plan_renames(existing: &Vec<String>, names: &Vec<String>) -> (r: Vec<(String, String)>)
    ensures
        pair_views(r@) == rename_plan(string_views(existing@), string_views(names@)),
        forall|k: int| 0 <= k < r@.len() ==> !string_views(existing@).contains(#[trigger] r@[k].1@),
        forall|k: int, l: int| 0 <= k < l < r@.len() ==> #[trigger] r@[k].1@ != #[trigger] r@[l].1@,
{
    let ghost ev = string_views(existing@);
    let ghost nv = string_views(names@);
    let mut taken: Vec<String> = Vec::new();
    let mut i: usize = 0;
    while i < existing.len()
        invariant
            i <= existing.len(),
            ev == string_views(existing@),
            string_views(taken@) == ev.take(i as int),
        decreases existing.len() - i,
    {
        let ghost before = string_views(taken@);
        taken.push(existing[i].clone());
        assert(string_views(taken@) =~= before.push(existing@[i as int]@));
        assert(ev.take(i + 1) =~= ev.take(i as int).push(ev[i as int]));
        i += 1;
    }
    assert(ev.take(i as int) =~= ev);
    let mut out: Vec<(String, String)> = Vec::new();
    let mut j: usize = 0;
    assert(nv.skip(0) =~= nv);
    assert(pair_views(out@) + rename_plan(string_views(taken@), nv.skip(0)) =~= rename_plan(ev, nv));
    while j < names.len()
        invariant
            j <= names.len(),
            nv == string_views(names@),
            ev == string_views(existing@),
            pair_views(out@) + rename_plan(string_views(taken@), nv.skip(j as int)) == rename_plan(ev, nv),
        decreases names.len() - j,
    {
        let ghost tv = string_views(taken@);
        let ghost rest = nv.skip(j as int);
        assert(rest[0] == names@[j as int]@);
        assert(rest.skip(1) =~= nv.skip(j + 1));
        if needs_ascii_rename(names[j].as_str()) {
            let ascii = crate::pipeline::names::to_ascii_name(names[j].as_str());
            let target = free_name_of(ascii.as_str(), &taken);
            if !holds_string(&taken, &target) {
                let ghost before = pair_views(out@);
                out.push((names[j].clone(), target.clone()));
                assert(pair_views(out@) =~= before.push((names@[j as int]@, target@)));
                taken.push(target);
                assert(string_views(taken@) =~= tv.push(target@));
                assert(pair_views(out@) + rename_plan(string_views(taken@), nv.skip(j + 1)) =~= before + (
                seq![(names@[j as int]@, target@)] + rename_plan(tv.push(target@), nv.skip(j + 1))));
            }
        }
        j += 1;
    }
    proof {
        assert(nv.skip(j as int) =~= Seq::<Seq<char>>::empty());
        assert(pair_views(out@) =~= rename_plan(ev, nv));
        lemma_rename_plan_distinct(ev, nv);
        let p = rename_plan(ev, nv);
        assert forall|k: int| 0 <= k < out@.len() implies !ev.contains(#[trigger] out@[k].1@) by {
            assert(pair_views(out@)[k] == (out@[k].0@, out@[k].1@));
            assert(p[k].1 == out@[k].1@);
            assert(!ev.contains(p[k].1));
        }
        assert forall|k: int, l: int| 0 <= k < l < out@.len() implies #[trigger] out@[k].1@ != #[trigger] out@[l].1@ by {
            assert(pair_views(out@)[k] == (out@[k].0@, out@[k].1@));
            assert(pair_views(out@)[l] == (out@[l].0@, out@[l].1@));
            assert(p[k].1 != p[l].1);
        }
    }
    out
}

// ---------------------------------------------------------------------------
// Renamed assets
// ---------------------------------------------------------------------------

/// A file name holds a character outside ASCII and must be renamed.
pub fn needs_ascii_rename(name: &str) -> (r: bool)
    ensures
        r == !all_ascii(name@),
{
    let v = chars_of(name);
    let mut i: usize = 0;
    while i < v.len()
        invariant
            i <= v.len(),
            v@ == name@,
            all_ascii(v@.take(i as int)),
        decreases v.len() - i,
    {
        if !is_ascii_ch(v[i]) {
            assert(!crate::text::is_ascii_char(v@[i as int]));
            return true;
        }
        i += 1;
        assert(all_ascii(v@.take(i as int))) by {
            assert forall|j: int| 0 <= j < i implies crate::text::is_ascii_char(
                #[trigger] v@.take(i as int)[j],
            ) by {
                if j < i - 1 {
                    assert(v@.take(i as int)[j] == v@.take(i - 1)[j]);
                }
            }
        }
    }
    assert(v@.take(i as int) =~= v@);
    false
}

/// The views of pairs of strings.
pub open spec fn pair_views(v: Seq<(String, String)>) -> Seq<(Seq<char>, Seq<char>)> {
    v.map_values(|p: (String, String)| (p.0@, p.1@))
}

/// The stem renames implied by file renames (old name, new name): one pair
/// of stems for each rename that changes the stem, in order.
pub open spec fn stem_renames(renames: Seq<(Seq<char>, Seq<char>)>) -> Seq<(Seq<char>, Seq<char>)>
    decreases renames.len(),
{
    if renames.len() == 0 {
        seq![]
    } else {
        let rest = stem_renames(renames.drop_last());
        let old_stem = name_stem(renames.last().0);
        let new_stem = name_stem(renames.last().1);
        if old_stem != new_stem {
            rest.push((old_stem, new_stem))
        } else {
            rest
        }
    }
}

/// The stem renames implied by file renames given as (old name, new name).
pub fn stem_map_for(renames: &Vec<(String, String)>) -> (r: Vec<(String, String)>)
    ensures
        pair_views(r@) == stem_renames(pair_views(renames@)),
{
    let ghost rv = pair_views(renames@);
    let mut out: Vec<(String, String)> = Vec::new();
    let mut i: usize = 0;
    while i < renames.len()
        invariant
            i <= renames.len(),
            rv == pair_views(renames@),
            pair_views(out@) == stem_renames(rv.take(i as int)),
        decreases renames.len() - i,
    {
        let old_v = chars_of(renames[i].0.as_str());
        let new_v = chars_of(renames[i].1.as_str());
        let old_stem = name_stem_chars(&old_v);
        let new_stem = name_stem_chars(&new_v);
        proof {
            assert(rv.take(i + 1).drop_last() =~= rv.take(i as int));
            assert(rv.take(i + 1).last() == rv[i as int]);
        }
        if !chars_eq(&old_stem, &new_stem) {
            let ghost before = pair_views(out@);
            out.push((string_of(&old_stem), string_of(&new_stem)));
            assert(pair_views(out@) =~= before.push((old_stem@, new_stem@)));
        }
        i += 1;
    }
    assert(rv.take(i as int) =~= rv);
    out
}

/// `"s"`: the text in double quotes.
pub open spec fn quoted(s: Seq<char>) -> Seq<char> {
    seq!['"'] + s + seq!['"']
}

/// Every `"old"` replaced by `"new"`, for each pair of the map in turn.
pub open spec fn apply_stem_renames(content: Seq<char>, map: Seq<(Seq<char>, Seq<char>)>) -> Seq<
    char,
>
    decreases map.len(),
{
    if map.len() == 0 {
        content
    } else {
        apply_stem_renames(
            replace_all(content, quoted(map[0].0), quoted(map[0].1)),
            map.skip(1),
        )
    }
}

/// The text in double quotes.
fn quoted_chars(s: &str) -> (r: Vec<char>)
    ensures
        r@ == quoted(s@),
{
    let mut r: Vec<char> = vec!['"'];
    push_str(&mut r, s);
    r.push('"');
    assert(r@ =~= quoted(s@));
    r
}

/// Replace `"old_stem"` with `"new_stem"` in the text of a data file, for
/// each pair of `stem_map` in turn.  `None` when nothing changes.
pub fn patch_data_references(content: &str, stem_map: &Vec<(String, String)>) -> (r: Option<
    String,
>)
    ensures
        match r {
            Some(p) => p@ == apply_stem_renames(content@, pair_views(stem_map@)) && p@ != content@,
            None => apply_stem_renames(content@, pair_views(stem_map@)) == content@,
        },
{
    let ghost mv = pair_views(stem_map@);
    let original = chars_of(content);
    let mut cur = chars_of(content);
    let mut i: usize = 0;
    assert(mv.skip(0) =~= mv);
    while i < stem_map.len()
        invariant
            i <= stem_map.len(),
            mv == pair_views(stem_map@),
            apply_stem_renames(content@, mv) == apply_stem_renames(cur@, mv.skip(i as int)),
        decreases stem_map.len() - i,
    {
        let from = quoted_chars(stem_map[i].0.as_str());
        let to = quoted_chars(stem_map[i].1.as_str());
        proof {
            assert(mv.skip(i as int)[0] == mv[i as int]);
            assert(mv.skip(i as int).skip(1) =~= mv.skip(i + 1));
        }
        cur = replace_all_chars(&cur, &from, &to);
        i += 1;
    }
    assert(mv.skip(i as int) =~= Seq::<(Seq<char>, Seq<char>)>::empty());
    if chars_eq(&cur, &original) {
        None
    } else {
        Some(string_of(&cur))
    }
}

/// The data files whose references are patched: `.json` and `.js`, in any
/// ASCII case.
pub open spec fn data_file_exts() -> Seq<Seq<char>> {
    seq!["json"@, "js"@]
}

/// Whether a file name is a data file whose references are patched.
pub fn is_data_file(name: &str) -> (r: bool)
    ensures
        r == crate::paths::has_extension_ci(name@, data_file_exts()),
{
    let v = chars_of(name);
    let exts: Vec<Vec<char>> = vec![chars_of("json"), chars_of("js")];
    assert(crate::text::views(exts@) =~= data_file_exts());
    crate::paths::has_extension_ci_chars(&v, &exts)
}

// ---------------------------------------------------------------------------
// NW.js calls
// ---------------------------------------------------------------------------

/// The NW.js calls that do not work in a WebView.
pub open spec fn nwjs_patterns() -> Seq<Seq<char>> {
    seq![
        "require('fs')"@,
        "require(\"fs\")"@,
        "require('path')"@,
        "require(\"path\")"@,
        "require('child_process')"@,
        "nw.require"@,
        "nw.App"@,
        "process.versions.nw"@,
    ]
}

/// The first pattern of `pats` that occurs in `content`.
pub open spec fn first_pattern_in(content: Seq<char>, pats: Seq<Seq<char>>) -> Option<Seq<char>>
    decreases pats.len(),
{
    if pats.len() == 0 {
        None
    } else if contains_seq(content, pats[0]) {
        Some(pats[0])
    } else {
        first_pattern_in(content, pats.skip(1))
    }
}

/// The warning for one plugin file: only `.js` files are looked at, and the
/// first NW.js call found is named.
pub open spec fn plugin_warning(name: Seq<char>, content: Seq<char>) -> Option<Seq<char>> {
    if name_extension(name) == Some("js"@) {
        match first_pattern_in(content, nwjs_patterns()) {
            Some(p) => Some(
                "Plugin '"@ + name + "' uses '"@ + p + "' (NW.js API, may not work in WebView)"@,
            ),
            None => None,
        }
    } else {
        None
    }
}

/// A plugin file: its name and, when it could be read, its text.
pub open spec fn file_view(f: (String, Option<String>)) -> (Seq<char>, Option<Seq<char>>) {
    (
        f.0@,
        match f.1 {
            Some(c) => Some(c@),
            None => None,
        },
    )
}

/// The warnings for the plugin files, in order.
pub open spec fn plugin_warnings(files: Seq<(Seq<char>, Option<Seq<char>>)>) -> Seq<Seq<char>>
    decreases files.len(),
{
    if files.len() == 0 {
        seq![]
    } else {
        let rest = plugin_warnings(files.drop_last());
        match files.last().1 {
            Some(c) => match plugin_warning(files.last().0, c) {
                Some(w) => rest.push(w),
                None => rest,
            },
            None => rest,
        }
    }
}

/// The NW.js call named in the warning for a file.
fn first_nwjs_call(content: &Vec<char>) -> (r: Option<&'static str>)
    ensures
        match r {
            Some(p) => first_pattern_in(content@, nwjs_patterns()) == Some(p@),
            None => first_pattern_in(content@, nwjs_patterns()) is None,
        },
{
    let pats: [&'static str; 8] = [
        "require('fs')",
        "require(\"fs\")",
        "require('path')",
        "require(\"path\")",
        "require('child_process')",
        "nw.require",
        "nw.App",
        "process.versions.nw",
    ];
    let ghost all = nwjs_patterns();
    assert(all.skip(0) =~= all);
    let mut i: usize = 0;
    while i < 8
        invariant
            i <= 8,
            all == nwjs_patterns(),
            forall|k: int| 0 <= k < 8 ==> (#[trigger] pats@[k])@ == all[k],
            first_pattern_in(content@, all) == first_pattern_in(content@, all.skip(i as int)),
        decreases 8 - i,
    {
        assert(all.skip(i as int)[0] == all[i as int]);
        assert(all.skip(i as int).skip(1) =~= all.skip(i + 1));
        let p = chars_of(pats[i]);
        if contains_chars(content, &p) {
            return Some(pats[i]);
        }
        i += 1;
    }
    assert(all.skip(8) =~= Seq::<Seq<char>>::empty());
    None
}

/// Warnings for plugins that use NW.js-specific calls, which do not work in
/// the Cordova WebView.  `files` holds the plugin files (name, text when
/// readable) of `www/js/plugins`.
pub fn nwjs_warnings(files: &Vec<(String, Option<String>)>) -> (r: Vec<String>)
    ensures
        string_views(r@) == plugin_warnings(files@.map_values(|f: (String, Option<String>)| file_view(f))),
{
    let ghost fv = files@.map_values(|f: (String, Option<String>)| file_view(f));
    let mut out: Vec<String> = Vec::new();
    let mut i: usize = 0;
    while i < files.len()
        invariant
            i <= files.len(),
            fv == files@.map_values(|f: (String, Option<String>)| file_view(f)),
            string_views(out@) == plugin_warnings(fv.take(i as int)),
        decreases files.len() - i,
    {
        proof {
            assert(fv.take(i + 1).drop_last() =~= fv.take(i as int));
            assert(fv.take(i + 1).last() == fv[i as int]);
        }
        match &files[i].1 {
            Some(content) => {
                let name = chars_of(files[i].0.as_str());
                let is_js = match name_extension_chars(&name) {
                    Some(e) => is_literal(&e, "js"),
                    None => false,
                };
                if is_js {
                    let text = chars_of(content.as_str());
                    match first_nwjs_call(&text) {
                        Some(p) => {
                            let mut w = chars_of("Plugin '");
                            push_all(&mut w, &name);
                            push_str(&mut w, "' uses '");
                            push_str(&mut w, p);
                            push_str(&mut w, "' (NW.js API, may not work in WebView)");
                            let ghost before = string_views(out@);
                            out.push(string_of(&w));
                            assert(string_views(out@) =~= before.push(w@));
                        },
                        None => {},
                    }
                }
            },
            None => {},
        }
        i += 1;
    }
    assert(fv.take(i as int) =~= fv);
    out
}

// ---------------------------------------------------------------------------
// RPG Maker MV runtime shim
// ---------------------------------------------------------------------------

/// The file name of the shim, which marks an index page as patched.
pub const COMPAT_FILE: &'static str = "vn2apk_compat.js";

/// The script tag that loads the shim.
pub const COMPAT_TAG: &'static str = "<script type=\"text/javascript\" src=\"js/vn2apk_compat.js\"></script>";

/// The beginning of the shim.
pub const SHIM_HEAD: &'static str = "/* vn2apk compatibility shim — RPG Maker MV on Android / Cordova WebView.\n * Auto-generated. Loaded after rpg_managers.js, before main.js. */\n(function () {\n  \"use strict\";\n";

/// The part of the audio override before the extension.
pub const SHIM_AUDIO_OPEN: &'static str = "  if (window.AudioManager) { AudioManager.audioFileExt = function () { return \"";

/// The part of the audio override after the extension.
pub const SHIM_AUDIO_CLOSE: &'static str = "\"; }; }\n";

/// The start of the table of bundled saves.
pub const SHIM_SAVES_OPEN: &'static str = "  var saves = {\n";

/// The end of the table of bundled saves, and the import loop.
pub const SHIM_SAVES_IMPORT: &'static str = "  };\n  Object.keys(saves).forEach(function (key) {\n    try {\n      if (localStorage.getItem(key) === null) {\n        localStorage.setItem(key, saves[key]);\n      }\n    } catch (e) { if (window.console) console.error(\"vn2apk save import failed:\", key, e); }\n  });\n";

/// The start of the line that holds the game title.
pub const SHIM_TITLE_OPEN: &'static str = "  var __vn2apkTitle = ";

/// The repair of the bundled global save information.
pub const SHIM_TITLE_REPAIR: &'static str = "  try {\n    if (window.LZString && window.DataManager && DataManager._globalId !== undefined) {\n      var __raw = localStorage.getItem(\"RPG Global\");\n      if (__raw) {\n        var __gi = JSON.parse(LZString.decompressFromBase64(__raw));\n        var __changed = false;\n        for (var __i = 0; __i < __gi.length; __i++) {\n          if (__gi[__i]) {\n            if (__gi[__i].globalId !== DataManager._globalId) { __gi[__i].globalId = DataManager._globalId; __changed = true; }\n            if (__gi[__i].title !== __vn2apkTitle) { __gi[__i].title = __vn2apkTitle; __changed = true; }\n          }\n        }\n        if (__changed) localStorage.setItem(\"RPG Global\", LZString.compressToBase64(JSON.stringify(__gi)));\n      }\n    }\n  } catch (e) { if (window.console) console.error(\"vn2apk globalInfo repair failed:\", e); }\n";

/// The end of the shim.
pub const SHIM_TAIL: &'static str = "})();\n";

/// The web-storage key of a bundled save file, by its name: `config` and
/// `global` saves, and `file<digits>` saves; other files are not saves.
pub open spec fn save_key(name: Seq<char>) -> Option<Seq<char>> {
    if name_extension(name) != Some("rpgsave"@) {
        None
    } else {
        let stem = name_stem(name);
        if stem == "config"@ {
            Some("RPG Config"@)
        } else if stem == "global"@ {
            Some("RPG Global"@)
        } else if crate::text::starts_with(stem, "file"@) && stem.len() > 4
            && crate::text::all_digits(stem.skip(4)) {
            Some("RPG File"@ + stem.skip(4))
        } else {
            None
        }
    }
}

/// The web-storage key of a bundled save file.
pub fn save_key_for(name: &str) -> (r: Option<String>)
    ensures
        match r {
            Some(k) => save_key(name@) == Some(k@),
            None => save_key(name@) is None,
        },
{
    let v = chars_of(name);
    let ext_ok = match name_extension_chars(&v) {
        Some(e) => is_literal(&e, "rpgsave"),
        None => false,
    };
    if !ext_ok {
        return None;
    }
    let stem = name_stem_chars(&v);
    if is_literal(&stem, "config") {
        return Some(owned("RPG Config"));
    }
    if is_literal(&stem, "global") {
        return Some(owned("RPG Global"));
    }
    proof {
        reveal_strlit("file");
    }
    let file = chars_of("file");
    if crate::text::starts_with_chars(&stem, &file) && stem.len() > 4 {
        let digits = sub_chars(&stem, 4, stem.len());
        assert(digits@ =~= stem@.skip(4));
        if !crate::text::all_digit_chars(&digits) {
            return None;
        }
        let mut key = chars_of("RPG File");
        push_all(&mut key, &digits);
        return Some(string_of(&key));
    }
    None
}

/// A directory entry of `www/save`: its name and, when readable, its text.
pub open spec fn save_entry_view(e: (String, Option<String>)) -> (Seq<char>, Option<Seq<char>>) {
    file_view(e)
}

/// The bundled saves to import, in order: (key, trimmed payload) for each
/// save file that could be read and is not blank.
pub open spec fn save_imports(entries: Seq<(Seq<char>, Option<Seq<char>>)>) -> Seq<(Seq<char>, Seq<char>)>
    decreases entries.len(),
{
    if entries.len() == 0 {
        seq![]
    } else {
        let rest = save_imports(entries.drop_last());
        match (save_key(entries.last().0), entries.last().1) {
            (Some(k), Some(data)) => if crate::text::trim(data).len() > 0 {
                rest.push((k, crate::text::trim(data)))
            } else {
                rest
            },
            _ => rest,
        }
    }
}

/// The bundled saves to import from the entries of `www/save`.
pub fn collect_save_imports(entries: &Vec<(String, Option<String>)>) -> (r: Vec<(String, String)>)
    ensures
        pair_views(r@) == save_imports(entries@.map_values(|e: (String, Option<String>)| file_view(e))),
{
    let ghost ev = entries@.map_values(|e: (String, Option<String>)| file_view(e));
    let mut out: Vec<(String, String)> = Vec::new();
    let mut i: usize = 0;
    while i < entries.len()
        invariant
            i <= entries.len(),
            ev == entries@.map_values(|e: (String, Option<String>)| file_view(e)),
            pair_views(out@) == save_imports(ev.take(i as int)),
        decreases entries.len() - i,
    {
        proof {
            assert(ev.take(i + 1).drop_last() =~= ev.take(i as int));
            assert(ev.take(i + 1).last() == ev[i as int]);
        }
        match save_key_for(entries[i].0.as_str()) {
            Some(key) => match &entries[i].1 {
                Some(data) => {
                    let d = chars_of(data.as_str());
                    let t = crate::text::trim_chars(&d);
                    if t.len() > 0 {
                        let ghost before = pair_views(out@);
                        out.push((key, string_of(&t)));
                        assert(pair_views(out@) =~= before.push((save_key(ev[i as int].0)->0, t@)));
                    }
                },
                None => {},
            },
            None => {},
        }
        i += 1;
    }
    assert(ev.take(i as int) =~= ev);
    out
}

/// The game title: the string member `gameTitle` of `data/System.json`,
/// when its text is JSON and has one (`member` is what reading it gave).
pub open spec fn title_of(member: Option<Option<Seq<char>>>) -> Option<Seq<char>> {
    match member {
        Some(Some(t)) => Some(t),
        _ => None,
    }
}

/// The game title from what reading the member `gameTitle` gave.
pub fn title_from_member(member: Option<Option<String>>) -> (r: Option<String>)
    ensures
        match r {
            Some(t) => title_of(crate::pipeline::preflight::member_view(member)) == Some(t@),
            None => title_of(crate::pipeline::preflight::member_view(member)) is None,
        },
{
    match member {
        Some(Some(t)) => Some(t),
        _ => None,
    }
}

/// The game title written in the text of `data/System.json`.
pub fn game_title(system_json: &str) -> (r: Option<String>)
    ensures
        match r {
            Some(t) => title_of(crate::json::json_string_member(system_json@, "gameTitle"@)) == Some(t@),
            None => title_of(crate::json::json_string_member(system_json@, "gameTitle"@)) is None,
        },
{
    title_from_member(crate::json::string_member(system_json, "gameTitle"))
}

/// A JSON string literal for the shim.
pub open spec fn js_string(s: Seq<char>) -> Seq<char> {
    crate::json::json_literal(s)
}

/// A JSON string literal for the shim.
fn js_string_chars(s: &str) -> (r: Vec<char>)
    ensures
        r@ == js_string(s@),
{
    let l = crate::json::string_literal(s);
    chars_of(l.as_str())
}

/// Both texts of a save written as JSON string literals.
pub open spec fn encode_save(p: (Seq<char>, Seq<char>)) -> (Seq<char>, Seq<char>) {
    (js_string(p.0), js_string(p.1))
}

/// The lines of the save table, one per save, from the key and payload
/// already written as JavaScript literals.
pub open spec fn save_lines(encoded: Seq<(Seq<char>, Seq<char>)>) -> Seq<char>
    decreases encoded.len(),
{
    if encoded.len() == 0 {
        seq![]
    } else {
        save_lines(encoded.drop_last()) + "    "@ + encoded.last().0 + ": "@ + encoded.last().1 + ",\n"@
    }
}

/// The shim from its parts, the save keys, payloads and title already
/// written as JavaScript literals; `None` when there is nothing to fix.
pub open spec fn shim_text(audio_ext: Option<Seq<char>>, encoded_saves: Seq<(Seq<char>, Seq<char>)>, encoded_title: Option<Seq<char>>) -> Option<Seq<char>> {
    if audio_ext is None && encoded_saves.len() == 0 {
        None
    } else {
        let audio = match audio_ext {
            Some(e) => SHIM_AUDIO_OPEN@ + e + SHIM_AUDIO_CLOSE@,
            None => Seq::<char>::empty(),
        };
        let imports = if encoded_saves.len() == 0 {
            Seq::<char>::empty()
        } else {
            SHIM_SAVES_OPEN@ + save_lines(encoded_saves) + SHIM_SAVES_IMPORT@ + match encoded_title {
                Some(t) => SHIM_TITLE_OPEN@ + t + ";\n"@ + SHIM_TITLE_REPAIR@,
                None => Seq::<char>::empty(),
            }
        };
        Some(SHIM_HEAD@ + audio + imports + SHIM_TAIL@)
    }
}

/// The compatibility shim, or `None` when there is nothing to fix: an audio
/// extension override, and the import of the bundled saves with the repair
/// of their title.
pub open spec fn compat_shim(audio_ext: Option<Seq<char>>, saves: Seq<(Seq<char>, Seq<char>)>, title: Option<Seq<char>>) -> Option<Seq<char>> {
    shim_text(
        audio_ext,
        saves.map_values(|p: (Seq<char>, Seq<char>)| encode_save(p)),
        match title {
            Some(t) => Some(js_string(t)),
            None => None,
        },
    )
}

/// The audio extension the shim forces: Ogg when the game ships Ogg audio,
/// else M4A when it ships that, else none.
pub open spec fn audio_choice(has_ogg: bool, has_m4a: bool) -> Option<Seq<char>> {
    if has_ogg {
        Some(".ogg"@)
    } else if has_m4a {
        Some(".m4a"@)
    } else {
        None
    }
}

/// The audio extension the shim forces.
pub fn audio_extension(has_ogg: bool, has_m4a: bool) -> (r: Option<&'static str>)
    ensures
        match r {
            Some(e) => audio_choice(has_ogg, has_m4a) == Some(e@),
            None => audio_choice(has_ogg, has_m4a) is None,
        },
{
    if has_ogg {
        Some(".ogg")
    } else if has_m4a {
        Some(".m4a")
    } else {
        None
    }
}

/// The extensions of Ogg audio (plain or encrypted).
pub fn ogg_exts() -> (r: Vec<String>)
    ensures
        string_views(r@) == seq!["ogg"@, "rpgmvo"@],
{
    let r = vec![owned("ogg"), owned("rpgmvo")];
    assert(string_views(r@) =~= seq!["ogg"@, "rpgmvo"@]);
    r
}

/// The extensions of M4A audio (plain or encrypted).
pub fn m4a_exts() -> (r: Vec<String>)
    ensures
        string_views(r@) == seq!["m4a"@, "rpgmvm"@],
{
    let r = vec![owned("m4a"), owned("rpgmvm")];
    assert(string_views(r@) =~= seq!["m4a"@, "rpgmvm"@]);
    r
}

/// The view of an optional text.
pub open spec fn opt_text(v: Option<&str>) -> Option<Seq<char>> {
    match v {
        Some(e) => Some(e@),
        None => None,
    }
}

/// The shim from its parts: the audio extension to force, and the save
/// keys, payloads and game title already written as JavaScript literals.
pub fn assemble_compat_shim(audio_ext: Option<&str>, encoded_saves: &Vec<(String, String)>, encoded_title: Option<&str>) -> (r: Option<String>)
    ensures
        match r {
            Some(s) => shim_text(opt_text(audio_ext), pair_views(encoded_saves@), opt_text(encoded_title)) == Some(s@),
            None => shim_text(opt_text(audio_ext), pair_views(encoded_saves@), opt_text(encoded_title)) is None,
        },
{
    let ghost sv = pair_views(encoded_saves@);
    if audio_ext.is_none() && encoded_saves.len() == 0 {
        return None;
    }
    let mut js = chars_of(SHIM_HEAD);
    match audio_ext {
        Some(ext) => {
            push_str(&mut js, SHIM_AUDIO_OPEN);
            push_str(&mut js, ext);
            push_str(&mut js, SHIM_AUDIO_CLOSE);
        },
        None => {},
    }
    let ghost with_audio = js@;
    if encoded_saves.len() > 0 {
        push_str(&mut js, SHIM_SAVES_OPEN);
        let ghost table_start = js@;
        let mut i: usize = 0;
        assert(save_lines(sv.take(0)) =~= Seq::<char>::empty()) by {
            assert(sv.take(0) =~= Seq::<(Seq<char>, Seq<char>)>::empty());
        }
        assert(js@ =~= table_start + save_lines(sv.take(0)));
        while i < encoded_saves.len()
            invariant
                i <= encoded_saves.len(),
                sv == pair_views(encoded_saves@),
                js@ == table_start + save_lines(sv.take(i as int)),
            decreases encoded_saves.len() - i,
        {
            proof {
                assert(sv.take(i + 1).drop_last() =~= sv.take(i as int));
                assert(sv.take(i + 1).last() == sv[i as int]);
            }
            push_str(&mut js, "    ");
            push_str(&mut js, encoded_saves[i].0.as_str());
            push_str(&mut js, ": ");
            push_str(&mut js, encoded_saves[i].1.as_str());
            push_str(&mut js, ",\n");
            i += 1;
            assert(js@ =~= table_start + save_lines(sv.take(i as int)));
        }
        assert(sv.take(i as int) =~= sv);
        push_str(&mut js, SHIM_SAVES_IMPORT);
        match encoded_title {
            Some(t) => {
                push_str(&mut js, SHIM_TITLE_OPEN);
                push_str(&mut js, t);
                push_str(&mut js, ";\n");
                push_str(&mut js, SHIM_TITLE_REPAIR);
            },
            None => {},
        }
    }
    push_str(&mut js, SHIM_TAIL);
    let r = string_of(&js);
    proof {
        let audio_part = match audio_ext {
            Some(e) => SHIM_AUDIO_OPEN@ + e@ + SHIM_AUDIO_CLOSE@,
            None => Seq::<char>::empty(),
        };
        assert(with_audio =~= SHIM_HEAD@ + audio_part);
        let imports = if sv.len() == 0 {
            Seq::<char>::empty()
        } else {
            SHIM_SAVES_OPEN@ + save_lines(sv) + SHIM_SAVES_IMPORT@ + match opt_text(encoded_title) {
                Some(t) => SHIM_TITLE_OPEN@ + t + ";\n"@ + SHIM_TITLE_REPAIR@,
                None => Seq::<char>::empty(),
            }
        };
        assert(js@ =~= SHIM_HEAD@ + audio_part + imports + SHIM_TAIL@);
    }
    Some(r)
}

/// The compatibility shim for RPG Maker MV on Android, or `None` when the
/// game needs no fix.  `title` is the game title from `data/System.json`.
/// Keys, payloads and title are written as JSON string literals.
pub fn build_compat_shim(audio_ext: Option<&str>, saves: &Vec<(String, String)>, title: Option<String>) -> (r: Option<String>)
    ensures
        match r {
            Some(s) => compat_shim(opt_text(audio_ext), pair_views(saves@), match title {
                Some(t) => Some(t@),
                None => None,
            }) == Some(s@),
            None => compat_shim(opt_text(audio_ext), pair_views(saves@), match title {
                Some(t) => Some(t@),
                None => None,
            }) is None,
        },
{
    let ghost sv = pair_views(saves@);
    let ghost want = sv.map_values(|p: (Seq<char>, Seq<char>)| encode_save(p));
    let mut encoded: Vec<(String, String)> = Vec::new();
    let mut i: usize = 0;
    while i < saves.len()
        invariant
            i <= saves.len(),
            sv == pair_views(saves@),
            want == sv.map_values(|p: (Seq<char>, Seq<char>)| encode_save(p)),
            pair_views(encoded@) == want.take(i as int),
        decreases saves.len() - i,
    {
        let k = string_of(&js_string_chars(saves[i].0.as_str()));
        let v = string_of(&js_string_chars(saves[i].1.as_str()));
        let ghost before = pair_views(encoded@);
        encoded.push((k, v));
        proof {
            assert(sv[i as int] == (saves@[i as int].0@, saves@[i as int].1@));
            assert(pair_views(encoded@) =~= before.push((k@, v@)));
            assert(want.take(i + 1) =~= want.take(i as int).push(want[i as int]));
        }
        i += 1;
    }
    assert(want.take(i as int) =~= want);
    let encoded_title = match &title {
        Some(t) => Some(string_of(&js_string_chars(t.as_str()))),
        None => None,
    };
    let r = match &encoded_title {
        Some(t) => assemble_compat_shim(audio_ext, &encoded, Some(t.as_str())),
        None => assemble_compat_shim(audio_ext, &encoded, None),
    };
    r
}

/// The result of putting the shim's script tag into `index.html`: `Ok(None)`
/// when the page already loads the shim; otherwise the tag goes on its own
/// line before the `<script` tag that loads `js/main.js`, and the page
/// without such a tag is an error.
pub open spec fn inject_tag(content: Seq<char>) -> Result<Option<Seq<char>>, Seq<char>> {
    if contains_seq(content, COMPAT_FILE@) {
        Ok(None)
    } else {
        match find_first(content, "js/main.js"@) {
            None => Err("index.html has no main.js script — cannot inject compat shim"@),
            Some(pos) => match find_last(content.take(pos), "<script"@) {
                None => Err("index.html main.js is not in a <script> tag"@),
                Some(start) => Ok(
                    Some(content.take(start) + COMPAT_TAG@ + "\n        "@ + content.skip(start)),
                ),
            },
        }
    }
}

/// Inject the shim's script tag before `main.js` (idempotent, quote and
/// spacing agnostic).  `Ok(None)` when the page already loads the shim.
pub fn inject_compat_tag(content: &str) -> (r: Result<Option<String>, String>)
    ensures
        match r {
            Ok(Some(p)) => inject_tag(content@) == Ok::<Option<Seq<char>>, Seq<char>>(Some(p@)),
            Ok(None) => inject_tag(content@) == Ok::<Option<Seq<char>>, Seq<char>>(None),
            Err(e) => inject_tag(content@) == Err::<Option<Seq<char>>, Seq<char>>(e@),
        },
{
    let c = chars_of(content);
    let marker = chars_of(COMPAT_FILE);
    if contains_chars(&c, &marker) {
        return Ok(None);
    }
    let main_js = chars_of("js/main.js");
    match crate::text::find_chars(&c, &main_js) {
        None => Err(owned("index.html has no main.js script — cannot inject compat shim")),
        Some(pos) => {
            proof {
                crate::text::lemma_find_first(c@, main_js@);
            }
            let head = sub_chars(&c, 0, pos);
            assert(head@ =~= c@.take(pos as int));
            let open = chars_of("<script");
            match rfind_chars(&head, &open) {
                None => Err(owned("index.html main.js is not in a <script> tag")),
                Some(start) => {
                    proof {
                        crate::text::lemma_find_last(head@, open@);
                    }
                    let mut out = sub_chars(&c, 0, start);
                    push_str(&mut out, COMPAT_TAG);
                    push_str(&mut out, "\n        ");
                    let rest = sub_chars(&c, start, c.len());
                    push_all(&mut out, &rest);
                    assert(out@ =~= c@.take(start as int) + COMPAT_TAG@ + "\n        "@ + c@.skip(
                        start as int,
                    ));
                    Ok(Some(string_of(&out)))
                },
            }
        },
    }
}

/// Injecting the shim is idempotent: a page that was just patched is left as
/// it is the next time.
pub proof fn lemma_inject_idempotent(content: Seq<char>)
    ensures
        inject_tag(content) matches Ok(Some(p)) ==> inject_tag(p) == Ok::<
            Option<Seq<char>>,
            Seq<char>,
        >(None),
{
    if let Ok(Some(p)) = inject_tag(content) {
        let pos = find_first(content, "js/main.js"@)->0;
        let start = find_last(content.take(pos), "<script"@)->0;
        reveal_strlit("<script type=\"text/javascript\" src=\"js/vn2apk_compat.js\"></script>");
        reveal_strlit("vn2apk_compat.js");
        assert(COMPAT_TAG@.subrange(39, 55) =~= COMPAT_FILE@);
        assert(crate::text::occurs_at(COMPAT_TAG@, COMPAT_FILE@, 39));
        lemma_contains_inner(
            content.take(start),
            COMPAT_TAG@,
            "\n        "@ + content.skip(start),
            COMPAT_FILE@,
        );
        assert(p =~= content.take(start) + COMPAT_TAG@ + ("\n        "@ + content.skip(start)));
    }
}

/// The log line that lists the fixes applied.
pub open spec fn fixes_message(audio: bool, saves: bool) -> Seq<char> {
    let applied = if audio && saves {
        "audio extension, bundled save import"@
    } else if audio {
        "audio extension"@
    } else if saves {
        "bundled save import"@
    } else {
        Seq::<char>::empty()
    };
    "Applied RPG Maker MV mobile compatibility fixes ("@ + applied + ")."@
}

/// The log line that lists the fixes applied.
pub fn compat_fixes_message(audio: bool, saves: bool) -> (r: String)
    ensures
        r@ == fixes_message(audio, saves),
{
    let mut m = chars_of("Applied RPG Maker MV mobile compatibility fixes (");
    if audio && saves {
        push_str(&mut m, "audio extension, bundled save import");
    } else if audio {
        push_str(&mut m, "audio extension");
    } else if saves {
        push_str(&mut m, "bundled save import");
    }
    push_str(&mut m, ").");
    assert(m@ =~= fixes_message(audio, saves));
    string_of(&m)
}

/// What patching the RPG Maker MV runtime does: the shim to write, then
/// the new `index.html` (`Ok(None)`: it already loads the shim; `Err`: the
/// patch fails after the shim is written), then the log line.
pub struct RuntimePatch {
    pub shim: String,
    pub index: Result<Option<String>, String>,
    pub message: String,
}

/// The view of an index outcome.
pub open spec fn index_outcome_view(r: Result<Option<String>, String>) -> Result<Option<Seq<char>>, Seq<char>> {
    match r {
        Ok(Some(p)) => Ok(Some(p@)),
        Ok(None) => Ok(None),
        Err(e) => Err(e@),
    }
}

/// The patch of the RPG Maker MV runtime, or `None` when there is nothing
/// to do: not an MV project (no `js/rpg_managers.js` or no `index.html`),
/// or no fix needed.  Ogg audio wins over M4A; the saves are the bundled
/// `save/` files (name, text when readable); the title comes from the text
/// of `data/System.json` when it could be read; `index_text` is what reading
/// `index.html` gave (its text, or the reason it could not be read).
pub open spec fn runtime_patch(
    managers_exists: bool,
    index_exists: bool,
    has_ogg: bool,
    has_m4a: bool,
    save_files: Seq<(Seq<char>, Option<Seq<char>>)>,
    system_json: Option<Seq<char>>,
    index_text: Result<Seq<char>, Seq<char>>,
) -> Option<(Seq<char>, Result<Option<Seq<char>>, Seq<char>>, Seq<char>)> {
    if !managers_exists || !index_exists {
        None
    } else {
        let audio = audio_choice(has_ogg, has_m4a);
        let saves = save_imports(save_files);
        let title = match system_json {
            Some(t) => title_of(crate::json::json_string_member(t, "gameTitle"@)),
            None => None,
        };
        match compat_shim(audio, saves, title) {
            None => None,
            Some(js) => Some(
                (
                    js,
                    match index_text {
                        Err(e) => Err("Reading index.html: "@ + e),
                        Ok(c) => inject_tag(c),
                    },
                    fixes_message(audio is Some, saves.len() > 0),
                ),
            ),
        }
    }
}

/// Plans the patch of the RPG Maker MV runtime from what was read of the
/// project (see `runtime_patch`).
pub fn plan_runtime_patch(
    managers_exists: bool,
    index_exists: bool,
    has_ogg: bool,
    has_m4a: bool,
    save_files: &Vec<(String, Option<String>)>,
    system_json: Option<&str>,
    index_text: Result<&str, &str>,
) -> (r: Option<RuntimePatch>)
    ensures
        ({
            let spec = runtime_patch(
                managers_exists,
                index_exists,
                has_ogg,
                has_m4a,
                save_files@.map_values(|e: (String, Option<String>)| file_view(e)),
                opt_text(system_json),
                match index_text {
                    Ok(c) => Ok(c@),
                    Err(e) => Err(e@),
                },
            );
            match r {
                None => spec is None,
                Some(p) => spec == Some((p.shim@, index_outcome_view(p.index), p.message@)),
            }
        }),
{
    if !managers_exists || !index_exists {
        return None;
    }
    let audio = audio_extension(has_ogg, has_m4a);
    let saves = collect_save_imports(save_files);
    let title = match system_json {
        Some(t) => game_title(t),
        None => None,
    };
    let shim = match build_compat_shim(audio, &saves, title) {
        None => return None,
        Some(js) => js,
    };
    let index = match index_text {
        Err(e) => {
            let mut m = chars_of("Reading index.html: ");
            push_str(&mut m, e);
            Err(string_of(&m))
        },
        Ok(c) => inject_compat_tag(c),
    };
    let message = compat_fixes_message(audio.is_some(), saves.len() > 0);
    Some(RuntimePatch { shim, index, message })
}

// ---------------------------------------------------------------------------
// Layout of a build
// ---------------------------------------------------------------------------

/// The folder whose content becomes the web assets: the game folder itself
/// for TyranoBuilder (its export has `index.html` at the root), else `www`.
pub open spec fn asset_source(game_path: Seq<char>, engine: Seq<char>) -> Seq<char> {
    if engine == "TyranoBuilder"@ {
        game_path
    } else {
        join_path(game_path, "www"@)
    }
}

/// The folder whose content becomes the web assets.
pub fn asset_source_dir(game_path: &str, engine: &str) -> (r: String)
    ensures
        r@ == asset_source(game_path@, engine@),
{
    if crate::text::str_is(engine, "TyranoBuilder") {
        owned(game_path)
    } else {
        join_str(game_path, "www")
    }
}

/// The icon of the game: for TyranoBuilder `tyrano/icon.png` when it exists,
/// else `tyrano/data/icon.png`; for the others `www/icon/icon.png`.
pub open spec fn icon_path(game_path: Seq<char>, engine: Seq<char>, tyrano_icon_exists: bool) -> Seq<char> {
    if engine == "TyranoBuilder"@ {
        if tyrano_icon_exists {
            join_path(game_path, "tyrano/icon.png"@)
        } else {
            join_path(game_path, "tyrano/data/icon.png"@)
        }
    } else {
        join_path(game_path, "www/icon/icon.png"@)
    }
}

/// The icon of the game.  `tyrano_icon_exists` tells whether
/// `tyrano/icon.png` exists in the game folder.
pub fn icon_source(game_path: &str, engine: &str, tyrano_icon_exists: bool) -> (r: String)
    ensures
        r@ == icon_path(game_path@, engine@, tyrano_icon_exists),
{
    if crate::text::str_is(engine, "TyranoBuilder") {
        if tyrano_icon_exists {
            join_str(game_path, "tyrano/icon.png")
        } else {
            join_str(game_path, "tyrano/data/icon.png")
        }
    } else {
        join_str(game_path, "www/icon/icon.png")
    }
}

/// Where the icon goes in the Cordova project, as `config.xml` names it.
pub fn icon_target() -> (r: String)
    ensures
        r@ == "res/icon.png"@,
{
    owned("res/icon.png")
}

/// The checks of an RPG Maker game folder, in order: it exists, it has a
/// `www` folder, and `www/index.html` exists.
pub open spec fn rpgmv_folder_check(exists: bool, www_is_dir: bool, index_exists: bool) -> Result<(), Seq<char>> {
    if !exists {
        Err("Game folder does not exist"@)
    } else if !www_is_dir {
        Err("Missing www/ directory — is this an RPGMV game?"@)
    } else if !index_exists {
        Err("Missing www/index.html"@)
    } else {
        Ok(())
    }
}

/// The checks of an RPG Maker game folder.
pub fn validate_rpgmv_folder(exists: bool, www_is_dir: bool, index_exists: bool) -> (r: Result<(), String>)
    ensures
        match r {
            Ok(()) => rpgmv_folder_check(exists, www_is_dir, index_exists) is Ok,
            Err(e) => rpgmv_folder_check(exists, www_is_dir, index_exists) == Err::<(), Seq<char>>(e@),
        },
{
    if !exists {
        Err(owned("Game folder does not exist"))
    } else if !www_is_dir {
        Err(owned("Missing www/ directory — is this an RPGMV game?"))
    } else if !index_exists {
        Err(owned("Missing www/index.html"))
    } else {
        Ok(())
    }
}

/// The application name in file names: spaces as `'_'`.
pub open spec fn apk_stem(app_name: Seq<char>) -> Seq<char> {
    replace_all(app_name, " "@, "_"@)
}

/// The application name in file names.
pub fn apk_stem_of(app_name: &str) -> (r: Vec<char>)
    ensures
        r@ == apk_stem(app_name@),
{
    let v = chars_of(app_name);
    let from = chars_of(" ");
    let to = chars_of("_");
    replace_all_chars(&v, &from, &to)
}

/// The aligned package in the working directory.
pub fn aligned_apk_path(work_dir: &str) -> (r: String)
    ensures
        r@ == join_path(work_dir@, "app-aligned.apk"@),
{
    join_str(work_dir, "app-aligned.apk")
}

/// The signed package in the working directory: `<name>-signed.apk`.
pub fn signed_apk_path(work_dir: &str, app_name: &str) -> (r: String)
    ensures
        r@ == join_path(work_dir@, apk_stem(app_name@) + "-signed.apk"@),
{
    let mut name = apk_stem_of(app_name);
    push_str(&mut name, "-signed.apk");
    join_str(work_dir, string_of(&name).as_str())
}

/// The folder that receives the package: the configured one, or
/// `Downloads` in the home folder (`/tmp` when `HOME` is unset).
pub open spec fn output_dir(configured: Seq<char>, home: Option<Seq<char>>) -> Seq<char> {
    if configured.len() == 0 {
        join_path(
            match home {
                Some(h) => h,
                None => "/tmp"@,
            },
            "Downloads"@,
        )
    } else {
        configured
    }
}

/// The folder that receives the package.
pub fn output_dir_for(configured: &str, home: Option<String>) -> (r: String)
    ensures
        r@ == output_dir(
            configured@,
            match home {
                Some(h) => Some(h@),
                None => None,
            },
        ),
{
    if configured.is_empty() {
        match home {
            Some(h) => join_str(h.as_str(), "Downloads"),
            None => join_str("/tmp", "Downloads"),
        }
    } else {
        owned(configured)
    }
}

/// The delivered package: `<name>-<version>.apk` in the output folder.
pub open spec fn final_apk(out_dir: Seq<char>, app_name: Seq<char>, version: Seq<char>) -> Seq<char> {
    join_path(out_dir, apk_stem(app_name) + "-"@ + version + ".apk"@)
}

/// The delivered package.
pub fn final_apk_path(out_dir: &str, app_name: &str, version: &str) -> (r: String)
    ensures
        r@ == final_apk(out_dir@, app_name@, version@),
{
    let mut name = apk_stem_of(app_name);
    push_str(&mut name, "-");
    push_str(&mut name, version);
    push_str(&mut name, ".apk");
    join_str(out_dir, string_of(&name).as_str())
}

/// The log line announcing the renaming of `n` files.
pub fn sanitize_message(n: u64) -> (r: String)
    ensures
        r@ == "Sanitizing "@ + decimal(n as nat) + " non-ASCII filename(s) for Gradle compatibility..."@,
{
    let mut m = chars_of("Sanitizing ");
    let d = decimal_chars(n);
    push_all(&mut m, &d);
    push_str(&mut m, " non-ASCII filename(s) for Gradle compatibility...");
    string_of(&m)
}

} // verus!
