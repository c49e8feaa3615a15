//! Settings found on this machine: the choices among the tool
//! installations that were seen.
use vstd::prelude::*;
use crate::paths::{join_path, join_str, owned, parent_of, path_parent};
use crate::pipeline::cordova::{first_present, pick_first_present};
use crate::pipeline::names::strip_end_char;
use crate::settings::{default_build_tools, default_key_alias, default_settings, AppSettings};
use crate::version::{
    lemma_version_less_total, lemma_version_less_transitive, version_less, version_less_exec,
};
use crate::text::{
    chars_of, contains_seq, contains_str, ends_with, push_str, starts_with, string_of,
    string_views, sub_chars,
};

verus! {

// ---------------------------------------------------------------------------
// The newest of several versions
// ---------------------------------------------------------------------------

/// `x` is the newest version name in `s`: in it, and nothing in it is a
/// later version (see [`version_less`]).
pub open spec fn is_greatest(x: Seq<char>, s: Seq<Seq<char>>) -> bool {
    s.contains(x) && forall|i: int| 0 <= i < s.len() ==> !version_less(x, #[trigger] s[i])
}

/// The newest version name is unique: sorting in descending version order
/// and taking the first element gives it.
pub proof fn lemma_greatest_unique(x: Seq<char>, y: Seq<char>, s: Seq<Seq<char>>)
    requires
        is_greatest(x, s),
        is_greatest(y, s),
    ensures
        x == y,
{
    let i = choose|i: int| 0 <= i < s.len() && s[i] == x;
    let j = choose|j: int| 0 <= j < s.len() && s[j] == y;
    assert(!version_less(x, s[j]));
    assert(!version_less(y, s[i]));
    lemma_version_less_total(x, y);
}

/// The entries of a folder listing that match: (name, matches).
pub open spec fn entry_views(v: Seq<(String, bool)>) -> Seq<(Seq<char>, bool)> {
    v.map_values(|e: (String, bool)| (e.0@, e.1))
}

/// The names of the entries that match.
pub open spec fn matching_names(entries: Seq<(Seq<char>, bool)>) -> Seq<Seq<char>>
    decreases entries.len(),
{
    if entries.len() == 0 {
        seq![]
    } else if entries.last().1 {
        matching_names(entries.drop_last()).push(entries.last().0)
    } else {
        matching_names(entries.drop_last())
    }
}

/// The newest version name among the matching entries.
pub fn greatest_match(entries: &Vec<(String, bool)>) -> (r: Option<String>)
    ensures
        match r {
            Some(x) => is_greatest(x@, matching_names(entry_views(entries@))),
            None => matching_names(entry_views(entries@)).len() == 0,
        },
{
    let ghost ev = entry_views(entries@);
    let mut best: Option<Vec<char>> = None;
    let mut i: usize = 0;
    while i < entries.len()
        invariant
            i <= entries.len(),
            ev == entry_views(entries@),
            match best {
                Some(b) => is_greatest(b@, matching_names(ev.take(i as int))),
                None => matching_names(ev.take(i as int)).len() == 0,
            },
        decreases entries.len() - i,
    {
        proof {
            assert(ev.take(i + 1).drop_last() =~= ev.take(i as int));
            assert(ev.take(i + 1).last() == ev[i as int]);
        }
        let ghost prev = matching_names(ev.take(i as int));
        if entries[i].1 {
            let cand = chars_of(entries[i].0.as_str());
            let ghost now = prev.push(cand@);
            assert(matching_names(ev.take(i + 1)) == now);
            let replace = match &best {
                Some(b) => version_less_exec(b, &cand),
                None => true,
            };
            if replace {
                proof {
                    assert(now[now.len() - 1] == cand@);
                    assert forall|k: int| 0 <= k < now.len() implies !version_less(cand@, #[trigger] now[k]) by {
                        if k < prev.len() {
                            match best {
                                Some(b) => {
                                    assert(!version_less(b@, prev[k]));
                                    lemma_version_less_total(b@, prev[k]);
                                    if version_less(cand@, prev[k]) {
                                        lemma_version_less_transitive(b@, cand@, prev[k]);
                                    }
                                },
                                None => {},
                            }
                        } else {
                            lemma_version_less_total(cand@, cand@);
                        }
                    }
                }
                best = Some(cand);
            } else {
                proof {
                    let b = best->0;
                    assert(!version_less(b@, cand@));
                    let j = choose|j: int| 0 <= j < prev.len() && prev[j] == b@;
                    assert(now[j] == b@);
                    assert forall|k: int| 0 <= k < now.len() implies !version_less(b@, #[trigger] now[k]) by {
                        if k < prev.len() {
                            assert(now[k] == prev[k]);
                        }
                    }
                }
            }
        }
        i += 1;
    }
    assert(ev.take(i as int) =~= ev);
    match best {
        Some(b) => Some(string_of(&b)),
        None => None,
    }
}

/// Entries whose name starts with `prefix` (and, when `suffix` is given,
/// ends with it) and that are folders.
pub open spec fn name_filter(entries: Seq<(Seq<char>, bool)>, prefix: Seq<char>, suffix: Option<Seq<char>>) -> Seq<(Seq<char>, bool)> {
    Seq::new(
        entries.len(),
        |i: int|
            (
                entries[i].0,
                entries[i].1 && starts_with(entries[i].0, prefix) && match suffix {
                    Some(s) => ends_with(entries[i].0, s),
                    None => true,
                },
            ),
    )
}

/// The entries marked by `name_filter`.
fn filter_names(entries: &Vec<(String, bool)>, prefix: &str, suffix: Option<&str>) -> (r: Vec<(String, bool)>)
    ensures
        entry_views(r@) == name_filter(
            entry_views(entries@),
            prefix@,
            match suffix {
                Some(s) => Some(s@),
                None => None,
            },
        ),
{
    let p = chars_of(prefix);
    let mut out: Vec<(String, bool)> = Vec::new();
    let mut i: usize = 0;
    let ghost sv = match suffix {
        Some(s) => Some(s@),
        None => None,
    };
    let ghost want = name_filter(entry_views(entries@), prefix@, sv);
    while i < entries.len()
        invariant
            i <= entries.len(),
            p@ == prefix@,
            want == name_filter(entry_views(entries@), prefix@, sv),
            sv == match suffix {
                Some(s) => Some(s@),
                None => None::<Seq<char>>,
            },
            entry_views(out@) == want.take(i as int),
        decreases entries.len() - i,
    {
        let n = chars_of(entries[i].0.as_str());
        let suffix_ok = match suffix {
            Some(s) => {
                let sc = chars_of(s);
                crate::text::ends_with_chars(&n, &sc)
            },
            None => true,
        };
        let ok = entries[i].1 && crate::text::starts_with_chars(&n, &p) && suffix_ok;
        let ghost before = entry_views(out@);
        let name = entries[i].0.clone();
        out.push((name, ok));
        proof {
            let ev = entry_views(entries@);
            assert(ev[i as int] == (entries@[i as int].0@, entries@[i as int].1));
            assert(n@ == entries@[i as int].0@);
            assert(want[i as int] == (entries@[i as int].0@, ok));
            assert(entry_views(out@) =~= before.push((entries@[i as int].0@, ok)));
            assert(want.take(i + 1) =~= want.take(i as int).push(want[i as int]));
        }
        assert(entry_views(out@) =~= want.take(i + 1));
        i += 1;
    }
    assert(want.take(i as int) =~= want);
    out
}

// ---------------------------------------------------------------------------
// Android SDK
// ---------------------------------------------------------------------------

/// An environment variable that names a folder: its value, and whether that
/// value is a folder.
pub struct EnvDir {
    pub value: Option<String>,
    pub is_dir: bool,
}

/// The value of the variable when it is set, not empty, and a folder.
pub open spec fn env_dir_value(v: Option<Seq<char>>, is_dir: bool) -> Option<Seq<char>> {
    match v {
        Some(s) => if s.len() > 0 && is_dir {
            Some(s)
        } else {
            None
        },
        None => None,
    }
}

/// The view of an environment variable that names a folder.
pub open spec fn env_dir_view(e: EnvDir) -> Option<Seq<char>> {
    env_dir_value(
        match e.value {
            Some(s) => Some(s@),
            None => None,
        },
        e.is_dir,
    )
}

/// The value of the variable when it is set, not empty, and a folder.
fn usable_env_dir(e: &EnvDir) -> (r: Option<String>)
    ensures
        match r {
            Some(s) => env_dir_view(*e) == Some(s@),
            None => env_dir_view(*e) is None,
        },
{
    match &e.value {
        Some(s) => if !s.as_str().is_empty() && e.is_dir {
            Some(s.clone())
        } else {
            None
        },
        None => None,
    }
}

/// Where the Android SDK is looked for when no variable names it.
pub open spec fn sdk_candidates(home: Seq<char>) -> Seq<Seq<char>> {
    seq![home + "/Android/Sdk"@, home + "/android-sdk"@, home + "/.android/sdk"@, "/opt/android-sdk"@]
}

/// Where the Android SDK is looked for when no variable names it.
pub fn android_sdk_candidates(home: &str) -> (r: Vec<String>)
    ensures
        string_views(r@) == sdk_candidates(home@),
{
    let r = vec![cat(home, "/Android/Sdk"), cat(home, "/android-sdk"), cat(home, "/.android/sdk"), owned("/opt/android-sdk")];
    assert(string_views(r@) =~= sdk_candidates(home@));
    r
}

/// `a` followed by `b`.
fn cat(a: &str, b: &str) -> (r: String)
    ensures
        r@ == a@ + b@,
{
    let mut v = chars_of(a);
    push_str(&mut v, b);
    string_of(&v)
}

/// The Android SDK: `ANDROID_HOME`, else `ANDROID_SDK_ROOT`, else the first
/// usual location that is a folder, else nothing.
pub open spec fn android_sdk_choice(android_home: Option<Seq<char>>, sdk_root: Option<Seq<char>>, home: Seq<char>, dirs: Seq<bool>) -> Seq<char> {
    match android_home {
        Some(v) => v,
        None => match sdk_root {
            Some(v) => v,
            None => match first_present(sdk_candidates(home), dirs) {
                Some(p) => p,
                None => Seq::<char>::empty(),
            },
        },
    }
}

/// The Android SDK; `candidate_dirs[i]` tells whether the `i`-th usual
/// location is a folder.
pub fn find_android_sdk(android_home: &EnvDir, sdk_root: &EnvDir, home: &str, candidate_dirs: &Vec<bool>) -> (r: String)
    ensures
        r@ == android_sdk_choice(env_dir_view(*android_home), env_dir_view(*sdk_root), home@, candidate_dirs@),
{
    match usable_env_dir(android_home) {
        Some(v) => v,
        None => match usable_env_dir(sdk_root) {
            Some(v) => v,
            None => match pick_first_present(&android_sdk_candidates(home), candidate_dirs) {
                Some(p) => p,
                None => String::new(),
            },
        },
    }
}

// ---------------------------------------------------------------------------
// Gradle
// ---------------------------------------------------------------------------

/// What was seen of the Gradle installations.
pub struct GradleProbe {
    /// `GRADLE_HOME`.
    pub env: EnvDir,
    /// The entries of `~/gradle` (name, is a folder), when it can be listed.
    pub installs: Option<Vec<(String, bool)>>,
    /// The entries of `~/.gradle/wrapper/dists` (name, is a folder), when it
    /// can be listed.
    pub dists: Option<Vec<(String, bool)>>,
    /// For the distribution that `best_gradle_dist` picks: each entry of its
    /// folder joined with `dist_home_name` of it, and whether that is a
    /// folder; `None` when the folder cannot be listed.
    pub dist_homes: Option<Vec<(String, bool)>>,
}

/// The newest installation in `~/gradle`: the newest version name that starts with
/// `gradle-` among its folders.
pub open spec fn newest_install(entries: Seq<(Seq<char>, bool)>) -> Seq<Seq<char>> {
    matching_names(name_filter(entries, "gradle-"@, None))
}

/// The newest distribution in the Gradle wrapper cache: the newest version name
/// that starts with `gradle-` and ends with `-bin` among its folders.
pub open spec fn newest_dist(entries: Seq<(Seq<char>, bool)>) -> Seq<Seq<char>> {
    matching_names(name_filter(entries, "gradle-"@, Some("-bin"@)))
}

/// The newest distribution in the Gradle wrapper cache.
pub fn best_gradle_dist(entries: &Vec<(String, bool)>) -> (r: Option<String>)
    ensures
        match r {
            Some(x) => is_greatest(x@, newest_dist(entry_views(entries@))),
            None => newest_dist(entry_views(entries@)).len() == 0,
        },
{
    greatest_match(&filter_names(entries, "gradle-", Some("-bin")))
}

/// `name` without its trailing `-bin`s (`trim_end_matches("-bin")`).
pub open spec fn strip_bin(name: Seq<char>) -> Seq<char>
    decreases name.len(),
{
    if name.len() >= 4 && ends_with(name, "-bin"@) {
        strip_bin(name.take(name.len() - 4))
    } else {
        name
    }
}

/// The name of the Gradle home inside a distribution folder.
pub fn dist_home_name(dist: &str) -> (r: String)
    ensures
        r@ == strip_bin(dist@),
{
    let v = chars_of(dist);
    let suffix = chars_of("-bin");
    proof {
        reveal_strlit("-bin");
    }
    let mut end = v.len();
    assert(v@.take(end as int) =~= v@);
    while end >= 4 && crate::text::ends_with_chars(&sub_chars(&v, 0, end), &suffix)
        invariant
            end <= v.len(),
            suffix@ == "-bin"@,
            strip_bin(v@) == strip_bin(v@.take(end as int)),
        decreases end,
    {
        assert(v@.take(end as int).take(end - 4) =~= v@.take(end - 4));
        end -= 4;
    }
    let r = sub_chars(&v, 0, end);
    assert(r@ =~= v@.take(end as int));
    string_of(&r)
}

/// The folder of `~/gradle` and of the wrapper cache.
pub fn gradle_dirs(home: &str) -> (r: (String, String))
    ensures
        r.0@ == join_path(home@, "gradle"@),
        r.1@ == join_path(home@, ".gradle/wrapper/dists"@),
{
    (join_str(home, "gradle"), join_str(home, ".gradle/wrapper/dists"))
}

/// The `gradle-*` folders of `~/gradle`.
pub open spec fn gradle_installs(probe: GradleProbe) -> Seq<Seq<char>> {
    match probe.installs {
        Some(e) => newest_install(entry_views(e@)),
        None => seq![],
    }
}

/// The Gradle home that `find_gradle_home` gives for what was seen:
/// `GRADLE_HOME` when it names a folder; else the newest
/// `~/gradle/gradle-*`; else, in the newest wrapper distribution, the first
/// entry that holds the Gradle home; else nothing.
pub open spec fn gradle_found(home: Seq<char>, probe: GradleProbe, r: Seq<char>) -> bool {
    match env_dir_view(probe.env) {
        Some(v) => r == v,
        None => {
            let dist_found = match probe.dists {
                Some(d) => newest_dist(entry_views(d@)).len() > 0,
                None => false,
            };
            if gradle_installs(probe).len() > 0 {
                exists|v: Seq<char>| is_greatest(v, gradle_installs(probe)) && r == join_path(join_path(home, "gradle"@), v)
            } else if dist_found {
                match probe.dist_homes {
                    Some(h) => {
                        let hv = entry_views(h@);
                        r == match first_present(
                            Seq::new(hv.len(), |i: int| hv[i].0),
                            Seq::new(hv.len(), |i: int| hv[i].1),
                        ) {
                            Some(p) => p,
                            None => Seq::<char>::empty(),
                        }
                    },
                    None => r.len() == 0,
                }
            } else {
                r.len() == 0
            }
        },
    }
}

/// The Gradle home.
pub fn find_gradle_home(home: &str, probe: &GradleProbe) -> (r: String)
    ensures
        gradle_found(home@, *probe, r@),
{
    match usable_env_dir(&probe.env) {
        Some(v) => return v,
        None => {},
    }
    match &probe.installs {
        Some(e) => match greatest_match(&filter_names(e, "gradle-", None)) {
            Some(v) => {
                let dir = join_str(home, "gradle");
                let r = join_str(dir.as_str(), v.as_str());
                proof {
                    let ni = newest_install(entry_views(e@));
                    assert(is_greatest(v@, ni));
                    assert(ni.len() > 0);
                    assert(r@ == join_path(join_path(home@, "gradle"@), v@));
                    assert(gradle_installs(*probe) == ni);
                    assert(is_greatest(v@, gradle_installs(*probe)));
                }
                return r;
            },
            None => {},
        },
        None => {},
    }
    let found = match &probe.dists {
        Some(d) => best_gradle_dist(d).is_some(),
        None => false,
    };
    if !found {
        return String::new();
    }
    match &probe.dist_homes {
        Some(h) => {
            let mut paths: Vec<String> = Vec::new();
            let mut dirs: Vec<bool> = Vec::new();
            let mut i: usize = 0;
            let ghost hv = entry_views(h@);
            while i < h.len()
                invariant
                    i <= h.len(),
                    hv == entry_views(h@),
                    string_views(paths@) == Seq::new(i as nat, |k: int| hv[k].0),
                    dirs@ == Seq::new(i as nat, |k: int| hv[k].1),
                decreases h.len() - i,
            {
                let p = h[i].0.clone();
                let ghost old_sv = string_views(paths@);
                paths.push(p);
                assert(string_views(paths@) =~= old_sv.push(p@));
                dirs.push(h[i].1);
                assert(hv[i as int] == (h@[i as int].0@, h@[i as int].1));
                assert(string_views(paths@) =~= Seq::new((i + 1) as nat, |k: int| hv[k].0));
                assert(dirs@ =~= Seq::new((i + 1) as nat, |k: int| hv[k].1));
                i += 1;
            }
            match pick_first_present(&paths, &dirs) {
                Some(p) => p,
                None => String::new(),
            }
        },
        None => String::new(),
    }
}

// ---------------------------------------------------------------------------
// Java
// ---------------------------------------------------------------------------

/// How much a JDK folder is preferred: Java 21, then 17, then 11, then any.
pub open spec fn jdk_score(path: Seq<char>) -> int {
    if contains_seq(path, "java-21"@) {
        100
    } else if contains_seq(path, "java-17"@) {
        90
    } else if contains_seq(path, "java-11"@) {
        80
    } else {
        50
    }
}

/// How much a JDK folder is preferred.
pub fn jdk_score_of(path: &str) -> (r: u32)
    ensures
        r as int == jdk_score(path@),
{
    let v = chars_of(path);
    if contains_str(&v, "java-21") {
        100
    } else if contains_str(&v, "java-17") {
        90
    } else if contains_str(&v, "java-11") {
        80
    } else {
        50
    }
}

/// `i` is the first of the usable JDKs (`jdks[k].1`) with the best score.
pub open spec fn is_preferred_jdk(jdks: Seq<(Seq<char>, bool)>, i: int) -> bool {
    &&& 0 <= i < jdks.len()
    &&& jdks[i].1
    &&& forall|k: int| 0 <= k < jdks.len() && jdks[k].1 ==> jdk_score(jdks[k].0) <= jdk_score(jdks[i].0)
    &&& forall|k: int| 0 <= k < i && jdks[k].1 ==> jdk_score(jdks[k].0) < jdk_score(jdks[i].0)
}

/// The preferred JDK among the folders of `/usr/lib/jvm` that have
/// `bin/javac`: the best score, the first in listing order among equals
/// (a stable sort by descending score, then the first).
pub fn pick_jdk(jdks: &Vec<(String, bool)>) -> (r: Option<String>)
    ensures
        match r {
            Some(p) => exists|i: int| is_preferred_jdk(entry_views(jdks@), i) && entry_views(jdks@)[i].0 == p@,
            None => forall|k: int| 0 <= k < jdks@.len() ==> !(#[trigger] jdks@[k]).1,
        },
{
    let ghost jv = entry_views(jdks@);
    let mut best: Option<usize> = None;
    let mut best_score: u32 = 0;
    let mut i: usize = 0;
    while i < jdks.len()
        invariant
            i <= jdks.len(),
            jv == entry_views(jdks@),
            match best {
                Some(b) => b < i && jv[b as int].1 && best_score as int == jdk_score(jv[b as int].0)
                    && (forall|k: int| 0 <= k < i && jv[k].1 ==> jdk_score(jv[k].0) <= best_score)
                    && (forall|k: int| 0 <= k < b && jv[k].1 ==> jdk_score(jv[k].0) < best_score),
                None => forall|k: int| 0 <= k < i ==> !jv[k].1,
            },
        decreases jdks.len() - i,
    {
        if jdks[i].1 {
            let s = jdk_score_of(jdks[i].0.as_str());
            let better = match best {
                Some(_) => s > best_score,
                None => true,
            };
            if better {
                best = Some(i);
                best_score = s;
            }
        }
        i += 1;
    }
    match best {
        Some(b) => {
            assert(is_preferred_jdk(jv, b as int));
            Some(jdks[b].0.clone())
        },
        None => {
            assert forall|k: int| 0 <= k < jdks@.len() implies !(#[trigger] jdks@[k]).1 by {
                assert(jv[k].1 == jdks@[k].1);
            }
            None
        },
    }
}

/// The Java home of a `java` binary: two folders up from it.
pub open spec fn java_home_of(binary: Seq<char>) -> Option<Seq<char>> {
    match path_parent(binary) {
        Some(bin) => path_parent(bin),
        None => None,
    }
}

/// The Java home of a resolved `java` binary.
pub fn java_home_of_binary(binary: &str) -> (r: Option<String>)
    ensures
        match r {
            Some(h) => java_home_of(binary@) == Some(h@),
            None => java_home_of(binary@) is None,
        },
{
    match parent_of(binary) {
        Some(bin) => parent_of(bin.as_str()),
        None => None,
    }
}

/// What was seen of the Java installations.
pub struct JavaHomeProbe {
    /// `JAVA_HOME`.
    pub env: EnvDir,
    /// The Java home of the `java` on `PATH`, when it has `bin/javac` or
    /// `bin/java`.
    pub from_path: Option<String>,
    /// Whether `/usr/lib/jvm` is a folder.
    pub jvm_dir: bool,
    /// The folders of `/usr/lib/jvm`, each with whether it has `bin/javac`.
    pub jdks: Vec<(String, bool)>,
}

/// The Java home that `find_java_home` gives for what was seen:
/// `JAVA_HOME` when it names a folder; else the home of the `java` on
/// `PATH`; else the preferred JDK of `/usr/lib/jvm`; else nothing.
pub open spec fn java_found(probe: JavaHomeProbe, r: Seq<char>) -> bool {
    match env_dir_view(probe.env) {
        Some(v) => r == v,
        None => match probe.from_path {
            Some(p) => r == p@,
            None => if probe.jvm_dir && exists|i: int| is_preferred_jdk(entry_views(probe.jdks@), i) {
                exists|i: int| is_preferred_jdk(entry_views(probe.jdks@), i) && r == entry_views(probe.jdks@)[i].0
            } else {
                r.len() == 0
            },
        },
    }
}

/// The Java home.
pub fn find_java_home(probe: &JavaHomeProbe) -> (r: String)
    ensures
        java_found(*probe, r@),
{
    match usable_env_dir(&probe.env) {
        Some(v) => return v,
        None => {},
    }
    match &probe.from_path {
        Some(p) => return p.clone(),
        None => {},
    }
    if probe.jvm_dir {
        match pick_jdk(&probe.jdks) {
            Some(j) => return j,
            None => {
                assert(!exists|i: int| is_preferred_jdk(entry_views(probe.jdks@), i)) by {
                    if exists|i: int| is_preferred_jdk(entry_views(probe.jdks@), i) {
                        let i = choose|i: int| is_preferred_jdk(entry_views(probe.jdks@), i);
                        assert(entry_views(probe.jdks@)[i].1 == probe.jdks@[i].1);
                    }
                }
            },
        }
    }
    String::new()
}

// ---------------------------------------------------------------------------
// Cordova, build tools, output folder, Ren'Py
// ---------------------------------------------------------------------------

/// Where `cordova` is looked for by auto-detection.
pub open spec fn cordova_places(home: Seq<char>) -> Seq<Seq<char>> {
    seq![
        home + "/.npm-global/bin/cordova"@,
        home + "/.local/bin/cordova"@,
        "/usr/local/bin/cordova"@,
        "/usr/bin/cordova"@,
    ]
}

/// Where `cordova` is looked for by auto-detection.
pub fn cordova_places_for(home: &str) -> (r: Vec<String>)
    ensures
        string_views(r@) == cordova_places(home@),
{
    let r = vec![
        cat(home, "/.npm-global/bin/cordova"),
        cat(home, "/.local/bin/cordova"),
        owned("/usr/local/bin/cordova"),
        owned("/usr/bin/cordova"),
    ];
    assert(string_views(r@) =~= cordova_places(home@));
    r
}

/// The `cordova` found: the first usual place that is a file, else the one
/// on `PATH`, else nothing.
pub fn find_cordova(home: &str, are_files: &Vec<bool>, on_path: &Option<String>) -> (r: String)
    ensures
        r@ == match first_present(cordova_places(home@), are_files@) {
            Some(p) => p,
            None => match on_path {
                Some(p) => p@,
                None => Seq::<char>::empty(),
            },
        },
{
    match pick_first_present(&cordova_places_for(home), are_files) {
        Some(p) => p,
        None => match on_path {
            Some(p) => p.clone(),
            None => String::new(),
        },
    }
}

/// The build-tools version: the newest `34.x` folder (preferred for
/// `apksigner`), else the newest folder, else `34.0.0`.
pub open spec fn build_tools_choice(sdk: Seq<char>, dirs: Option<Seq<(Seq<char>, bool)>>, choice: Seq<char>) -> bool {
    if sdk.len() == 0 {
        choice == default_build_tools()
    } else {
        match dirs {
            None => choice == default_build_tools(),
            Some(d) => {
                let v34 = matching_names(name_filter(d, "34."@, None));
                let all = matching_names(d);
                if v34.len() > 0 {
                    is_greatest(choice, v34)
                } else if all.len() > 0 {
                    is_greatest(choice, all)
                } else {
                    choice == default_build_tools()
                }
            },
        }
    }
}

/// The build-tools version; `dirs` are the entries of `build-tools` in the
/// SDK (name, is a folder), when it can be listed.
pub fn find_build_tools_version(sdk_path: &str, dirs: &Option<Vec<(String, bool)>>) -> (r: String)
    ensures
        build_tools_choice(
            sdk_path@,
            match dirs {
                Some(d) => Some(entry_views(d@)),
                None => None,
            },
            r@,
        ),
{
    if sdk_path.is_empty() {
        return owned("34.0.0");
    }
    match dirs {
        None => owned("34.0.0"),
        Some(d) => match greatest_match(&filter_names(d, "34.", None)) {
            Some(v) => v,
            None => match greatest_match(d) {
                Some(v) => v,
                None => owned("34.0.0"),
            },
        },
    }
}

/// The folder that receives packages by default: `~/Downloads` when it is
/// a folder, else the home folder.
pub fn default_output_dir(home: &str, downloads_is_dir: bool) -> (r: String)
    ensures
        r@ == if downloads_is_dir {
            home@ + "/Downloads"@
        } else {
            home@
        },
{
    if downloads_is_dir {
        cat(home, "/Downloads")
    } else {
        owned(home)
    }
}

/// The downloads folder in the home folder.
pub fn downloads_dir(home: &str) -> (r: String)
    ensures
        r@ == home@ + "/Downloads"@,
{
    cat(home, "/Downloads")
}

/// Where the Ren'Py SDK is looked for when no `renpy-*` folder is found.
pub open spec fn renpy_places(home: Seq<char>) -> Seq<Seq<char>> {
    seq![home + "/.local/share/renpy"@, "/opt/renpy"@]
}

/// Where the Ren'Py SDK is looked for when no `renpy-*` folder is found.
pub fn renpy_places_for(home: &str) -> (r: Vec<String>)
    ensures
        string_views(r@) == renpy_places(home@),
{
    let r = vec![cat(home, "/.local/share/renpy"), owned("/opt/renpy")];
    assert(string_views(r@) =~= renpy_places(home@));
    r
}

/// What was seen of the Ren'Py SDKs.
pub struct RenpyProbe {
    /// The entries of the home folder: (name, path, is a folder holding
    /// `renpy.sh`), when it can be listed.
    pub home_entries: Option<Vec<(String, String, bool)>>,
    /// Whether `renpy.sh` exists in each of `renpy_places`.
    pub places_have_script: Vec<bool>,
    /// The folder of the `renpy` on `PATH`.
    pub on_path_dir: Option<String>,
}

/// The SDK folders among the entries of the home folder, as (path,
/// qualifies).
pub open spec fn sdk_entries(entries: Seq<(String, String, bool)>) -> Seq<(Seq<char>, bool)> {
    Seq::new(
        entries.len(),
        |i: int| (entries[i].1@, entries[i].2 && starts_with(entries[i].0@, "renpy-"@)),
    )
}

/// The `renpy-*` SDK folders of the home folder.
pub open spec fn renpy_home_sdks(probe: RenpyProbe) -> Seq<Seq<char>> {
    match probe.home_entries {
        Some(e) => matching_names(sdk_entries(e@)),
        None => seq![],
    }
}

/// The Ren'Py SDK that `find_renpy_sdk` gives for what was seen: the
/// newest path (in version order) among the `renpy-*` folders of the home folder that hold
/// `renpy.sh`; else the first usual place that holds it; else the folder of
/// `renpy` on `PATH`; else nothing.
pub open spec fn renpy_found(home: Seq<char>, probe: RenpyProbe, r: Seq<char>) -> bool {
    if renpy_home_sdks(probe).len() > 0 {
        is_greatest(r, renpy_home_sdks(probe))
    } else {
        r == match first_present(renpy_places(home), probe.places_have_script@) {
            Some(p) => p,
            None => match probe.on_path_dir {
                Some(d) => d@,
                None => Seq::<char>::empty(),
            },
        }
    }
}

/// The Ren'Py SDK.
pub fn find_renpy_sdk(home: &str, probe: &RenpyProbe) -> (r: String)
    ensures
        renpy_found(home@, *probe, r@),
{
    match &probe.home_entries {
        Some(e) => {
            let prefix = chars_of("renpy-");
            let mut marked: Vec<(String, bool)> = Vec::new();
            let mut i: usize = 0;
            while i < e.len()
                invariant
                    i <= e.len(),
                    prefix@ == "renpy-"@,
                    entry_views(marked@) == sdk_entries(e@).take(i as int),
                decreases e.len() - i,
            {
                let n = chars_of(e[i].0.as_str());
                let ok = e[i].2 && crate::text::starts_with_chars(&n, &prefix);
                let path = e[i].1.clone();
                let ghost before = entry_views(marked@);
                marked.push((path, ok));
                proof {
                    let se = sdk_entries(e@);
                    assert(n@ == e@[i as int].0@);
                    assert(se[i as int] == (e@[i as int].1@, ok));
                    assert(entry_views(marked@) =~= before.push((e@[i as int].1@, ok)));
                    assert(se.take(i + 1) =~= se.take(i as int).push(se[i as int]));
                }
                assert(entry_views(marked@) =~= sdk_entries(e@).take(i + 1));
                i += 1;
            }
            assert(sdk_entries(e@).take(i as int) =~= sdk_entries(e@));
            match greatest_match(&marked) {
                Some(p) => return p,
                None => {},
            }
        },
        None => {},
    }
    match pick_first_present(&renpy_places_for(home), &probe.places_have_script) {
        Some(p) => p,
        None => match &probe.on_path_dir {
            Some(d) => d.clone(),
            None => String::new(),
        },
    }
}

// ---------------------------------------------------------------------------
// The settings found
// ---------------------------------------------------------------------------

/// What was seen of this machine.
pub struct MachineProbe {
    /// `HOME`, or `/tmp` when it is not set.
    pub home: String,
    /// `ANDROID_HOME` and `ANDROID_SDK_ROOT`.
    pub android_home: EnvDir,
    pub android_sdk_root: EnvDir,
    /// Whether each of `sdk_candidates` is a folder.
    pub sdk_candidate_dirs: Vec<bool>,
    pub gradle: GradleProbe,
    pub java: JavaHomeProbe,
    /// The `node` on `PATH`.
    pub node_on_path: Option<String>,
    /// Whether each of `cordova_places` is a file, and the `cordova` on
    /// `PATH`.
    pub cordova_are_files: Vec<bool>,
    pub cordova_on_path: Option<String>,
    /// The entries of `build-tools` in the SDK that `find_android_sdk`
    /// gives (name, is a folder), when it can be listed.
    pub build_tools_dirs: Option<Vec<(String, bool)>>,
    /// Whether `~/Downloads` is a folder.
    pub downloads_is_dir: bool,
    pub renpy: RenpyProbe,
}

/// The text of an optional value, empty when there is none.
pub open spec fn text_or_empty(v: Option<String>) -> Seq<char> {
    match v {
        Some(s) => s@,
        None => Seq::<char>::empty(),
    }
}

/// The text of an optional value, empty when there is none.
fn string_or_empty(v: &Option<String>) -> (r: String)
    ensures
        r@ == text_or_empty(*v),
{
    match v {
        Some(s) => s.clone(),
        None => String::new(),
    }
}

/// The settings that `autodetect` gives for what was seen: each path as
/// its finder chooses it.
pub open spec fn detected(probe: MachineProbe, s: AppSettings) -> bool {
    &&& s.android_sdk_path@ == android_sdk_choice(
        env_dir_view(probe.android_home),
        env_dir_view(probe.android_sdk_root),
        probe.home@,
        probe.sdk_candidate_dirs@,
    )
    &&& gradle_found(probe.home@, probe.gradle, s.gradle_home@)
    &&& java_found(probe.java, s.java_home@)
    &&& s.node_path@ == text_or_empty(probe.node_on_path)
    &&& s.cordova_path@ == match first_present(cordova_places(probe.home@), probe.cordova_are_files@) {
        Some(p) => p,
        None => text_or_empty(probe.cordova_on_path),
    }
    &&& build_tools_choice(
        s.android_sdk_path@,
        match probe.build_tools_dirs {
            Some(d) => Some(entry_views(d@)),
            None => None,
        },
        s.build_tools_version@,
    )
    &&& s.output_dir@ == (if probe.downloads_is_dir {
        probe.home@ + "/Downloads"@
    } else {
        probe.home@
    })
    &&& renpy_found(probe.home@, probe.renpy, s.renpy_sdk_path@)
}

/// Detect as many settings as possible from what was seen.  Returns a
/// partial `AppSettings`: the paths that were found; the keystore stays
/// unset and the key alias keeps its default.
pub fn autodetect(probe: &MachineProbe) -> (s: AppSettings)
    ensures
        detected(*probe, s),
        s.keystore_path@ == Seq::<char>::empty(),
        s.keystore_alias@ == default_key_alias(),
{
    let home = probe.home.as_str();
    let mut s = default_settings();
    s.android_sdk_path = find_android_sdk(&probe.android_home, &probe.android_sdk_root, home, &probe.sdk_candidate_dirs);
    s.gradle_home = find_gradle_home(home, &probe.gradle);
    s.java_home = find_java_home(&probe.java);
    s.node_path = string_or_empty(&probe.node_on_path);
    s.cordova_path = find_cordova(home, &probe.cordova_are_files, &probe.cordova_on_path);
    s.build_tools_version = find_build_tools_version(s.android_sdk_path.as_str(), &probe.build_tools_dirs);
    s.output_dir = default_output_dir(home, probe.downloads_is_dir);
    s.renpy_sdk_path = find_renpy_sdk(home, &probe.renpy);
    s
}

// ---------------------------------------------------------------------------
// What was found was seen
// ---------------------------------------------------------------------------

/// `x` is a candidate that was seen present.
pub open spec fn present_in(x: Seq<char>, cands: Seq<Seq<char>>, flags: Seq<bool>) -> bool {
    exists|i: int| 0 <= i < cands.len() && i < flags.len() && cands[i] == x && #[trigger] flags[i]
}

/// `x` is a listed entry whose flag was seen set.
pub open spec fn flagged_entry(x: Seq<char>, entries: Seq<(Seq<char>, bool)>) -> bool {
    exists|j: int| 0 <= j < entries.len() && (#[trigger] entries[j]).0 == x && entries[j].1
}

/// The value of a variable that names a folder.
pub open spec fn from_env(x: Seq<char>, e: EnvDir) -> bool {
    env_dir_view(e) == Some(x)
}

/// The SDK is empty, a variable that names a folder, or a usual place that
/// is a folder.
pub open spec fn sdk_seen(probe: MachineProbe, x: Seq<char>) -> bool {
    ||| x.len() == 0
    ||| from_env(x, probe.android_home)
    ||| from_env(x, probe.android_sdk_root)
    ||| present_in(x, sdk_candidates(probe.home@), probe.sdk_candidate_dirs@)
}

/// A `gradle-*` folder of `~/gradle`, joined to that folder.
pub open spec fn gradle_install_seen(probe: MachineProbe, x: Seq<char>) -> bool {
    match probe.gradle.installs {
        Some(e) => exists|j: int|
            0 <= j < e@.len() && (#[trigger] entry_views(e@)[j]).1 && starts_with(entry_views(e@)[j].0, "gradle-"@)
                && x == join_path(join_path(probe.home@, "gradle"@), entry_views(e@)[j].0),
        None => false,
    }
}

/// A Gradle home inside the wrapper cache that is a folder.
pub open spec fn gradle_dist_seen(probe: MachineProbe, x: Seq<char>) -> bool {
    match probe.gradle.dist_homes {
        Some(h) => flagged_entry(x, entry_views(h@)),
        None => false,
    }
}

/// The Gradle home is empty, `GRADLE_HOME` naming a folder, a `gradle-*`
/// folder of `~/gradle`, or a Gradle home of the wrapper cache that is a
/// folder.
pub open spec fn gradle_seen(probe: MachineProbe, x: Seq<char>) -> bool {
    ||| x.len() == 0
    ||| from_env(x, probe.gradle.env)
    ||| gradle_install_seen(probe, x)
    ||| gradle_dist_seen(probe, x)
}

/// The Java home is empty, `JAVA_HOME` naming a folder, the home of the
/// `java` on `PATH`, or a JDK of `/usr/lib/jvm` that has `bin/javac`.
pub open spec fn java_seen(probe: MachineProbe, x: Seq<char>) -> bool {
    ||| x.len() == 0
    ||| from_env(x, probe.java.env)
    ||| text_or_empty(probe.java.from_path) == x
    ||| probe.java.jvm_dir && flagged_entry(x, entry_views(probe.java.jdks@))
}

/// A `renpy-*` folder of the home folder that holds `renpy.sh`.
pub open spec fn renpy_home_seen(probe: MachineProbe, x: Seq<char>) -> bool {
    match probe.renpy.home_entries {
        Some(e) => exists|j: int|
            0 <= j < e@.len() && (#[trigger] e@[j]).2 && starts_with(e@[j].0@, "renpy-"@) && e@[j].1@ == x,
        None => false,
    }
}

/// The Ren'Py SDK is empty, a `renpy-*` folder of the home folder that
/// holds `renpy.sh`, a usual place that holds it, or the folder of `renpy`
/// on `PATH`.
pub open spec fn renpy_seen(probe: MachineProbe, x: Seq<char>) -> bool {
    ||| x.len() == 0
    ||| renpy_home_seen(probe, x)
    ||| present_in(x, renpy_places(probe.home@), probe.renpy.places_have_script@)
    ||| text_or_empty(probe.renpy.on_path_dir) == x
}

proof fn lemma_first_present_seen(c: Seq<Seq<char>>, p: Seq<bool>)
    ensures
        first_present(c, p) matches Some(x) ==> present_in(x, c, p),
    decreases c.len(),
{
    if c.len() > 0 && !(p.len() > 0 && p[0]) {
        let p1 = if p.len() > 0 { p.skip(1) } else { p };
        lemma_first_present_seen(c.skip(1), p1);
        if let Some(x) = first_present(c.skip(1), p1) {
            let i = choose|i: int| 0 <= i < c.skip(1).len() && i < p1.len() && c.skip(1)[i] == x && #[trigger] p1[i];
            assert(p.len() > 0);
            assert(c[i + 1] == x && p[i + 1]);
        }
    } else if c.len() > 0 {
        assert(p[0]);
    }
}

proof fn lemma_matching_seen(es: Seq<(Seq<char>, bool)>, x: Seq<char>)
    requires
        matching_names(es).contains(x),
    ensures
        flagged_entry(x, es),
    decreases es.len(),
{
    let rest = matching_names(es.drop_last());
    if es.last().1 && x == es.last().0 {
        assert(es[es.len() - 1] == es.last());
    } else {
        if es.last().1 {
            let k = choose|k: int| 0 <= k < matching_names(es).len() && matching_names(es)[k] == x;
            assert(matching_names(es) == rest.push(es.last().0));
            assert(k < rest.len());
            assert(rest[k] == x);
        }
        lemma_matching_seen(es.drop_last(), x);
        let j = choose|j: int| 0 <= j < es.drop_last().len() && (#[trigger] es.drop_last()[j]).0 == x && es.drop_last()[j].1;
        assert(es[j] == es.drop_last()[j]);
    }
}

/// Every path that auto-detection gives is empty or was seen: a variable
/// that names a folder, a listed folder or file that was seen to qualify,
/// or a program found on `PATH` (only what was found is set).
pub proof fn lemma_detected_paths_seen(probe: MachineProbe, s: AppSettings)
    requires
        detected(probe, s),
    ensures
        sdk_seen(probe, s.android_sdk_path@),
        gradle_seen(probe, s.gradle_home@),
        java_seen(probe, s.java_home@),
        s.node_path@.len() == 0 || text_or_empty(probe.node_on_path) == s.node_path@,
        s.cordova_path@.len() == 0 || present_in(s.cordova_path@, cordova_places(probe.home@), probe.cordova_are_files@)
            || text_or_empty(probe.cordova_on_path) == s.cordova_path@,
        renpy_seen(probe, s.renpy_sdk_path@),
{
    lemma_first_present_seen(sdk_candidates(probe.home@), probe.sdk_candidate_dirs@);
    lemma_first_present_seen(cordova_places(probe.home@), probe.cordova_are_files@);
    lemma_first_present_seen(renpy_places(probe.home@), probe.renpy.places_have_script@);
    let g = s.gradle_home@;
    if env_dir_view(probe.gradle.env) is None && g.len() > 0 {
        if gradle_installs(probe.gradle).len() > 0 {
            let e = probe.gradle.installs->0;
            let v = choose|v: Seq<char>|
                is_greatest(v, gradle_installs(probe.gradle)) && g == join_path(join_path(probe.home@, "gradle"@), v);
            let ev = entry_views(e@);
            let nf = name_filter(ev, "gradle-"@, None);
            lemma_matching_seen(nf, v);
            let j = choose|j: int| 0 <= j < nf.len() && (#[trigger] nf[j]).0 == v && nf[j].1;
            assert(ev[j].1 && starts_with(ev[j].0, "gradle-"@) && ev[j].0 == v);
            assert(gradle_install_seen(probe, g));
        } else if probe.gradle.dist_homes is Some {
            let h = probe.gradle.dist_homes->0;
            let hv = entry_views(h@);
            let c = Seq::new(hv.len(), |i: int| hv[i].0);
            let f = Seq::new(hv.len(), |i: int| hv[i].1);
            lemma_first_present_seen(c, f);
            if first_present(c, f) is Some {
                let i = choose|i: int| 0 <= i < c.len() && i < f.len() && c[i] == g && #[trigger] f[i];
                assert(hv[i].0 == g && hv[i].1);
                assert(flagged_entry(g, hv));
            }
        }
    }
    let jv = entry_views(probe.java.jdks@);
    if env_dir_view(probe.java.env) is None && probe.java.from_path is None && probe.java.jvm_dir && exists|i: int|
        is_preferred_jdk(jv, i) {
        let i = choose|i: int| is_preferred_jdk(jv, i) && s.java_home@ == jv[i].0;
        assert(flagged_entry(s.java_home@, jv)) by {
            assert(jv[i].0 == s.java_home@ && jv[i].1);
        }
    }
    let r = s.renpy_sdk_path@;
    if renpy_home_sdks(probe.renpy).len() > 0 {
        let e = probe.renpy.home_entries->0;
        let se = sdk_entries(e@);
        lemma_matching_seen(se, r);
        let j = choose|j: int| 0 <= j < se.len() && (#[trigger] se[j]).0 == r && se[j].1;
        assert(e@[j].2 && starts_with(e@[j].0@, "renpy-"@) && e@[j].1@ == r);
        assert(renpy_home_seen(probe, r));
    }
}

} // verus!
