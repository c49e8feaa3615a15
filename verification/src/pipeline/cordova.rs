//! The decisions of the Cordova build: which Java and which `cordova` to
//! run, the environment of the build tools, and the patches to `config.xml`
//! and `gradle.properties`.
use vstd::prelude::*;
use crate::paths::{join_path, join_str, owned, parent_of, path_parent};
use crate::pipeline::env::{env_get, env_lookup, env_put, env_set, env_view, EnvSeq};
use crate::settings::AppSettings;
use crate::text::{
    chars_of, contains_seq, contains_str, find_first, join, push_all, push_str,
    replace_all, replace_all_chars, replace_first, replace_first_chars, string_of, string_views,
    sub_chars,
};

verus! {

// ---------------------------------------------------------------------------
// Choosing among candidates
// ---------------------------------------------------------------------------

/// The first candidate that is present (`present[i]` for candidate `i`; a
/// missing entry counts as absent).
pub open spec fn first_present(cands: Seq<Seq<char>>, present: Seq<bool>) -> Option<Seq<char>>
    decreases cands.len(),
{
    if cands.len() == 0 {
        None
    } else if present.len() > 0 && present[0] {
        Some(cands[0])
    } else {
        first_present(cands.skip(1), if present.len() > 0 { present.skip(1) } else { present })
    }
}

/// The first candidate that is present.
pub fn pick_first_present(cands: &Vec<String>, present: &Vec<bool>) -> (r: Option<String>)
    ensures
        match r {
            Some(c) => first_present(string_views(cands@), present@) == Some(c@),
            None => first_present(string_views(cands@), present@) is None,
        },
{
    let ghost cv = string_views(cands@);
    let mut i: usize = 0;
    assert(cv.skip(0) =~= cv);
    assert(present@.skip(0) =~= present@);
    while i < cands.len()
        invariant
            i <= cands.len(),
            cv == string_views(cands@),
            first_present(cv, present@) == first_present(
                cv.skip(i as int),
                if i <= present.len() { present@.skip(i as int) } else { Seq::<bool>::empty() },
            ),
        decreases cands.len() - i,
    {
        let ghost rest = if i <= present.len() { present@.skip(i as int) } else { Seq::<bool>::empty() };
        assert(cv.skip(i as int)[0] == cands@[i as int]@);
        assert(cv.skip(i as int).skip(1) =~= cv.skip(i + 1));
        if i < present.len() && present[i] {
            assert(rest[0] == present@[i as int]);
            return Some(cands[i].clone());
        }
        proof {
            if i < present.len() {
                assert(rest.skip(1) =~= present@.skip(i + 1));
            } else if i == present.len() {
                assert(rest =~= Seq::<bool>::empty());
            }
        }
        i += 1;
    }
    assert(cv.skip(i as int) =~= Seq::<Seq<char>>::empty());
    None
}

// ---------------------------------------------------------------------------
// Java
// ---------------------------------------------------------------------------

/// The JDKs tried in turn when no usable one is configured: Java 21, then
/// Java 17.
pub open spec fn preferred_jdks() -> Seq<Seq<char>> {
    seq![
        "/usr/lib/jvm/java-21-openjdk"@,
        "/usr/lib/jvm/java-17-openjdk"@,
        "/usr/lib/jvm/java-21"@,
        "/usr/lib/jvm/java-17"@,
    ]
}

/// The JDKs tried in turn when no usable one is configured.
pub fn preferred_jdk_paths() -> (r: Vec<String>)
    ensures
        string_views(r@) == preferred_jdks(),
{
    let r = vec![
        owned("/usr/lib/jvm/java-21-openjdk"),
        owned("/usr/lib/jvm/java-17-openjdk"),
        owned("/usr/lib/jvm/java-21"),
        owned("/usr/lib/jvm/java-17"),
    ];
    assert(string_views(r@) =~= preferred_jdks());
    r
}

/// What is known of the JDKs on this machine.
pub struct JavaProbe {
    /// `bin/java` exists in the configured Java home.
    pub configured_has_java: bool,
    /// `bin/java` exists in each of the preferred JDKs, in order.
    pub preferred_have_java: Vec<bool>,
}

/// The Java home for the build: the configured one when it has `bin/java`,
/// except that Java 25 gives way to an installed Java 21 (Gradle 8.7 cannot
/// read Java 25 class files); otherwise the first preferred JDK that has
/// `bin/java`; otherwise the configured one.
pub open spec fn best_java(java_home: Seq<char>, configured_has_java: bool, have: Seq<bool>) -> Seq<
    char,
> {
    if java_home.len() > 0 && configured_has_java {
        if contains_seq(java_home, "java-25"@) && have.len() > 0 && have[0] {
            preferred_jdks()[0]
        } else {
            java_home
        }
    } else {
        match first_present(preferred_jdks(), have) {
            Some(p) => p,
            None => java_home,
        }
    }
}

/// Prefer Java 21 over Java 25 — Gradle 8.7 (bundled in cordova-android
/// 13) doesn't support Java 25 class files.  Java 21 is LTS and works.
pub fn best_java_home(settings: &AppSettings, probe: &JavaProbe) -> (r: String)
    ensures
        r@ == best_java(settings.java_home@, probe.configured_has_java, probe.preferred_have_java@),
{
    let jh = chars_of(settings.java_home.as_str());
    if jh.len() > 0 && probe.configured_has_java {
        if contains_str(&jh, "java-25") && probe.preferred_have_java.len() > 0
            && probe.preferred_have_java[0] {
            return owned("/usr/lib/jvm/java-21-openjdk");
        }
        return settings.java_home.clone();
    }
    let prefs = preferred_jdk_paths();
    match pick_first_present(&prefs, &probe.preferred_have_java) {
        Some(p) => p,
        None => settings.java_home.clone(),
    }
}

// ---------------------------------------------------------------------------
// Environment of the build tools
// ---------------------------------------------------------------------------

/// The directories put in front of `PATH`, in order.
pub open spec fn path_extras(settings: AppSettings, java_home: Seq<char>, home: Seq<char>) -> Seq<Seq<char>> {
    let sdk = settings.android_sdk_path@;
    let a = if java_home.len() > 0 {
        seq![java_home + "/bin"@]
    } else {
        seq![]
    };
    let b = if settings.gradle_home@.len() > 0 {
        seq![settings.gradle_home@ + "/bin"@]
    } else {
        seq![]
    };
    let c = if sdk.len() > 0 {
        seq![
            sdk + "/platform-tools"@,
            sdk + "/cmdline-tools/latest/bin"@,
            sdk + "/build-tools/"@ + settings.build_tools_version@,
        ]
    } else {
        seq![]
    };
    let d = if settings.node_path@.len() > 0 {
        match path_parent(settings.node_path@) {
            Some(p) => seq![p],
            None => seq![],
        }
    } else {
        seq![]
    };
    a + b + c + d + seq![home + "/.npm-global/bin"@, home + "/.local/bin"@]
}

/// The environment of the build tools: the process environment with the
/// Android SDK, the Java home, UTF-8 encodings and the tool directories in
/// front of `PATH`.
pub open spec fn build_env_spec(base: EnvSeq, settings: AppSettings, java_home: Seq<char>, home: Seq<char>) -> EnvSeq {
    let sdk = settings.android_sdk_path@;
    let e1 = if sdk.len() > 0 {
        env_put(env_put(base, "ANDROID_HOME"@, sdk), "ANDROID_SDK_ROOT"@, sdk)
    } else {
        base
    };
    let e2 = if java_home.len() > 0 {
        env_put(e1, "JAVA_HOME"@, java_home)
    } else {
        e1
    };
    let e3 = env_put(
        env_put(
            env_put(
                env_put(
                    e2,
                    "JAVA_TOOL_OPTIONS"@,
                    "-Dfile.encoding=UTF-8 --enable-native-access=ALL-UNNAMED"@,
                ),
                "GRADLE_OPTS"@,
                "-Dfile.encoding=UTF-8"@,
            ),
            "LANG"@,
            "en_US.UTF-8"@,
        ),
        "LC_ALL"@,
        "en_US.UTF-8"@,
    );
    let existing = match env_get(e3, "PATH"@) {
        Some(p) => p,
        None => Seq::<char>::empty(),
    };
    env_put(e3, "PATH"@, join(path_extras(settings, java_home, home).push(existing), ":"@))
}

/// `dir` followed by `suffix`.
fn with_suffix(dir: &str, suffix: &str) -> (r: Vec<char>)
    ensures
        r@ == dir@ + suffix@,
{
    let mut r = chars_of(dir);
    push_str(&mut r, suffix);
    r
}

/// The environment of the build tools.  `base` is the environment of this
/// process, `probe` what is known of the installed JDKs, and `home` the home
/// folder (empty when `HOME` is unset).
pub fn build_env(settings: &AppSettings, base: Vec<(String, String)>, probe: &JavaProbe, home: &str) -> (r: Vec<(String, String)>)
    ensures
        env_view(r@) == build_env_spec(
            env_view(base@),
            *settings,
            best_java(settings.java_home@, probe.configured_has_java, probe.preferred_have_java@),
            home@,
        ),
{
    let mut env = base;
    let sdk = settings.android_sdk_path.as_str();
    if !sdk.is_empty() {
        env_set(&mut env, "ANDROID_HOME", sdk);
        env_set(&mut env, "ANDROID_SDK_ROOT", sdk);
    }
    let java_home = best_java_home(settings, probe);
    if !java_home.as_str().is_empty() {
        env_set(&mut env, "JAVA_HOME", java_home.as_str());
    }
    env_set(&mut env, "JAVA_TOOL_OPTIONS", "-Dfile.encoding=UTF-8 --enable-native-access=ALL-UNNAMED");
    env_set(&mut env, "GRADLE_OPTS", "-Dfile.encoding=UTF-8");
    env_set(&mut env, "LANG", "en_US.UTF-8");
    env_set(&mut env, "LC_ALL", "en_US.UTF-8");
    let ghost e3 = env_view(env@);
    let mut extras: Vec<Vec<char>> = Vec::new();
    if !java_home.as_str().is_empty() {
        extras.push(with_suffix(java_home.as_str(), "/bin"));
    }
    if !settings.gradle_home.as_str().is_empty() {
        extras.push(with_suffix(settings.gradle_home.as_str(), "/bin"));
    }
    if !sdk.is_empty() {
        extras.push(with_suffix(sdk, "/platform-tools"));
        extras.push(with_suffix(sdk, "/cmdline-tools/latest/bin"));
        let mut bt = with_suffix(sdk, "/build-tools/");
        push_str(&mut bt, settings.build_tools_version.as_str());
        extras.push(bt);
    }
    if !settings.node_path.as_str().is_empty() {
        match parent_of(settings.node_path.as_str()) {
            Some(p) => extras.push(chars_of(p.as_str())),
            None => {},
        }
    }
    extras.push(with_suffix(home, "/.npm-global/bin"));
    extras.push(with_suffix(home, "/.local/bin"));
    let existing = match env_lookup(&env, "PATH") {
        Some(p) => chars_of(p.as_str()),
        None => Vec::new(),
    };
    extras.push(existing);
    let sep = chars_of(":");
    let path = crate::text::join_chars(&extras, &sep);
    proof {
        let want = path_extras(*settings, java_home@, home@).push(
            match env_get(e3, "PATH"@) {
                Some(p) => p,
                None => Seq::<char>::empty(),
            },
        );
        assert(extras@.map_values(|p: Vec<char>| p@) =~= want);
    }
    env_set(&mut env, "PATH", string_of(&path).as_str());
    env
}

// ---------------------------------------------------------------------------
// The cordova command
// ---------------------------------------------------------------------------

/// Where `cordova` is looked for when no usable path is configured.
pub open spec fn cordova_candidates(home: Seq<char>) -> Seq<Seq<char>> {
    seq![home + "/.npm-global/bin/cordova"@, "/usr/local/bin/cordova"@, "/usr/bin/cordova"@]
}

/// Where `cordova` is looked for when no usable path is configured.
pub fn cordova_search_paths(home: &str) -> (r: Vec<String>)
    ensures
        string_views(r@) == cordova_candidates(home@),
{
    let r = vec![
        string_of(&with_suffix(home, "/.npm-global/bin/cordova")),
        owned("/usr/local/bin/cordova"),
        owned("/usr/bin/cordova"),
    ];
    assert(string_views(r@) =~= cordova_candidates(home@));
    r
}

/// What is known of the `cordova` commands on this machine.
pub struct CordovaProbe {
    /// The configured path exists.
    pub configured_exists: bool,
    /// Each search path exists, in order.
    pub candidates_exist: Vec<bool>,
    /// Where `which cordova` found it.
    pub on_path: Option<String>,
}

/// The `cordova` to run: the configured one when it exists, else the first
/// search path that exists, else the one on `PATH`, else an error.
pub open spec fn cordova_choice(configured: Seq<char>, home: Seq<char>, configured_exists: bool, exist: Seq<bool>, on_path: Option<Seq<char>>) -> Result<Seq<char>, Seq<char>> {
    if configured.len() > 0 && configured_exists {
        Ok(configured)
    } else {
        match first_present(cordova_candidates(home), exist) {
            Some(p) => Ok(p),
            None => match on_path {
                Some(p) => Ok(p),
                None => Err(
                    "cordova not found. Set Cordova Path in Settings or run: npm install -g cordova"@,
                ),
            },
        }
    }
}

/// The `cordova` to run.  `home` is the home folder (empty when `HOME` is
/// unset).
pub fn find_cordova(settings: &AppSettings, home: &str, probe: &CordovaProbe) -> (r: Result<String, String>)
    ensures
        match r {
            Ok(p) => cordova_choice(
                settings.cordova_path@,
                home@,
                probe.configured_exists,
                probe.candidates_exist@,
                match probe.on_path {
                    Some(p) => Some(p@),
                    None => None,
                },
            ) == Ok::<Seq<char>, Seq<char>>(p@),
            Err(e) => cordova_choice(
                settings.cordova_path@,
                home@,
                probe.configured_exists,
                probe.candidates_exist@,
                match probe.on_path {
                    Some(p) => Some(p@),
                    None => None,
                },
            ) == Err::<Seq<char>, Seq<char>>(e@),
        },
{
    if !settings.cordova_path.as_str().is_empty() && probe.configured_exists {
        return Ok(settings.cordova_path.clone());
    }
    let cands = cordova_search_paths(home);
    match pick_first_present(&cands, &probe.candidates_exist) {
        Some(p) => Ok(p),
        None => match &probe.on_path {
            Some(p) => Ok(p.clone()),
            None => Err(
                owned("cordova not found. Set Cordova Path in Settings or run: npm install -g cordova"),
            ),
        },
    }
}

/// The Cordova project inside the working directory.
pub fn cordova_project_dir(work_dir: &str) -> (r: String)
    ensures
        r@ == join_path(work_dir@, "cordova"@),
{
    join_str(work_dir, "cordova")
}

/// The arguments of `cordova create`.
pub fn create_args(cordova_dir: &str, app_id: &str, app_name: &str) -> (r: Vec<String>)
    ensures
        string_views(r@) == seq!["create"@, cordova_dir@, app_id@, app_name@],
{
    let r = vec![owned("create"), owned(cordova_dir), owned(app_id), owned(app_name)];
    assert(string_views(r@) =~= seq!["create"@, cordova_dir@, app_id@, app_name@]);
    r
}

/// The arguments of `cordova platform add`.
pub fn platform_add_args() -> (r: Vec<String>)
    ensures
        string_views(r@) == seq!["platform"@, "add"@, "android@13"@],
{
    let r = vec![owned("platform"), owned("add"), owned("android@13")];
    assert(string_views(r@) =~= seq!["platform"@, "add"@, "android@13"@]);
    r
}

/// The arguments of the release build: an APK, without the lint tasks, and
/// all Gradle arguments in one `--gradleArg` (cordova-android 13 reads only
/// the first).
pub fn release_build_args() -> (r: Vec<String>)
    ensures
        string_views(r@) == seq![
            "build"@,
            "android"@,
            "--release"@,
            "--"@,
            "--packageType=apk"@,
            "--gradleArg=-x lintVitalRelease -x lintVitalAnalyzeRelease"@,
        ],
{
    let r = vec![
        owned("build"),
        owned("android"),
        owned("--release"),
        owned("--"),
        owned("--packageType=apk"),
        owned("--gradleArg=-x lintVitalRelease -x lintVitalAnalyzeRelease"),
    ];
    assert(string_views(r@) =~= seq![
        "build"@,
        "android"@,
        "--release"@,
        "--"@,
        "--packageType=apk"@,
        "--gradleArg=-x lintVitalRelease -x lintVitalAnalyzeRelease"@,
    ]);
    r
}

/// Where the release build puts the package, in the order they are looked
/// at.
pub fn release_apk_candidates(cordova_dir: &str) -> (r: Vec<String>)
    ensures
        string_views(r@) == seq![
            join_path(cordova_dir@, "platforms/android/app/build/outputs/apk/release/app-release-unsigned.apk"@),
            join_path(cordova_dir@, "platforms/android/app/build/outputs/apk/release/app-release.apk"@),
        ],
{
    let r = vec![
        join_str(cordova_dir, "platforms/android/app/build/outputs/apk/release/app-release-unsigned.apk"),
        join_str(cordova_dir, "platforms/android/app/build/outputs/apk/release/app-release.apk"),
    ];
    assert(string_views(r@) =~= seq![
        join_path(cordova_dir@, "platforms/android/app/build/outputs/apk/release/app-release-unsigned.apk"@),
        join_path(cordova_dir@, "platforms/android/app/build/outputs/apk/release/app-release.apk"@),
    ]);
    r
}

// ---------------------------------------------------------------------------
// config.xml
// ---------------------------------------------------------------------------

/// `attr=<delim>value<delim>` in `tag` rewritten as `attr="value"`, when the
/// first `attr=<delim>` has a closing delimiter.
pub open spec fn set_attr_delim(tag: Seq<char>, attr: Seq<char>, value: Seq<char>, delim: char) -> Option<Seq<char>> {
    let pat = attr + seq!['=', delim];
    match find_first(tag, pat) {
        None => None,
        Some(start) => {
            let vs = start + pat.len();
            match find_first(tag.skip(vs), seq![delim]) {
                None => None,
                Some(end) => Some(
                    tag.take(start) + attr + "=\""@ + value + "\""@ + tag.skip(vs + end + 1),
                ),
            }
        },
    }
}

/// The tag with attribute `attr` set to `value`: a double-quoted value is
/// replaced, else a single-quoted one, else the attribute is added after
/// `<widget`.
pub open spec fn set_attr_spec(tag: Seq<char>, attr: Seq<char>, value: Seq<char>) -> Seq<char> {
    match set_attr_delim(tag, attr, value, '"') {
        Some(r) => r,
        None => match set_attr_delim(tag, attr, value, '\'') {
            Some(r) => r,
            None => replace_first(tag, "<widget"@, "<widget "@ + attr + "=\""@ + value + "\""@),
        },
    }
}

/// One attempt of `set_attr` with one delimiter.
fn set_attr_delim_chars(tag: &Vec<char>, attr: &str, value: &str, delim: char) -> (r: Option<Vec<char>>)
    ensures
        match r {
            Some(t) => set_attr_delim(tag@, attr@, value@, delim) == Some(t@),
            None => set_attr_delim(tag@, attr@, value@, delim) is None,
        },
{
    let mut pat = chars_of(attr);
    pat.push('=');
    pat.push(delim);
    assert(pat@ =~= attr@ + seq!['=', delim]);
    match crate::text::find_chars(tag, &pat) {
        None => None,
        Some(start) => {
            proof {
                crate::text::lemma_find_first(tag@, pat@);
            }
            let n = tag.len();
            assert(start + pat@.len() <= n);
            let vs = start + pat.len();
            let rest = sub_chars(tag, vs, tag.len());
            assert(rest@ =~= tag@.skip(vs as int));
            let d: Vec<char> = vec![delim];
            assert(d@ =~= seq![delim]);
            match crate::text::find_chars(&rest, &d) {
                None => None,
                Some(end) => {
                    proof {
                        crate::text::lemma_find_first(rest@, d@);
                    }
                    let mut out = sub_chars(tag, 0, start);
                    push_str(&mut out, attr);
                    push_str(&mut out, "=\"");
                    push_str(&mut out, value);
                    push_str(&mut out, "\"");
                    let tail = sub_chars(tag, vs + end + 1, tag.len());
                    push_all(&mut out, &tail);
                    assert(out@ =~= tag@.take(start as int) + attr@ + "=\""@ + value@ + "\""@
                        + tag@.skip(vs + end + 1));
                    Some(out)
                },
            }
        },
    }
}

/// The tag with attribute `attr` set to `value`.
pub fn set_attr(tag: &str, attr: &str, value: &str) -> (r: String)
    ensures
        r@ == set_attr_spec(tag@, attr@, value@),
{
    let t = chars_of(tag);
    match set_attr_delim_chars(&t, attr, value, '"') {
        Some(r) => string_of(&r),
        None => match set_attr_delim_chars(&t, attr, value, '\'') {
            Some(r) => string_of(&r),
            None => {
                let from = chars_of("<widget");
                let mut to = chars_of("<widget ");
                push_str(&mut to, attr);
                push_str(&mut to, "=\"");
                push_str(&mut to, value);
                push_str(&mut to, "\"");
                string_of(&replace_first_chars(&t, &from, &to))
            },
        },
    }
}

/// `content` with the text of the first `<name>…</name>` replaced by `name`
/// (the first `<name>` and the first `</name>` are used as they are found).
pub open spec fn with_app_name(content: Seq<char>, name: Seq<char>) -> Seq<char> {
    match (find_first(content, "<name>"@), find_first(content, "</name>"@)) {
        (Some(s), Some(e)) => content.take(s) + "<name>"@ + name + "</name>"@ + content.skip(e + 7),
        _ => content,
    }
}

/// `config.xml` with the application name, and the `id` and `version` of the
/// `<widget` tag, set.
pub open spec fn widget_patched(content: Seq<char>, id: Seq<char>, name: Seq<char>, version: Seq<char>) -> Seq<char> {
    let out = with_app_name(content, name);
    match find_first(out, "<widget"@) {
        None => out,
        Some(ws) => match find_first(out.skip(ws), ">"@) {
            None => out,
            Some(rel) => {
                let old_tag = out.subrange(ws, ws + rel + 1);
                let new_tag = set_attr_spec(set_attr_spec(old_tag, "id"@, id), "version"@, version);
                replace_first(out, old_tag, new_tag)
            },
        },
    }
}

/// `config.xml` with the application name, id and version set.
pub fn patch_widget_tag(content: &str, id: &str, name: &str, version: &str) -> (r: String)
    ensures
        r@ == widget_patched(content@, id@, name@, version@),
{
    let c = chars_of(content);
    let open = chars_of("<name>");
    let close = chars_of("</name>");
    proof {
        reveal_strlit("</name>");
    }
    let out = match (crate::text::find_chars(&c, &open), crate::text::find_chars(&c, &close)) {
        (Some(s), Some(e)) => {
            proof {
                crate::text::lemma_find_first(c@, open@);
                crate::text::lemma_find_first(c@, close@);
            }
            let mut o = sub_chars(&c, 0, s);
            push_str(&mut o, "<name>");
            push_str(&mut o, name);
            push_str(&mut o, "</name>");
            let tail = sub_chars(&c, e + 7, c.len());
            push_all(&mut o, &tail);
            assert(o@ =~= c@.take(s as int) + "<name>"@ + name@ + "</name>"@ + c@.skip(e + 7));
            o
        },
        _ => c,
    };
    assert(out@ == with_app_name(content@, name@));
    let widget = chars_of("<widget");
    match crate::text::find_chars(&out, &widget) {
        None => string_of(&out),
        Some(ws) => {
            proof {
                crate::text::lemma_find_first(out@, widget@);
            }
            let rest = sub_chars(&out, ws, out.len());
            assert(rest@ =~= out@.skip(ws as int));
            let gt = chars_of(">");
            match crate::text::find_chars(&rest, &gt) {
                None => string_of(&out),
                Some(rel) => {
                    proof {
                        crate::text::lemma_find_first(rest@, gt@);
                        reveal_strlit(">");
                    }
                    let old_tag = sub_chars(&out, ws, ws + rel + 1);
                    let old_s = string_of(&old_tag);
                    let t1 = set_attr(old_s.as_str(), "id", id);
                    let t2 = set_attr(t1.as_str(), "version", version);
                    let new_tag = chars_of(t2.as_str());
                    string_of(&replace_first_chars(&out, &old_tag, &new_tag))
                },
            }
        },
    }
}

/// The settings added before `</widget>`.
pub const CONFIG_PREFERENCES: &'static str = "    <access origin=\"*\" />\n    <allow-navigation href=\"*\" />\n    <allow-intent href=\"http://*/*\" />\n    <allow-intent href=\"https://*/*\" />\n    <preference name=\"Orientation\" value=\"landscape\" />\n    <preference name=\"FullScreen\" value=\"true\" />\n    <preference name=\"AndroidPersistentFileLocation\" value=\"Compatibility\" />\n    <preference name=\"android-targetSdkVersion\" value=\"34\" />\n    <preference name=\"android-minSdkVersion\" value=\"21\" />\n";

/// The text that replaces `</widget>`: the access rules and preferences,
/// the icon when there is one, and the closing tag.
pub open spec fn widget_tail(icon_src: Option<Seq<char>>) -> Seq<char> {
    CONFIG_PREFERENCES@ + match icon_src {
        Some(s) => "    <icon src=\""@ + s + "\" />\n"@,
        None => Seq::<char>::empty(),
    } + "</widget>"@
}

/// The patched `config.xml`.
pub open spec fn config_patched(content: Seq<char>, app_id: Seq<char>, app_name: Seq<char>, version: Seq<char>, icon_src: Option<Seq<char>>) -> Seq<char> {
    replace_all(widget_patched(content, app_id, app_name, version), "</widget>"@, widget_tail(icon_src))
}

/// `config.xml` with the id, name and version set, and the access rules,
/// landscape full-screen preferences, SDK levels and icon added.
pub fn patch_config_xml(content: &str, app_id: &str, app_name: &str, version: &str, icon_src: Option<&str>) -> (r: String)
    ensures
        r@ == config_patched(
            content@,
            app_id@,
            app_name@,
            version@,
            match icon_src {
                Some(s) => Some(s@),
                None => None,
            },
        ),
{
    let patched = patch_widget_tag(content, app_id, app_name, version);
    let mut insert = chars_of(CONFIG_PREFERENCES);
    match icon_src {
        Some(s) => {
            push_str(&mut insert, "    <icon src=\"");
            push_str(&mut insert, s);
            push_str(&mut insert, "\" />\n");
        },
        None => {},
    }
    push_str(&mut insert, "</widget>");
    let ghost ic = match icon_src {
        Some(s) => Some(s@),
        None => None,
    };
    assert(insert@ =~= widget_tail(ic));
    let p = chars_of(patched.as_str());
    let from = chars_of("</widget>");
    string_of(&replace_all_chars(&p, &from, &insert))
}

// ---------------------------------------------------------------------------
// gradle.properties
// ---------------------------------------------------------------------------

/// The line that marks `gradle.properties` as patched.
pub const GRADLE_MARKER: &'static str = "org.gradle.daemon=false";

/// The settings appended to `gradle.properties`: no daemon, no file-system
/// watching, no cache, and UTF-8 file names in the JVM.
pub const GRADLE_PATCH: &'static str = "\n# vn2apk: disable daemon + VFS watching to fix Unicode asset filename hashing\norg.gradle.daemon=false\norg.gradle.vfs.watch=false\norg.gradle.caching=false\norg.gradle.jvmargs=-Xmx2048m -Dfile.encoding=UTF-8\n";

/// The patched `gradle.properties`, or `None` when it is patched already.
pub open spec fn gradle_patched(existing: Seq<char>) -> Option<Seq<char>> {
    if contains_seq(existing, GRADLE_MARKER@) {
        None
    } else {
        Some(existing + GRADLE_PATCH@)
    }
}

/// Patch the platform's `gradle.properties` to fix Unicode file name
/// hashing in AGP 8.x; `None` when it is patched already.
pub fn patch_gradle_properties(existing: &str) -> (r: Option<String>)
    ensures
        match r {
            Some(p) => gradle_patched(existing@) == Some(p@),
            None => gradle_patched(existing@) is None,
        },
{
    let e = chars_of(existing);
    if contains_str(&e, GRADLE_MARKER) {
        return None;
    }
    let mut out = e;
    push_str(&mut out, GRADLE_PATCH);
    Some(string_of(&out))
}

/// Patching `gradle.properties` twice changes nothing the second time.
pub proof fn lemma_gradle_patch_idempotent(existing: Seq<char>)
    ensures
        gradle_patched(existing) matches Some(p) ==> gradle_patched(p) is None,
{
    if let Some(p) = gradle_patched(existing) {
        reveal_strlit("\n# vn2apk: disable daemon + VFS watching to fix Unicode asset filename hashing\norg.gradle.daemon=false\norg.gradle.vfs.watch=false\norg.gradle.caching=false\norg.gradle.jvmargs=-Xmx2048m -Dfile.encoding=UTF-8\n");
        reveal_strlit("org.gradle.daemon=false");
        assert(GRADLE_PATCH@.subrange(79, 102) =~= GRADLE_MARKER@);
        assert(crate::text::occurs_at(GRADLE_PATCH@, GRADLE_MARKER@, 79));
        crate::text::lemma_contains_inner(existing, GRADLE_PATCH@, Seq::<char>::empty(), GRADLE_MARKER@);
        assert(p =~= existing + GRADLE_PATCH@ + Seq::<char>::empty());
    }
}

} // verus!
